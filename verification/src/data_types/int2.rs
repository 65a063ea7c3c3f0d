//! Two 32-bit integers.
use crate::decimal::{decimal, push_decimal};
use std::ops::{Index, IndexMut};
use vstd::prelude::*;
use vstd::string::StringExecFns;

verus! {

#[derive(Debug, Clone, Copy, PartialEq, Eq)]
pub struct Int2 {
    pub x: i32,
    pub y: i32,
}

impl Int2 {
    pub fn new(x: i32, y: i32) -> (r: Self)
        ensures
            r == (Int2 { x, y }),
    {
        Int2 { x, y }
    }

    /// The text of the value: the type's name, then the fields in
    /// decimal, separated by a comma and a space, in round brackets.
    pub open spec fn text(self) -> Seq<char> {
        "Int2("@ + decimal(self.x as int) + ", "@ + decimal(self.y as int) + ")"@
    }

    pub fn to_string(&self) -> (r: String)
        ensures
            r@ == self.text(),
    {
        let mut s = String::from_str("Int2(");
        push_decimal(&mut s, self.x);
        s.append(", ");
        push_decimal(&mut s, self.y);
        s.append(")");
        assert(s@ =~= self.text());
        s
    }
}

impl Int2 {
    /// Field `i`, counted from 0 in the order of declaration.
    pub open spec fn at(self, i: int) -> i32 {
        if i == 0 {
            self.x
        } else {
            self.y
        }
    }

    /// The value with field `i` replaced by `v`.
    pub open spec fn with(self, i: int, v: i32) -> Self {
        if i == 0 {
            Int2 { x: v, ..self }
        } else {
            Int2 { y: v, ..self }
        }
    }
}

impl Index<usize> for Int2 {
    type Output = i32;

    fn index(&self, index: usize) -> (r: &i32)
        ensures
            *r == self.at(index as int),
    {
        match index {
            0 => &self.x,
            1 => &self.y,
            _ => unreached(),
        }
    }
}

impl vstd::std_specs::core::IndexSpecImpl<usize> for Int2 {
    open spec fn index_req(&self, index: &usize) -> bool {
        *index < 2
    }
}

impl IndexMut<usize> for Int2 {
    fn index_mut(&mut self, index: usize) -> (r: &mut i32)
        requires
            index < 2,
        ensures
            *r == old(self).at(index as int),
            *final(self) == old(self).with(index as int, *final(r)),
    {
        match index {
            0 => &mut self.x,
            1 => &mut self.y,
            _ => unreached(),
        }
    }
}
} // verus!
