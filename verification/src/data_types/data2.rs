//! Two values of one type.
use crate::text::{named_list, names_list};
use std::ops::{Index, IndexMut};
use vstd::prelude::*;

verus! {

#[derive(Debug, Clone, Copy, PartialEq, Eq)]
pub struct Data2<T> {
    pub x: T,
    pub y: T,
}

impl<T> Data2<T> {
    pub fn new(x: T, y: T) -> (r: Self)
        ensures
            r == (Data2 { x, y }),
    {
        Data2 { x, y }
    }
}

impl<T> Data2<T> {
    /// Field `i`, counted from 0 in the order of declaration.
    pub open spec fn at(self, i: int) -> T {
        if i == 0 {
            self.x
        } else {
            self.y
        }
    }

    /// The value with field `i` replaced by `v`.
    pub open spec fn with(self, i: int, v: T) -> Self {
        if i == 0 {
            Data2 { x: v, ..self }
        } else {
            Data2 { y: v, ..self }
        }
    }
}

impl<T> Index<usize> for Data2<T> {
    type Output = T;

    fn index(&self, index: usize) -> (r: &T)
        ensures
            *r == self.at(index as int),
    {
        match index {
            0 => &self.x,
            1 => &self.y,
            _ => unreached(),
        }
    }
}

impl<T> vstd::std_specs::core::IndexSpecImpl<usize> for Data2<T> {
    open spec fn index_req(&self, index: &usize) -> bool {
        *index < 2
    }
}

impl<T> IndexMut<usize> for Data2<T> {
    fn index_mut(&mut self, index: usize) -> (r: &mut T)
        requires
            index < 2,
        ensures
            *r == old(self).at(index as int),
            *final(self) == old(self).with(index as int, *final(r)),
    {
        match index {
            0 => &mut self.x,
            1 => &mut self.y,
            _ => unreached(),
        }
    }
}

impl<T: Copy + std::fmt::Display> Data2<T> {
    /// The text of the value: `name`, which the caller gives for the type
    /// of the fields, then the fields as they display, in round brackets.
    pub fn to_string(&self, name: &str) -> (r: String)
        ensures
            names_list(name@, seq![self.x, self.y], r@),
    {
        let a = [self.x, self.y];
        assert(a@ =~= seq![self.x, self.y]);
        named_list(name, a.as_slice())
    }
}

} // verus!
