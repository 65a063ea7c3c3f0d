//! Three values of one type.
use crate::data_types::data2::Data2;
use crate::text::{named_list, names_list};
use std::ops::{Index, IndexMut};
use vstd::prelude::*;

verus! {

#[derive(Debug, Clone, Copy, PartialEq, Eq)]
pub struct Data3<T> {
    pub x: T,
    pub y: T,
    pub z: T,
}

impl<T> Data3<T> {
    pub fn new(x: T, y: T, z: T) -> (r: Self)
        ensures
            r == (Data3 { x, y, z }),
    {
        Data3 { x, y, z }
    }

    /// The value whose fields all hold `value`.
    pub fn from_value(value: T) -> (r: Self) where T: Copy
        ensures
            r == (Data3 { x: value, y: value, z: value }),
    {
        Data3 { x: value, y: value, z: value }
    }

    /// The two values of `data2`, followed by `z`.
    pub fn from_data2(data2: &Data2<T>, z: T) -> (r: Self) where T: Copy
        ensures
            r == (Data3 { x: data2.x, y: data2.y, z }),
    {
        Data3 { x: data2.x, y: data2.y, z }
    }
}

impl<T> Data3<T> {
    /// Field `i`, counted from 0 in the order of declaration.
    pub open spec fn at(self, i: int) -> T {
        if i == 0 {
            self.x
        } else if i == 1 {
            self.y
        } else {
            self.z
        }
    }

    /// The value with field `i` replaced by `v`.
    pub open spec fn with(self, i: int, v: T) -> Self {
        if i == 0 {
            Data3 { x: v, ..self }
        } else if i == 1 {
            Data3 { y: v, ..self }
        } else {
            Data3 { z: v, ..self }
        }
    }
}

impl<T> Index<usize> for Data3<T> {
    type Output = T;

    fn index(&self, index: usize) -> (r: &T)
        ensures
            *r == self.at(index as int),
    {
        match index {
            0 => &self.x,
            1 => &self.y,
            2 => &self.z,
            _ => unreached(),
        }
    }
}

impl<T> vstd::std_specs::core::IndexSpecImpl<usize> for Data3<T> {
    open spec fn index_req(&self, index: &usize) -> bool {
        *index < 3
    }
}

impl<T> IndexMut<usize> for Data3<T> {
    fn index_mut(&mut self, index: usize) -> (r: &mut T)
        requires
            index < 3,
        ensures
            *r == old(self).at(index as int),
            *final(self) == old(self).with(index as int, *final(r)),
    {
        match index {
            0 => &mut self.x,
            1 => &mut self.y,
            2 => &mut self.z,
            _ => unreached(),
        }
    }
}

impl<T: Copy + std::fmt::Display> Data3<T> {
    /// The text of the value: `name`, which the caller gives for the type
    /// of the fields, then the fields as they display, in round brackets.
    pub fn to_string(&self, name: &str) -> (r: String)
        ensures
            names_list(name@, seq![self.x, self.y, self.z], r@),
    {
        let a = [self.x, self.y, self.z];
        assert(a@ =~= seq![self.x, self.y, self.z]);
        named_list(name, a.as_slice())
    }
}

} // verus!
