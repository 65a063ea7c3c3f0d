//! Four values of one type.
use crate::data_types::data3::Data3;
use crate::text::{named_list, names_list};
use std::ops::{Index, IndexMut};
use vstd::prelude::*;

verus! {

#[derive(Debug, Clone, Copy, PartialEq, Eq)]
pub struct Data4<T> {
    pub x: T,
    pub y: T,
    pub z: T,
    pub w: T,
}

impl<T> Data4<T> {
    pub fn new(x: T, y: T, z: T, w: T) -> (r: Self)
        ensures
            r == (Data4 { x, y, z, w }),
    {
        Data4 { x, y, z, w }
    }

    /// The value whose fields all hold `value`.
    pub fn from_value(value: T) -> (r: Self) where T: Copy
        ensures
            r == (Data4 { x: value, y: value, z: value, w: value }),
    {
        Data4 { x: value, y: value, z: value, w: value }
    }

    /// The three values of `data3`, followed by `w`.
    pub fn from_data3(data3: &Data3<T>, w: T) -> (r: Self) where T: Copy
        ensures
            r == (Data4 { x: data3.x, y: data3.y, z: data3.z, w }),
    {
        Data4 { x: data3.x, y: data3.y, z: data3.z, w }
    }

    /// The first three values.
    pub fn to_data3(&self) -> (r: Data3<T>) where T: Copy
        ensures
            r == (Data3 { x: self.x, y: self.y, z: self.z }),
    {
        Data3 { x: self.x, y: self.y, z: self.z }
    }
}

impl<T> Data4<T> {
    /// Field `i`, counted from 0 in the order of declaration.
    pub open spec fn at(self, i: int) -> T {
        if i == 0 {
            self.x
        } else if i == 1 {
            self.y
        } else if i == 2 {
            self.z
        } else {
            self.w
        }
    }

    /// The value with field `i` replaced by `v`.
    pub open spec fn with(self, i: int, v: T) -> Self {
        if i == 0 {
            Data4 { x: v, ..self }
        } else if i == 1 {
            Data4 { y: v, ..self }
        } else if i == 2 {
            Data4 { z: v, ..self }
        } else {
            Data4 { w: v, ..self }
        }
    }
}

impl<T> Index<usize> for Data4<T> {
    type Output = T;

    fn index(&self, index: usize) -> (r: &T)
        ensures
            *r == self.at(index as int),
    {
        match index {
            0 => &self.x,
            1 => &self.y,
            2 => &self.z,
            3 => &self.w,
            _ => unreached(),
        }
    }
}

impl<T> vstd::std_specs::core::IndexSpecImpl<usize> for Data4<T> {
    open spec fn index_req(&self, index: &usize) -> bool {
        *index < 4
    }
}

impl<T> IndexMut<usize> for Data4<T> {
    fn index_mut(&mut self, index: usize) -> (r: &mut T)
        requires
            index < 4,
        ensures
            *r == old(self).at(index as int),
            *final(self) == old(self).with(index as int, *final(r)),
    {
        match index {
            0 => &mut self.x,
            1 => &mut self.y,
            2 => &mut self.z,
            3 => &mut self.w,
            _ => unreached(),
        }
    }
}

impl<T: Copy + std::fmt::Display> Data4<T> {
    /// The text of the value: `name`, which the caller gives for the type
    /// of the fields, then the fields as they display, in round brackets.
    pub fn to_string(&self, name: &str) -> (r: String)
        ensures
            names_list(name@, seq![self.x, self.y, self.z, self.w], r@),
    {
        let a = [self.x, self.y, self.z, self.w];
        assert(a@ =~= seq![self.x, self.y, self.z, self.w]);
        named_list(name, a.as_slice())
    }
}

} // verus!
