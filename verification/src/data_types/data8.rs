//! Eight values of one type.
use crate::data_types::data4::Data4;
use crate::text::{named_list, names_list};
use std::ops::{Index, IndexMut};
use vstd::prelude::*;

verus! {

#[derive(Debug, Clone, Copy, PartialEq, Eq)]
pub struct Data8<T> {
    pub a: T,
    pub b: T,
    pub c: T,
    pub d: T,
    pub e: T,
    pub f: T,
    pub g: T,
    pub h: T,
}

impl<T> Data8<T> {
    pub fn new(a: T, b: T, c: T, d: T, e: T, f: T, g: T, h: T) -> (r: Self)
        ensures
            r == (Data8 { a, b, c, d, e, f, g, h }),
    {
        Data8 { a, b, c, d, e, f, g, h }
    }

    /// The value whose fields all hold `value`.
    pub fn from_value(value: T) -> (r: Self) where T: Copy
        ensures
            r == (Data8 { a: value, b: value, c: value, d: value, e: value, f: value, g: value, h: value }),
    {
        Data8 { a: value, b: value, c: value, d: value, e: value, f: value, g: value, h: value }
    }

    /// The four values of `data4_1`, followed by the four of `data4_2`. The
    /// value it is called on plays no part.
    pub fn from_2data4(&self, data4_1: &Data4<T>, data4_2: &Data4<T>) -> (r: Self) where T: Copy
        ensures
            r == (Data8 {
                a: data4_1.x,
                b: data4_1.y,
                c: data4_1.z,
                d: data4_1.w,
                e: data4_2.x,
                f: data4_2.y,
                g: data4_2.z,
                h: data4_2.w,
            }),
    {
        Data8 {
            a: data4_1.x,
            b: data4_1.y,
            c: data4_1.z,
            d: data4_1.w,
            e: data4_2.x,
            f: data4_2.y,
            g: data4_2.z,
            h: data4_2.w,
        }
    }
}

impl<T> Data8<T> {
    /// Field `i`, counted from 0 in the order of declaration.
    pub open spec fn at(self, i: int) -> T {
        if i == 0 {
            self.a
        } else if i == 1 {
            self.b
        } else if i == 2 {
            self.c
        } else if i == 3 {
            self.d
        } else if i == 4 {
            self.e
        } else if i == 5 {
            self.f
        } else if i == 6 {
            self.g
        } else {
            self.h
        }
    }

    /// The value with field `i` replaced by `v`.
    pub open spec fn with(self, i: int, v: T) -> Self {
        if i == 0 {
            Data8 { a: v, ..self }
        } else if i == 1 {
            Data8 { b: v, ..self }
        } else if i == 2 {
            Data8 { c: v, ..self }
        } else if i == 3 {
            Data8 { d: v, ..self }
        } else if i == 4 {
            Data8 { e: v, ..self }
        } else if i == 5 {
            Data8 { f: v, ..self }
        } else if i == 6 {
            Data8 { g: v, ..self }
        } else {
            Data8 { h: v, ..self }
        }
    }
}

impl<T> Index<usize> for Data8<T> {
    type Output = T;

    fn index(&self, index: usize) -> (r: &T)
        ensures
            *r == self.at(index as int),
    {
        match index {
            0 => &self.a,
            1 => &self.b,
            2 => &self.c,
            3 => &self.d,
            4 => &self.e,
            5 => &self.f,
            6 => &self.g,
            7 => &self.h,
            _ => unreached(),
        }
    }
}

impl<T> vstd::std_specs::core::IndexSpecImpl<usize> for Data8<T> {
    open spec fn index_req(&self, index: &usize) -> bool {
        *index < 8
    }
}

impl<T> IndexMut<usize> for Data8<T> {
    fn index_mut(&mut self, index: usize) -> (r: &mut T)
        requires
            index < 8,
        ensures
            *r == old(self).at(index as int),
            *final(self) == old(self).with(index as int, *final(r)),
    {
        match index {
            0 => &mut self.a,
            1 => &mut self.b,
            2 => &mut self.c,
            3 => &mut self.d,
            4 => &mut self.e,
            5 => &mut self.f,
            6 => &mut self.g,
            7 => &mut self.h,
            _ => unreached(),
        }
    }
}

impl<T: Copy + std::fmt::Display> Data8<T> {
    /// The text of the value: `name`, which the caller gives for the type
    /// of the fields, then the fields as they display, in round brackets.
    pub fn to_string(&self, name: &str) -> (r: String)
        ensures
            names_list(name@, seq![self.a, self.b, self.c, self.d, self.e, self.f, self.g, self.h], r@),
    {
        let a = [self.a, self.b, self.c, self.d, self.e, self.f, self.g, self.h];
        assert(a@ =~= seq![self.a, self.b, self.c, self.d, self.e, self.f, self.g, self.h]);
        named_list(name, a.as_slice())
    }
}

} // verus!
