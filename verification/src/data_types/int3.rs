//! Three 32-bit integers.
use crate::data_types::int2::Int2;
use crate::decimal::{decimal, push_decimal};
use vstd::prelude::*;
use vstd::string::StringExecFns;

verus! {

#[derive(Debug, Clone, Copy, PartialEq, Eq)]
pub struct Int3 {
    pub x: i32,
    pub y: i32,
    pub z: i32,
}

impl Int3 {
    pub fn new(x: i32, y: i32, z: i32) -> (r: Self)
        ensures
            r == (Int3 { x, y, z }),
    {
        Int3 { x, y, z }
    }

    /// The value whose fields all hold `value`.
    pub fn from_value(value: i32) -> (r: Self)
        ensures
            r == (Int3 { x: value, y: value, z: value }),
    {
        Int3 { x: value, y: value, z: value }
    }

    /// The two values of `int2`, followed by `z`.
    pub fn from_int2(int2: &Int2, z: i32) -> (r: Self)
        ensures
            r == (Int3 { x: int2.x, y: int2.y, z }),
    {
        Int3 { x: int2.x, y: int2.y, z }
    }

    /// The text of the value: the type's name, then the fields in
    /// decimal, separated by a comma and a space, in round brackets.
    pub open spec fn text(self) -> Seq<char> {
        "Int3("@ + decimal(self.x as int) + ", "@ + decimal(self.y as int) + ", "@ + decimal(self.z as int) + ")"@
    }

    pub fn to_string(&self) -> (r: String)
        ensures
            r@ == self.text(),
    {
        let mut s = String::from_str("Int3(");
        push_decimal(&mut s, self.x);
        s.append(", ");
        push_decimal(&mut s, self.y);
        s.append(", ");
        push_decimal(&mut s, self.z);
        s.append(")");
        assert(s@ =~= self.text());
        s
    }
}

} // verus!
