//! Small fixed-size value containers, with access by index.
use vstd::prelude::*;

pub mod data2;
pub mod data3;
pub mod data4;
pub mod data8;
pub mod int2;
pub mod int3;

verus! {

pub type U8_2 = data2::Data2<u8>;

pub type U32_2 = data2::Data2<u32>;

pub type I32_2 = data2::Data2<i32>;

pub type U8_3 = data3::Data3<u8>;

pub type U32_3 = data3::Data3<u32>;

pub type I32_3 = data3::Data3<i32>;

pub type U8_4 = data4::Data4<u8>;

pub type U16_4 = data4::Data4<u16>;

pub type U32_4 = data4::Data4<u32>;

pub type I32_4 = data4::Data4<i32>;

pub type I32_8 = data8::Data8<i32>;

} // verus!
