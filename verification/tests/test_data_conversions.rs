use geom_primitive::data_types::data2::Data2;
use geom_primitive::data_types::data3::Data3;
use geom_primitive::data_types::data4::Data4;
use geom_primitive::data_types::data8::Data8;
use geom_primitive::data_types::int2::Int2;
use geom_primitive::data_types::int3::Int3;
use geom_primitive::data_types::{I32_2, U16_4, U8_3};

#[test]
fn test_data_from_value() {
    assert_eq!(Data3::from_value(7u8), Data3::new(7, 7, 7));
    assert_eq!(Data4::from_value(-1i32), Data4::new(-1, -1, -1, -1));
    assert_eq!(Data8::from_value('x'), Data8::new('x', 'x', 'x', 'x', 'x', 'x', 'x', 'x'));
    assert_eq!(Int3::from_value(5), Int3::new(5, 5, 5));
}

#[test]
fn test_data_grows_and_shrinks() {
    let d2: I32_2 = Data2::new(1, 2);
    let d3 = Data3::from_data2(&d2, 3);
    assert_eq!(d3, Data3::new(1, 2, 3));
    let d4 = Data4::from_data3(&d3, 4);
    assert_eq!(d4, Data4::new(1, 2, 3, 4));
    assert_eq!(d4.to_data3(), d3);
    let other = Data4::new(5, 6, 7, 8);
    let d8 = Data8::from_value(0).from_2data4(&d4, &other);
    assert_eq!(d8, Data8::new(1, 2, 3, 4, 5, 6, 7, 8));
    assert_eq!(Int3::from_int2(&Int2::new(1, 2), 3), Int3::new(1, 2, 3));
}

#[test]
fn test_data_index_reaches_each_field() {
    let mut d: U8_3 = Data3::new(1, 2, 3);
    d[2] = 9;
    assert_eq!((d.x, d.y, d.z), (1, 2, 9));
    let mut q: U16_4 = Data4::new(1, 2, 3, 4);
    q[3] = 40;
    q[0] = 10;
    assert_eq!(q, Data4::new(10, 2, 3, 40));
    let mut e = Data8::new(0, 1, 2, 3, 4, 5, 6, 7);
    for i in 0..8 {
        assert_eq!(e[i], i);
        e[i] = 7 - i;
    }
    assert_eq!(e, Data8::new(7, 6, 5, 4, 3, 2, 1, 0));
}

#[test]
fn test_int3_to_string() {
    assert_eq!(Int3::new(1, 2, 3).to_string(), "Int3(1, 2, 3)");
    assert_eq!(Int3::new(-10, 0, 907).to_string(), "Int3(-10, 0, 907)");
    assert_eq!(
        Int3::from_value(i32::MIN).to_string(),
        "Int3(-2147483648, -2147483648, -2147483648)"
    );
}
