use simple_endian::SpecificEndian;

fn assert_specific_endian<T: SpecificEndian<T>>() {}

#[test]
fn bridge_bool_is_noop() {
    assert_specific_endian::<bool>();

    let v = true;
    assert_eq!(SpecificEndian::to_big_endian(&v), v);
    assert_eq!(SpecificEndian::to_little_endian(&v), v);
    assert_eq!(SpecificEndian::from_big_endian(&v), v);
    assert_eq!(SpecificEndian::from_little_endian(&v), v);
}

#[test]
fn bridge_u8_is_noop() {
    assert_specific_endian::<u8>();

    let v: u8 = 0xfe;
    assert_eq!(SpecificEndian::to_big_endian(&v), v);
    assert_eq!(SpecificEndian::to_little_endian(&v), v);
    assert_eq!(SpecificEndian::from_big_endian(&v), v);
    assert_eq!(SpecificEndian::from_little_endian(&v), v);
}

#[test]
fn bridge_i8_is_noop() {
    assert_specific_endian::<i8>();

    let v: i8 = -42;
    assert_eq!(SpecificEndian::to_big_endian(&v), v);
    assert_eq!(SpecificEndian::to_little_endian(&v), v);
    assert_eq!(SpecificEndian::from_big_endian(&v), v);
    assert_eq!(SpecificEndian::from_little_endian(&v), v);
}

#[test]
fn bridge_char_is_noop() {
    assert_specific_endian::<char>();

    let v: char = '🦀';
    assert_eq!(SpecificEndian::to_big_endian(&v), v);
    assert_eq!(SpecificEndian::to_little_endian(&v), v);
    assert_eq!(SpecificEndian::from_big_endian(&v), v);
    assert_eq!(SpecificEndian::from_little_endian(&v), v);
}
