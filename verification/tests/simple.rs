use simple_endian::{host_endian, Endian, SimpleEndian};

#[test]
fn unit_type_is_simple_endian() {
    let _unit: () = ();
    assert!(true);
}

#[test]
fn bool_is_simple_endian() {
    let b = true;
    assert_eq!(b.to_big_endian(), b);
    assert_eq!(b.to_little_endian(), b);
    assert_eq!(b.from_big_endian(), b);
    assert_eq!(b.from_little_endian(), b);
}

#[test]
fn u8_is_simple_endian() {
    let n: u8 = 42;
    assert_eq!(n.to_big_endian(), n);
    assert_eq!(n.to_little_endian(), n);
    assert_eq!(n.from_big_endian(), n);
    assert_eq!(n.from_little_endian(), n);
}

#[test]
fn i8_is_simple_endian() {
    let n: i8 = -42;
    assert_eq!(n.to_big_endian(), n);
    assert_eq!(n.to_little_endian(), n);
    assert_eq!(n.from_big_endian(), n);
    assert_eq!(n.from_little_endian(), n);
}

#[test]
fn char_is_simple_endian() {
    let c: char = '🦀';
    assert_eq!(c.to_big_endian(), c);
    assert_eq!(c.to_little_endian(), c);
    assert_eq!(c.from_big_endian(), c);
    assert_eq!(c.from_little_endian(), c);
}

#[test]
fn str_is_simple_endian() {
    let s = "hello";
    assert_eq!(s.to_big_endian(), s);
    assert_eq!(s.to_little_endian(), s);
    assert_eq!(s.from_big_endian(), s);
    assert_eq!(s.from_little_endian(), s);
}

#[test]
fn string_is_simple_endian() {
    let s = String::from("hello");
    let converted = s.clone().to_big_endian();
    assert_eq!(converted, s);

    let converted = s.clone().to_little_endian();
    assert_eq!(converted, s);

    let converted = s.clone().from_big_endian();
    assert_eq!(converted, s);

    let converted = s.clone().from_little_endian();
    assert_eq!(converted, s);
}

#[test]
fn simple_endian_reports_host_order() {
    let host_little = u16::from_ne_bytes([1, 0]) == 1;
    let reported_little = matches!(().endian(), Endian::Little);
    assert_eq!(reported_little, host_little);
    assert_eq!(matches!(host_endian(), Endian::Little), host_little);
    assert_eq!(matches!('x'.endian(), Endian::Big), !host_little);
}
