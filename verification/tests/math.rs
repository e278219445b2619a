use simple_endian::{BigEndian, LittleEndian};

#[test]
fn arithmetic_acts_on_native_values() {
    let a = BigEndian::<u32>::from(1000);
    let b = BigEndian::<u32>::from(24);
    assert_eq!((a + b).to_native(), 1024);
    assert_eq!((a - b).to_native(), 976);
    assert_eq!((a * b).to_native(), 24000);
    assert_eq!((a / b).to_native(), 41);

    let c = LittleEndian::<i64>::from(-7);
    let d = LittleEndian::<i64>::from(2);
    assert_eq!((c + d).to_native(), -5);
    assert_eq!((c - d).to_native(), -9);
    assert_eq!((c * d).to_native(), -14);
    assert_eq!((c / d).to_native(), -3);
}

#[test]
fn arithmetic_assign_ops() {
    let mut a = BigEndian::<u16>::from(10);
    a += BigEndian::from(5);
    assert_eq!(a.to_native(), 15);
    a -= BigEndian::from(3);
    assert_eq!(a.to_native(), 12);
    a *= BigEndian::from(4);
    assert_eq!(a.to_native(), 48);
    a /= BigEndian::from(6);
    assert_eq!(a.to_native(), 8);
}
