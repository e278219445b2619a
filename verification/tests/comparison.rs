use simple_endian::{BigEndian, LittleEndian};

#[test]
fn equality_test() {
    let be1 = BigEndian::from(12345);
    let be2 = BigEndian::from(12345);
    assert!(be1 == be2);
}

#[test]
fn not_equality_test() {
    let be1 = BigEndian::from(12345);
    let be2 = BigEndian::from(34565);
    assert!(be1 != be2);
}

#[test]
fn lt_test() {
    let be1 = BigEndian::from(12345);
    let be2 = BigEndian::from(34565);
    assert!(be1 < be2);
}

#[test]
fn gt_test() {
    let be1 = BigEndian::from(34565);
    let be2 = BigEndian::from(12345);
    assert!(be1 > be2);
}

#[test]
fn ordering_follows_native_values_not_stored_bytes() {
    // 0x0100 stores as [0x00, 0x01] in little-endian order, 0x00ff as [0xff, 0x00]:
    // the stored bits of one side compare the other way round on some hardware.
    let a = LittleEndian::<u16>::from(0x0100);
    let b = LittleEndian::<u16>::from(0x00ff);
    assert!(a > b);
    assert_eq!(a.partial_cmp(&b), Some(core::cmp::Ordering::Greater));
    let c = BigEndian::<i32>::from(-5);
    let d = BigEndian::<i32>::from(3);
    assert!(c < d);
    assert!(c <= c);
    assert!(d >= c);
}
