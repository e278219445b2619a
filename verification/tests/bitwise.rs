use simple_endian::{BigEndian, LittleEndian};

#[test]
fn bit_and_test() {
    let be1 = LittleEndian::<u64>::from(0x0f0);
    let be2 = LittleEndian::<u64>::from(0xff0);
    assert_eq!(0x0f0, u64::from(be1 & be2));
}

#[test]
fn unary_not_test() {
    let be1 = BigEndian::<u16>::from(0x0f0);
    assert_eq!(0xff0f, u16::from(!be1));
}

#[test]
fn bitwise_ops_act_on_native_values() {
    let a = BigEndian::<u32>::from(0xF0F0_1234);
    let b = BigEndian::<u32>::from(0x0FF0_FF00);
    assert_eq!((a & b).to_native(), 0xF0F0_1234 & 0x0FF0_FF00);
    assert_eq!((a | b).to_native(), 0xF0F0_1234 | 0x0FF0_FF00);
    assert_eq!((a ^ b).to_native(), 0xF0F0_1234 ^ 0x0FF0_FF00);
    assert_eq!((!a).to_native(), !0xF0F0_1234u32);

    let c = LittleEndian::<i16>::from(-2);
    let d = LittleEndian::<i16>::from(0x00FF);
    assert_eq!((c & d).to_native(), -2i16 & 0x00FF);
    assert_eq!((!c).to_native(), 1);
}

#[test]
fn bitwise_assign_ops() {
    let mut a = BigEndian::<u64>::from(0xf8dc);
    let mask = BigEndian::<u64>::from(0xf0f0f);
    a &= mask;
    assert_eq!(a.to_native(), 0xf8dc & 0xf0f0f);
    a |= BigEndian::from(0xfff0000) | mask;
    assert_eq!(a.to_native(), (0xf8dc & 0xf0f0f) | 0xfff0000 | 0xf0f0f);
    a ^= 0x5555555.into();
    assert_eq!(a.to_native(), ((0xf8dc & 0xf0f0f) | 0xfff0000 | 0xf0f0f) ^ 0x5555555);

    let mut t = LittleEndian::<bool>::from(true);
    t &= LittleEndian::from(false);
    assert!(!t.to_native());
    t |= LittleEndian::from(true);
    assert!(t.to_native());
    t ^= LittleEndian::from(true);
    assert!(!t.to_native());
}
