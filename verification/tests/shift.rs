use simple_endian::{u64be, BigEndian, LittleEndian};

#[test]
fn shl_be() {
    let mut ne1 = 0xfee1;
    let mut be1 = u64be::from(ne1);
    be1 = be1 << 5.into();
    ne1 = ne1 << 5;
    be1 <<= 5.into();
    ne1 <<= 5;
    assert_eq!(ne1, be1.into());
}

#[test]
fn shr_be() {
    let mut ne1 = 0xfee1;
    let mut be1 = u64be::from(ne1);
    be1 = be1 >> 5.into();
    ne1 = ne1 >> 5;
    be1 >>= 5.into();
    ne1 >>= 5;
    assert_eq!(ne1, be1.into());
}

#[test]
fn shifts_on_little_endian_and_signed_values() {
    let v = LittleEndian::<u16>::from(0x0102);
    assert_eq!((v << LittleEndian::from(4)).to_native(), 0x1020);
    assert_eq!((v >> LittleEndian::from(8)).to_native(), 0x01);
    let s = BigEndian::<i32>::from(-64);
    assert_eq!((s >> BigEndian::from(2)).to_native(), -16);
    assert_eq!((s << BigEndian::from(1)).to_native(), -128);
}
