use simple_endian::{
    from_bytes, from_bytes_to_native, read_from_slice, write_to_extend, BigEndian, EndianRepr,
    EndianValue, LittleEndian, SpecificEndian,
};

fn round_trip_be<T>(val: T)
where
    T: SpecificEndian<T> + EndianRepr + PartialEq + core::fmt::Debug,
{
    let be: BigEndian<T> = BigEndian::from(val);
    let mut buf = Vec::new();
    write_to_extend(&be, &mut buf).unwrap();
    let out: BigEndian<T> = read_from_slice(&buf).unwrap();
    assert_eq!(out.to_native(), be.to_native());
}

fn round_trip_le<T>(val: T)
where
    T: SpecificEndian<T> + EndianRepr + PartialEq + core::fmt::Debug,
{
    let le: LittleEndian<T> = LittleEndian::from(val);
    let mut buf = Vec::new();
    write_to_extend(&le, &mut buf).unwrap();
    let out: LittleEndian<T> = read_from_slice(&buf).unwrap();
    assert_eq!(out.to_native(), le.to_native());
}

#[test]
fn be_u16_round_trip() {
    round_trip_be::<u16>(0x1234);
}

#[test]
fn le_u16_round_trip() {
    round_trip_le::<u16>(0x1234);
}

#[test]
fn be_u32_round_trip() {
    round_trip_be::<u32>(0x12345678);
}

#[test]
fn le_u32_round_trip() {
    round_trip_le::<u32>(0x12345678);
}

#[test]
fn be_u64_round_trip() {
    round_trip_be::<u64>(0x1234567890abcdef);
}

#[test]
fn le_u64_round_trip() {
    round_trip_le::<u64>(0x1234567890abcdef);
}

#[test]
fn multiple_sequence_read() {
    // Write sequence: u16be, u32le, u8be
    let a: BigEndian<u16> = 0xfaceu16.into();
    let b: LittleEndian<u32> = 0xdeadbeefu32.into();
    let c: BigEndian<u8> = 0x7fu8.into();

    let mut buf = Vec::new();
    write_to_extend(&a, &mut buf).unwrap();
    write_to_extend(&b, &mut buf).unwrap();
    write_to_extend(&c, &mut buf).unwrap();

    let ra: BigEndian<u16> = read_from_slice(&buf[0..]).unwrap();
    let rb: LittleEndian<u32> = read_from_slice(&buf[2..]).unwrap();
    let rc: BigEndian<u8> = read_from_slice(&buf[6..]).unwrap();

    assert_eq!(ra.to_native(), a.to_native());
    assert_eq!(rb.to_native(), b.to_native());
    assert_eq!(rc.to_native(), c.to_native());
}

#[test]
fn insufficient_bytes_error() {
    let data = vec![0u8; 3];
    let res: Result<BigEndian<u64>, &'static str> = read_from_slice(&data);
    assert!(res.is_err());
}

#[test]
fn wire_bytes_follow_the_declared_order() {
    let mut buf = Vec::new();
    write_to_extend(&BigEndian::from(0x1234u16), &mut buf).unwrap();
    write_to_extend(&LittleEndian::from(0x1234u16), &mut buf).unwrap();
    write_to_extend(&BigEndian::from(0x0102_0304u32), &mut buf).unwrap();
    assert_eq!(buf, vec![0x12, 0x34, 0x34, 0x12, 0x01, 0x02, 0x03, 0x04]);

    let be: BigEndian<u32> = read_from_slice(&[0xde, 0xad, 0xbe, 0xef, 0x99]).unwrap();
    assert_eq!(be.to_native(), 0xdead_beef);
    let le: LittleEndian<u32> = read_from_slice(&[0xde, 0xad, 0xbe, 0xef]).unwrap();
    assert_eq!(le.to_native(), 0xefbe_adde);
    let short: Result<LittleEndian<u128>, &'static str> = read_from_slice(&[0u8; 15]);
    assert_eq!(short, Err("insufficient data"));
}

#[test]
fn from_bytes_reads_in_host_order() {
    let data = [0x12u8, 0x34];
    let host_big = u16::from_ne_bytes([0, 1]) == 1;
    let expected = if host_big { 0x1234u16 } else { 0x3412u16 };
    assert_eq!(from_bytes_to_native::<u16>(&data), Ok(expected));
    match from_bytes::<u16>(&data).unwrap() {
        EndianValue::Big(b) => {
            assert!(host_big);
            assert_eq!(b.to_native(), expected);
        }
        EndianValue::Little(l) => {
            assert!(!host_big);
            assert_eq!(l.to_native(), expected);
        }
    }
    assert!(from_bytes::<u32>(&data).is_err());
}

#[test]
fn tuples_pack_their_parts_most_significant_first() {
    let t = (0x12u8, 0x3456u16);
    assert!(<(u8, u16) as EndianRepr>::repr_supported());
    assert_eq!(t.to_u128(), 0x12_3456);
    assert_eq!(<(u8, u16)>::from_u128(0x12_3456), t);
    let w = (1u32, 2u64, 3u8, 4u16);
    assert_eq!(w.to_u128(), 0x0000_0001_0000_0000_0000_0002_03_0004);
    assert_eq!(<(u32, u64, u8, u16)>::from_u128(w.to_u128()), w);
    assert!(!<(u64, u64, u8) as EndianRepr>::repr_supported());
    assert!(!<(u128, u8) as EndianRepr>::repr_supported());
}
