use simple_endian::{u64be, BigEndian, LittleEndian, SpecificEndian};

#[allow(dead_code)]
struct Foo(
    BigEndian<i16>,
    LittleEndian<i16>,
    BigEndian<u16>,
    LittleEndian<u16>,
    BigEndian<i32>,
    LittleEndian<i32>,
    BigEndian<u32>,
    LittleEndian<u32>,
    BigEndian<i64>,
    LittleEndian<i64>,
    BigEndian<u64>,
    LittleEndian<u64>,
    BigEndian<i128>,
    LittleEndian<i128>,
    BigEndian<u128>,
    LittleEndian<u128>,
);

#[test]
fn make_struct() {
    let _foo = Foo(
        0.into(),
        1.into(),
        2.into(),
        3.into(),
        4.into(),
        5.into(),
        6.into(),
        7.into(),
        8.into(),
        9.into(),
        10.into(),
        11.into(),
        12.into(),
        13.into(),
        14.into(),
        15.into(),
    );
}

#[test]
fn stored_operations_match_operations_on_host_values() {
    let not = !BigEndian::from(0x00f0u16);
    assert_eq!(not.to_native(), 0xff0f);
    assert_eq!(not, BigEndian::from(!0x00f0u16));
    assert_eq!(BigEndian::from(1234u16) & BigEndian::from(5678u16), BigEndian::from(1026u16));
    assert_eq!(
        BigEndian::from(0x0feeddccu32) & BigEndian::from(0xff00u32),
        BigEndian::from(0xdd00u32)
    );
    assert_eq!(LittleEndian::from(12i32) + LittleEndian::from(30i32), LittleEndian::from(42i32));
    assert_eq!(BigEndian::from(3u64) << BigEndian::from(4u64), BigEndian::from(48u64));
    assert_eq!(BigEndian::<u32>::from_bits(0x01020304).to_bits(), 0x01020304);
    assert_eq!(BigEndian::<u32>::from_bits(0x01020304), BigEndian::from(u32::from_be(0x01020304)));
}

fn host_is_big() -> bool {
    u16::from_ne_bytes([0, 1]) == 1
}

#[test]
fn declare_all() {
    let _a: BigEndian<i16> = 0xfe.into();
    let _a: LittleEndian<i16> = 0xfe.into();
    let _a: BigEndian<u16> = 0xfe.into();
    let _a: LittleEndian<u16> = 0xfe.into();

    let _a: BigEndian<i32> = 0xfe.into();
    let _a: LittleEndian<i32> = 0xfe.into();
    let _a: BigEndian<u32> = 0xfe.into();
    let _a: LittleEndian<u32> = 0xfe.into();

    let _a: BigEndian<i64> = 0xfe.into();
    let _a: LittleEndian<i64> = 0xfe.into();
    let _a: BigEndian<u64> = 0xfe.into();
    let _a: LittleEndian<u64> = 0xfe.into();

    let _a: BigEndian<i128> = 0xfe.into();
    let _a: LittleEndian<i128> = 0xfe.into();
    let _a: BigEndian<u128> = 0xfe.into();
    let _a: LittleEndian<u128> = 0xfe.into();
}

#[test]
fn store_be() {
    let be: BigEndian<u64> = 0xfe.into();
    if host_is_big() {
        assert_eq!(be.to_bits(), 0xfe);
    } else {
        assert_eq!(be.to_bits(), 0xfe00000000000000);
    }
}

#[test]
fn same_size() {
    assert_eq!(std::mem::size_of::<u64be>(), std::mem::size_of::<u64>());
}

#[test]
fn store_le() {
    let le: LittleEndian<u64> = 0xfe.into();
    if host_is_big() {
        assert_eq!(le.to_bits(), 0xfe00000000000000);
    } else {
        assert_eq!(le.to_bits(), 0xfe);
    }
}

#[test]
fn cast() {
    let be = BigEndian::from(12345);
    let ne: u64 = be.into();
    assert_eq!(ne, 12345);
}

#[test]
fn convert_back() {
    let be = BigEndian::from(12345);
    println!("{}", u64::from(be));
}

#[test]
fn convert_to_native() {
    let be = BigEndian::from(0xfe);
    println!("{:x}, {:x}", be.0, be.to_native());
    assert_eq!(0xfe, be.to_native());
}

#[test]
fn inferred_type() {
    let mut be1 = BigEndian::from(1234);
    be1 &= BigEndian::from(5678);
    println!("{} {} {}", be1.to_string(), be1.to_bits(), be1.to_native());
    assert_eq!(be1, 1026.into());
}

#[test]
fn inferred_type_bigger() {
    let mut be1 = BigEndian::from(0x0feeddcc);
    be1 &= BigEndian::from(0xff00);
    println!("{} {} {}", be1.to_string(), be1.to_bits(), be1.to_native());
    assert_eq!(be1, 0xdd00.into());
}

#[test]
fn mixed_endian_big() {
    let be = BigEndian::from(100);
    let le = LittleEndian::from(200);
    let me = be + le.into();
    assert_eq!(me, 300.into());
}

#[test]
fn mixed_endian_little() {
    let be = BigEndian::from(100);
    let le = LittleEndian::from(200);
    let me = le + be.into();
    assert_eq!(me, 300.into());
}

#[derive(Copy, Clone, Debug)]
enum EndianAwareExample {
    BigEndianFunction(u64),
    LittleEndianFunction(u64),
}

impl SpecificEndian<EndianAwareExample> for EndianAwareExample {
    fn to_big_endian(&self) -> Self {
        match self {
            EndianAwareExample::BigEndianFunction(_) => *self,
            EndianAwareExample::LittleEndianFunction(v) => {
                EndianAwareExample::BigEndianFunction(v.to_big_endian())
            }
        }
    }
    fn to_little_endian(&self) -> Self {
        match self {
            EndianAwareExample::LittleEndianFunction(_v) => *self,
            EndianAwareExample::BigEndianFunction(v) => {
                EndianAwareExample::BigEndianFunction(v.to_little_endian())
            }
        }
    }
    fn from_big_endian(&self) -> Self {
        match self {
            EndianAwareExample::BigEndianFunction(_v) => *self,
            EndianAwareExample::LittleEndianFunction(v) => {
                EndianAwareExample::BigEndianFunction(v.to_big_endian())
            }
        }
    }
    fn from_little_endian(&self) -> Self {
        match self {
            EndianAwareExample::LittleEndianFunction(_) => *self,
            EndianAwareExample::BigEndianFunction(v) => {
                EndianAwareExample::BigEndianFunction(v.to_little_endian())
            }
        }
    }
}

#[test]
fn custom_type() {
    let foo: BigEndian<EndianAwareExample> =
        EndianAwareExample::LittleEndianFunction(0xf0).into();
    #[allow(unused_assignments)]
    let mut value = 0;
    match foo.to_native() {
        EndianAwareExample::BigEndianFunction(v) => {
            println!("be: {:x}", v);
            value = v
        }
        EndianAwareExample::LittleEndianFunction(v) => {
            println!("le: {:x}", v);
            value = 0
        }
    }
    assert_eq!(value, 0x0f000000000000000);
}

#[test]
fn round_trip_every_primitive() {
    assert_eq!(BigEndian::from(0x1234u16).to_native(), 0x1234);
    assert_eq!(LittleEndian::from(-0x1234i16).to_native(), -0x1234);
    assert_eq!(BigEndian::from(0xdead_beefu32).to_native(), 0xdead_beef);
    assert_eq!(LittleEndian::from(i32::MIN).to_native(), i32::MIN);
    assert_eq!(BigEndian::from(0x0102_0304_0506_0708u64).to_native(), 0x0102_0304_0506_0708);
    assert_eq!(LittleEndian::from(-1i64).to_native(), -1);
    assert_eq!(BigEndian::from(u128::MAX - 7).to_native(), u128::MAX - 7);
    assert_eq!(LittleEndian::from(i128::MIN + 9).to_native(), i128::MIN + 9);
    assert_eq!(BigEndian::from(usize::MAX / 3).to_native(), usize::MAX / 3);
    assert_eq!(LittleEndian::from(isize::MIN).to_native(), isize::MIN);
    assert_eq!(BigEndian::from(7u8).to_native(), 7);
    assert_eq!(LittleEndian::from(-7i8).to_native(), -7);
    assert!(BigEndian::from(true).to_native());
}

#[test]
fn stored_bytes_have_declared_order() {
    let be = BigEndian::from(0x1234_5678u32);
    let le = LittleEndian::from(0x1234_5678u32);
    assert_eq!(be.to_bits().to_ne_bytes(), [0x12, 0x34, 0x56, 0x78]);
    assert_eq!(le.to_bits().to_ne_bytes(), [0x78, 0x56, 0x34, 0x12]);
    let be16 = BigEndian::from(0xabcdu16);
    assert_eq!(be16.to_bits().to_ne_bytes(), [0xab, 0xcd]);
}

#[test]
fn converting_between_orders_keeps_the_value() {
    let be = BigEndian::from(0x0a0b_0c0du32);
    let le: LittleEndian<u32> = be.into();
    assert_eq!(le.to_native(), 0x0a0b_0c0d);
    let back: BigEndian<u32> = le.into();
    assert_eq!(back, be);
    assert_eq!(BigEndian::<u16>::from_bits(be16_bits()).to_native(), 0x0102);
}

fn be16_bits() -> u16 {
    u16::from_ne_bytes([0x01, 0x02])
}

#[test]
fn text_forms_use_the_native_value() {
    let be = BigEndian::from(255u32);
    assert_eq!(be.to_string(), "255");
    assert_eq!(be.to_lower_hex(), "ff");
    assert_eq!(be.to_upper_hex(), "FF");
    assert_eq!(be.to_octal(), "377");
    assert_eq!(be.to_binary(), "11111111");
    let le = LittleEndian::from(-3i16);
    assert_eq!(le.to_string(), "-3");
}

#[test]
fn radix_forms_write_twos_complement_digits() {
    let le = LittleEndian::from(-2i16);
    assert_eq!(le.to_upper_hex(), "FFFE");
    assert_eq!(le.to_lower_hex(), "fffe");
    assert_eq!(le.to_octal(), "177776");
    let be = BigEndian::from(0u64);
    assert_eq!(be.to_upper_hex(), "0");
    assert_eq!(be.to_binary(), "0");
    let b8 = BigEndian::from(-128i8);
    assert_eq!(b8.to_binary(), "10000000");
}

#[test]
fn signed_and_pointer_sized_values_are_stored_in_declared_order() {
    let b = BigEndian::from(-2i16);
    assert_eq!(b.to_bits().to_ne_bytes(), (-2i16).to_be_bytes());
    let l = LittleEndian::from(-2i32);
    assert_eq!(l.to_bits().to_ne_bytes(), (-2i32).to_le_bytes());
    let u = BigEndian::from(0x0102usize);
    assert_eq!(u.to_bits().to_ne_bytes(), 0x0102usize.to_be_bytes());
    let i = LittleEndian::from(-5isize);
    assert_eq!(i.to_bits().to_ne_bytes(), (-5isize).to_le_bytes());
    let w = BigEndian::from(-3i128);
    assert_eq!(w.to_bits().to_ne_bytes(), (-3i128).to_be_bytes());
}
