use simple_endian::{
    read_from_slice, write_to_extend, BigEndian, FixedCodepointStr, FixedCodepointString,
    FixedTextError, FixedUtf16BeCodeUnits, FixedUtf16BeNullPadded, FixedUtf16BeSpacePadded,
    FixedUtf16CodeUnits, FixedUtf16Error, FixedUtf16LeCodeUnits, FixedUtf16LeNullPadded,
    FixedUtf16LePacked, FixedUtf16LeSpacePadded, FixedUtf32BeCodeUnits, FixedUtf32BeSpacePadded, FixedUtf32CodeUnits,
    FixedUtf32Error, FixedUtf32LeCodeUnits, FixedUtf32LeNullPadded, FixedUtf32LeSpacePadded,
    FixedUtf8Error, FixedUtf8NullPadded, FixedUtf8SpacePadded, LittleEndian, SpecificEndianOwned,
};

fn host_is_big() -> bool {
    u16::from_ne_bytes([0, 1]) == 1
}

#[test]
fn fixed_utf16_code_units_alias_is_host_endian() {
    let _v: FixedUtf16CodeUnits<2> = FixedUtf16LeCodeUnits::<2>::try_from("hi").unwrap();
}

#[test]
fn fixed_utf32_code_units_alias_is_host_endian() {
    let _v: FixedUtf32CodeUnits<2> = FixedUtf32LeCodeUnits::<2>::try_from("hi").unwrap();
}

#[test]
fn fixed_code_units_can_be_wrapped_in_endian_types() {
    let le16: LittleEndian<FixedUtf16CodeUnits<2>> = "hi".try_into().unwrap();
    let be16: BigEndian<FixedUtf16CodeUnits<2>> = "hi".try_into().unwrap();
    let _native16: FixedUtf16CodeUnits<2> = le16.to_native();
    let _native16b: FixedUtf16CodeUnits<2> = be16.to_native();

    let le32: LittleEndian<FixedUtf32CodeUnits<2>> = "hi".try_into().unwrap();
    let be32: BigEndian<FixedUtf32CodeUnits<2>> = "hi".try_into().unwrap();
    let _native32: FixedUtf32CodeUnits<2> = le32.to_native();
    let _native32b: FixedUtf32CodeUnits<2> = be32.to_native();
}

#[test]
fn wrapped_fixed_code_units_read_back_unchanged() {
    let native = FixedUtf16LeCodeUnits::<3>::try_from("abc").unwrap();
    let be: BigEndian<FixedUtf16CodeUnits<3>> = BigEndian::from(native);
    assert_eq!(be.to_native(), native);
    let le: LittleEndian<FixedUtf16CodeUnits<3>> = "abc".try_into().unwrap();
    assert_eq!(le.to_native(), native);
    assert_eq!(String::try_from(&le.to_native()).unwrap(), "abc");
}

#[test]
fn fixed_code_unit_counts_must_match() {
    assert_eq!(
        FixedUtf16LeCodeUnits::<3>::try_from("ab"),
        Err(FixedUtf16Error::WrongCodeUnitCount { expected: 3, found: 2 })
    );
    assert_eq!(
        FixedUtf16LeCodeUnits::<3>::try_from("abcdef"),
        Err(FixedUtf16Error::WrongCodeUnitCount { expected: 3, found: 4 })
    );
    assert_eq!(
        FixedUtf32LeCodeUnits::<1>::try_from(&[1u32, 2][..]),
        Err(FixedUtf32Error::WrongCodeUnitCount { expected: 1, found: 2 })
    );
    assert_eq!(
        FixedTextError::from(FixedUtf16Error::WrongCodeUnitCount { expected: 3, found: 4 }),
        FixedTextError::WrongCodepointCount { expected: 3, found: 4 }
    );
    assert_eq!(
        FixedTextError::from(FixedUtf8Error::InvalidUtf8),
        FixedTextError::WrongCodepointCount { expected: 0, found: 0 }
    );
}

#[test]
fn packed_fields_decode_all_units_on_any_host() {
    let p = FixedUtf16LePacked::<2>::try_from("hé").unwrap();
    assert_eq!(String::try_from(&p).unwrap(), "hé");
    let b = FixedUtf16BeCodeUnits::<2>::try_from("hé").unwrap();
    let natives: Vec<u16> = b.as_units().iter().map(|u| u.to_native()).collect();
    assert_eq!(natives, vec![0x68, 0xE9]);
    assert_eq!(String::try_from(&b).unwrap(), "hé");
    let lone = FixedUtf16LeCodeUnits::<1>::try_from(&[0xD800u16][..]).unwrap();
    if !host_is_big() {
        assert_eq!(String::try_from(&lone), Err(FixedUtf16Error::InvalidUtf16));
    }
}

#[test]
fn null_padded_fields_stop_at_the_first_zero() {
    let f = FixedUtf16LeNullPadded::<8>::try_from("abc").unwrap();
    assert_eq!(String::try_from(&f).unwrap(), "abc");
    let b = FixedUtf16BeNullPadded::<4>::try_from("AB").unwrap();
    let natives: Vec<u16> = b.0.as_units().iter().map(|u| u.to_native()).collect();
    assert_eq!(natives, vec![0x41, 0x42, 0, 0]);
    let mut wire = Vec::new();
    write_to_extend(&b, &mut wire).unwrap();
    assert_eq!(wire, vec![0, 0x41, 0, 0x42, 0, 0, 0, 0]);
    assert_eq!(String::try_from(&b).unwrap(), "AB");
    assert_eq!(
        FixedUtf16LeNullPadded::<2>::try_from("abc"),
        Err(FixedUtf16Error::WrongCodeUnitCount { expected: 2, found: 3 })
    );
    let g = FixedUtf32LeNullPadded::<4>::try_from("x😀").unwrap();
    assert_eq!(String::try_from(&g).unwrap(), "x😀");
}

#[test]
fn space_padded_utf16_fields_round_trip_on_any_host() {
    let le = FixedUtf16LeSpacePadded::<6>::try_from("ab c").unwrap();
    assert_eq!(String::try_from(&le).unwrap(), "ab c");
    let be = FixedUtf16BeSpacePadded::<6>::try_from("𝄞x").unwrap();
    assert_eq!(String::try_from(&be).unwrap(), "𝄞x");
    let trailing = FixedUtf16LeSpacePadded::<6>::try_from("ab ").unwrap();
    assert_eq!(String::try_from(&trailing).unwrap(), "ab");
}

#[test]
fn space_padded_utf32_fields_round_trip_on_any_host() {
    let le = FixedUtf32LeSpacePadded::<4>::try_from("ok").unwrap();
    assert_eq!(String::try_from(&le).unwrap(), "ok");
    let be = FixedUtf32BeSpacePadded::<4>::try_from("AB").unwrap();
    let natives: Vec<u32> = be.0.as_units().iter().map(|u| u.to_native()).collect();
    assert_eq!(natives, vec![0x41, 0x42, 0x20, 0x20]);
    assert_eq!(String::try_from(&be).unwrap(), "AB");
}

#[test]
fn endian_wrapped_code_units_pad_with_nul() {
    let name: LittleEndian<FixedUtf16CodeUnits<16>> = "HELLO".try_into().unwrap();
    let units: Vec<u16> = name.to_native().as_units().iter().map(|u| u.to_native()).collect();
    let mut expected = vec![0x48u16, 0x45, 0x4C, 0x4C, 0x4F];
    expected.resize(16, 0);
    assert_eq!(units, expected);
    let long: Result<BigEndian<FixedUtf32CodeUnits<2>>, FixedUtf32Error> = "abc".try_into();
    assert_eq!(long, Err(FixedUtf32Error::WrongCodeUnitCount { expected: 2, found: 3 }));
}

#[test]
fn fixed_fields_on_the_wire() {
    let f = FixedUtf16BeSpacePadded::<3>::try_from("hi").unwrap();
    let mut buf = Vec::new();
    write_to_extend(&f, &mut buf).unwrap();
    assert_eq!(buf, vec![0x00, b'h', 0x00, b'i', 0x00, b' ']);
    let back: FixedUtf16BeSpacePadded<3> = read_from_slice(&buf).unwrap();
    assert_eq!(back, f);
    assert_eq!(String::try_from(&back).unwrap(), "hi");

    let n = FixedUtf16LeNullPadded::<2>::try_from("a").unwrap();
    let mut wire = Vec::new();
    write_to_extend(&n, &mut wire).unwrap();
    wire.push(0xff);
    let again: FixedUtf16LeNullPadded<2> = read_from_slice(&wire).unwrap();
    assert_eq!(again, n);
    let short: Result<FixedUtf16BeNullPadded<2>, &'static str> = read_from_slice(&[0u8; 3]);
    assert_eq!(short, Err("insufficient data"));

    let u = FixedUtf8SpacePadded::<4>::try_from("ab").unwrap();
    let mut ubuf = Vec::new();
    write_to_extend(&u, &mut ubuf).unwrap();
    assert_eq!(ubuf, b"ab  ".to_vec());
    let uback: FixedUtf8SpacePadded<4> = read_from_slice(&ubuf).unwrap();
    assert_eq!(uback, u);
}

#[test]
fn owned_byte_order_change_keeps_natives() {
    let be = FixedUtf16BeCodeUnits::<2>::try_from(&[0x0102u16, 0x0304][..]).unwrap();
    let le = SpecificEndianOwned::to_little_endian(&be);
    let natives: Vec<u16> = be.as_units().iter().map(|u| u.to_native()).collect();
    let le_natives: Vec<u16> = le.as_units().iter().map(|u| u.to_native()).collect();
    assert_eq!(natives, le_natives);
    let back = SpecificEndianOwned::to_big_endian(&le);
    assert_eq!(back, be);
}

#[test]
fn codepoint_strings() {
    let s = FixedCodepointString::<3>::try_from("a🦀c").unwrap();
    assert_eq!(s.to_string_lossless(), "a🦀c");
    assert_eq!(s.as_chars(), &['a', '🦀', 'c']);
    assert_eq!(String::from(&s), "a🦀c");
    let view: FixedCodepointStr<3> = s.as_str_view();
    assert_eq!(String::from(view), "a🦀c");
    assert_eq!(FixedCodepointString::<3>::from(view), s);
    assert_eq!(
        FixedCodepointString::<3>::try_from("ab"),
        Err(FixedTextError::WrongCodepointCount { expected: 3, found: 2 })
    );
    assert_eq!(
        FixedCodepointString::<3>::try_from(String::from("abcdef")),
        Err(FixedTextError::WrongCodepointCount { expected: 3, found: 4 })
    );
}

#[test]
fn utf8_fields() {
    let n = FixedUtf8NullPadded::<6>::try_from("héllo").unwrap();
    assert_eq!(n.0.as_bytes(), &[b'h', 0xc3, 0xa9, b'l', b'l', b'o']);
    assert_eq!(String::try_from(&n).unwrap(), "héllo");
    let z = FixedUtf8NullPadded::<8>::try_from("hi").unwrap();
    assert_eq!(Vec::<u8>::from(&z), vec![b'h', b'i', 0, 0, 0, 0, 0, 0]);
    assert_eq!(String::try_from(&z).unwrap(), "hi");
    assert_eq!(
        FixedUtf8NullPadded::<4>::try_from("hello"),
        Err(FixedUtf8Error::TooManyBytes { max: 4, found: 5 })
    );
    let bad = FixedUtf8NullPadded::<2>(simple_endian::FixedUtf8Bytes::from([0xff, 0x41]));
    assert_eq!(String::try_from(&bad), Err(FixedUtf8Error::InvalidUtf8));
    let sp = FixedUtf8SpacePadded::<5>::try_from(String::from("ab")).unwrap();
    assert_eq!(String::try_from(&sp).unwrap(), "ab");
}

#[test]
fn fixed_error_messages() {
    assert_eq!(
        FixedTextError::WrongCodepointCount { expected: 3, found: 12 }.to_string(),
        "wrong number of codepoints (expected 3, found 12)"
    );
    assert_eq!(
        FixedUtf16Error::WrongCodeUnitCount { expected: 0, found: 105 }.to_string(),
        "wrong number of UTF-16 code units (expected 0, found 105)"
    );
    assert_eq!(FixedUtf16Error::InvalidUtf16.to_string(), "invalid UTF-16");
    assert_eq!(
        FixedUtf32Error::WrongCodeUnitCount { expected: 4, found: 5 }.to_string(),
        "wrong number of UTF-32 code units (expected 4, found 5)"
    );
    assert_eq!(
        FixedUtf8Error::TooManyBytes { max: 4, found: 1000 }.to_string(),
        "UTF-8 string too long (max 4 bytes, found 1000)"
    );
    assert_eq!(FixedUtf8Error::InvalidUtf8.to_string(), "invalid UTF-8");
}

#[test]
fn fixed_code_units_as_text() {
    let le = FixedUtf16LeCodeUnits::<2>::try_from("hi").unwrap();
    let lone = FixedUtf16LeCodeUnits::<1>::try_from(&[0xD800u16][..]).unwrap();
    let be = FixedUtf16BeCodeUnits::<1>::try_from(&[0xD800u16][..]).unwrap();
    if !host_is_big() {
        assert_eq!(le.to_string(), "hi");
        assert_eq!(lone.to_string(), "<invalid UTF-16>");
        // Raw bits tagged big-endian read back byte-swapped: 0x00D8 is 'Ø'.
        assert_eq!(be.to_string(), "Ø");
    }
    let s = FixedCodepointString::<2>::try_from("ok").unwrap();
    assert_eq!(s.to_string(), "ok");
}

#[test]
fn fixed_utf32_be_units_are_read_from_four_byte_groups() {
    let data = [0, 0, 0, 0x41, 0, 0x01, 0xF6, 0x00, 0xff];
    let r: FixedUtf32BeCodeUnits<2> = read_from_slice(&data).unwrap();
    let natives: Vec<u32> = r.as_units().iter().map(|u| u.to_native()).collect();
    assert_eq!(natives, vec![0x41, 0x1F600]);
    let short: Result<FixedUtf32BeCodeUnits<2>, &'static str> = read_from_slice(&data[..7]);
    assert_eq!(short, Err("insufficient data"));
}
