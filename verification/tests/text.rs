use simple_endian::{
    LittleEndian, SpecificEndianOwned, Utf16Error, Utf16StrBE, Utf16StringBE, Utf16StringLE,
    Utf32Error, Utf32StringBE, Utf32StringLE,
};

#[test]
fn utf16_strings_round_trip() {
    let text = "héllo 𝄞";
    let be = Utf16StringBE::from(text);
    assert_eq!(String::try_from(&be).unwrap(), text);
    let le = Utf16StringLE::from(text);
    assert_eq!(String::try_from(&le).unwrap(), text);
    assert_eq!(be.0.len(), 8);
    assert_eq!(be.0[6].to_native(), 0xD834);
    assert_eq!(String::try_from(Utf16StrBE::from(be.0.as_slice())).unwrap(), text);
}

#[test]
fn utf16_unpaired_surrogate_is_an_error() {
    let bad = Utf16StringLE(vec![LittleEndian::from(0x61u16), LittleEndian::from(0xDC00u16)]);
    assert_eq!(String::try_from(&bad), Err(Utf16Error::InvalidUtf16));
}

#[test]
fn utf16_byte_order_change_keeps_text() {
    let be = Utf16StringBE::from("ab€");
    let le: Utf16StringLE = be.to_little_endian();
    assert_eq!(String::try_from(&le).unwrap(), "ab€");
    let back: Utf16StringBE = le.to_big_endian();
    assert_eq!(back, be);
}

#[test]
fn utf32_strings_round_trip() {
    let text = "a🦀z";
    let be = Utf32StringBE::from(text);
    assert_eq!(be.0.len(), 3);
    assert_eq!(be.0[1].to_native(), 0x1F980);
    assert_eq!(String::try_from(&be).unwrap(), text);
    let le = Utf32StringLE::from(text);
    assert_eq!(String::try_from(&le).unwrap(), text);
    let bad = Utf32StringLE(vec![LittleEndian::from(0x110000u32)]);
    assert_eq!(String::try_from(&bad), Err(Utf32Error::InvalidUtf32));
}

#[test]
fn code_unit_buffers_deref_and_iterate() {
    let be = Utf16StringBE::from("ab");
    assert_eq!(be.len(), 2);
    let natives: Vec<u16> = (&be).into_iter().map(|u| u.to_native()).collect();
    assert_eq!(natives, vec![0x61, 0x62]);
    let view = Utf16StrBE::from(be.0.as_slice());
    assert_eq!(view.len(), 2);
    let count = view.into_iter().count();
    assert_eq!(count, 2);
    let owned: Vec<u32> = Utf32StringLE::from("xyz").into_iter().map(|u| u.to_native()).collect();
    assert_eq!(owned, vec![0x78, 0x79, 0x7a]);
}

#[test]
fn error_messages() {
    assert_eq!(Utf16Error::InvalidUtf16.to_string(), "invalid UTF-16");
    assert_eq!(Utf32Error::InvalidUtf32.to_string(), "invalid UTF-32");
}
