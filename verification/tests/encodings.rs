use simple_endian::text_ops::encodings::{
    decode_null_padded, decode_space_padded, encode_null_padded, encode_space_padded,
    field_from_encoded, text_from_decoded, EncodingRsError, TextEncoding,
};

#[test]
fn encodes_into_a_legacy_encoding() {
    let f = encode_null_padded::<4>(&TextEncoding::new(encoding_rs::WINDOWS_1252), "é").unwrap();
    assert_eq!(f.0.as_bytes(), &[0xE9, 0, 0, 0]);
    assert_eq!(decode_null_padded(&TextEncoding::new(encoding_rs::WINDOWS_1252), &f).unwrap(), "é");
    let s = encode_space_padded::<5>(&TextEncoding::new(encoding_rs::WINDOWS_1252), "café").unwrap();
    assert_eq!(s.0.as_bytes(), &[b'c', b'a', b'f', 0xE9, b' ']);
    assert_eq!(decode_space_padded(&TextEncoding::new(encoding_rs::WINDOWS_1252), &s).unwrap(), "café");
}

#[test]
fn encoding_errors() {
    assert_eq!(
        encode_null_padded::<3>(&TextEncoding::new(encoding_rs::WINDOWS_1252), "héllo"),
        Err(EncodingRsError::TooManyBytes { max: 3, found: 5 })
    );
    assert_eq!(
        encode_null_padded::<8>(&TextEncoding::new(encoding_rs::WINDOWS_1252), "😀"),
        Err(EncodingRsError::MalformedInput)
    );
    let bad = encode_null_padded::<2>(&TextEncoding::new(encoding_rs::SHIFT_JIS), "a").unwrap();
    let mut bytes = *bad.0.as_bytes();
    bytes[0] = 0x81;
    let field = simple_endian::FixedUtf8NullPadded(simple_endian::FixedUtf8Bytes::from(bytes));
    assert_eq!(
        decode_null_padded(&TextEncoding::new(encoding_rs::SHIFT_JIS), &field),
        Err(EncodingRsError::MalformedInput)
    );
}

#[test]
fn encoding_error_messages() {
    assert_eq!(
        EncodingRsError::TooManyBytes { max: 3, found: 5 }.to_string(),
        "encoded text too long (max 3 bytes, found 5)"
    );
    assert_eq!(EncodingRsError::MalformedInput.to_string(), "malformed input for encoding");
}

#[test]
fn empty_fields_decode_to_empty_text_in_every_encoding() {
    let zeros = simple_endian::FixedUtf8NullPadded(simple_endian::FixedUtf8Bytes::from([0u8; 4]));
    let spaces = simple_endian::FixedUtf8SpacePadded(simple_endian::FixedUtf8Bytes::from([b' '; 4]));
    for e in [encoding_rs::UTF_8, encoding_rs::WINDOWS_1252, encoding_rs::UTF_16LE, encoding_rs::REPLACEMENT] {
        let enc = TextEncoding::new(e);
        assert_eq!(decode_null_padded(&enc, &zeros).unwrap(), "");
        assert_eq!(decode_space_padded(&enc, &spaces).unwrap(), "");
    }
}

#[test]
fn readme_cafe_round_trips_through_windows_1252() {
    let enc = TextEncoding::new(encoding_rs::WINDOWS_1252);
    assert_eq!(enc.name(), "windows-1252");
    let wire = encode_null_padded::<8>(&enc, "café").unwrap();
    assert_eq!(wire.0.as_bytes(), &[0x63, 0x61, 0x66, 0xE9, 0, 0, 0, 0]);
    assert_eq!(decode_null_padded(&enc, &wire).unwrap(), "café");
    let utf8 = TextEncoding::new(encoding_rs::UTF_8);
    let sp = encode_space_padded::<4>(&utf8, "ab").unwrap();
    assert_eq!(sp.0.as_bytes(), &[0x61, 0x62, 0x20, 0x20]);
}

#[test]
fn fields_are_built_from_the_encoding_outcome() {
    let ok = field_from_encoded::<6>(&[0x63, 0x61, 0x66, 0xE9], false, 0x20).unwrap();
    assert_eq!(ok.as_bytes(), &[0x63, 0x61, 0x66, 0xE9, 0x20, 0x20]);
    assert_eq!(
        field_from_encoded::<3>(&[1, 2, 3, 4], false, 0),
        Err(EncodingRsError::TooManyBytes { max: 3, found: 4 })
    );
    assert_eq!(field_from_encoded::<8>(&[1], true, 0), Err(EncodingRsError::MalformedInput));
    assert_eq!(text_from_decoded(Some(String::from("é"))), Ok(String::from("é")));
    assert_eq!(text_from_decoded(None), Err(EncodingRsError::MalformedInput));
}
