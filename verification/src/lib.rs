//! Endian-tagged numeric wrappers, wire-format helpers and fixed-encoding text fields.
//!
//! `BigEndian<T>` and `LittleEndian<T>` hold a value in a declared byte order; `from`/`into`
//! store a host-order value and `to_native` reads it back, so a struct of such fields has the
//! same bytes on every machine.
mod byte_order;

pub use byte_order::{Endian, host_endian};

mod specific_endian;

pub use specific_endian::{
    BigEndian, LittleEndian, SpecificEndian, SpecificEndianOwned, big_bits, big_natives, big_stored,
    little_bits, little_natives, little_stored, round_trips,
};

mod simple_endian;

pub use simple_endian::SimpleEndian;

mod bitwise_ops;
mod comparison_ops;
mod formatting_ops;
mod math_ops;
mod messages;
mod shift_ops;

pub use specific_endian::{
    law_i128_storage_order, law_i16_storage_order, law_i32_storage_order,
    law_i64_storage_order, law_isize_storage_order, law_round_trip_bool, law_round_trip_char,
    law_round_trip_i128, law_round_trip_i16, law_round_trip_i32, law_round_trip_i64,
    law_round_trip_i8, law_round_trip_isize, law_round_trip_u128, law_round_trip_u16,
    law_round_trip_u32, law_round_trip_u64, law_round_trip_u8, law_round_trip_usize,
    law_u128_storage_order, law_u16_storage_order, law_u32_storage_order,
    law_u64_storage_order, law_usize_storage_order, usize_bytes,
};

pub use bitwise_ops::{
    law_bitwise_bool, law_bitwise_i128, law_bitwise_i16, law_bitwise_i32, law_bitwise_i64,
    law_bitwise_i8, law_bitwise_isize, law_bitwise_u128, law_bitwise_u16, law_bitwise_u32,
    law_bitwise_u64, law_bitwise_u8, law_bitwise_usize,
};

pub use shift_ops::{
    law_shift_i128, law_shift_i16, law_shift_i32, law_shift_i64, law_shift_i8, law_shift_isize,
    law_shift_u128, law_shift_u16, law_shift_u32, law_shift_u64, law_shift_u8, law_shift_usize,
};

pub use formatting_ops::{radix_digit_char, radix_text};

pub use math_ops::{
    law_add_native, law_div_native, law_mul_native, law_sub_native,
};

mod shorthand_types;

pub use shorthand_types::{
    i128be, i128le, i16be, i16le, i32be, i32le, i64be, i64le, isizebe, isizele, u128be, u128le,
    u16be, u16le, u32be, u32le, u64be, u64le, usizebe, usizele,
};

mod io;
mod tuple_repr;

pub use tuple_repr::{
    law_tuple2_repr_round_trip, law_tuple3_repr_round_trip, law_tuple4_repr_round_trip,
    law_tuple5_repr_round_trip, law_tuple6_repr_round_trip, law_tuple7_repr_round_trip,
    law_tuple8_repr_round_trip, law_tuple9_repr_round_trip, law_tuple10_repr_round_trip,
    law_tuple11_repr_round_trip, law_tuple12_repr_round_trip, pack_part, unpack_part,
};

pub use io::{
    EndianRepr, EndianValue, FromSlice, from_bytes, from_bytes_to_native, read_from_slice,
    supported_width, write_to_extend,
};
pub use io::{
    law_u128_wire_bytes, law_u128_wire_round_trip, law_u16_wire_bytes, law_u16_wire_round_trip,
    law_u32_wire_bytes, law_u32_wire_round_trip, law_u64_wire_bytes, law_u64_wire_round_trip,
    law_u8_wire_bytes, law_u8_wire_round_trip,
};

pub mod text_ops;

pub use text_ops::utf16::{
    Utf16Error, Utf16Str, Utf16StrBE, Utf16StrLE, Utf16String, Utf16StringBE, Utf16StringLE,
};
pub use text_ops::utf32::{
    Utf32Error, Utf32Str, Utf32StrBE, Utf32StrLE, Utf32String, Utf32StringBE, Utf32StringLE,
};
pub use text_ops::fixed::{
    FixedCodepointStr, FixedCodepointString, FixedTextError, FixedUtf16Error,
};
pub use text_ops::fixed::utf16::{
    FixedUtf16BeCodeUnits, FixedUtf16BeCodeUnitsRef, FixedUtf16BeNullPadded, FixedUtf16BePacked,
    FixedUtf16BeSpacePadded, FixedUtf16CodeUnits, FixedUtf16CodeUnitsEndian,
    FixedUtf16CodeUnitsRef, FixedUtf16CodeUnitsRefEndian, FixedUtf16LeCodeUnits,
    FixedUtf16LeCodeUnitsRef, FixedUtf16LeNullPadded, FixedUtf16LeNullTerminated, FixedUtf16LePacked,
    FixedUtf16LeSpacePadded,
};
pub use text_ops::fixed::utf32::{
    FixedUtf32BeCodeUnits, FixedUtf32BeCodeUnitsRef, FixedUtf32BeNullPadded, FixedUtf32BePacked,
    FixedUtf32BeSpacePadded, FixedUtf32CodeUnits, FixedUtf32CodeUnitsEndian,
    FixedUtf32CodeUnitsRef, FixedUtf32CodeUnitsRefEndian, FixedUtf32Error, FixedUtf32LeCodeUnits,
    FixedUtf32LeCodeUnitsRef, FixedUtf32LeNullPadded, FixedUtf32LePacked, FixedUtf32LeSpacePadded,
};
pub use text_ops::fixed::utf8::{
    FixedUtf8Bytes, FixedUtf8BytesRef, FixedUtf8Error, FixedUtf8NullPadded, FixedUtf8SpacePadded,
};
