//! Text in fixed encodings: UTF-16 and UTF-32 code-unit buffers with explicit byte order, and
//! fixed-size inline text fields.
pub mod unicode;
pub mod utf16;
pub mod utf32;
pub mod fixed;
pub mod encodings;
