# simple_endian

Endian-tagged values whose byte order is part of their type, with their conversions proved
correct by Verus. The legacy-encoding helpers rest on `encoding_rs`: their contracts state what
the library does with the bytes or text that the crate's encoder and decoder give, which are
named (`encoded_by`, `decoded_by`) rather than proved.

* `BigEndian<T>` / `LittleEndian<T>` hold a value in a declared byte order. `from`/`into`
  store a host-order value, `to_native` reads it back, and the stored bytes lie in memory in
  the declared order on every machine (`law_u16_storage_order` and its siblings).
* Bitwise, shift, arithmetic and ordering operations act on the host-order values.
* `read_from_slice` / `write_to_extend` convert to and from wire bytes; what is written is
  read back (`law_u16_wire_round_trip` and the fixed-field wire laws).
* `text_ops` holds UTF-16 / UTF-32 code-unit buffers in either byte order, fixed-size text
  fields (packed, NUL-padded, space-padded, fixed codepoint counts, UTF-8 bytes), and
  `text_ops::encodings`, which uses `encoding_rs` (through `TextEncoding`) for fixed fields in
  legacy encodings. A fixed field's byte order belongs to its code units on every host.

## Layout

* `src/` — the verified library. Contracts are stated over the host byte order
  (`spec_host_big`), byte sequences (`le_bytes`, `be_bytes`, `le_value`) and Unicode code-unit
  sequences (`encode_utf16`, `decode_utf16`, `encode_utf32`, `decode_utf32`, and vstd's UTF-8
  model). Public `law_*` proof functions state the properties that hold across operations.
* `tests/` — tests on concrete values.
* `app/` — the `std::io` layer (`read_specific`, `write_specific`, `read_native`, ...), which
  moves bytes between streams and the library's slice functions.
