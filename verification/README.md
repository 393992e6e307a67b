# epaint

A library for artists' paints, verified with Verus: paint properties (transparency,
lightfastness, staining and the rest, each an ordered scale of named grades), paints and the
ranges and series that hold them in key order, mixtures of paints with their parts brought to
lowest terms and their properties mixed, mixing sessions, and the value model of a
hexadecimal entry field.

Layout:

- `src/` is the verified library. `properties.rs` and `property_kinds.rs` hold the property
  scales; `keyed.rs` the sorted keyed lists behind ranges, series and sessions; `paint.rs`,
  `range.rs`, `series.rs` and `mixtures.rs` the paint collections; `range_id.rs` the
  `"<name>:(<proprietor>)"` identifiers; `ratio.rs` greatest common divisors (through the
  `gcd` crate); `digest.rs` SHA-256 digests (through `crypto-hash`); `hex_entry.rs` the
  hexadecimal entry; `text.rs` character-level helpers.
- `tests/` runs the library on concrete values.
- `app/` holds what the library leaves to its callers: JSON reading and writing with
  `serde`, grades as floating-point numbers, and colour mixing supplied by the caller.
