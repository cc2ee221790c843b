//! ASCII whitespace as `core` defines it, and the one fact about `core` that
//! this crate takes on trust.

use vstd::prelude::*;

verus! {

/// Whether `byte` is ASCII whitespace in the sense of `core`: horizontal tab
/// (`0x09`), line feed (`0x0A`), form feed (`0x0C`), carriage return (`0x0D`)
/// or space (`0x20`). Vertical tab (`0x0B`) is not among them.
pub open spec fn ascii_whitespace(byte: u8) -> bool {
    byte == 0x09 || byte == 0x0A || byte == 0x0C || byte == 0x0D || byte == 0x20
}

/// Trusted, not proved: [`u8::is_ascii_whitespace`] returns `true` for the
/// five bytes that its documentation lists (U+0009 HORIZONTAL TAB, U+000A LINE
/// FEED, U+000C FORM FEED, U+000D CARRIAGE RETURN and U+0020 SPACE) and
/// `false` for every other byte.
pub assume_specification[ u8::is_ascii_whitespace ](byte: &u8) -> (whitespace: bool)
    ensures
        whitespace == ascii_whitespace(*byte),
;

} // verus!
