//! Decides whether a byte is classified as a space in the POSIX locale.
//!
//! In the POSIX locale the **space** character class holds exactly
//! \<space\>, \<form-feed\>, \<newline\>, \<carriage-return\>, \<tab\> and
//! \<vertical-tab\>. [`is_space`] answers as the C function `isspace` does in
//! that locale. It works on single bytes, not on characters: no byte from
//! `0x80` up is a space.
//!
//! The class itself, as a predicate and as a set, is in [`class`]. What is
//! taken on trust from `core` is in [`ascii`].

use vstd::prelude::*;

pub mod ascii;
pub mod class;

use crate::class::is_posix_space;

verus! {

/// Determines whether `byte` is in the **space** character class of the POSIX
/// locale.
///
/// The answer is `true` for tab (`0x09`), newline (`0x0A`), vertical tab
/// (`0x0B`), form feed (`0x0C`), carriage return (`0x0D`) and space (`0x20`),
/// and `false` for each of the other 250 bytes.
///
/// This differs from [`u8::is_ascii_whitespace`] in one byte: vertical tab is
/// a space here.
#[must_use]
#[inline]
pub fn is_space(byte: u8) -> (space: bool)
    ensures
        space == is_posix_space(byte),
        byte >= 0x80 ==> !space,
{
    byte.is_ascii_whitespace() || byte == 0x0B
}

/// `is_space` accepts every byte: it asks nothing of its caller.
pub proof fn lemma_is_space_total(byte: u8)
    ensures
        call_requires(is_space, (byte,)),
{
}

/// `is_space` is deterministic: whatever two calls with the same byte return,
/// they return the same answer.
pub proof fn lemma_is_space_deterministic(byte: u8, first: bool, second: bool)
    requires
        call_ensures(is_space, (byte,), first),
        call_ensures(is_space, (byte,), second),
    ensures
        first == second,
{
}

} // verus!
