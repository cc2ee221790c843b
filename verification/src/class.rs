//! The **space** character class of the POSIX locale, as a predicate on bytes
//! and as a set of bytes, with what holds of it.

use vstd::prelude::*;
use vstd::set_lib::{lemma_set_difference_len, FiniteRange};
use crate::ascii::ascii_whitespace;

verus! {

/// Whether `byte` is in the **space** class of the POSIX locale: tab
/// (`0x09`), newline (`0x0A`), vertical tab (`0x0B`), form feed (`0x0C`),
/// carriage return (`0x0D`) or space (`0x20`).
pub open spec fn is_posix_space(byte: u8) -> bool {
    byte == 0x09 || byte == 0x0A || byte == 0x0B || byte == 0x0C || byte == 0x0D || byte == 0x20
}

/// The **space** class as a set of bytes.
pub open spec fn space_class() -> Set<u8> {
    Set::new(|byte: u8| is_posix_space(byte))
}

/// The class is ASCII whitespace together with vertical tab, and vertical tab
/// is not ASCII whitespace: a test for ASCII whitespace alone misses it.
pub proof fn lemma_space_is_ascii_whitespace_or_vertical_tab(byte: u8)
    ensures
        is_posix_space(byte) <==> ascii_whitespace(byte) || byte == 0x0B,
        is_posix_space(0x0B),
        !ascii_whitespace(0x0B),
{
}

/// The class holds six bytes, these and no others.
pub proof fn lemma_space_class_members()
    ensures
        space_class() == set![0x09u8, 0x0Au8, 0x0Bu8, 0x0Cu8, 0x0Du8, 0x20u8],
        space_class().finite(),
        space_class().len() == 6,
{
    assert(space_class() =~= set![0x09u8, 0x0Au8, 0x0Bu8, 0x0Cu8, 0x0Du8, 0x20u8]);
}

/// Of the 256 bytes, 250 are outside the class.
pub proof fn lemma_non_space_count()
    ensures
        space_class().complement().finite(),
        space_class().complement().len() == 250,
{
    let bytes = Set::<u8>::full();
    assert(bytes.finite() && bytes.len() == 256) by {
        u8::range_properties(u8::MIN, u8::MAX);
        assert(bytes =~= Set::range_inclusive(u8::MIN, u8::MAX));
    }
    lemma_space_class_members();
    assert(space_class().complement() =~= bytes.difference(space_class()));
    assert(bytes.intersect(space_class()) =~= space_class());
    lemma_set_difference_len(bytes, space_class());
}

} // verus!
