//! ASCII letters, and the bit that tells their case.

use vstd::prelude::*;

verus! {

/// Whether `b` is an ASCII letter: `A` to `Z` (65 to 90) or `a` to `z`
/// (97 to 122).
pub open spec fn is_ascii_letter(b: u8) -> bool {
    65 <= b <= 90 || 97 <= b <= 122
}

/// Whether bit 5 of `b`, the bit of value `0x20`, is set.
pub open spec fn bit5(b: u8) -> bool {
    b & 0x20 == 0x20
}

/// Whether every byte of `bytes` is an ASCII letter.
pub open spec fn all_letters(bytes: Seq<u8>) -> bool {
    forall|i: int| 0 <= i < bytes.len() ==> is_ascii_letter(#[trigger] bytes[i])
}

/// Tells whether a byte is an ASCII letter.
pub fn is_letter(b: u8) -> (r: bool)
    ensures
        r == is_ascii_letter(b),
{
    (65 <= b && b <= 90) || (97 <= b && b <= 122)
}

/// Reads bit 5 of a byte.
pub fn has_bit5(b: u8) -> (r: bool)
    ensures
        r == bit5(b),
{
    b & 0x20 == 0x20
}

/// Bit 5 of an ASCII letter is its case: clear in an upper-case letter, set
/// in a lower-case one.
pub proof fn lemma_bit5_is_lower_case(b: u8)
    requires
        is_ascii_letter(b),
    ensures
        bit5(b) <==> 97 <= b <= 122,
        !bit5(b) <==> 65 <= b <= 90,
{
    assert((65 <= b <= 90 || 97 <= b <= 122) ==> ((b & 0x20 == 0x20) <==> 97 <= b <= 122))
        by (bit_vector);
}

/// The two cases of a letter differ in bit 5 and in nothing else: setting the
/// bit in an upper-case letter adds 32, which gives the same letter in lower
/// case.
pub proof fn lemma_cases_differ_in_bit5(b: u8)
    requires
        65 <= b <= 90,
    ensures
        b | 0x20 == b + 32,
        (b | 0x20) & 0xdf == b,
{
    assert(65 <= b <= 90 ==> b | 0x20 == b + 32) by (bit_vector);
    assert(65 <= b <= 90 ==> (b | 0x20) & 0xdf == b) by (bit_vector);
}

} // verus!
