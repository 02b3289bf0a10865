//! What holds of the constructors, the queries and the text of a tag taken
//! together.

use crate::chunk_type::{mask_of, parsed, validated, ChunkType, ChunkTypeError};
use crate::letter::{all_letters, bit5, is_ascii_letter};
use crate::text::text_of;
use vstd::prelude::*;
use vstd::std_specs::cmp::PartialEqSpec;
use vstd::utf8::{
    char_u32_cast, encode_scalar, encode_utf8, has_width_1_encoding, is_ascii_chars,
    is_ascii_chars_encode_utf8,
};

verus! {

/// Four bytes are accepted exactly when all of them are ASCII letters. The tag
/// that comes back holds those bytes and is well formed, so that it is fully
/// valid as soon as its reserved position is in order.
pub proof fn lemma_validated_tag(bytes: Seq<u8>)
    requires
        bytes.len() == 4,
    ensures
        validated(bytes) is Ok <==> all_letters(bytes),
        validated(bytes) matches Ok(tag) ==> tag@ == bytes && tag.is_byte_range_valid(),
        validated(bytes) matches Ok(tag) ==> (tag.is_valid() <==> tag.is_reserved_bit_valid()),
{
    ChunkType::lemma_raw_view(bytes);
}

/// Where four bytes are refused, the mask has `false` at each position whose
/// byte is no ASCII letter and `true` at every other, and at least one entry
/// is `false`.
pub proof fn lemma_mask_marks_each_byte(bytes: Seq<u8>)
    requires
        bytes.len() == 4,
        !all_letters(bytes),
    ensures
        validated(bytes) == Err::<ChunkType, ChunkTypeError>(
            ChunkTypeError::InvalidByteRange { mask: mask_of(bytes) },
        ),
        forall|i: int| 0 <= i < 4 ==> mask_of(bytes)[i] == is_ascii_letter(bytes[i]),
        exists|i: int| 0 <= i < 4 && !mask_of(bytes)[i],
{
    let i = choose|i: int| 0 <= i < bytes.len() && !is_ascii_letter(bytes[i]);
    assert(!mask_of(bytes)[i]);
}

/// Each flag reads bit 5 of its own byte and nothing else: two tags that agree
/// on that bit agree on the flag, whatever their other bytes are.
pub proof fn lemma_flag_reads_own_byte(a: ChunkType, b: ChunkType)
    ensures
        bit5(a@[0]) == bit5(b@[0]) ==> a.is_critical() == b.is_critical(),
        bit5(a@[1]) == bit5(b@[1]) ==> a.is_public() == b.is_public(),
        bit5(a@[2]) == bit5(b@[2]) ==> a.is_reserved_bit_valid() == b.is_reserved_bit_valid(),
        bit5(a@[3]) == bit5(b@[3]) ==> a.is_safe_to_copy() == b.is_safe_to_copy(),
{
}

/// A tag is fully valid exactly when it is well formed and bit 5 of its third
/// byte is clear. Without either, it is not.
pub proof fn lemma_full_validity(tag: ChunkType)
    ensures
        tag.is_valid() <==> tag.is_byte_range_valid() && !bit5(tag@[2]),
        !tag.is_byte_range_valid() ==> !tag.is_valid(),
        bit5(tag@[2]) ==> !tag.is_valid(),
{
}

/// Equality of tags is equality of their bytes, for any bytes.
pub proof fn lemma_eq_is_byte_equality(a: ChunkType, b: ChunkType)
    ensures
        a.eq_spec(&b) <==> a@ == b@,
        a.eq_spec(&b) <==> a == b,
{
    a.lemma_view();
    b.lemma_view();
}

/// A tag equals itself.
pub proof fn lemma_eq_reflexive(a: ChunkType)
    ensures
        a.eq_spec(&a),
{
}

/// Equality of tags does not depend on the side.
pub proof fn lemma_eq_symmetric(a: ChunkType, b: ChunkType)
    ensures
        a.eq_spec(&b) <==> b.eq_spec(&a),
{
}

/// Two tags that equal a third equal each other.
pub proof fn lemma_eq_transitive(a: ChunkType, b: ChunkType, c: ChunkType)
    requires
        a.eq_spec(&b),
        b.eq_spec(&c),
    ensures
        a.eq_spec(&c),
{
}

/// The text of a well-formed tag is ASCII, and its bytes are those of the tag.
proof fn lemma_text_bytes(bytes: Seq<u8>)
    requires
        all_letters(bytes),
    ensures
        is_ascii_chars(text_of(bytes)),
        encode_utf8(text_of(bytes)) == bytes,
{
    let chars = text_of(bytes);
    assert forall|i: int| 0 <= i < chars.len() implies '\0' <= #[trigger] chars[i] <= '\u{7f}' by {
        assert(is_ascii_letter(bytes[i]));
    }
    is_ascii_chars_encode_utf8(chars);
    assert forall|i: int| 0 <= i < bytes.len() implies encode_utf8(chars)[i] == bytes[i] by {
        assert(is_ascii_letter(bytes[i]));
        assert(chars[i] as u8 == bytes[i]);
    }
    assert(encode_utf8(chars) =~= bytes);
}

/// A well-formed tag, written as text and parsed again, is the same tag.
pub proof fn lemma_text_round_trip(tag: ChunkType)
    requires
        tag.is_byte_range_valid(),
    ensures
        parsed(encode_utf8(text_of(tag@))) == Ok::<ChunkType, ChunkTypeError>(tag),
{
    tag.lemma_view();
    lemma_text_bytes(tag@);
}

/// A text whose bytes are all below 128 is made of ASCII characters: the
/// first byte of a character that takes more than one byte is 192 or more.
proof fn lemma_low_bytes_are_ascii(chars: Seq<char>)
    requires
        forall|i: int| 0 <= i < encode_utf8(chars).len() ==> encode_utf8(chars)[i] < 0x80,
    ensures
        is_ascii_chars(chars),
    decreases chars.len(),
{
    if chars.len() > 0 {
        let first = chars[0] as u32;
        let head = encode_scalar(first);
        let rest = chars.drop_first();
        let bytes = encode_utf8(chars);
        assert(bytes == head + encode_utf8(rest));
        assert(has_width_1_encoding(first)) by {
            let two = ((first >> 6) & 0x1F) as u8;
            let three = ((first >> 12) & 0x0F) as u8;
            let four = ((first >> 18) & 0x7) as u8;
            assert(0xC0u8 | two >= 0x80) by (bit_vector);
            assert(0xE0u8 | three >= 0x80) by (bit_vector);
            assert(0xF0u8 | four >= 0x80) by (bit_vector);
            assert(bytes[0] == head[0]);
        }
        assert forall|i: int| 0 <= i < encode_utf8(rest).len() implies encode_utf8(rest)[i]
            < 0x80 by {
            assert(encode_utf8(rest)[i] == bytes[i + 1]);
        }
        lemma_low_bytes_are_ascii(rest);
        assert forall|i: int| 0 <= i < chars.len() implies '\0' <= #[trigger] chars[i]
            <= '\u{7f}' by {
            if i > 0 {
                assert(chars[i] == rest[i - 1]);
            } else {
                char_u32_cast(chars[0], first);
            }
        }
    }
}

/// A text that parses is the text of the tag that it gives: writing is the
/// inverse of parsing.
pub proof fn lemma_parse_then_text(chars: Seq<char>)
    ensures
        parsed(encode_utf8(chars)) matches Ok(tag) ==> text_of(tag@) == chars,
{
    let bytes = encode_utf8(chars);
    if parsed(bytes) is Ok {
        ChunkType::lemma_raw_view(bytes);
        assert forall|i: int| 0 <= i < bytes.len() implies bytes[i] < 0x80 by {
            assert(is_ascii_letter(bytes[i]));
        }
        lemma_low_bytes_are_ascii(chars);
        is_ascii_chars_encode_utf8(chars);
        assert forall|i: int| 0 <= i < chars.len() implies text_of(bytes)[i] == chars[i] by {
            assert(chars[i] as u8 == bytes[i]);
            assert('\0' <= chars[i] <= '\u{7f}');
        }
        assert(text_of(bytes) =~= chars);
    }
}

} // verus!
