//! The chunk-type tag: four bytes, checked on construction, and the flags
//! that the case of each letter carries.

use crate::letter::{all_letters, bit5, has_bit5, is_ascii_letter, is_letter};
use vstd::prelude::*;
use vstd::std_specs::cmp::PartialEqSpecImpl;
use vstd::std_specs::convert::TryFromSpecImpl;
use vstd::string::StringSliceAdditionalSpecFns;

verus! {

/// Why a tag could not be built.
#[derive(Debug, Clone, Copy, PartialEq, Eq)]
pub enum ChunkTypeError {
    /// Some byte is no ASCII letter. `mask` tells of each of the four
    /// positions whether its byte is one.
    InvalidByteRange { mask: [bool; 4] },
    /// The text is not four bytes long.
    SizeMismatch,
    /// Bit 5 of the third byte is set.
    ReservedBitInvalid,
}

/// A chunk-type tag. It holds four bytes and never changes.
///
/// The constructors accept ASCII letters only. The queries are defined on
/// every four bytes all the same, and none of them depends on how the value
/// was made.
#[derive(Debug, Clone, Copy)]
pub struct ChunkType(u8, u8, u8, u8);

impl View for ChunkType {
    type V = Seq<u8>;

    /// The four bytes, in order.
    closed spec fn view(&self) -> Seq<u8> {
        seq![self.0, self.1, self.2, self.3]
    }
}

/// For each of the first four bytes of `bytes`, whether it is an ASCII letter.
pub open spec fn mask_of(bytes: Seq<u8>) -> [bool; 4] {
    [
        is_ascii_letter(bytes[0]),
        is_ascii_letter(bytes[1]),
        is_ascii_letter(bytes[2]),
        is_ascii_letter(bytes[3]),
    ]
}

/// What checking the byte range makes of four bytes: the tag that holds
/// them, where all four are ASCII letters; else the mask that marks those
/// that are not.
pub open spec fn validated(bytes: Seq<u8>) -> Result<ChunkType, ChunkTypeError>
    recommends
        bytes.len() == 4,
{
    if all_letters(bytes) {
        Ok(ChunkType::raw(bytes))
    } else {
        Err(ChunkTypeError::InvalidByteRange { mask: mask_of(bytes) })
    }
}

/// What parsing makes of the bytes of a text: a text of any length but four
/// is refused for its size, and four bytes are checked as `validated` says.
pub open spec fn parsed(bytes: Seq<u8>) -> Result<ChunkType, ChunkTypeError> {
    if bytes.len() == 4 {
        validated(bytes)
    } else {
        Err(ChunkTypeError::SizeMismatch)
    }
}

impl ChunkType {
    /// The tag that holds the first four bytes of `bytes`, letters or not.
    pub closed spec fn raw(bytes: Seq<u8>) -> ChunkType {
        ChunkType(bytes[0], bytes[1], bytes[2], bytes[3])
    }

    /// A tag holds four bytes, and is the one tag that holds them.
    pub proof fn lemma_view(self)
        ensures
            self@.len() == 4,
            ChunkType::raw(self@) == self,
    {
    }

    /// The tag made of four bytes holds those bytes.
    pub proof fn lemma_raw_view(bytes: Seq<u8>)
        requires
            bytes.len() == 4,
        ensures
            ChunkType::raw(bytes)@ == bytes,
    {
    }

    /// Builds a tag from four bytes, which must all be ASCII letters. The
    /// reserved position is not looked at: `is_valid` and
    /// `of_valid_reserved_bit` do that.
    pub fn new(b1: u8, b2: u8, b3: u8, b4: u8) -> (r: Result<ChunkType, ChunkTypeError>)
        ensures
            r == validated(seq![b1, b2, b3, b4]),
            r matches Ok(tag) ==> tag@ == seq![b1, b2, b3, b4],
    {
        ChunkType(b1, b2, b3, b4).of_valid_byte_range()
    }

    /// The four bytes of the tag, as they were given.
    pub fn bytes(&self) -> (r: [u8; 4])
        ensures
            r@ == self@,
    {
        [self.0, self.1, self.2, self.3]
    }

    /// Hands the tag back if its reserved position is in order, and refuses
    /// it otherwise. Called on what a constructor gave, as in
    /// `ChunkType::try_from(bytes)?.of_valid_reserved_bit()`, it builds a tag
    /// that is fully valid or none.
    pub fn of_valid_reserved_bit(self) -> (r: Result<ChunkType, ChunkTypeError>)
        ensures
            self.is_reserved_bit_valid() ==> r == Ok::<ChunkType, ChunkTypeError>(self),
            !self.is_reserved_bit_valid() ==> r == Err::<ChunkType, ChunkTypeError>(
                ChunkTypeError::ReservedBitInvalid,
            ),
    {
        if self.is_reserved_bit_valid() {
            Ok(self)
        } else {
            Err(ChunkTypeError::ReservedBitInvalid)
        }
    }

    /// Hands the tag back if all its bytes are ASCII letters, and otherwise
    /// the mask that marks those that are not.
    pub fn of_valid_byte_range(self) -> (r: Result<ChunkType, ChunkTypeError>)
        ensures
            r == validated(self@),
            self.is_byte_range_valid() ==> r == Ok::<ChunkType, ChunkTypeError>(self),
    {
        let valid_bytes = self.get_valid_bytes();
        if valid_bytes[0] && valid_bytes[1] && valid_bytes[2] && valid_bytes[3] {
            Ok(self)
        } else {
            Err(ChunkTypeError::InvalidByteRange { mask: valid_bytes })
        }
    }

    /// For each position, whether its byte is an ASCII letter. All four
    /// entries are worked out, whatever the first ones are.
    pub fn get_valid_bytes(&self) -> (r: [bool; 4])
        ensures
            r == mask_of(self@),
            forall|i: int| 0 <= i < 4 ==> r[i] == is_ascii_letter(self@[i]),
    {
        [is_letter(self.0), is_letter(self.1), is_letter(self.2), is_letter(self.3)]
    }

    /// A tag is well formed if all four bytes are ASCII letters.
    pub open spec fn spec_is_byte_range_valid(&self) -> bool {
        all_letters(self@)
    }

    /// Whether the tag is well formed.
    #[verifier::when_used_as_spec(spec_is_byte_range_valid)]
    pub fn is_byte_range_valid(&self) -> (r: bool)
        ensures
            r == all_letters(self@),
    {
        let valid_bytes = self.get_valid_bytes();
        valid_bytes[0] && valid_bytes[1] && valid_bytes[2] && valid_bytes[3]
    }

    /// A tag is fully valid if it is well formed and bit 5 of its third byte
    /// is clear.
    pub open spec fn spec_is_valid(&self) -> bool {
        all_letters(self@) && !bit5(self@[2])
    }

    /// Whether the tag is fully valid: well formed, and with its reserved
    /// position in order. This is the query that says whether a tag can be
    /// used.
    #[verifier::when_used_as_spec(spec_is_valid)]
    pub fn is_valid(&self) -> (r: bool)
        ensures
            r == (all_letters(self@) && !bit5(self@[2])),
            r == (self.is_byte_range_valid() && self.is_reserved_bit_valid()),
    {
        self.is_byte_range_valid() && self.is_reserved_bit_valid()
    }

    /// A chunk is critical if bit 5 of the first byte is clear.
    pub open spec fn spec_is_critical(&self) -> bool {
        !bit5(self@[0])
    }

    /// Whether the chunk is critical, not ancillary.
    #[verifier::when_used_as_spec(spec_is_critical)]
    pub fn is_critical(&self) -> (r: bool)
        ensures
            r == !bit5(self@[0]),
    {
        !has_bit5(self.0)
    }

    /// A chunk type is public if bit 5 of the second byte is clear.
    pub open spec fn spec_is_public(&self) -> bool {
        !bit5(self@[1])
    }

    /// Whether the chunk type is public, not private.
    #[verifier::when_used_as_spec(spec_is_public)]
    pub fn is_public(&self) -> (r: bool)
        ensures
            r == !bit5(self@[1]),
    {
        !has_bit5(self.1)
    }

    /// The reserved position is in order if bit 5 of the third byte is clear.
    pub open spec fn spec_is_reserved_bit_valid(&self) -> bool {
        !bit5(self@[2])
    }

    /// Whether the reserved position is in order.
    #[verifier::when_used_as_spec(spec_is_reserved_bit_valid)]
    pub fn is_reserved_bit_valid(&self) -> (r: bool)
        ensures
            r == !bit5(self@[2]),
    {
        !has_bit5(self.2)
    }

    /// A chunk is safe to copy if bit 5 of the fourth byte is set.
    pub open spec fn spec_is_safe_to_copy(&self) -> bool {
        bit5(self@[3])
    }

    /// Whether a tool that does not know the chunk may copy it.
    #[verifier::when_used_as_spec(spec_is_safe_to_copy)]
    pub fn is_safe_to_copy(&self) -> (r: bool)
        ensures
            r == bit5(self@[3]),
    {
        has_bit5(self.3)
    }
}

impl TryFrom<[u8; 4]> for ChunkType {
    type Error = ChunkTypeError;

    /// Builds a tag from its four bytes, as `new` does.
    fn try_from(value: [u8; 4]) -> (r: Result<ChunkType, ChunkTypeError>)
        ensures
            r == validated(value@),
            r matches Ok(tag) ==> tag@ == value@,
    {
        ChunkType::new(value[0], value[1], value[2], value[3])
    }
}

impl TryFromSpecImpl<[u8; 4]> for ChunkType {
    open spec fn obeys_try_from_spec() -> bool {
        true
    }

    open spec fn try_from_spec(value: [u8; 4]) -> Result<ChunkType, ChunkTypeError> {
        validated(value@)
    }
}

impl std::str::FromStr for ChunkType {
    type Err = ChunkTypeError;

    /// Parses a tag from a text of four bytes. What counts is the length in
    /// bytes, not in characters.
    fn from_str(s: &str) -> (r: Result<ChunkType, ChunkTypeError>)
        ensures
            r == parsed(s.spec_bytes()),
            r matches Ok(tag) ==> tag@ == s.spec_bytes(),
    {
        let bytes = s.as_bytes();
        if bytes.len() != 4 {
            Err(ChunkTypeError::SizeMismatch)
        } else {
            ChunkType::new(bytes[0], bytes[1], bytes[2], bytes[3])
        }
    }
}

impl PartialEq for ChunkType {
    /// Compares byte by byte, letters or not.
    fn eq(&self, other: &Self) -> (r: bool) {
        self.0 == other.0 && self.1 == other.1 && self.2 == other.2 && self.3 == other.3
    }
}

impl PartialEqSpecImpl for ChunkType {
    open spec fn obeys_eq_spec() -> bool {
        true
    }

    /// Two tags are equal if they hold the same bytes.
    open spec fn eq_spec(&self, other: &Self) -> bool {
        self@ == other@
    }
}

} // verus!
