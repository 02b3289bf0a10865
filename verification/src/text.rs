//! Tags and errors as text.

use crate::chunk_type::{ChunkType, ChunkTypeError};
use vstd::prelude::*;
use vstd::string::StringExecFns;

verus! {

/// `String::push` of the standard library, which vstd leaves without a
/// specification. Its documentation says that it appends the given character
/// to the end of the string: the text afterwards is the text before with `ch`
/// as one more character at its end.
pub assume_specification[ String::push ](s: &mut String, ch: char)
    ensures
        final(s)@ == old(s)@.push(ch),
;

/// The text of a tag: each byte read as the character of that code. For an
/// ASCII letter that is the letter.
pub open spec fn text_of(bytes: Seq<u8>) -> Seq<char> {
    Seq::new(bytes.len(), |i: int| bytes[i] as char)
}

/// How a mask entry is written.
pub open spec fn bool_text(b: bool) -> Seq<char> {
    if b {
        "true"@
    } else {
        "false"@
    }
}

fn push_bool(s: &mut String, b: bool)
    ensures
        final(s)@ == old(s)@ + bool_text(b),
{
    if b {
        s.append("true");
    } else {
        s.append("false");
    }
}

impl ChunkType {
    /// Writes the tag as text, one character for each byte. A tag that a
    /// constructor made comes out as its four letters.
    pub fn to_string(&self) -> (r: String)
        ensures
            r@ == text_of(self@),
    {
        let bytes = self.bytes();
        let mut s = String::new();
        s.push(bytes[0] as char);
        s.push(bytes[1] as char);
        s.push(bytes[2] as char);
        s.push(bytes[3] as char);
        s
    }
}

impl ChunkTypeError {
    /// The message of an error. For a byte out of range it ends with the four
    /// mask entries.
    pub open spec fn text(&self) -> Seq<char> {
        match *self {
            ChunkTypeError::InvalidByteRange { mask } => {
                "Some bytes are out of range!, "@ + bool_text(mask[0]) + ". "@ + bool_text(mask[1])
                    + ". "@ + bool_text(mask[2]) + ". "@ + bool_text(mask[3])
            },
            ChunkTypeError::SizeMismatch => "Number of bytes expected is 4"@,
            ChunkTypeError::ReservedBitInvalid => Seq::empty(),
        }
    }

    /// Writes the message of the error.
    pub fn to_string(&self) -> (r: String)
        ensures
            r@ == self.text(),
    {
        let mut s = String::new();
        match self {
            ChunkTypeError::InvalidByteRange { mask } => {
                s.append("Some bytes are out of range!, ");
                push_bool(&mut s, mask[0]);
                s.append(". ");
                push_bool(&mut s, mask[1]);
                s.append(". ");
                push_bool(&mut s, mask[2]);
                s.append(". ");
                push_bool(&mut s, mask[3]);
            },
            ChunkTypeError::SizeMismatch => {
                s.append("Number of bytes expected is 4");
            },
            ChunkTypeError::ReservedBitInvalid => {},
        }
        s
    }
}

} // verus!
