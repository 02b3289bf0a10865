use pngme::chunk_type::{ChunkType, ChunkTypeError};
use pngme::letter::{has_bit5, is_letter};
use std::convert::TryFrom;
use std::str::FromStr;

fn letters() -> Vec<u8> {
    let mut all: Vec<u8> = (65..=90).collect();
    all.extend(97..=122u8);
    all
}

#[test]
fn text_round_trip_for_every_letter_in_every_position() {
    for a in letters() {
        for b in letters() {
            for tag_bytes in [[a, b, 83, 116], [82, a, b, 116], [82, 117, a, b], [b, 117, 83, a]] {
                let tag = ChunkType::try_from(tag_bytes).unwrap();
                let text = tag.to_string();
                assert_eq!(text.as_bytes(), &tag_bytes);
                assert_eq!(ChunkType::from_str(&text), Ok(tag));
            }
        }
    }
}

#[test]
fn text_round_trip_from_text() {
    for text in ["RuSt", "Rust", "IHDR", "tEXt", "zzzz", "AAAA", "aZaZ"] {
        let tag = ChunkType::from_str(text).unwrap();
        assert_eq!(tag.to_string(), text);
    }
}

#[test]
fn text_is_one_character_for_each_byte() {
    let tag = ChunkType::try_from([73, 72, 68, 82]).unwrap();
    let text = tag.to_string();
    let chars: Vec<char> = text.chars().collect();
    assert_eq!(chars, vec!['I', 'H', 'D', 'R']);
    assert_eq!(text.len(), 4);
}

#[test]
fn flags_read_bit_five_of_their_own_byte() {
    for a in letters() {
        for b in letters() {
            let first = ChunkType::try_from([a, b, b, b]).unwrap();
            assert_eq!(first.is_critical(), a & 0x20 == 0);
            let second = ChunkType::try_from([b, a, b, b]).unwrap();
            assert_eq!(second.is_public(), a & 0x20 == 0);
            let third = ChunkType::try_from([b, b, a, b]).unwrap();
            assert_eq!(third.is_reserved_bit_valid(), a & 0x20 == 0);
            let fourth = ChunkType::try_from([b, b, b, a]).unwrap();
            assert_eq!(fourth.is_safe_to_copy(), a & 0x20 != 0);
        }
    }
}

#[test]
fn flags_follow_the_case_of_the_letter() {
    for a in letters() {
        let upper = a.is_ascii_uppercase();
        let tag = ChunkType::try_from([a, a, a, a]).unwrap();
        assert_eq!(tag.is_critical(), upper);
        assert_eq!(tag.is_public(), upper);
        assert_eq!(tag.is_reserved_bit_valid(), upper);
        assert_eq!(tag.is_safe_to_copy(), !upper);
    }
}

#[test]
fn flags_do_not_depend_on_the_other_bytes() {
    let base = ChunkType::from_str("RuSt").unwrap();
    for x in letters() {
        for y in letters() {
            let other = ChunkType::try_from([82, x, y, x]).unwrap();
            assert_eq!(other.is_critical(), base.is_critical());
            let other = ChunkType::try_from([x, 117, y, x]).unwrap();
            assert_eq!(other.is_public(), base.is_public());
            let other = ChunkType::try_from([x, y, 83, x]).unwrap();
            assert_eq!(other.is_reserved_bit_valid(), base.is_reserved_bit_valid());
            let other = ChunkType::try_from([x, y, x, 116]).unwrap();
            assert_eq!(other.is_safe_to_copy(), base.is_safe_to_copy());
        }
    }
}

#[test]
fn full_validity_is_well_formed_and_reserved_bit_clear() {
    for a in letters() {
        for c in letters() {
            let tag = ChunkType::try_from([a, 117, c, 116]).unwrap();
            assert!(tag.is_byte_range_valid());
            assert_eq!(tag.is_valid(), c & 0x20 == 0);
            assert_eq!(tag.is_valid(), tag.is_byte_range_valid() && tag.is_reserved_bit_valid());
        }
    }
}

#[test]
fn equality_is_reflexive_symmetric_and_transitive() {
    let a = ChunkType::from_str("RuSt").unwrap();
    let b = ChunkType::try_from([82, 117, 83, 116]).unwrap();
    let c = ChunkType::new(82, 117, 83, 116).unwrap();
    assert!(a == a);
    assert!(a == b && b == a);
    assert!(b == c);
    assert!(a == c);
}

#[test]
fn equality_compares_every_byte() {
    let a = ChunkType::from_str("RuSt").unwrap();
    for different in ["QuSt", "RvSt", "RuTt", "RuSu"] {
        let b = ChunkType::from_str(different).unwrap();
        assert!(a != b);
        assert!(b != a);
    }
}

#[test]
fn equality_does_not_fold_case() {
    let a = ChunkType::from_str("RuSt").unwrap();
    for different in ["ruSt", "RUSt", "Rust", "RuST", "rust", "RUST"] {
        assert_ne!(a, ChunkType::from_str(different).unwrap());
    }
}

#[test]
fn equality_is_that_of_the_bytes() {
    for x in letters() {
        for y in letters() {
            let a = ChunkType::try_from([82, x, 83, 116]).unwrap();
            let b = ChunkType::try_from([82, y, 83, 116]).unwrap();
            assert_eq!(a == b, a.bytes() == b.bytes());
        }
    }
}

#[test]
fn message_of_a_byte_out_of_range() {
    let error = ChunkType::from_str("Ru1t").unwrap_err();
    assert_eq!(error.to_string(), "Some bytes are out of range!, true. true. false. true");
    let error = ChunkTypeError::InvalidByteRange { mask: [false, false, true, false] };
    assert_eq!(error.to_string(), "Some bytes are out of range!, false. false. true. false");
}

#[test]
fn message_of_a_wrong_size() {
    let error = ChunkType::from_str("Ru").unwrap_err();
    assert_eq!(error.to_string(), "Number of bytes expected is 4");
}

#[test]
fn message_of_a_reserved_bit() {
    let error = ChunkType::from_str("Rust").unwrap().of_valid_reserved_bit().unwrap_err();
    assert_eq!(error.to_string(), "");
}

#[test]
fn letters_are_told_from_other_bytes() {
    for b in 0..=255u8 {
        assert_eq!(is_letter(b), b.is_ascii_alphabetic());
    }
}

#[test]
fn bit_five_is_read() {
    for b in 0..=255u8 {
        assert_eq!(has_bit5(b), (b >> 5) & 1 == 1);
    }
    assert!(!has_bit5(82));
    assert!(has_bit5(117));
    assert!(!has_bit5(0));
    assert!(has_bit5(32));
    assert!(!has_bit5(64));
    assert!(has_bit5(255));
}
