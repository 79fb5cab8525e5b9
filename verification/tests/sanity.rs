use lm_sanity::sanity::align8;
use lm_sanity::sanity::SanityError;
use lm_sanity::sanity::SanityHeader;
use lm_sanity::sanity::FLOAT_MINUS_HALF_BITS;
use lm_sanity::sanity::FLOAT_ONE_BITS;
use lm_sanity::sanity::FLOAT_ZERO_BITS;
use lm_sanity::sanity::PADDED_MAGIC_SIZE;
use lm_sanity::sanity::SANITY_HEADER_SIZE;

#[test]
fn test_reference_expected() {
    let expected = SanityHeader {
        magic: b"mmap lm http://kheafield.com/code format version 5\n\0\0\0\0\0".to_vec(),
        float_zero: 0f32.to_bits(),
        float_one: 1f32.to_bits(),
        float_minus_half: (-0.5f32).to_bits(),
        word_idx_one: 1,
        word_idx_max: u32::MAX,
        usize_sanity: 1,
    };
    assert_eq!(SanityHeader::reference(), expected);
}

#[test]
fn test_float_canary_bits() {
    assert_eq!(FLOAT_ZERO_BITS, 0f32.to_bits());
    assert_eq!(FLOAT_ONE_BITS, 1f32.to_bits());
    assert_eq!(FLOAT_MINUS_HALF_BITS, (-0.5f32).to_bits());
}

#[test]
fn test_padded_magic_exact_bytes() {
    let padded = SanityHeader::padded_magic();
    assert_eq!(padded.len(), PADDED_MAGIC_SIZE);
    assert_eq!(
        padded,
        b"mmap lm http://kheafield.com/code format version 5\n\0\0\0\0\0".to_vec()
    );
}

#[test]
fn test_align8() {
    assert_eq!(align8(0), 8);
    assert_eq!(align8(1), 8);
    assert_eq!(align8(7), 8);
    assert_eq!(align8(8), 8);
    assert_eq!(align8(9), 16);
    assert_eq!(align8(52), 56);
    assert_eq!(align8(53), 56);
    assert_eq!(align8(56), 56);
    assert_eq!(align8(57), 64);
}

#[test]
fn test_round_trip_validates() {
    let reference = SanityHeader::reference();
    let bytes = reference.to_bytes();
    assert_eq!(bytes.len(), SANITY_HEADER_SIZE);
    let validated = SanityHeader::read_and_validate(&bytes).unwrap();
    assert_eq!(validated, reference);
}

#[test]
fn test_reference_prefix_validates() {
    // Only the first SANITY_HEADER_SIZE bytes matter; the rest of the file
    // may hold anything.
    let mut bytes = SanityHeader::reference().to_bytes();
    bytes.extend_from_slice(&[0xde, 0xad, 0xbe, 0xef]);
    let validated = SanityHeader::read_and_validate(&bytes).unwrap();
    assert_eq!(validated, SanityHeader::reference());
}

#[test]
fn test_corruption_of_any_single_byte_fails() {
    let good = SanityHeader::reference().to_bytes();
    for i in 0..SANITY_HEADER_SIZE {
        let mut bad = good.clone();
        bad[i] ^= 0xff;
        assert_eq!(
            SanityHeader::read_and_validate(&bad),
            Err(SanityError::SanityFormatError),
            "byte {} inverted",
            i
        );
        let mut bad_bit = good.clone();
        bad_bit[i] ^= 0x01;
        assert_eq!(
            SanityHeader::read_and_validate(&bad_bit),
            Err(SanityError::SanityFormatError),
            "byte {} with low bit flipped",
            i
        );
    }
}

#[test]
fn test_truncated_input_is_io_error() {
    let good = SanityHeader::reference().to_bytes();
    for len in [0, 1, 51, 56, SANITY_HEADER_SIZE - 1] {
        let short = good[..len].to_vec();
        assert_eq!(
            SanityHeader::read_and_validate(&short),
            Err(SanityError::Io),
            "length {}",
            len
        );
    }
}

#[test]
fn test_version_mismatch_is_format_error() {
    // A header whose magic names format version 4 but whose canaries are all
    // correct still fails: the magic is part of the byte-for-byte check.
    let mut header = SanityHeader::reference();
    header.magic =
        b"mmap lm http://kheafield.com/code format version 4\n\0\0\0\0\0".to_vec();
    let bytes = header.to_bytes();
    assert_eq!(bytes.len(), SANITY_HEADER_SIZE);
    assert_eq!(
        SanityHeader::read_and_validate(&bytes),
        Err(SanityError::SanityFormatError)
    );
}

#[test]
fn test_decode_reads_fields_little_endian() {
    let bytes = SanityHeader::reference().to_bytes();
    let decoded = SanityHeader::decode(&bytes);
    assert_eq!(decoded, SanityHeader::reference());
    // The word_idx_max canary occupies bytes 72..76.
    assert_eq!(&bytes[72..76], &[0xff, 0xff, 0xff, 0xff]);
    // The float_one canary occupies bytes 60..64, little-endian.
    assert_eq!(&bytes[60..64], &[0x00, 0x00, 0x80, 0x3f]);
}
