//! Sanity-header validation for binary language-model files.
//!
//! Every compatible model file begins with a fixed-layout header holding a
//! version-tagged magic string and a set of canary values.  A reader compares
//! that prefix byte for byte against the compile-time reference header before
//! any further use of the file: any deviation, padding included, signals a
//! wrong version, a wrong endianness or an incompatible numeric
//! representation, and fails validation outright.

use vstd::prelude::*;

verus! {

/// Raw byte length of the format-identifier string, terminating null byte
/// included.
pub const MAGIC_SIZE: usize = 52;

/// Width of the magic field: the identifier string padded with zero bytes up
/// to the next multiple of eight bytes.
pub const PADDED_MAGIC_SIZE: usize = 56;

/// Total byte width of an encoded header: the padded magic, three 32-bit
/// float canaries, two 32-bit word-index canaries and one 64-bit size canary,
/// packed in declaration order with no gaps.
pub const SANITY_HEADER_SIZE: usize = 84;

/// IEEE-754 single-precision bit pattern of 0.0.
pub const FLOAT_ZERO_BITS: u32 = 0x0000_0000;

/// IEEE-754 single-precision bit pattern of 1.0.
pub const FLOAT_ONE_BITS: u32 = 0x3f80_0000;

/// IEEE-754 single-precision bit pattern of -0.5.
pub const FLOAT_MINUS_HALF_BITS: u32 = 0xbf00_0000;

/// Rounds a byte count up to the next multiple of eight; zero rounds up to a
/// full eight-byte unit.
pub open spec fn spec_align8(size: int) -> int {
    if size == 0 {
        8
    } else {
        ((size - 1) / 8 + 1) * 8
    }
}

/// Alignment arithmetic shared with the binary-layout contract: the padded
/// width of a field is its raw width rounded up to the next multiple of
/// eight bytes.
pub fn align8(size: usize) -> (r: usize)
    requires
        size <= usize::MAX - 7,
    ensures
        r == spec_align8(size as int),
        r % 8 == 0,
        size <= r <= size + 8,
{
    if size == 0 {
        8
    } else {
        ((size - 1) / 8 + 1) * 8
    }
}

/// The exact bytes of the format-identifier string
/// `"mmap lm http://kheafield.com/code format version 5\n\0"`.
pub open spec fn magic_bytes() -> Seq<u8> {
    seq![
        109u8, 109, 97, 112, 32, 108, 109, 32, 104, 116, 116, 112, 58, 47, 47, 107,
        104, 101, 97, 102, 105, 101, 108, 100, 46, 99, 111, 109, 47, 99, 111, 100,
        101, 32, 102, 111, 114, 109, 97, 116, 32, 118, 101, 114, 115, 105, 111, 110,
        32, 53, 10, 0,
    ]
}

/// The magic field of the reference header: the identifier string followed by
/// zero bytes out to the padded width.
pub open spec fn padded_magic_bytes() -> Seq<u8> {
    magic_bytes() + Seq::new((PADDED_MAGIC_SIZE - MAGIC_SIZE) as nat, |i: int| 0u8)
}

/// The magic field padded to an eight-byte multiple: the identifier string
/// itself, then zero bytes out to the aligned width.
pub proof fn lemma_reference_magic_padding()
    ensures
        padded_magic_bytes().len() == spec_align8(MAGIC_SIZE as int),
        padded_magic_bytes().len() == PADDED_MAGIC_SIZE,
        padded_magic_bytes().subrange(0, MAGIC_SIZE as int) == magic_bytes(),
        forall|i: int|
            MAGIC_SIZE <= i < PADDED_MAGIC_SIZE ==> padded_magic_bytes()[i] == 0u8,
{
    assert(padded_magic_bytes().subrange(0, MAGIC_SIZE as int) =~= magic_bytes());
}

/// The four little-endian bytes of a 32-bit value.
pub open spec fn u32_le_bytes(x: u32) -> Seq<u8> {
    seq![
        (x & 0xff) as u8,
        ((x >> 8) & 0xff) as u8,
        ((x >> 16) & 0xff) as u8,
        ((x >> 24) & 0xff) as u8,
    ]
}

/// The eight little-endian bytes of a 64-bit value.
pub open spec fn u64_le_bytes(x: u64) -> Seq<u8> {
    seq![
        (x & 0xff) as u8,
        ((x >> 8) & 0xff) as u8,
        ((x >> 16) & 0xff) as u8,
        ((x >> 24) & 0xff) as u8,
        ((x >> 32) & 0xff) as u8,
        ((x >> 40) & 0xff) as u8,
        ((x >> 48) & 0xff) as u8,
        ((x >> 56) & 0xff) as u8,
    ]
}

/// The 32-bit value whose little-endian bytes are `b0` through `b3`.
pub open spec fn u32_of_le(b0: u8, b1: u8, b2: u8, b3: u8) -> u32 {
    (b0 as u32) | ((b1 as u32) << 8) | ((b2 as u32) << 16) | ((b3 as u32) << 24)
}

/// The 64-bit value whose little-endian bytes are `b0` through `b7`.
pub open spec fn u64_of_le(b0: u8, b1: u8, b2: u8, b3: u8, b4: u8, b5: u8, b6: u8, b7: u8) -> u64 {
    (b0 as u64) | ((b1 as u64) << 8) | ((b2 as u64) << 16) | ((b3 as u64) << 24)
        | ((b4 as u64) << 32) | ((b5 as u64) << 40) | ((b6 as u64) << 48) | ((b7 as u64) << 56)
}

/// Reading the little-endian bytes of a 32-bit value back gives the value.
pub proof fn lemma_u32_le_round_trip(x: u32)
    ensures
        u32_of_le(u32_le_bytes(x)[0], u32_le_bytes(x)[1], u32_le_bytes(x)[2], u32_le_bytes(x)[3])
            == x,
{
    assert(((x & 0xff) as u8 as u32) | ((((x >> 8) & 0xff) as u8 as u32) << 8) | ((((x >> 16)
        & 0xff) as u8 as u32) << 16) | ((((x >> 24) & 0xff) as u8 as u32) << 24) == x)
        by (bit_vector);
}

/// Reading the little-endian bytes of a 64-bit value back gives the value.
pub proof fn lemma_u64_le_round_trip(x: u64)
    ensures
        u64_of_le(
            u64_le_bytes(x)[0],
            u64_le_bytes(x)[1],
            u64_le_bytes(x)[2],
            u64_le_bytes(x)[3],
            u64_le_bytes(x)[4],
            u64_le_bytes(x)[5],
            u64_le_bytes(x)[6],
            u64_le_bytes(x)[7],
        ) == x,
{
    assert(((x & 0xff) as u8 as u64) | ((((x >> 8) & 0xff) as u8 as u64) << 8) | ((((x >> 16)
        & 0xff) as u8 as u64) << 16) | ((((x >> 24) & 0xff) as u8 as u64) << 24) | ((((x >> 32)
        & 0xff) as u8 as u64) << 32) | ((((x >> 40) & 0xff) as u8 as u64) << 40) | ((((x >> 48)
        & 0xff) as u8 as u64) << 48) | ((((x >> 56) & 0xff) as u8 as u64) << 56) == x)
        by (bit_vector);
}

/// How a load of a model file fails.
#[derive(Debug, Clone, Copy, PartialEq, Eq, Structural)]
pub enum SanityError {
    /// The file could not supply the full header width: it is truncated or
    /// otherwise unreadable to the required length.
    Io,
    /// The full header width was read, but the bytes are not those of the
    /// reference header: wrong magic or version, wrong endianness, an
    /// incompatible numeric representation, or a corrupted file.
    SanityFormatError,
}

/// The fixed-layout record at the start of every binary model file.
///
/// The three float canaries are held as their raw IEEE-754 single-precision
/// bit patterns, exactly as they stand in the file; validation is bitwise, so
/// no floating-point arithmetic is ever applied to them.
#[derive(Debug, Clone, PartialEq)]
pub struct SanityHeader {
    /// Format-identifier string, zero-padded to `PADDED_MAGIC_SIZE` bytes.
    pub magic: Vec<u8>,
    /// Bit pattern that must decode to the float 0.0.
    pub float_zero: u32,
    /// Bit pattern that must decode to the float 1.0.
    pub float_one: u32,
    /// Bit pattern that must decode to the float -0.5.
    pub float_minus_half: u32,
    /// Must decode to exactly 1.
    pub word_idx_one: u32,
    /// Must decode to the maximum 32-bit unsigned value.
    pub word_idx_max: u32,
    /// Must decode to exactly 1; checks the writer's word-size assumptions.
    pub usize_sanity: u64,
}

impl SanityHeader {
    /// The magic field carries exactly its padded width.
    pub open spec fn wf(self) -> bool {
        self.magic@.len() == PADDED_MAGIC_SIZE
    }

    /// Field-for-field equality with the compile-time reference header.
    pub open spec fn is_reference(self) -> bool {
        &&& self.magic@ == padded_magic_bytes()
        &&& self.float_zero == FLOAT_ZERO_BITS
        &&& self.float_one == FLOAT_ONE_BITS
        &&& self.float_minus_half == FLOAT_MINUS_HALF_BITS
        &&& self.word_idx_one == 1u32
        &&& self.word_idx_max == u32::MAX
        &&& self.usize_sanity == 1u64
    }
}

/// The encoded byte image of a header: each field at its natural width in
/// declaration order, integers little-endian, with no gaps between fields.
pub open spec fn spec_encode(h: SanityHeader) -> Seq<u8> {
    h.magic@ + u32_le_bytes(h.float_zero) + u32_le_bytes(h.float_one) + u32_le_bytes(
        h.float_minus_half,
    ) + u32_le_bytes(h.word_idx_one) + u32_le_bytes(h.word_idx_max) + u64_le_bytes(h.usize_sanity)
}

/// The exact bytes of the reference header.
pub open spec fn reference_bytes() -> Seq<u8> {
    padded_magic_bytes() + u32_le_bytes(FLOAT_ZERO_BITS) + u32_le_bytes(FLOAT_ONE_BITS)
        + u32_le_bytes(FLOAT_MINUS_HALF_BITS) + u32_le_bytes(1u32) + u32_le_bytes(u32::MAX)
        + u64_le_bytes(1u64)
}

/// A byte sequence passes validation exactly when it is long enough to hold a
/// header and its prefix is byte for byte the reference header.
pub open spec fn spec_validation_ok(bytes: Seq<u8>) -> bool {
    &&& bytes.len() >= SANITY_HEADER_SIZE
    &&& bytes.subrange(0, SANITY_HEADER_SIZE as int) == reference_bytes()
}

/// A header that equals the reference encodes to exactly the reference
/// bytes, and those bytes pass validation.
pub proof fn lemma_round_trip(h: SanityHeader)
    requires
        h.wf(),
        h.is_reference(),
    ensures
        spec_encode(h) == reference_bytes(),
        spec_encode(h).len() == SANITY_HEADER_SIZE,
        spec_validation_ok(spec_encode(h)),
{
    assert(spec_encode(h).subrange(0, SANITY_HEADER_SIZE as int) =~= spec_encode(h));
}

/// Changing any single byte within the header width of a byte sequence that
/// passes validation leaves one that fails it: with the full width still
/// present, validation then reports a sanity-format mismatch, never success.
pub proof fn lemma_corruption_detected(good: Seq<u8>, bad: Seq<u8>, i: int)
    requires
        spec_validation_ok(good),
        bad.len() == good.len(),
        0 <= i < SANITY_HEADER_SIZE,
        bad[i] != good[i],
        forall|j: int| 0 <= j < bad.len() && j != i ==> bad[j] == good[j],
    ensures
        bad.len() >= SANITY_HEADER_SIZE,
        !spec_validation_ok(bad),
{
    assert(bad.subrange(0, SANITY_HEADER_SIZE as int)[i] != reference_bytes()[i]);
}

/// Appends the four little-endian bytes of a 32-bit value.
fn push_u32_le(out: &mut Vec<u8>, x: u32)
    ensures
        final(out)@ == old(out)@ + u32_le_bytes(x),
{
    out.push((x & 0xff) as u8);
    out.push(((x >> 8) & 0xff) as u8);
    out.push(((x >> 16) & 0xff) as u8);
    out.push(((x >> 24) & 0xff) as u8);
    assert(out@ =~= old(out)@ + u32_le_bytes(x));
}

/// Appends the eight little-endian bytes of a 64-bit value.
fn push_u64_le(out: &mut Vec<u8>, x: u64)
    ensures
        final(out)@ == old(out)@ + u64_le_bytes(x),
{
    out.push((x & 0xff) as u8);
    out.push(((x >> 8) & 0xff) as u8);
    out.push(((x >> 16) & 0xff) as u8);
    out.push(((x >> 24) & 0xff) as u8);
    out.push(((x >> 32) & 0xff) as u8);
    out.push(((x >> 40) & 0xff) as u8);
    out.push(((x >> 48) & 0xff) as u8);
    out.push(((x >> 56) & 0xff) as u8);
    assert(out@ =~= old(out)@ + u64_le_bytes(x));
}

/// Reads the 32-bit value whose little-endian bytes start at `off`.
fn read_u32_le(bytes: &[u8], off: usize) -> (r: u32)
    requires
        off + 4 <= bytes@.len(),
    ensures
        r == u32_of_le(
            bytes@[off as int],
            bytes@[off as int + 1],
            bytes@[off as int + 2],
            bytes@[off as int + 3],
        ),
{
    (bytes[off] as u32) | ((bytes[off + 1] as u32) << 8) | ((bytes[off + 2] as u32) << 16) | ((
    bytes[off + 3] as u32) << 24)
}

/// Reads the 64-bit value whose little-endian bytes start at `off`.
fn read_u64_le(bytes: &[u8], off: usize) -> (r: u64)
    requires
        off + 8 <= bytes@.len(),
    ensures
        r == u64_of_le(
            bytes@[off as int],
            bytes@[off as int + 1],
            bytes@[off as int + 2],
            bytes@[off as int + 3],
            bytes@[off as int + 4],
            bytes@[off as int + 5],
            bytes@[off as int + 6],
            bytes@[off as int + 7],
        ),
{
    (bytes[off] as u64) | ((bytes[off + 1] as u64) << 8) | ((bytes[off + 2] as u64) << 16) | ((
    bytes[off + 3] as u64) << 24) | ((bytes[off + 4] as u64) << 32) | ((bytes[off + 5] as u64)
        << 40) | ((bytes[off + 6] as u64) << 48) | ((bytes[off + 7] as u64) << 56)
}

impl SanityHeader {
    /// Builds the reference magic field: the identifier string, then zero
    /// bytes out to the padded width.
    pub fn padded_magic() -> (r: Vec<u8>)
        ensures
            r@ == padded_magic_bytes(),
            r@.len() == PADDED_MAGIC_SIZE,
    {
        let raw: [u8; 52] = [
            109u8, 109, 97, 112, 32, 108, 109, 32, 104, 116, 116, 112, 58, 47, 47, 107,
            104, 101, 97, 102, 105, 101, 108, 100, 46, 99, 111, 109, 47, 99, 111, 100,
            101, 32, 102, 111, 114, 109, 97, 116, 32, 118, 101, 114, 115, 105, 111, 110,
            32, 53, 10, 0,
        ];
        proof {
            assert(raw@ =~= magic_bytes());
        }
        let mut v: Vec<u8> = Vec::new();
        let mut i: usize = 0;
        while i < 52
            invariant
                i <= 52,
                v@ == raw@.subrange(0, i as int),
            decreases 52 - i,
        {
            v.push(raw[i]);
            i = i + 1;
            proof {
                assert(v@ =~= raw@.subrange(0, i as int));
            }
        }
        assert(v@ =~= magic_bytes());
        v.push(0);
        v.push(0);
        v.push(0);
        v.push(0);
        assert(v@ =~= padded_magic_bytes());
        v
    }

    /// The compile-time reference header: the padded magic string and the
    /// fixed canary values every compatible model file must carry.
    pub fn reference() -> (r: SanityHeader)
        ensures
            r.wf(),
            r.is_reference(),
    {
        SanityHeader {
            magic: Self::padded_magic(),
            float_zero: FLOAT_ZERO_BITS,
            float_one: FLOAT_ONE_BITS,
            float_minus_half: FLOAT_MINUS_HALF_BITS,
            word_idx_one: 1,
            word_idx_max: u32::MAX,
            usize_sanity: 1,
        }
    }

    /// Encodes the header into its exact byte image.
    pub fn to_bytes(&self) -> (r: Vec<u8>)
        ensures
            r@ == spec_encode(*self),
    {
        let mut v: Vec<u8> = Vec::new();
        let mut i: usize = 0;
        while i < self.magic.len()
            invariant
                i <= self.magic@.len(),
                v@ == self.magic@.subrange(0, i as int),
            decreases self.magic@.len() - i,
        {
            v.push(self.magic[i]);
            i = i + 1;
            proof {
                assert(v@ =~= self.magic@.subrange(0, i as int));
            }
        }
        assert(v@ =~= self.magic@);
        push_u32_le(&mut v, self.float_zero);
        push_u32_le(&mut v, self.float_one);
        push_u32_le(&mut v, self.float_minus_half);
        push_u32_le(&mut v, self.word_idx_one);
        push_u32_le(&mut v, self.word_idx_max);
        push_u64_le(&mut v, self.usize_sanity);
        assert(v@ =~= spec_encode(*self));
        v
    }

    /// Reinterprets the first `SANITY_HEADER_SIZE` bytes as a header, with no
    /// branching on their content: the magic bytes verbatim, the integer
    /// fields read little-endian at their fixed offsets.
    pub fn decode(bytes: &[u8]) -> (r: SanityHeader)
        requires
            bytes@.len() >= SANITY_HEADER_SIZE,
        ensures
            r.wf(),
            r.magic@ == bytes@.subrange(0, PADDED_MAGIC_SIZE as int),
            r.float_zero == u32_of_le(bytes@[56], bytes@[57], bytes@[58], bytes@[59]),
            r.float_one == u32_of_le(bytes@[60], bytes@[61], bytes@[62], bytes@[63]),
            r.float_minus_half == u32_of_le(bytes@[64], bytes@[65], bytes@[66], bytes@[67]),
            r.word_idx_one == u32_of_le(bytes@[68], bytes@[69], bytes@[70], bytes@[71]),
            r.word_idx_max == u32_of_le(bytes@[72], bytes@[73], bytes@[74], bytes@[75]),
            r.usize_sanity == u64_of_le(
                bytes@[76],
                bytes@[77],
                bytes@[78],
                bytes@[79],
                bytes@[80],
                bytes@[81],
                bytes@[82],
                bytes@[83],
            ),
    {
        let magic = vstd::slice::slice_to_vec(vstd::slice::slice_subrange(
            bytes,
            0,
            PADDED_MAGIC_SIZE,
        ));
        SanityHeader {
            magic,
            float_zero: read_u32_le(bytes, 56),
            float_one: read_u32_le(bytes, 60),
            float_minus_half: read_u32_le(bytes, 64),
            word_idx_one: read_u32_le(bytes, 68),
            word_idx_max: read_u32_le(bytes, 72),
            usize_sanity: read_u64_le(bytes, 76),
        }
    }

    /// Validates the given file prefix.
    ///
    /// Fewer bytes than the header width is the truncated-file case and
    /// fails as an I/O error.  Otherwise the first `SANITY_HEADER_SIZE`
    /// bytes are compared byte for byte with the reference header: any
    /// difference is a sanity-format error, and an exact match returns the
    /// decoded header, which then equals the reference.
    pub fn read_and_validate(bytes: &[u8]) -> (r: Result<SanityHeader, SanityError>)
        ensures
            match r {
                Ok(h) => spec_validation_ok(bytes@) && h.wf() && h.is_reference(),
                Err(e) => !spec_validation_ok(bytes@) && e == (if bytes@.len()
                    < SANITY_HEADER_SIZE {
                    SanityError::Io
                } else {
                    SanityError::SanityFormatError
                }),
            },
    {
        if bytes.len() < SANITY_HEADER_SIZE {
            return Err(SanityError::Io);
        }
        let reference = Self::reference();
        let ref_bytes = reference.to_bytes();
        proof {
            lemma_round_trip(reference);
        }
        let mut i: usize = 0;
        while i < SANITY_HEADER_SIZE
            invariant
                i <= SANITY_HEADER_SIZE,
                bytes@.len() >= SANITY_HEADER_SIZE,
                ref_bytes@ == reference_bytes(),
                ref_bytes@.len() == SANITY_HEADER_SIZE,
                forall|j: int| 0 <= j < i ==> bytes@[j] == ref_bytes@[j],
            decreases SANITY_HEADER_SIZE - i,
        {
            if bytes[i] != ref_bytes[i] {
                proof {
                    assert(bytes@.subrange(0, SANITY_HEADER_SIZE as int)[i as int]
                        != reference_bytes()[i as int]);
                }
                return Err(SanityError::SanityFormatError);
            }
            i = i + 1;
        }
        proof {
            assert(bytes@.subrange(0, SANITY_HEADER_SIZE as int) =~= reference_bytes());
        }
        let h = Self::decode(bytes);
        proof {
            lemma_u32_le_round_trip(FLOAT_ZERO_BITS);
            lemma_u32_le_round_trip(FLOAT_ONE_BITS);
            lemma_u32_le_round_trip(FLOAT_MINUS_HALF_BITS);
            lemma_u32_le_round_trip(1u32);
            lemma_u32_le_round_trip(u32::MAX);
            lemma_u64_le_round_trip(1u64);
            assert(h.magic@ =~= padded_magic_bytes());
        }
        Ok(h)
    }
}

} // verus!
