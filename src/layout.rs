//! Byte-exact raw layouts and the size-checked primitive that decodes them.
//!
//! Producer and consumer share one little-endian host: every multi-byte field
//! is read least significant byte first, with no padding between fields.
use vstd::arithmetic::div_mod::lemma_fundamental_div_mod;
use vstd::prelude::*;

verus! {

/// Why a raw section could not be decoded.
#[derive(Debug, Clone, Copy, PartialEq, Eq, Structural)]
pub enum DecodeError {
    /// The buffer's length is not the byte size of its layout.
    SizeMismatch { expected: usize, actual: usize },
    /// The tag names no known ovs event type.
    UnknownEventType(u8),
    /// The action code is outside the closed action table.
    UnsupportedAction(u8),
    /// The operation code is outside the closed operation table.
    UnknownOperation(u8),
}

/// The unsigned 32-bit value of the four bytes of `b` starting at `o`.
pub open spec fn le_u32(b: Seq<u8>, o: int) -> u32 {
    (b[o] as int + b[o + 1] as int * 0x100 + b[o + 2] as int * 0x1_0000 + b[o + 3] as int
        * 0x100_0000) as u32
}

/// The unsigned 64-bit value of the eight bytes of `b` starting at `o`.
pub open spec fn le_u64(b: Seq<u8>, o: int) -> u64 {
    (le_u32(b, o) as int + le_u32(b, o + 4) as int * 0x1_0000_0000) as u64
}

/// The signed 32-bit value (two's complement) of the four bytes at `o`.
pub open spec fn le_i32(b: Seq<u8>, o: int) -> i32 {
    le_u32(b, o) as i32
}

/// The four bytes that hold `x`, least significant first.
pub open spec fn u32_bytes(x: u32) -> Seq<u8> {
    seq![
        (x % 0x100) as u8,
        (x / 0x100 % 0x100) as u8,
        (x / 0x100 / 0x100 % 0x100) as u8,
        (x / 0x100 / 0x100 / 0x100) as u8,
    ]
}

/// The eight bytes that hold `x`, least significant first.
pub open spec fn u64_bytes(x: u64) -> Seq<u8> {
    u32_bytes((x % 0x1_0000_0000) as u32) + u32_bytes((x / 0x1_0000_0000) as u32)
}

/// The four bytes that hold `x` in two's complement.
pub open spec fn i32_bytes(x: i32) -> Seq<u8> {
    u32_bytes(x as u32)
}

pub proof fn lemma_u32_round_trip(x: u32, b: Seq<u8>, o: int)
    requires
        0 <= o,
        o + 4 <= b.len(),
        b.subrange(o, o + 4) == u32_bytes(x),
    ensures
        le_u32(b, o) == x,
{
    let s = b.subrange(o, o + 4);
    assert(b[o] == s[0] && b[o + 1] == s[1] && b[o + 2] == s[2] && b[o + 3] == s[3]);
    let r1 = x / 0x100;
    let r2 = r1 / 0x100;
    lemma_fundamental_div_mod(x as int, 0x100);
    lemma_fundamental_div_mod(r1 as int, 0x100);
    lemma_fundamental_div_mod(r2 as int, 0x100);
}

pub proof fn lemma_u64_round_trip(x: u64, b: Seq<u8>, o: int)
    requires
        0 <= o,
        o + 8 <= b.len(),
        b.subrange(o, o + 8) == u64_bytes(x),
    ensures
        le_u64(b, o) == x,
{
    let lo = (x % 0x1_0000_0000) as u32;
    let hi = (x / 0x1_0000_0000) as u32;
    assert(b.subrange(o, o + 4) =~= b.subrange(o, o + 8).subrange(0, 4));
    assert(b.subrange(o + 4, o + 8) =~= b.subrange(o, o + 8).subrange(4, 8));
    assert(u64_bytes(x).subrange(0, 4) =~= u32_bytes(lo));
    assert(u64_bytes(x).subrange(4, 8) =~= u32_bytes(hi));
    lemma_u32_round_trip(lo, b, o);
    lemma_u32_round_trip(hi, b, o + 4);
    lemma_fundamental_div_mod(x as int, 0x1_0000_0000);
}

pub proof fn lemma_i32_round_trip(x: i32, b: Seq<u8>, o: int)
    requires
        0 <= o,
        o + 4 <= b.len(),
        b.subrange(o, o + 4) == i32_bytes(x),
    ensures
        le_i32(b, o) == x,
{
    lemma_u32_round_trip(x as u32, b, o);
    assert((x as u32) as i32 == x) by (bit_vector);
}

/// Reads the byte at `o`.
pub fn read_u8(b: &[u8], o: usize) -> (r: u8)
    requires
        o < b@.len(),
    ensures
        r == b@[o as int],
{
    b[o]
}

/// Reads the unsigned 32-bit value at `o`.
pub fn read_u32(b: &[u8], o: usize) -> (r: u32)
    requires
        o + 4 <= b@.len(),
    ensures
        r == le_u32(b@, o as int),
{
    b[o] as u32 + b[o + 1] as u32 * 0x100 + b[o + 2] as u32 * 0x1_0000 + b[o + 3] as u32
        * 0x100_0000
}

/// Reads the unsigned 64-bit value at `o`.
pub fn read_u64(b: &[u8], o: usize) -> (r: u64)
    requires
        o + 8 <= b@.len(),
        b@.len() <= usize::MAX,
    ensures
        r == le_u64(b@, o as int),
{
    let lo = read_u32(b, o);
    let hi = read_u32(b, o + 4);
    lo as u64 + hi as u64 * 0x1_0000_0000
}

/// Reads the signed 32-bit value at `o`.
pub fn read_i32(b: &[u8], o: usize) -> (r: i32)
    requires
        o + 4 <= b@.len(),
    ensures
        r == le_i32(b@, o as int),
{
    read_u32(b, o) as i32
}

/// A plain record of fixed-width integers laid out back to back, as the
/// producing side writes it.
pub trait RawLayout: Sized {
    /// The layout's byte size.
    spec fn spec_size() -> nat;

    /// The record that a buffer of exactly `spec_size()` bytes holds.
    spec fn spec_decode(b: Seq<u8>) -> Self;

    /// The bytes that the producer writes for this record.
    spec fn spec_encode(self) -> Seq<u8>;

    fn size() -> (r: usize)
        ensures
            r == Self::spec_size(),
    ;

    /// Reads the record from a buffer whose length has been checked.
    fn decode_exact(b: &[u8]) -> (r: Self)
        requires
            b@.len() == Self::spec_size(),
        ensures
            r == Self::spec_decode(b@),
    ;

    /// Encoding a record and decoding the bytes gives the record back.
    proof fn lemma_round_trip(self)
        ensures
            self.spec_encode().len() == Self::spec_size(),
            Self::spec_decode(self.spec_encode()) == self,
    ;
}

/// What decoding `b` as layout `T` gives: the record when the length is
/// exactly the layout's size, a size mismatch otherwise.
pub open spec fn spec_parse<T: RawLayout>(b: Seq<u8>) -> Result<T, DecodeError> {
    if b.len() == T::spec_size() {
        Ok(T::spec_decode(b))
    } else {
        Err(DecodeError::SizeMismatch { expected: T::spec_size() as usize, actual: b.len() as usize })
    }
}

/// Decodes `b` as layout `T`, refusing any buffer whose length differs from
/// the layout's size.
pub fn parse_raw_section<T: RawLayout>(b: &[u8]) -> (r: Result<T, DecodeError>)
    ensures
        r == spec_parse::<T>(b@),
{
    let expected = T::size();
    if b.len() == expected {
        Ok(T::decode_exact(b))
    } else {
        Err(DecodeError::SizeMismatch { expected, actual: b.len() })
    }
}

/// For every layout, the bytes of a record decode to that same record.
pub proof fn lemma_parse_encoded<T: RawLayout>(v: T)
    ensures
        spec_parse::<T>(v.spec_encode()) == Ok::<T, DecodeError>(v),
{
    v.lemma_round_trip();
}

/// For every layout, a buffer of any other length than the layout's size is
/// refused with a size mismatch.
pub proof fn lemma_parse_wrong_size<T: RawLayout>(b: Seq<u8>)
    requires
        b.len() != T::spec_size(),
    ensures
        spec_parse::<T>(b) is Err,
        spec_parse::<T>(b)->Err_0 is SizeMismatch,
{
}

} // verus!
