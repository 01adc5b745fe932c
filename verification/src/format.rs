//! The closed set of element formats an IDX file can hold: each one fixes a
//! one-byte magic tag and a fixed-width big-endian decode rule.

use vstd::prelude::*;

verus! {

/// Marker bound that closes the set of element formats: only the six kinds
/// defined in this module implement it.
pub trait Sealed {}

/// An element format of the IDX encoding: a magic tag byte and a rule that
/// decodes one element from its fixed-width big-endian byte run.
pub trait DataFormat: Sealed + Sized {
    /// The tag byte that the file's header must carry for this format.
    spec fn magic_spec() -> u8;

    /// Number of bytes one element of this format occupies.
    spec fn width_spec() -> int;

    /// The element encoded by a byte run of length `width_spec()`.
    spec fn decode_spec(b: Seq<u8>) -> Self;

    proof fn width_bounds()
        ensures
            1 <= Self::width_spec() <= 8,
    ;

    fn magic_byte() -> (r: u8)
        ensures
            r == Self::magic_spec(),
    ;

    fn width() -> (r: usize)
        ensures
            r as int == Self::width_spec(),
    ;

    fn decode_at(x: &[u8], pos: usize) -> (r: Self)
        requires
            pos + Self::width_spec() <= x@.len(),
        ensures
            r == Self::decode_spec(x@.subrange(pos as int, pos + Self::width_spec())),
    ;
}

/// The big-endian 32-bit unsigned integer held by a run of four bytes.
pub open spec fn be_u32_spec(b: Seq<u8>) -> u32
    recommends
        b.len() == 4,
{
    ((b[0] as u32) << 24u32) | ((b[1] as u32) << 16u32) | ((b[2] as u32) << 8u32) | (b[3] as u32)
}

/// Reads the big-endian 32-bit unsigned integer at `pos`.
pub fn be_u32_at(x: &[u8], pos: usize) -> (r: u32)
    requires
        pos + 4 <= x@.len(),
    ensures
        r == be_u32_spec(x@.subrange(pos as int, pos as int + 4)),
{
    proof {
        let s = x@.subrange(pos as int, pos as int + 4);
        assert(s[0] == x@[pos as int]);
        assert(s[1] == x@[pos as int + 1]);
        assert(s[2] == x@[pos as int + 2]);
        assert(s[3] == x@[pos as int + 3]);
    }
    ((x[pos] as u32) << 24u32) | ((x[pos + 1] as u32) << 16u32) | ((x[pos + 2] as u32) << 8u32)
        | (x[pos + 3] as u32)
}

impl Sealed for u8 {}

impl DataFormat for u8 {
    open spec fn magic_spec() -> u8 {
        0x08u8
    }

    open spec fn width_spec() -> int {
        1
    }

    open spec fn decode_spec(b: Seq<u8>) -> Self {
        b[0]
    }

    proof fn width_bounds() {
    }

    fn magic_byte() -> u8 {
        0x08
    }

    fn width() -> usize {
        1
    }

    fn decode_at(x: &[u8], pos: usize) -> Self {
        x[pos]
    }
}

impl Sealed for i8 {}

impl DataFormat for i8 {
    open spec fn magic_spec() -> u8 {
        0x09u8
    }

    open spec fn width_spec() -> int {
        1
    }

    open spec fn decode_spec(b: Seq<u8>) -> Self {
        b[0] as i8
    }

    proof fn width_bounds() {
    }

    fn magic_byte() -> u8 {
        0x09
    }

    fn width() -> usize {
        1
    }

    fn decode_at(x: &[u8], pos: usize) -> Self {
        x[pos] as i8
    }
}

impl Sealed for i16 {}

impl DataFormat for i16 {
    open spec fn magic_spec() -> u8 {
        0x0Bu8
    }

    open spec fn width_spec() -> int {
        2
    }

    open spec fn decode_spec(b: Seq<u8>) -> Self {
        (((b[0] as u16) << 8u16) | (b[1] as u16)) as i16
    }

    proof fn width_bounds() {
    }

    fn magic_byte() -> u8 {
        0x0B
    }

    fn width() -> usize {
        2
    }

    fn decode_at(x: &[u8], pos: usize) -> Self {
        proof {
            let s = x@.subrange(pos as int, pos as int + 2);
            assert(s[0] == x@[pos as int]);
            assert(s[1] == x@[pos as int + 1]);
        }
        (((x[pos] as u16) << 8u16) | (x[pos + 1] as u16)) as i16
    }
}

impl Sealed for i32 {}

impl DataFormat for i32 {
    open spec fn magic_spec() -> u8 {
        0x0Cu8
    }

    open spec fn width_spec() -> int {
        4
    }

    open spec fn decode_spec(b: Seq<u8>) -> Self {
        be_u32_spec(b) as i32
    }

    proof fn width_bounds() {
    }

    fn magic_byte() -> u8 {
        0x0C
    }

    fn width() -> usize {
        4
    }

    fn decode_at(x: &[u8], pos: usize) -> Self {
        be_u32_at(x, pos) as i32
    }
}

/// A 32-bit IEEE-754 element carried as its raw bit pattern; callers that want
/// the floating-point value reinterpret the bits outside this library.
#[derive(Debug, Clone, Copy, PartialEq, Eq, Structural)]
pub struct F32Bits {
    pub bits: u32,
}

impl Sealed for F32Bits {}

impl DataFormat for F32Bits {
    open spec fn magic_spec() -> u8 {
        0x0Du8
    }

    open spec fn width_spec() -> int {
        4
    }

    open spec fn decode_spec(b: Seq<u8>) -> Self {
        F32Bits { bits: be_u32_spec(b) }
    }

    proof fn width_bounds() {
    }

    fn magic_byte() -> u8 {
        0x0D
    }

    fn width() -> usize {
        4
    }

    fn decode_at(x: &[u8], pos: usize) -> Self {
        F32Bits { bits: be_u32_at(x, pos) }
    }
}

/// A 64-bit IEEE-754 element carried as its raw bit pattern; callers that want
/// the floating-point value reinterpret the bits outside this library.
#[derive(Debug, Clone, Copy, PartialEq, Eq, Structural)]
pub struct F64Bits {
    pub bits: u64,
}

impl Sealed for F64Bits {}

impl DataFormat for F64Bits {
    open spec fn magic_spec() -> u8 {
        0x0Eu8
    }

    open spec fn width_spec() -> int {
        8
    }

    open spec fn decode_spec(b: Seq<u8>) -> Self {
        F64Bits {
            bits: ((be_u32_spec(b.subrange(0, 4)) as u64) << 32u64) | (be_u32_spec(
                b.subrange(4, 8),
            ) as u64),
        }
    }

    proof fn width_bounds() {
    }

    fn magic_byte() -> u8 {
        0x0E
    }

    fn width() -> usize {
        8
    }

    fn decode_at(x: &[u8], pos: usize) -> Self {
        let n = x.len();
        let hi = be_u32_at(x, pos);
        let lo = be_u32_at(x, pos + 4);
        proof {
            let s = x@.subrange(pos as int, pos as int + 8);
            assert(s.subrange(0, 4) =~= x@.subrange(pos as int, pos as int + 4));
            assert(s.subrange(4, 8) =~= x@.subrange(pos as int + 4, pos as int + 8));
        }
        F64Bits { bits: ((hi as u64) << 32u64) | (lo as u64) }
    }
}

} // verus!
