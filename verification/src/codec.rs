//! Little-endian byte views of the fixed-width integers that the wire
//! formats are built from.

use vstd::prelude::*;

verus! {

/// The low byte of `x` in little-endian order.
pub open spec fn u16_lo(x: u16) -> u8 {
    (x & 0xff) as u8
}

/// The high byte of `x` in little-endian order.
pub open spec fn u16_hi(x: u16) -> u8 {
    ((x >> 8) & 0xff) as u8
}

/// The two's-complement 16-bit image of a signed stick value.
pub open spec fn i16_bits(x: i16) -> u16 {
    x as u16
}

/// The two bytes of `x`, low byte first.
pub open spec fn spec_u16_le(x: u16) -> Seq<u8> {
    seq![u16_lo(x), u16_hi(x)]
}

/// The two bytes of a signed value, low byte first, two's complement.
pub open spec fn spec_i16_le(x: i16) -> Seq<u8> {
    spec_u16_le(i16_bits(x))
}

/// The four bytes of `x`, least significant first.
pub open spec fn spec_u32_le(x: u32) -> Seq<u8> {
    seq![
        (x & 0xff) as u8,
        ((x >> 8) & 0xff) as u8,
        ((x >> 16) & 0xff) as u8,
        ((x >> 24) & 0xff) as u8,
    ]
}

/// The eight bytes of `x`, least significant first.
pub open spec fn spec_u64_le(x: u64) -> Seq<u8> {
    seq![
        (x & 0xff) as u8,
        ((x >> 8) & 0xff) as u8,
        ((x >> 16) & 0xff) as u8,
        ((x >> 24) & 0xff) as u8,
        ((x >> 32) & 0xff) as u8,
        ((x >> 40) & 0xff) as u8,
        ((x >> 48) & 0xff) as u8,
        ((x >> 56) & 0xff) as u8,
    ]
}

/// The two little-endian bytes of `x` as a pair `(low, high)`.
pub fn u16_le(x: u16) -> (r: (u8, u8))
    ensures
        r.0 == u16_lo(x),
        r.1 == u16_hi(x),
{
    ((x & 0xff) as u8, ((x >> 8) & 0xff) as u8)
}

/// The 16-bit two's-complement image of `x`.
pub fn i16_to_bits(x: i16) -> (r: u16)
    ensures
        r == i16_bits(x),
{
    #[verifier::truncate] (x as u16)
}

/// The two little-endian bytes of a signed value as a pair `(low, high)`.
pub fn i16_le(x: i16) -> (r: (u8, u8))
    ensures
        r.0 == spec_i16_le(x)[0],
        r.1 == spec_i16_le(x)[1],
{
    u16_le(i16_to_bits(x))
}

/// `push`es the four little-endian bytes of `x` onto `out`.
pub fn push_u32_le(out: &mut Vec<u8>, x: u32)
    ensures
        final(out)@ == old(out)@ + spec_u32_le(x),
{
    out.push((x & 0xff) as u8);
    out.push(((x >> 8) & 0xff) as u8);
    out.push(((x >> 16) & 0xff) as u8);
    out.push(((x >> 24) & 0xff) as u8);
    assert(out@ =~= old(out)@ + spec_u32_le(x));
}

/// `push`es the eight little-endian bytes of `x` onto `out`.
pub fn push_u64_le(out: &mut Vec<u8>, x: u64)
    ensures
        final(out)@ == old(out)@ + spec_u64_le(x),
{
    out.push((x & 0xff) as u8);
    out.push(((x >> 8) & 0xff) as u8);
    out.push(((x >> 16) & 0xff) as u8);
    out.push(((x >> 24) & 0xff) as u8);
    out.push(((x >> 32) & 0xff) as u8);
    out.push(((x >> 40) & 0xff) as u8);
    out.push(((x >> 48) & 0xff) as u8);
    out.push(((x >> 56) & 0xff) as u8);
    assert(out@ =~= old(out)@ + spec_u64_le(x));
}

/// Reads the 64-bit value back out of its little-endian bytes.
pub fn u64_from_le(b: &[u8], at: usize) -> (r: u64)
    requires
        at + 8 <= b@.len(),
    ensures
        spec_u64_le(r) == b@.subrange(at as int, at + 8),
{
    let r = (b[at] as u64) | (b[at + 1] as u64) << 8 | (b[at + 2] as u64) << 16 | (b[at + 3]
        as u64) << 24 | (b[at + 4] as u64) << 32 | (b[at + 5] as u64) << 40 | (b[at + 6]
        as u64) << 48 | (b[at + 7] as u64) << 56;
    proof {
        lemma_u64_le_of_bytes(
            b@[at as int],
            b@[at + 1],
            b@[at + 2],
            b@[at + 3],
            b@[at + 4],
            b@[at + 5],
            b@[at + 6],
            b@[at + 7],
        );
        assert(spec_u64_le(r) =~= b@.subrange(at as int, at + 8));
    }
    r
}

/// Packing eight bytes little-endian and taking the bytes again gives the
/// same eight bytes back.
pub proof fn lemma_u64_le_of_bytes(b0: u8, b1: u8, b2: u8, b3: u8, b4: u8, b5: u8, b6: u8, b7: u8)
    ensures
        ({
            let x = (b0 as u64) | (b1 as u64) << 8 | (b2 as u64) << 16 | (b3 as u64) << 24 | (b4
                as u64) << 32 | (b5 as u64) << 40 | (b6 as u64) << 48 | (b7 as u64) << 56;
            &&& (x & 0xff) as u8 == b0
            &&& ((x >> 8) & 0xff) as u8 == b1
            &&& ((x >> 16) & 0xff) as u8 == b2
            &&& ((x >> 24) & 0xff) as u8 == b3
            &&& ((x >> 32) & 0xff) as u8 == b4
            &&& ((x >> 40) & 0xff) as u8 == b5
            &&& ((x >> 48) & 0xff) as u8 == b6
            &&& ((x >> 56) & 0xff) as u8 == b7
        }),
{
    let x = (b0 as u64) | (b1 as u64) << 8 | (b2 as u64) << 16 | (b3 as u64) << 24 | (b4
        as u64) << 32 | (b5 as u64) << 40 | (b6 as u64) << 48 | (b7 as u64) << 56;
    assert({
        let y = (b0 as u64) | (b1 as u64) << 8 | (b2 as u64) << 16 | (b3 as u64) << 24 | (b4
            as u64) << 32 | (b5 as u64) << 40 | (b6 as u64) << 48 | (b7 as u64) << 56;
        &&& (y & 0xff) as u8 == b0
        &&& ((y >> 8) & 0xff) as u8 == b1
        &&& ((y >> 16) & 0xff) as u8 == b2
        &&& ((y >> 24) & 0xff) as u8 == b3
        &&& ((y >> 32) & 0xff) as u8 == b4
        &&& ((y >> 40) & 0xff) as u8 == b5
        &&& ((y >> 48) & 0xff) as u8 == b6
        &&& ((y >> 56) & 0xff) as u8 == b7
    }) by (bit_vector);
}

} // verus!
