//! Generic bit-field codec primitives.
//!
//! Packed wire layouts place each field at a bit offset within a byte, or on
//! a little-endian byte-aligned range for fields wider than eight bits.
//! Packing merges a field into its target byte while leaving every bit owned
//! by a sibling field untouched; unpacking extracts the field's bits alone.
//! The per-type codecs in this crate are built from these primitives and from
//! the little-endian integer helpers below.

use vstd::prelude::*;

verus! {

/// The low `width` bits set, as a byte mask.
pub open spec fn spec_low_mask(width: u8) -> u8
    recommends
        width <= 8,
{
    (((1u16 << width) - 1) as u16 & 0xff) as u8
}

/// Mask of the bits owned by a field at `offset` of `width` bits.
pub open spec fn spec_field_mask(offset: u8, width: u8) -> u8
    recommends
        offset + width <= 8,
{
    (spec_low_mask(width) << offset) as u8
}

/// `target` with `value` merged into the bits at `offset` of `width` bits.
/// Bits outside the field keep their value in `target`; bits inside become
/// the OR of their old value and the corresponding bit of `value`.
pub open spec fn spec_merge_field(target: u8, value: u8, offset: u8, width: u8) -> u8
    recommends
        offset + width <= 8,
{
    target | (((value << offset) as u8) & spec_field_mask(offset, width))
}

/// The `width`-bit field at `offset` of `b`.
pub open spec fn spec_extract_field(b: u8, offset: u8, width: u8) -> u8
    recommends
        offset + width <= 8,
{
    ((b & spec_field_mask(offset, width)) as u8) >> offset
}

/// Merge `value` into bits `[offset, offset + width)` of `target`.
pub fn merge_field(target: u8, value: u8, offset: u8, width: u8) -> (r: u8)
    requires
        1 <= width,
        offset + width <= 8,
    ensures
        r == spec_merge_field(target, value, offset, width),
{
    proof {
        assert(1 <= width && width <= 8 ==> 1u16 << width >= 1) by (bit_vector);
    }
    let mask: u8 = #[verifier::truncate] ((((1u16 << width) - 1) & 0xff) as u8);
    target | ((value << offset) & (mask << offset))
}

/// Extract the `width`-bit field at `offset` of `b`.
pub fn extract_field(b: u8, offset: u8, width: u8) -> (r: u8)
    requires
        1 <= width,
        offset + width <= 8,
    ensures
        r == spec_extract_field(b, offset, width),
{
    proof {
        assert(1 <= width && width <= 8 ==> 1u16 << width >= 1) by (bit_vector);
    }
    let mask: u8 = #[verifier::truncate] ((((1u16 << width) - 1) & 0xff) as u8);
    (b & (mask << offset)) >> offset
}

/// Round trip of one field: extracting a field merged over a byte whose
/// field bits are clear yields the merged value, provided the value fits
/// in the field.
pub proof fn lemma_merge_extract(target: u8, value: u8, offset: u8, width: u8)
    requires
        offset + width <= 8,
        (value as u16) < (1u16 << width),
        spec_extract_field(target, offset, width) == 0,
    ensures
        spec_extract_field(spec_merge_field(target, value, offset, width), offset, width)
            == value,
{
    let mask8: u8 = spec_field_mask(offset, width);
    assert(((target | (((value << offset) as u8) & mask8)) & mask8) >> offset == value)
        by (bit_vector)
        requires
            offset + width <= 8,
            (value as u16) < (1u16 << width),
            (target & mask8) >> offset == 0,
            mask8 == (((((1u16 << width) - 1) as u16 & 0xff) as u8) << offset) as u8,
    ;
}

/// Sibling preservation: merging a field never disturbs the bits owned by a
/// disjoint field of the same byte.
pub proof fn lemma_merge_preserves_sibling(
    target: u8,
    value: u8,
    offset: u8,
    width: u8,
    sib_offset: u8,
    sib_width: u8,
)
    requires
        offset + width <= 8,
        sib_offset + sib_width <= 8,
        sib_offset + sib_width <= offset || offset + width <= sib_offset,
    ensures
        spec_extract_field(
            spec_merge_field(target, value, offset, width),
            sib_offset,
            sib_width,
        ) == spec_extract_field(target, sib_offset, sib_width),
{
    let mask8: u8 = spec_field_mask(offset, width);
    let sib8: u8 = spec_field_mask(sib_offset, sib_width);
    assert(((target | (((value << offset) as u8) & mask8)) & sib8) >> sib_offset
        == (target & sib8) >> sib_offset) by (bit_vector)
        requires
            offset + width <= 8,
            sib_offset + sib_width <= 8,
            sib_offset + sib_width <= offset || offset + width <= sib_offset,
            mask8 == (((((1u16 << width) - 1) as u16 & 0xff) as u8) << offset) as u8,
            sib8 == (((((1u16 << sib_width) - 1) as u16 & 0xff) as u8) << sib_offset) as u8,
    ;
}

/// The two little-endian bytes of a 16-bit value.
pub open spec fn spec_u16_le(v: u16) -> Seq<u8> {
    seq![(v & 0xff) as u8, ((v >> 8) & 0xff) as u8]
}

/// The 16-bit value of two little-endian bytes.
pub open spec fn spec_u16_of_le(b0: u8, b1: u8) -> u16 {
    (b0 as u16) | ((b1 as u16) << 8)
}

/// The four little-endian bytes of a 32-bit value.
pub open spec fn spec_u32_le(v: u32) -> Seq<u8> {
    seq![
        (v & 0xff) as u8,
        ((v >> 8) & 0xff) as u8,
        ((v >> 16) & 0xff) as u8,
        ((v >> 24) & 0xff) as u8,
    ]
}

/// The 32-bit value of four little-endian bytes.
pub open spec fn spec_u32_of_le(b0: u8, b1: u8, b2: u8, b3: u8) -> u32 {
    (b0 as u32) | ((b1 as u32) << 8) | ((b2 as u32) << 16) | ((b3 as u32) << 24)
}

/// The eight little-endian bytes of a 64-bit value.
pub open spec fn spec_u64_le(v: u64) -> Seq<u8> {
    seq![
        (v & 0xff) as u8,
        ((v >> 8) & 0xff) as u8,
        ((v >> 16) & 0xff) as u8,
        ((v >> 24) & 0xff) as u8,
        ((v >> 32) & 0xff) as u8,
        ((v >> 40) & 0xff) as u8,
        ((v >> 48) & 0xff) as u8,
        ((v >> 56) & 0xff) as u8,
    ]
}

/// The 64-bit value of eight little-endian bytes.
pub open spec fn spec_u64_of_le(
    b0: u8,
    b1: u8,
    b2: u8,
    b3: u8,
    b4: u8,
    b5: u8,
    b6: u8,
    b7: u8,
) -> u64 {
    (b0 as u64) | ((b1 as u64) << 8) | ((b2 as u64) << 16) | ((b3 as u64) << 24)
        | ((b4 as u64) << 32) | ((b5 as u64) << 40) | ((b6 as u64) << 48) | ((b7 as u64) << 56)
}

/// Splitting a 64-bit value into little-endian bytes and reassembling it is
/// the identity.
pub proof fn lemma_u64_le_round_trip(v: u64)
    ensures
        spec_u64_of_le(spec_u64_le(v)[0], spec_u64_le(v)[1], spec_u64_le(v)[2],
            spec_u64_le(v)[3], spec_u64_le(v)[4], spec_u64_le(v)[5], spec_u64_le(v)[6],
            spec_u64_le(v)[7]) == v,
{
    assert(((v & 0xff) as u8 as u64) | ((((v >> 8) & 0xff) as u8 as u64) << 8)
        | ((((v >> 16) & 0xff) as u8 as u64) << 16) | ((((v >> 24) & 0xff) as u8 as u64) << 24)
        | ((((v >> 32) & 0xff) as u8 as u64) << 32) | ((((v >> 40) & 0xff) as u8 as u64) << 40)
        | ((((v >> 48) & 0xff) as u8 as u64) << 48) | ((((v >> 56) & 0xff) as u8 as u64) << 56)
        == v) by (bit_vector);
}

/// Splitting a 16-bit value into little-endian bytes and reassembling it is
/// the identity, in both directions.
pub proof fn lemma_u16_le_round_trip(v: u16, b0: u8, b1: u8)
    ensures
        spec_u16_of_le(spec_u16_le(v)[0], spec_u16_le(v)[1]) == v,
        spec_u16_le(spec_u16_of_le(b0, b1)) == seq![b0, b1],
{
    assert(((v & 0xff) as u8 as u16) | ((((v >> 8) & 0xff) as u8 as u16) << 8) == v)
        by (bit_vector);
    let x = (b0 as u16) | ((b1 as u16) << 8);
    assert((x & 0xff) as u8 == b0 && ((x >> 8) & 0xff) as u8 == b1) by (bit_vector)
        requires
            x == (b0 as u16) | ((b1 as u16) << 8),
    ;
    assert(spec_u16_le(spec_u16_of_le(b0, b1)) =~= seq![b0, b1]);
}

/// Splitting a 32-bit value into little-endian bytes and reassembling it is
/// the identity, in both directions.
pub proof fn lemma_u32_le_round_trip(v: u32, b0: u8, b1: u8, b2: u8, b3: u8)
    ensures
        spec_u32_of_le(spec_u32_le(v)[0], spec_u32_le(v)[1], spec_u32_le(v)[2],
            spec_u32_le(v)[3]) == v,
        spec_u32_le(spec_u32_of_le(b0, b1, b2, b3)) == seq![b0, b1, b2, b3],
{
    assert(((v & 0xff) as u8 as u32) | ((((v >> 8) & 0xff) as u8 as u32) << 8)
        | ((((v >> 16) & 0xff) as u8 as u32) << 16) | ((((v >> 24) & 0xff) as u8 as u32) << 24)
        == v) by (bit_vector);
    let x = (b0 as u32) | ((b1 as u32) << 8) | ((b2 as u32) << 16) | ((b3 as u32) << 24);
    assert((x & 0xff) as u8 == b0 && ((x >> 8) & 0xff) as u8 == b1 && ((x >> 16) & 0xff) as u8
        == b2 && ((x >> 24) & 0xff) as u8 == b3) by (bit_vector)
        requires
            x == (b0 as u32) | ((b1 as u32) << 8) | ((b2 as u32) << 16) | ((b3 as u32) << 24),
    ;
    assert(spec_u32_le(spec_u32_of_le(b0, b1, b2, b3)) =~= seq![b0, b1, b2, b3]);
}

/// Push the two little-endian bytes of `v` onto `out`.
pub fn push_u16_le(out: &mut Vec<u8>, v: u16)
    ensures
        final(out)@ == old(out)@ + spec_u16_le(v),
{
    out.push((v & 0xff) as u8);
    out.push(((v >> 8) & 0xff) as u8);
    assert(out@ =~= old(out)@ + spec_u16_le(v));
}

/// Push the four little-endian bytes of `v` onto `out`.
pub fn push_u32_le(out: &mut Vec<u8>, v: u32)
    ensures
        final(out)@ == old(out)@ + spec_u32_le(v),
{
    out.push((v & 0xff) as u8);
    out.push(((v >> 8) & 0xff) as u8);
    out.push(((v >> 16) & 0xff) as u8);
    out.push(((v >> 24) & 0xff) as u8);
    assert(out@ =~= old(out)@ + spec_u32_le(v));
}

/// Copy `n` bytes of `buf` starting at `at` into a fresh vector.
pub fn copy_range(buf: &[u8], at: usize, n: usize) -> (r: Vec<u8>)
    requires
        at + n <= buf@.len(),
    ensures
        r@ == buf@.subrange(at as int, at as int + n),
{
    let total: usize = buf.len();
    let mut out: Vec<u8> = Vec::new();
    let mut k: usize = 0;
    while k < n
        invariant
            k <= n,
            at + n <= total == buf@.len(),
            out@ == buf@.subrange(at as int, at as int + k),
        decreases n - k,
    {
        let b = *vstd::slice::slice_index_get(buf, at + k);
        out.push(b);
        proof {
            assert(buf@.subrange(at as int, at as int + k + 1) =~= buf@.subrange(
                at as int,
                at as int + k,
            ) + seq![buf@[at as int + k]]);
        }
        k += 1;
    }
    out
}

/// Push the eight little-endian bytes of `v` onto `out`.
pub fn push_u64_le(out: &mut Vec<u8>, v: u64)
    ensures
        final(out)@ == old(out)@ + spec_u64_le(v),
{
    out.push((v & 0xff) as u8);
    out.push(((v >> 8) & 0xff) as u8);
    out.push(((v >> 16) & 0xff) as u8);
    out.push(((v >> 24) & 0xff) as u8);
    out.push(((v >> 32) & 0xff) as u8);
    out.push(((v >> 40) & 0xff) as u8);
    out.push(((v >> 48) & 0xff) as u8);
    out.push(((v >> 56) & 0xff) as u8);
    assert(out@ =~= old(out)@ + spec_u64_le(v));
}

/// Read a 64-bit little-endian value from `buf` at `at`.
pub fn read_u64_le(buf: &[u8], at: usize) -> (r: u64)
    requires
        at + 8 <= buf@.len(),
    ensures
        r == spec_u64_of_le(buf@[at as int], buf@[at as int + 1], buf@[at as int + 2],
            buf@[at as int + 3], buf@[at as int + 4], buf@[at as int + 5], buf@[at as int + 6],
            buf@[at as int + 7]),
{
    let n: usize = buf.len();
    let b0 = *vstd::slice::slice_index_get(buf, at);
    let b1 = *vstd::slice::slice_index_get(buf, at + 1);
    let b2 = *vstd::slice::slice_index_get(buf, at + 2);
    let b3 = *vstd::slice::slice_index_get(buf, at + 3);
    let b4 = *vstd::slice::slice_index_get(buf, at + 4);
    let b5 = *vstd::slice::slice_index_get(buf, at + 5);
    let b6 = *vstd::slice::slice_index_get(buf, at + 6);
    let b7 = *vstd::slice::slice_index_get(buf, at + 7);
    (b0 as u64) | ((b1 as u64) << 8) | ((b2 as u64) << 16) | ((b3 as u64) << 24)
        | ((b4 as u64) << 32) | ((b5 as u64) << 40) | ((b6 as u64) << 48) | ((b7 as u64) << 56)
}

/// Read a 16-bit little-endian value from `buf` at `at`.
pub fn read_u16_le(buf: &[u8], at: usize) -> (r: u16)
    requires
        at + 2 <= buf@.len(),
    ensures
        r == spec_u16_of_le(buf@[at as int], buf@[at as int + 1]),
{
    let n: usize = buf.len();
    let b0 = *vstd::slice::slice_index_get(buf, at);
    let b1 = *vstd::slice::slice_index_get(buf, at + 1);
    (b0 as u16) | ((b1 as u16) << 8)
}

/// Read a 32-bit little-endian value from `buf` at `at`.
pub fn read_u32_le(buf: &[u8], at: usize) -> (r: u32)
    requires
        at + 4 <= buf@.len(),
    ensures
        r == spec_u32_of_le(buf@[at as int], buf@[at as int + 1], buf@[at as int + 2],
            buf@[at as int + 3]),
{
    let n: usize = buf.len();
    let b0 = *vstd::slice::slice_index_get(buf, at);
    let b1 = *vstd::slice::slice_index_get(buf, at + 1);
    let b2 = *vstd::slice::slice_index_get(buf, at + 2);
    let b3 = *vstd::slice::slice_index_get(buf, at + 3);
    (b0 as u32) | ((b1 as u32) << 8) | ((b2 as u32) << 16) | ((b3 as u32) << 24)
}

} // verus!
