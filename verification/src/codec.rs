//! Wire codec traits.
//!
//! A type implementing [`EtherCatWire`] has a packed little-endian byte
//! representation, written from bit offset zero of a buffer. The
//! specification members pin down the exact bytes written and the exact
//! value decoded, and every implementation carries a proof that decoding a
//! packed value yields the value back.

use vstd::prelude::*;

use crate::error::WireError;
use crate::wire::lemma_u16_le_round_trip;
use crate::wire::lemma_u32_le_round_trip;
use crate::wire::lemma_u64_le_round_trip;
use crate::wire::push_u16_le;
use crate::wire::push_u32_le;
use crate::wire::spec_u16_le;
use crate::wire::spec_u16_of_le;
use crate::wire::spec_u32_le;
use crate::wire::spec_u32_of_le;
use crate::wire::spec_u64_le;
use crate::wire::spec_u64_of_le;

verus! {

/// Overwrite the first `src.len()` bytes of `buf` with `src`, keeping the
/// rest of `buf`; fail without touching `buf` if it is too short.
pub fn splice_prefix(buf: &mut Vec<u8>, src: &Vec<u8>) -> (r: Result<(), WireError>)
    ensures
        r is Ok <==> old(buf)@.len() >= src@.len(),
        r is Ok ==> final(buf)@ == src@ + old(buf)@.skip(src@.len() as int),
        r is Err ==> final(buf)@ == old(buf)@ && r == Err::<(), WireError>(
            WireError::WriteBufferTooShort,
        ),
{
    if buf.len() < src.len() {
        return Err(WireError::WriteBufferTooShort);
    }
    let mut i: usize = 0;
    while i < src.len()
        invariant
            i <= src@.len() <= buf@.len(),
            buf@.len() == old(buf)@.len(),
            forall|j: int| 0 <= j < i ==> buf@[j] == src@[j],
            forall|j: int| i <= j < buf@.len() ==> buf@[j] == old(buf)@[j],
        decreases src@.len() - i,
    {
        let b = src[i];
        buf[i] = b;
        i += 1;
    }
    assert(buf@ =~= src@ + old(buf)@.skip(src@.len() as int));
    Ok(())
}

/// A type with a packed representation on the EtherCAT wire: packed bits,
/// little endian.
pub trait EtherCatWire: Sized {
    /// The packed length in bytes; fixed per type.
    spec fn spec_packed_len() -> nat;

    /// The exact bytes of the packed representation.
    spec fn wire_bytes(&self) -> Seq<u8>;

    /// The value decoded from exactly [`Self::spec_packed_len`] bytes, or
    /// `None` if the bytes match no value (an undeclared enum discriminant).
    spec fn spec_unpack(b: Seq<u8>) -> Option<Self>;

    /// Whether every field of the value lies within its declared bit range.
    /// Packing is defined for every value (out-of-range fields are masked);
    /// decoding a packed value restores the value exactly when it is valid.
    spec fn wire_valid(&self) -> bool;

    /// A packed representation always has the declared length.
    proof fn lemma_wire_len(&self)
        ensures
            self.wire_bytes().len() == Self::spec_packed_len(),
    ;

    /// Decoding a packed value yields the value back, for any value whose
    /// fields lie within their declared bit ranges.
    proof fn lemma_wire_round_trip(&self)
        requires
            self.wire_valid(),
        ensures
            Self::spec_unpack(self.wire_bytes()) == Some(*self),
    ;

    /// The length in bytes of this item when packed.
    fn packed_len(&self) -> (r: usize)
        ensures
            r == Self::spec_packed_len(),
    ;

    /// Pack the value and write it over the beginning of `buf`, keeping the
    /// bytes after it; fail without touching `buf` if it is too short.
    fn pack_to_slice(&self, buf: &mut Vec<u8>) -> (r: Result<(), WireError>)
        ensures
            r is Ok <==> old(buf)@.len() >= Self::spec_packed_len(),
            r is Ok ==> final(buf)@ == self.wire_bytes() + old(buf)@.skip(
                Self::spec_packed_len() as int,
            ),
            r is Err ==> final(buf)@ == old(buf)@ && r == Err::<(), WireError>(
                WireError::WriteBufferTooShort,
            ),
    ;

    /// Decode a value from the beginning of `buf`.
    fn unpack_from_slice(buf: &[u8]) -> (r: Result<Self, WireError>)
        ensures
            r is Ok <==> buf@.len() >= Self::spec_packed_len() && Self::spec_unpack(
                buf@.take(Self::spec_packed_len() as int),
            ) is Some,
            r matches Ok(v) ==> Self::spec_unpack(buf@.take(Self::spec_packed_len() as int))
                == Some(v),
            buf@.len() < Self::spec_packed_len() ==> r == Err::<Self, WireError>(
                WireError::ReadBufferTooShort,
            ),
            buf@.len() >= Self::spec_packed_len() && Self::spec_unpack(
                buf@.take(Self::spec_packed_len() as int),
            ) is None ==> r == Err::<Self, WireError>(WireError::InvalidDiscriminant),
    ;
}

/// A wire type whose packed size is known, with owned-buffer helpers.
pub trait EtherCatWireSized: EtherCatWire {
    /// Pack the value into a fresh buffer of exactly its packed length.
    fn pack(&self) -> (r: Vec<u8>)
        ensures
            r@ == self.wire_bytes(),
    ;

    /// A zeroed buffer sized to hold the packed representation.
    fn buffer() -> (r: Vec<u8>)
        ensures
            r@.len() == Self::spec_packed_len(),
            forall|i: int| 0 <= i < r@.len() ==> r@[i] == 0u8,
    ;
}

/// A zeroed byte buffer of length `n`.
pub fn zero_buffer(n: usize) -> (r: Vec<u8>)
    ensures
        r@.len() == n,
        forall|i: int| 0 <= i < r@.len() ==> r@[i] == 0u8,
{
    let mut out: Vec<u8> = Vec::new();
    let mut i: usize = 0;
    while i < n
        invariant
            i <= n,
            out@.len() == i,
            forall|j: int| 0 <= j < i ==> out@[j] == 0u8,
        decreases n - i,
    {
        out.push(0u8);
        i += 1;
    }
    out
}

impl EtherCatWire for u8 {
    open spec fn spec_packed_len() -> nat {
        1
    }

    open spec fn wire_bytes(&self) -> Seq<u8> {
        seq![*self]
    }

    open spec fn spec_unpack(b: Seq<u8>) -> Option<u8> {
        Some(b[0])
    }

    open spec fn wire_valid(&self) -> bool {
        true
    }

    proof fn lemma_wire_len(&self) {
    }

    proof fn lemma_wire_round_trip(&self) {
    }

    fn packed_len(&self) -> usize {
        1
    }

    fn pack_to_slice(&self, buf: &mut Vec<u8>) -> Result<(), WireError> {
        let mut tmp: Vec<u8> = Vec::new();
        tmp.push(*self);
        let r = splice_prefix(buf, &tmp);
        r
    }

    fn unpack_from_slice(buf: &[u8]) -> Result<u8, WireError> {
        if buf.len() < 1 {
            return Err(WireError::ReadBufferTooShort);
        }
        let v = *vstd::slice::slice_index_get(buf, 0);
        Ok(v)
    }
}

impl EtherCatWireSized for u8 {
    fn pack(&self) -> Vec<u8> {
        let mut out: Vec<u8> = Vec::new();
        out.push(*self);
        out
    }

    fn buffer() -> Vec<u8> {
        zero_buffer(1)
    }
}

impl EtherCatWire for u16 {
    open spec fn spec_packed_len() -> nat {
        2
    }

    open spec fn wire_bytes(&self) -> Seq<u8> {
        spec_u16_le(*self)
    }

    open spec fn spec_unpack(b: Seq<u8>) -> Option<u16> {
        Some(spec_u16_of_le(b[0], b[1]))
    }

    open spec fn wire_valid(&self) -> bool {
        true
    }

    proof fn lemma_wire_len(&self) {
    }

    proof fn lemma_wire_round_trip(&self) {
        lemma_u16_le_round_trip(*self, 0, 0);
        assert(self.wire_bytes().take(2) =~= self.wire_bytes());
    }

    fn packed_len(&self) -> usize {
        2
    }

    fn pack_to_slice(&self, buf: &mut Vec<u8>) -> Result<(), WireError> {
        let mut tmp: Vec<u8> = Vec::new();
        push_u16_le(&mut tmp, *self);
        let r = splice_prefix(buf, &tmp);
        r
    }

    fn unpack_from_slice(buf: &[u8]) -> Result<u16, WireError> {
        if buf.len() < 2 {
            return Err(WireError::ReadBufferTooShort);
        }
        let v = crate::wire::read_u16_le(buf, 0);
        Ok(v)
    }
}

impl EtherCatWireSized for u16 {
    fn pack(&self) -> Vec<u8> {
        let mut out: Vec<u8> = Vec::new();
        push_u16_le(&mut out, *self);
        out
    }

    fn buffer() -> Vec<u8> {
        zero_buffer(2)
    }
}

impl EtherCatWire for u32 {
    open spec fn spec_packed_len() -> nat {
        4
    }

    open spec fn wire_bytes(&self) -> Seq<u8> {
        spec_u32_le(*self)
    }

    open spec fn spec_unpack(b: Seq<u8>) -> Option<u32> {
        Some(spec_u32_of_le(b[0], b[1], b[2], b[3]))
    }

    open spec fn wire_valid(&self) -> bool {
        true
    }

    proof fn lemma_wire_len(&self) {
    }

    proof fn lemma_wire_round_trip(&self) {
        lemma_u32_le_round_trip(*self, 0, 0, 0, 0);
    }

    fn packed_len(&self) -> usize {
        4
    }

    fn pack_to_slice(&self, buf: &mut Vec<u8>) -> Result<(), WireError> {
        let mut tmp: Vec<u8> = Vec::new();
        push_u32_le(&mut tmp, *self);
        let r = splice_prefix(buf, &tmp);
        r
    }

    fn unpack_from_slice(buf: &[u8]) -> Result<u32, WireError> {
        if buf.len() < 4 {
            return Err(WireError::ReadBufferTooShort);
        }
        let v = crate::wire::read_u32_le(buf, 0);
        Ok(v)
    }
}

impl EtherCatWireSized for u32 {
    fn pack(&self) -> Vec<u8> {
        let mut out: Vec<u8> = Vec::new();
        push_u32_le(&mut out, *self);
        out
    }

    fn buffer() -> Vec<u8> {
        zero_buffer(4)
    }
}

impl EtherCatWire for u64 {
    open spec fn spec_packed_len() -> nat {
        8
    }

    open spec fn wire_bytes(&self) -> Seq<u8> {
        spec_u64_le(*self)
    }

    open spec fn spec_unpack(b: Seq<u8>) -> Option<u64> {
        Some(spec_u64_of_le(b[0], b[1], b[2], b[3], b[4], b[5], b[6], b[7]))
    }

    open spec fn wire_valid(&self) -> bool {
        true
    }

    proof fn lemma_wire_len(&self) {
    }

    proof fn lemma_wire_round_trip(&self) {
        lemma_u64_le_round_trip(*self);
    }

    fn packed_len(&self) -> usize {
        8
    }

    fn pack_to_slice(&self, buf: &mut Vec<u8>) -> Result<(), WireError> {
        let mut tmp: Vec<u8> = Vec::new();
        crate::wire::push_u64_le(&mut tmp, *self);
        let r = splice_prefix(buf, &tmp);
        r
    }

    fn unpack_from_slice(buf: &[u8]) -> Result<u64, WireError> {
        if buf.len() < 8 {
            return Err(WireError::ReadBufferTooShort);
        }
        let v = crate::wire::read_u64_le(buf, 0);
        Ok(v)
    }
}

impl EtherCatWireSized for u64 {
    fn pack(&self) -> Vec<u8> {
        let mut out: Vec<u8> = Vec::new();
        crate::wire::push_u64_le(&mut out, *self);
        out
    }

    fn buffer() -> Vec<u8> {
        zero_buffer(8)
    }
}

impl EtherCatWire for i8 {
    open spec fn spec_packed_len() -> nat {
        1
    }

    open spec fn wire_bytes(&self) -> Seq<u8> {
        seq![*self as u8]
    }

    open spec fn spec_unpack(b: Seq<u8>) -> Option<i8> {
        Some(b[0] as i8)
    }

    open spec fn wire_valid(&self) -> bool {
        true
    }

    proof fn lemma_wire_len(&self) {
    }

    proof fn lemma_wire_round_trip(&self) {
        let v = *self;
        assert((v as u8) as i8 == v) by (bit_vector);
    }

    fn packed_len(&self) -> usize {
        1
    }

    fn pack_to_slice(&self, buf: &mut Vec<u8>) -> Result<(), WireError> {
        let mut tmp: Vec<u8> = Vec::new();
        tmp.push(*self as u8);
        let r = splice_prefix(buf, &tmp);
        r
    }

    fn unpack_from_slice(buf: &[u8]) -> Result<i8, WireError> {
        if buf.len() < 1 {
            return Err(WireError::ReadBufferTooShort);
        }
        let v = *vstd::slice::slice_index_get(buf, 0);
        Ok(v as i8)
    }
}

impl EtherCatWireSized for i8 {
    fn pack(&self) -> Vec<u8> {
        let mut out: Vec<u8> = Vec::new();
        out.push(*self as u8);
        out
    }

    fn buffer() -> Vec<u8> {
        zero_buffer(1)
    }
}

impl EtherCatWire for i16 {
    open spec fn spec_packed_len() -> nat {
        2
    }

    open spec fn wire_bytes(&self) -> Seq<u8> {
        spec_u16_le(*self as u16)
    }

    open spec fn spec_unpack(b: Seq<u8>) -> Option<i16> {
        Some(spec_u16_of_le(b[0], b[1]) as i16)
    }

    open spec fn wire_valid(&self) -> bool {
        true
    }

    proof fn lemma_wire_len(&self) {
    }

    proof fn lemma_wire_round_trip(&self) {
        let v = *self;
        lemma_u16_le_round_trip(v as u16, 0, 0);
        assert((v as u16) as i16 == v) by (bit_vector);
    }

    fn packed_len(&self) -> usize {
        2
    }

    fn pack_to_slice(&self, buf: &mut Vec<u8>) -> Result<(), WireError> {
        let mut tmp: Vec<u8> = Vec::new();
        push_u16_le(&mut tmp, *self as u16);
        let r = splice_prefix(buf, &tmp);
        r
    }

    fn unpack_from_slice(buf: &[u8]) -> Result<i16, WireError> {
        if buf.len() < 2 {
            return Err(WireError::ReadBufferTooShort);
        }
        let v = crate::wire::read_u16_le(buf, 0);
        Ok(v as i16)
    }
}

impl EtherCatWireSized for i16 {
    fn pack(&self) -> Vec<u8> {
        let mut out: Vec<u8> = Vec::new();
        push_u16_le(&mut out, *self as u16);
        out
    }

    fn buffer() -> Vec<u8> {
        zero_buffer(2)
    }
}

impl EtherCatWire for i32 {
    open spec fn spec_packed_len() -> nat {
        4
    }

    open spec fn wire_bytes(&self) -> Seq<u8> {
        spec_u32_le(*self as u32)
    }

    open spec fn spec_unpack(b: Seq<u8>) -> Option<i32> {
        Some(spec_u32_of_le(b[0], b[1], b[2], b[3]) as i32)
    }

    open spec fn wire_valid(&self) -> bool {
        true
    }

    proof fn lemma_wire_len(&self) {
    }

    proof fn lemma_wire_round_trip(&self) {
        let v = *self;
        lemma_u32_le_round_trip(v as u32, 0, 0, 0, 0);
        assert((v as u32) as i32 == v) by (bit_vector);
    }

    fn packed_len(&self) -> usize {
        4
    }

    fn pack_to_slice(&self, buf: &mut Vec<u8>) -> Result<(), WireError> {
        let mut tmp: Vec<u8> = Vec::new();
        push_u32_le(&mut tmp, *self as u32);
        let r = splice_prefix(buf, &tmp);
        r
    }

    fn unpack_from_slice(buf: &[u8]) -> Result<i32, WireError> {
        if buf.len() < 4 {
            return Err(WireError::ReadBufferTooShort);
        }
        let v = crate::wire::read_u32_le(buf, 0);
        Ok(v as i32)
    }
}

impl EtherCatWireSized for i32 {
    fn pack(&self) -> Vec<u8> {
        let mut out: Vec<u8> = Vec::new();
        push_u32_le(&mut out, *self as u32);
        out
    }

    fn buffer() -> Vec<u8> {
        zero_buffer(4)
    }
}

impl EtherCatWire for i64 {
    open spec fn spec_packed_len() -> nat {
        8
    }

    open spec fn wire_bytes(&self) -> Seq<u8> {
        spec_u64_le(*self as u64)
    }

    open spec fn spec_unpack(b: Seq<u8>) -> Option<i64> {
        Some(spec_u64_of_le(b[0], b[1], b[2], b[3], b[4], b[5], b[6], b[7]) as i64)
    }

    open spec fn wire_valid(&self) -> bool {
        true
    }

    proof fn lemma_wire_len(&self) {
    }

    proof fn lemma_wire_round_trip(&self) {
        let v = *self;
        lemma_u64_le_round_trip(v as u64);
        assert((v as u64) as i64 == v) by (bit_vector);
    }

    fn packed_len(&self) -> usize {
        8
    }

    fn pack_to_slice(&self, buf: &mut Vec<u8>) -> Result<(), WireError> {
        let mut tmp: Vec<u8> = Vec::new();
        crate::wire::push_u64_le(&mut tmp, *self as u64);
        let r = splice_prefix(buf, &tmp);
        r
    }

    fn unpack_from_slice(buf: &[u8]) -> Result<i64, WireError> {
        if buf.len() < 8 {
            return Err(WireError::ReadBufferTooShort);
        }
        let v = crate::wire::read_u64_le(buf, 0);
        Ok(v as i64)
    }
}

impl EtherCatWireSized for i64 {
    fn pack(&self) -> Vec<u8> {
        let mut out: Vec<u8> = Vec::new();
        crate::wire::push_u64_le(&mut out, *self as u64);
        out
    }

    fn buffer() -> Vec<u8> {
        zero_buffer(8)
    }
}

impl EtherCatWire for bool {
    open spec fn spec_packed_len() -> nat {
        1
    }

    open spec fn wire_bytes(&self) -> Seq<u8> {
        seq![if *self { 1u8 } else { 0u8 }]
    }

    open spec fn spec_unpack(b: Seq<u8>) -> Option<bool> {
        Some(b[0] == 1u8)
    }

    open spec fn wire_valid(&self) -> bool {
        true
    }

    proof fn lemma_wire_len(&self) {
    }

    proof fn lemma_wire_round_trip(&self) {
    }

    fn packed_len(&self) -> usize {
        1
    }

    fn pack_to_slice(&self, buf: &mut Vec<u8>) -> Result<(), WireError> {
        let mut tmp: Vec<u8> = Vec::new();
        tmp.push(if *self { 1u8 } else { 0u8 });
        let r = splice_prefix(buf, &tmp);
        r
    }

    fn unpack_from_slice(buf: &[u8]) -> Result<bool, WireError> {
        if buf.len() < 1 {
            return Err(WireError::ReadBufferTooShort);
        }
        let v = *vstd::slice::slice_index_get(buf, 0);
        Ok(v == 1)
    }
}

impl EtherCatWireSized for bool {
    fn pack(&self) -> Vec<u8> {
        let mut out: Vec<u8> = Vec::new();
        out.push(if *self { 1u8 } else { 0u8 });
        out
    }

    fn buffer() -> Vec<u8> {
        zero_buffer(1)
    }
}

impl EtherCatWire for () {
    open spec fn spec_packed_len() -> nat {
        0
    }

    open spec fn wire_bytes(&self) -> Seq<u8> {
        Seq::empty()
    }

    open spec fn spec_unpack(b: Seq<u8>) -> Option<()> {
        Some(())
    }

    open spec fn wire_valid(&self) -> bool {
        true
    }

    proof fn lemma_wire_len(&self) {
    }

    proof fn lemma_wire_round_trip(&self) {
    }

    fn packed_len(&self) -> usize {
        0
    }

    fn pack_to_slice(&self, buf: &mut Vec<u8>) -> Result<(), WireError> {
        assert(final(buf)@ =~= self.wire_bytes() + old(buf)@.skip(0));
        Ok(())
    }

    fn unpack_from_slice(buf: &[u8]) -> Result<(), WireError> {
        Ok(())
    }
}

impl EtherCatWireSized for () {
    fn pack(&self) -> Vec<u8> {
        let out: Vec<u8> = Vec::new();
        out
    }

    fn buffer() -> Vec<u8> {
        zero_buffer(0)
    }
}

} // verus!
