//! PDU fields placed after the address words of a datagram: the 11-bit data
//! length, the circulating flag (bit 14) and the more-PDUs-follow flag
//! (bit 15), packed as one little-endian 16-bit word.

use vstd::prelude::*;

use crate::codec::splice_prefix;
use crate::codec::zero_buffer;
use crate::codec::EtherCatWire;
use crate::codec::EtherCatWireSized;
use crate::error::WireError;
use crate::wire::push_u16_le;
use crate::wire::read_u16_le;
use crate::wire::spec_u16_le;
use crate::wire::spec_u16_of_le;
use crate::LEN_MASK;

verus! {

/// PDU flags word: data length, circulating flag and follows flag.
#[derive(Debug, Clone, Copy, PartialEq, Eq, Structural)]
pub struct PduFlags {
    /// Data length of this PDU, at most [`LEN_MASK`].
    pub length: u16,
    /// Whether the frame has already circulated once.
    pub circulated: bool,
    /// Whether another PDU follows this one in the frame.
    pub is_not_last: bool,
}

impl PduFlags {
    /// The packed 16-bit word.
    pub open spec fn spec_word(self) -> u16 {
        (self.length & LEN_MASK) | ((if self.circulated {
            1u16
        } else {
            0u16
        }) << 14) | ((if self.is_not_last {
            1u16
        } else {
            0u16
        }) << 15)
    }

    /// Flags for a PDU of the given data length, not circulated, last in
    /// its frame.
    pub fn with_len(len: u16) -> (r: Self)
        ensures
            r == (PduFlags { length: len, circulated: false, is_not_last: false }),
    {
        Self { length: len, circulated: false, is_not_last: false }
    }

    /// The data length carried by the flags word.
    pub fn len(self) -> (r: u16)
        ensures
            r == self.length,
    {
        self.length
    }
}

impl EtherCatWire for PduFlags {
    open spec fn spec_packed_len() -> nat {
        2
    }

    open spec fn wire_bytes(&self) -> Seq<u8> {
        spec_u16_le(self.spec_word())
    }

    open spec fn spec_unpack(b: Seq<u8>) -> Option<PduFlags> {
        Some(
            PduFlags {
                length: spec_u16_of_le(b[0], b[1]) & LEN_MASK,
                circulated: (spec_u16_of_le(b[0], b[1]) >> 14) & 1 == 1,
                is_not_last: (spec_u16_of_le(b[0], b[1]) >> 15) & 1 == 1,
            },
        )
    }

    open spec fn wire_valid(&self) -> bool {
        self.length <= LEN_MASK
    }

    proof fn lemma_wire_len(&self) {
    }

    proof fn lemma_wire_round_trip(&self) {
        let w = self.spec_word();
        let c: u16 = if self.circulated {
            1
        } else {
            0
        };
        let nl: u16 = if self.is_not_last {
            1
        } else {
            0
        };
        let length = self.length;
        crate::wire::lemma_u16_le_round_trip(w, 0, 0);
        assert(w & 0x07ff == length && ((w >> 14) & 1 == 1 <==> c == 1) && ((w >> 15) & 1
            == 1 <==> nl == 1)) by (bit_vector)
            requires
                length <= 0x07ff,
                c <= 1,
                nl <= 1,
                w == (length & 0x07ff) | (c << 14) | (nl << 15),
        ;
    }

    fn packed_len(&self) -> usize {
        2
    }

    fn pack_to_slice(&self, buf: &mut Vec<u8>) -> Result<(), WireError> {
        let tmp = self.pack();
        let r = splice_prefix(buf, &tmp);
        r
    }

    fn unpack_from_slice(buf: &[u8]) -> Result<PduFlags, WireError> {
        if buf.len() < 2 {
            return Err(WireError::ReadBufferTooShort);
        }
        let src = read_u16_le(buf, 0);
        let length = src & LEN_MASK;
        let circulated = (src >> 14) & 0x01 == 0x01;
        let is_not_last = (src >> 15) & 0x01 == 0x01;
        proof {
            assert(buf@.take(2)[0] == buf@[0] && buf@.take(2)[1] == buf@[1]);
        }
        Ok(Self { length, circulated, is_not_last })
    }
}

impl EtherCatWireSized for PduFlags {
    fn pack(&self) -> Vec<u8> {
        let c: u16 = if self.circulated {
            1
        } else {
            0
        };
        let nl: u16 = if self.is_not_last {
            1
        } else {
            0
        };
        let raw: u16 = (self.length & LEN_MASK) | (c << 14) | (nl << 15);
        let mut out: Vec<u8> = Vec::new();
        push_u16_le(&mut out, raw);
        out
    }

    fn buffer() -> Vec<u8> {
        zero_buffer(2)
    }
}

} // verus!
