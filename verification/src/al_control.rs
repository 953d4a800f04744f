//! The AL control/status word of a device.
//!
//! Sixteen bits on the wire: `state` in bits 0..4, the error flag in bit 4
//! and the identification-request flag in bit 5 of the low byte; the
//! remaining ten bits are padding and packed as zero. Decoding ignores the
//! padding bits.

use vstd::prelude::*;

use crate::codec::splice_prefix;
use crate::codec::zero_buffer;
use crate::codec::EtherCatWire;
use crate::codec::EtherCatWireSized;
use crate::error::WireError;
use crate::slave_state::SlaveState;
use crate::wire::extract_field;
use crate::wire::merge_field;

verus! {

/// The AL control/status word for an individual slave device.
#[derive(Debug, Clone, Copy, PartialEq, Eq, Structural)]
pub struct AlControl {
    /// AL state.
    pub state: SlaveState,
    /// Error flag: set in a status word when the last transition failed;
    /// set in a control word to acknowledge the error.
    pub error: bool,
    /// ID request flag.
    pub id_request: bool,
}

impl AlControl {
    /// The low byte of the packed word.
    pub open spec fn spec_low_byte(self) -> u8 {
        self.state.spec_raw() | (if self.error {
            0x10u8
        } else {
            0u8
        }) | (if self.id_request {
            0x20u8
        } else {
            0u8
        })
    }

    /// Request the given state, with no error acknowledge and no ID request.
    pub fn new(state: SlaveState) -> (r: Self)
        ensures
            r == (AlControl { state, error: false, id_request: false }),
    {
        Self { state, error: false, id_request: false }
    }

    /// A state request word: every request for a state transition carries
    /// the target state together with the error-acknowledge flag.
    pub fn request(state: SlaveState) -> (r: Self)
        ensures
            r == (AlControl { state, error: true, id_request: false }),
    {
        Self { state, error: true, id_request: false }
    }

    /// Request a return to `Init`, acknowledging any pending error.
    pub fn reset() -> (r: Self)
        ensures
            r == (AlControl { state: SlaveState::Init, error: true, id_request: false }),
    {
        Self { state: SlaveState::Init, error: true, id_request: false }
    }
}

impl EtherCatWire for AlControl {
    open spec fn spec_packed_len() -> nat {
        2
    }

    open spec fn wire_bytes(&self) -> Seq<u8> {
        seq![self.spec_low_byte(), 0u8]
    }

    open spec fn spec_unpack(b: Seq<u8>) -> Option<AlControl> {
        match SlaveState::spec_of_raw(b[0] & 0x0f) {
            Some(state) => Some(
                AlControl {
                    state,
                    error: (b[0] >> 4) & 1 == 1,
                    id_request: (b[0] >> 5) & 1 == 1,
                },
            ),
            None => None,
        }
    }

    open spec fn wire_valid(&self) -> bool {
        true
    }

    proof fn lemma_wire_len(&self) {
    }

    proof fn lemma_wire_round_trip(&self) {
        let raw = self.state.spec_raw();
        let e: u8 = if self.error {
            0x10
        } else {
            0
        };
        let idr: u8 = if self.id_request {
            0x20
        } else {
            0
        };
        let b0 = self.spec_low_byte();
        assert(b0 & 0x0f == raw && ((b0 >> 4) & 1 == 1 <==> e == 0x10) && ((b0 >> 5) & 1 == 1
            <==> idr == 0x20)) by (bit_vector)
            requires
                raw < 16,
                e == 0x10 || e == 0,
                idr == 0x20 || idr == 0,
                b0 == raw | e | idr,
        ;
    }

    fn packed_len(&self) -> usize {
        2
    }

    fn pack_to_slice(&self, buf: &mut Vec<u8>) -> Result<(), WireError> {
        let tmp = self.pack();
        let r = splice_prefix(buf, &tmp);
        r
    }

    fn unpack_from_slice(buf: &[u8]) -> Result<AlControl, WireError> {
        if buf.len() < 2 {
            return Err(WireError::ReadBufferTooShort);
        }
        let b0 = *vstd::slice::slice_index_get(buf, 0);
        let state_raw = extract_field(b0, 0, 4);
        let error = extract_field(b0, 4, 1) == 1;
        let id_request = extract_field(b0, 5, 1) == 1;
        proof {
            assert(buf@.take(2)[0] == buf@[0]);
            assert(crate::wire::spec_extract_field(b0, 0, 4) == b0 & 0x0f
                && crate::wire::spec_extract_field(b0, 4, 1) == (b0 >> 4) & 1
                && crate::wire::spec_extract_field(b0, 5, 1) == (b0 >> 5) & 1) by (bit_vector);
        }
        match SlaveState::from_raw(state_raw) {
            Some(state) => Ok(AlControl { state, error, id_request }),
            None => Err(WireError::InvalidDiscriminant),
        }
    }
}

impl EtherCatWireSized for AlControl {
    fn pack(&self) -> Vec<u8> {
        let mut b0: u8 = 0;
        b0 = merge_field(b0, self.state.to_raw(), 0, 4);
        b0 = merge_field(
            b0,
            if self.error {
                1
            } else {
                0
            },
            4,
            1,
        );
        b0 = merge_field(
            b0,
            if self.id_request {
                1
            } else {
                0
            },
            5,
            1,
        );
        proof {
            let raw = self.state.spec_raw();
            let eb: u8 = if self.error {
                1
            } else {
                0
            };
            let ib: u8 = if self.id_request {
                1
            } else {
                0
            };
            let e: u8 = if self.error {
                0x10
            } else {
                0
            };
            let idr: u8 = if self.id_request {
                0x20
            } else {
                0
            };
            assert(crate::wire::spec_merge_field(
                crate::wire::spec_merge_field(
                    crate::wire::spec_merge_field(0u8, raw, 0, 4),
                    eb,
                    4,
                    1,
                ),
                ib,
                5,
                1,
            ) == (raw | e | idr)) by (bit_vector)
                requires
                    raw < 16,
                    e == 0x10 || e == 0,
                    idr == 0x20 || idr == 0,
                    (eb == 1 <==> e == 0x10),
                    (ib == 1 <==> idr == 0x20),
                    eb <= 1,
                    ib <= 1,
            ;
        }
        let mut out: Vec<u8> = Vec::new();
        out.push(b0);
        out.push(0u8);
        assert(out@ =~= self.wire_bytes());
        out
    }

    fn buffer() -> Vec<u8> {
        zero_buffer(2)
    }
}

} // verus!
