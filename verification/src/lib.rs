//! Verified core of an EtherCAT master stack.
//!
//! Two tightly coupled layers are covered. The first is a bit-exact binary
//! wire codec mapping typed values to and from packed, sub-byte-aligned,
//! little-endian byte layouts. The second is the CAN-over-EtherCAT (CoE)
//! Service Data Object mailbox protocol built on that codec: a
//! counter-correlated, potentially multi-segment request/response exchange,
//! guarded by the device-side full/empty handshake and the device's
//! application-layer state machine.
//!
//! Raw frame transmission is out of scope: the protocol layers here are pure
//! functions from state and observed device responses to the next request and
//! state, so an unverified driver can perform the actual register and mailbox
//! I/O around them.

use vstd::prelude::*;

pub mod al_control;
pub mod channel;
pub mod codec;
pub mod coe;
pub mod eeprom;
pub mod error;
pub mod frame_header;
pub mod mailbox;
pub mod parse;
pub mod pdu_flags;
pub mod register;
pub mod sdo;
pub mod slave;
pub mod slave_state;
pub mod slave_types;
pub mod sync_manager_channel;
pub mod wire;

verus! {

/// Mask for the 11-bit length field shared by frame headers and PDU flags.
pub const LEN_MASK: u16 = 0x07ff;

} // verus!
