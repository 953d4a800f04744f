//! The mailbox header framing every acyclic exchange with a device.
//!
//! Six bytes on the wire: a 16-bit data length, a 16-bit station address,
//! a channel/priority byte (the priority in bits 6..8), then the mailbox
//! type in bits 0..4 and the handshake counter in bits 4..7 of the last
//! byte. Counter values cycle through 1..=7; zero is reserved.

use vstd::prelude::*;

use crate::codec::splice_prefix;
use crate::codec::zero_buffer;
use crate::codec::EtherCatWire;
use crate::codec::EtherCatWireSized;
use crate::error::WireError;
use crate::wire::push_u16_le;
use crate::wire::read_u16_le;
use crate::wire::spec_u16_le;
use crate::wire::spec_u16_of_le;

verus! {

/// Protocol carried by a mailbox frame.
#[derive(Debug, Clone, Copy, PartialEq, Eq, Structural)]
pub enum MailboxType {
    /// ADS over EtherCAT.
    Aoe,
    /// Ethernet over EtherCAT.
    Eoe,
    /// CAN application protocol over EtherCAT.
    Coe,
    /// File access over EtherCAT.
    Foe,
    /// Servo drive profile over EtherCAT.
    Soe,
    /// Vendor-specific protocol.
    Voe,
}

impl MailboxType {
    /// The four-bit code of a mailbox type.
    pub open spec fn spec_raw(self) -> u8 {
        match self {
            MailboxType::Aoe => 0x01,
            MailboxType::Eoe => 0x02,
            MailboxType::Coe => 0x03,
            MailboxType::Foe => 0x04,
            MailboxType::Soe => 0x05,
            MailboxType::Voe => 0x0f,
        }
    }

    /// The mailbox type declared for a four-bit code, if any.
    pub open spec fn spec_of_raw(raw: u8) -> Option<MailboxType> {
        if raw == 0x01 {
            Some(MailboxType::Aoe)
        } else if raw == 0x02 {
            Some(MailboxType::Eoe)
        } else if raw == 0x03 {
            Some(MailboxType::Coe)
        } else if raw == 0x04 {
            Some(MailboxType::Foe)
        } else if raw == 0x05 {
            Some(MailboxType::Soe)
        } else if raw == 0x0f {
            Some(MailboxType::Voe)
        } else {
            None
        }
    }

    /// Encode a mailbox type.
    pub fn to_raw(self) -> (r: u8)
        ensures
            r == self.spec_raw(),
            r < 16,
    {
        match self {
            MailboxType::Aoe => 0x01,
            MailboxType::Eoe => 0x02,
            MailboxType::Coe => 0x03,
            MailboxType::Foe => 0x04,
            MailboxType::Soe => 0x05,
            MailboxType::Voe => 0x0f,
        }
    }

    /// Decode a mailbox type code.
    pub fn from_raw(raw: u8) -> (r: Option<MailboxType>)
        ensures
            r == MailboxType::spec_of_raw(raw),
    {
        if raw == 0x01 {
            Some(MailboxType::Aoe)
        } else if raw == 0x02 {
            Some(MailboxType::Eoe)
        } else if raw == 0x03 {
            Some(MailboxType::Coe)
        } else if raw == 0x04 {
            Some(MailboxType::Foe)
        } else if raw == 0x05 {
            Some(MailboxType::Soe)
        } else if raw == 0x0f {
            Some(MailboxType::Voe)
        } else {
            None
        }
    }
}

/// The six-byte mailbox header.
#[derive(Debug, Clone, Copy, PartialEq, Eq, Structural)]
pub struct MailboxHeader {
    /// Length in bytes of the mailbox service data following this header.
    pub length: u16,
    /// Station address of the source (responses) or destination
    /// (requests).
    pub address: u16,
    /// Frame priority, a two-bit field.
    pub priority: u8,
    /// Protocol carried by the frame.
    pub mailbox_type: MailboxType,
    /// Handshake counter correlating a response with its request; cycles
    /// through 1..=7.
    pub counter: u8,
}

impl MailboxHeader {
    /// The channel/priority byte.
    pub open spec fn spec_byte4(self) -> u8 {
        (self.priority & 0x03) << 6
    }

    /// The type/counter byte.
    pub open spec fn spec_byte5(self) -> u8 {
        self.mailbox_type.spec_raw() | ((self.counter & 0x07) << 4)
    }
}

impl EtherCatWire for MailboxHeader {
    open spec fn spec_packed_len() -> nat {
        6
    }

    open spec fn wire_bytes(&self) -> Seq<u8> {
        spec_u16_le(self.length) + spec_u16_le(self.address) + seq![
            self.spec_byte4(),
            self.spec_byte5(),
        ]
    }

    open spec fn spec_unpack(b: Seq<u8>) -> Option<MailboxHeader> {
        match MailboxType::spec_of_raw(b[5] & 0x0f) {
            Some(mailbox_type) => Some(
                MailboxHeader {
                    length: spec_u16_of_le(b[0], b[1]),
                    address: spec_u16_of_le(b[2], b[3]),
                    priority: (b[4] >> 6) & 0x03,
                    mailbox_type,
                    counter: (b[5] >> 4) & 0x07,
                },
            ),
            None => None,
        }
    }

    open spec fn wire_valid(&self) -> bool {
        self.priority < 4 && self.counter < 8
    }

    proof fn lemma_wire_len(&self) {
    }

    proof fn lemma_wire_round_trip(&self) {
        crate::wire::lemma_u16_le_round_trip(self.length, 0, 0);
        crate::wire::lemma_u16_le_round_trip(self.address, 0, 0);
        let p = self.priority;
        let t = self.mailbox_type.spec_raw();
        let c = self.counter;
        let b4 = self.spec_byte4();
        let b5 = self.spec_byte5();
        assert((b4 >> 6) & 0x03 == p && b5 & 0x0f == t && (b5 >> 4) & 0x07 == c)
            by (bit_vector)
            requires
                p < 4,
                c < 8,
                t < 16,
                b4 == (p & 0x03) << 6,
                b5 == t | ((c & 0x07) << 4),
        ;
    }

    fn packed_len(&self) -> usize {
        6
    }

    fn pack_to_slice(&self, buf: &mut Vec<u8>) -> Result<(), WireError> {
        let tmp = self.pack();
        let r = splice_prefix(buf, &tmp);
        r
    }

    fn unpack_from_slice(buf: &[u8]) -> Result<MailboxHeader, WireError> {
        if buf.len() < 6 {
            return Err(WireError::ReadBufferTooShort);
        }
        let length = read_u16_le(buf, 0);
        let address = read_u16_le(buf, 2);
        let b4 = *vstd::slice::slice_index_get(buf, 4);
        let b5 = *vstd::slice::slice_index_get(buf, 5);
        proof {
            assert(buf@.take(6)[0] == buf@[0] && buf@.take(6)[1] == buf@[1] && buf@.take(6)[2]
                == buf@[2] && buf@.take(6)[3] == buf@[3] && buf@.take(6)[4] == buf@[4]
                && buf@.take(6)[5] == buf@[5]);
        }
        let priority = (b4 >> 6) & 0x03;
        let counter = (b5 >> 4) & 0x07;
        match MailboxType::from_raw(b5 & 0x0f) {
            Some(mailbox_type) => Ok(
                MailboxHeader { length, address, priority, mailbox_type, counter },
            ),
            None => Err(WireError::InvalidDiscriminant),
        }
    }
}

impl EtherCatWireSized for MailboxHeader {
    fn pack(&self) -> Vec<u8> {
        let mut out: Vec<u8> = Vec::new();
        push_u16_le(&mut out, self.length);
        push_u16_le(&mut out, self.address);
        out.push((self.priority & 0x03) << 6);
        out.push(self.mailbox_type.to_raw() | ((self.counter & 0x07) << 4));
        assert(out@ =~= self.wire_bytes());
        out
    }

    fn buffer() -> Vec<u8> {
        zero_buffer(6)
    }
}

} // verus!
