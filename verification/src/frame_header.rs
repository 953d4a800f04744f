//! The EtherCAT frame header: an 11-bit payload length, a reserved bit and
//! a four-bit protocol type, packed as one little-endian 16-bit word.

use vstd::prelude::*;

use crate::error::Error;
use crate::error::PduError;
use crate::parse::new_le_u16;
use crate::wire::spec_u16_of_le;
use crate::LEN_MASK;

verus! {

/// Protocol type carried in bits 12..16 of a frame header.
#[derive(Debug, Clone, Copy, PartialEq, Eq, Structural)]
pub enum ProtocolType {
    /// EtherCAT datagrams (PDUs).
    DlPdu,
    /// Network variables.
    NetworkVariables,
    /// Mailbox transport.
    Mailbox,
    /// Any other code, carried through unchanged.
    Unknown(u8),
}

impl ProtocolType {
    /// The protocol decoded from a four-bit code; unlisted codes are kept
    /// as [`ProtocolType::Unknown`].
    pub open spec fn spec_of_raw(raw: u8) -> ProtocolType {
        if raw == 0x01 {
            ProtocolType::DlPdu
        } else if raw == 0x04 {
            ProtocolType::NetworkVariables
        } else if raw == 0x05 {
            ProtocolType::Mailbox
        } else {
            ProtocolType::Unknown(raw)
        }
    }

    /// The four-bit code of a protocol.
    pub open spec fn spec_raw(self) -> u8 {
        match self {
            ProtocolType::DlPdu => 0x01,
            ProtocolType::NetworkVariables => 0x04,
            ProtocolType::Mailbox => 0x05,
            ProtocolType::Unknown(raw) => raw,
        }
    }

    /// Decode a protocol code.
    pub fn from_raw(raw: u8) -> (r: ProtocolType)
        ensures
            r == ProtocolType::spec_of_raw(raw),
    {
        if raw == 0x01 {
            ProtocolType::DlPdu
        } else if raw == 0x04 {
            ProtocolType::NetworkVariables
        } else if raw == 0x05 {
            ProtocolType::Mailbox
        } else {
            ProtocolType::Unknown(raw)
        }
    }

    /// Encode a protocol as its code.
    pub fn to_raw(self) -> (r: u8)
        ensures
            r == self.spec_raw(),
    {
        match self {
            ProtocolType::DlPdu => 0x01,
            ProtocolType::NetworkVariables => 0x04,
            ProtocolType::Mailbox => 0x05,
            ProtocolType::Unknown(raw) => raw,
        }
    }
}

/// An EtherCAT frame header word.
#[derive(Debug, Clone, Copy, PartialEq, Eq, Structural)]
pub struct FrameHeader(pub u16);

impl FrameHeader {
    /// The payload length field of a header word.
    pub open spec fn spec_payload_len(self) -> u16 {
        self.0 & LEN_MASK
    }

    /// The protocol type field of a header word.
    pub open spec fn spec_protocol_type(self) -> ProtocolType {
        ProtocolType::spec_of_raw(((self.0 >> 12) as u8) & 0x0f)
    }

    /// Create a PDU frame header for a payload of `len` bytes.
    pub fn pdu(len: u16) -> (r: Self)
        requires
            len <= LEN_MASK,
        ensures
            r.0 == len | 0x1000u16,
            r.spec_payload_len() == len,
            r.spec_protocol_type() == ProtocolType::DlPdu,
    {
        let masked = len & LEN_MASK;
        let protocol_type: u16 = (0x01u16) << 12;
        proof {
            assert(len <= 0x07ffu16 ==> (len & 0x07ffu16) == len && (0x01u16 << 12) == 0x1000u16
                && ((len | 0x1000u16) & 0x07ffu16) == len && ((((len | 0x1000u16) >> 12) as u8)
                & 0x0f) == 1) by (bit_vector);
        }
        Self(masked | protocol_type)
    }

    /// Remove and parse an EtherCAT frame header from the given buffer.
    /// Succeeds exactly on an input of at least two bytes whose header word
    /// carries the PDU protocol type.
    pub fn parse(i: &[u8]) -> (r: Result<(&[u8], Self), Error>)
        ensures
            i@.len() >= 2 ==> match r {
                Ok(p) => p.0@ == i@.skip(2) && p.1 == FrameHeader(spec_u16_of_le(i@[0], i@[1]))
                    && p.1.spec_protocol_type() == ProtocolType::DlPdu,
                Err(e) => e == Error::Pdu(PduError::Decode)
                    && FrameHeader(spec_u16_of_le(i@[0], i@[1])).spec_protocol_type()
                    != ProtocolType::DlPdu,
            },
            i@.len() < 2 ==> r == Err::<(&[u8], FrameHeader), Error>(
                Error::Pdu(PduError::Decode),
            ),
    {
        let (rest, raw) = match new_le_u16(i) {
            Ok(p) => p,
            Err(_e) => {
                return Err(Error::Pdu(PduError::Decode));
            },
        };
        let header = FrameHeader(raw);
        if header.protocol_type() == ProtocolType::DlPdu {
            Ok((rest, header))
        } else {
            Err(Error::Pdu(PduError::Decode))
        }
    }

    /// The length of the payload contained in this frame.
    pub fn payload_len(&self) -> (r: usize)
        ensures
            r == self.spec_payload_len(),
    {
        (self.0 & LEN_MASK) as usize
    }

    /// The protocol type field of this header.
    pub fn protocol_type(&self) -> (r: ProtocolType)
        ensures
            r == self.spec_protocol_type(),
    {
        let raw = ((self.0 >> 12) as u8) & 0b1111;
        ProtocolType::from_raw(raw)
    }
}

} // verus!
