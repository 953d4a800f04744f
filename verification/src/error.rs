//! Error taxonomy for the codec and the mailbox protocol.
//!
//! Every layer returns typed results to its caller; no layer retries or
//! resynchronises silently.

use vstd::prelude::*;

verus! {

/// Errors from packing or unpacking a wire representation.
#[derive(Debug, Clone, Copy, PartialEq, Eq, Structural)]
pub enum WireError {
    /// The source buffer is shorter than the packed representation.
    ReadBufferTooShort,
    /// The destination buffer cannot hold the packed representation.
    WriteBufferTooShort,
    /// A decoded integer matched no declared enum discriminant or alternate.
    InvalidDiscriminant,
}

/// PDU-level decode failure.
#[derive(Debug, Clone, Copy, PartialEq, Eq, Structural)]
pub enum PduError {
    /// A frame or PDU header could not be decoded.
    Decode,
}

/// SII/EEPROM-level decode failure.
#[derive(Debug, Clone, Copy, PartialEq, Eq, Structural)]
pub enum EepromError {
    /// An EEPROM category record could not be decoded.
    Decode,
}

/// Mailbox protocol failures.
#[derive(Debug, Clone, Copy, PartialEq, Eq, Structural)]
pub enum MailboxError {
    /// A required read or write mailbox is not configured for the device.
    NoMailbox,
    /// A mailbox handshake did not complete within the configured timeout.
    /// Carries the configured station address of the device for diagnosis.
    Timeout { slave: u16 },
    /// The device rejected an SDO request with a vendor abort code.
    Aborted { code: u32, address: u16, sub_index: u8 },
    /// A response did not correlate with the request just sent: its mailbox
    /// type was not CoE or its counter did not match.
    SdoResponseInvalid { address: u16, sub_index: u8 },
    /// The device announced more data than the caller's buffer can hold.
    TooLong { address: u16, sub_index: u8 },
}

/// Top-level error type of the library.
#[derive(Debug, Clone, Copy, PartialEq, Eq, Structural)]
pub enum Error {
    /// Wire codec failure.
    Wire(WireError),
    /// PDU decode failure.
    Pdu(PduError),
    /// EEPROM record decode failure.
    Eeprom(EepromError),
    /// Mailbox protocol failure.
    Mailbox(MailboxError),
    /// A device refused a requested application-layer state transition; the
    /// code is the device's AL status code register value.
    StateTransition { code: u16 },
    /// A bounded wait elapsed.
    Timeout,
    /// The request is outside the supported subset of the protocol.
    NotSupported,
    /// Accumulated segment data would exceed the destination capacity.
    BufferTooShort,
}

} // verus!
