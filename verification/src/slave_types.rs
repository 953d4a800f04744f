//! Per-device configuration records.

use vstd::prelude::*;

use crate::eeprom::MailboxProtocols;
use crate::eeprom::SyncManagerType;

verus! {

/// One mailbox direction of a device: supplied during device
/// configuration and immutable afterwards.
#[derive(Debug, Clone, Copy, PartialEq, Eq, Structural)]
pub struct Mailbox {
    /// Physical address of the mailbox buffer.
    pub address: u16,
    /// Length in bytes of the mailbox buffer.
    pub len: u16,
    /// Index of the sync manager channel guarding the buffer.
    pub sync_manager: u8,
}

/// Mailbox configuration of a device.
#[derive(Debug, Clone, PartialEq, Eq)]
pub struct MailboxConfig {
    /// Device-to-master mailbox, if configured.
    pub read: Option<Mailbox>,
    /// Master-to-device mailbox, if configured.
    pub write: Option<Mailbox>,
    /// Protocols the device supports.
    pub supported_protocols: MailboxProtocols,
    /// Usage of each sync manager channel relevant to CoE; at most
    /// sixteen.
    pub coe_sync_manager_types: Vec<SyncManagerType>,
    /// Whether the device supports CoE at all.
    pub has_coe: bool,
    /// Whether SDO complete access is supported.
    pub complete_access: bool,
}

impl MailboxConfig {
    /// A device has at most sixteen sync manager channels.
    pub open spec fn wf(self) -> bool {
        self.coe_sync_manager_types@.len() <= 16
    }

    /// An unconfigured mailbox: no buffers, no protocols.
    pub fn unconfigured() -> (r: Self)
        ensures
            r.read is None,
            r.write is None,
            r.supported_protocols.bits == 0,
            r.coe_sync_manager_types@.len() == 0,
            !r.has_coe,
            !r.complete_access,
            r.wf(),
    {
        Self {
            read: None,
            write: None,
            supported_protocols: MailboxProtocols { bits: 0 },
            coe_sync_manager_types: Vec::new(),
            has_coe: false,
            complete_access: false,
        }
    }
}

/// One contiguous region of the cyclic process-data image.
#[derive(Debug, Clone, Copy, PartialEq, Eq, Structural)]
pub struct PdiSegment {
    /// Length of the region in bits.
    pub bit_len: usize,
    /// First byte of the region within the image.
    pub bytes_start: usize,
    /// One past the last byte of the region within the image.
    pub bytes_end: usize,
}

/// Input and output regions of a device within the process-data image.
#[derive(Debug, Clone, Copy, PartialEq, Eq, Structural)]
pub struct IoRanges {
    /// Region the master reads from the device.
    pub input: PdiSegment,
    /// Region the master writes to the device.
    pub output: PdiSegment,
}

/// Identity words read from a device's EEPROM.
#[derive(Debug, Clone, Copy, PartialEq, Eq, Structural)]
pub struct SlaveIdentity {
    /// Vendor identifier.
    pub vendor_id: u32,
    /// Product identifier.
    pub product_id: u32,
    /// Revision number.
    pub revision: u32,
    /// Serial number.
    pub serial: u32,
}

/// Configuration of one device: process-data layout and mailboxes.
#[derive(Debug, Clone, PartialEq, Eq)]
pub struct SlaveConfig {
    /// Process-data regions of the device.
    pub io: IoRanges,
    /// Mailbox configuration of the device.
    pub mailbox: MailboxConfig,
}

} // verus!
