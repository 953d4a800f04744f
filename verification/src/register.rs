//! Well-known register addresses of a device's memory map.

use vstd::prelude::*;

verus! {

/// Base address of the sync manager configuration area; each channel
/// occupies eight bytes.
pub const SYNC_MANAGER_BASE: u16 = 0x0800;

/// Offset of the status byte within a sync manager channel's eight
/// configuration bytes.
pub const SYNC_MANAGER_STATUS_OFFSET: u16 = 5;

/// Registers the protocol layers read and write.
#[derive(Debug, Clone, Copy, PartialEq, Eq, Structural)]
pub enum RegisterAddress {
    /// Data-link status word.
    DlStatus,
    /// AL control word: requested application-layer state.
    AlControl,
    /// AL status word: reported application-layer state.
    AlStatus,
    /// AL status code: diagnostic code of a refused transition.
    AlStatusCode,
    /// SII configuration word: EEPROM access ownership.
    SiiConfig,
    /// SII control/status word.
    SiiControl,
    /// SII address word.
    SiiAddress,
    /// SII data window.
    SiiData,
}

impl RegisterAddress {
    /// The address of each register.
    pub open spec fn spec_raw(self) -> u16 {
        match self {
            RegisterAddress::DlStatus => 0x0110,
            RegisterAddress::AlControl => 0x0120,
            RegisterAddress::AlStatus => 0x0130,
            RegisterAddress::AlStatusCode => 0x0134,
            RegisterAddress::SiiConfig => 0x0500,
            RegisterAddress::SiiControl => 0x0502,
            RegisterAddress::SiiAddress => 0x0504,
            RegisterAddress::SiiData => 0x0508,
        }
    }

    /// The address of this register.
    pub fn to_raw(self) -> (r: u16)
        ensures
            r == self.spec_raw(),
    {
        match self {
            RegisterAddress::DlStatus => 0x0110,
            RegisterAddress::AlControl => 0x0120,
            RegisterAddress::AlStatus => 0x0130,
            RegisterAddress::AlStatusCode => 0x0134,
            RegisterAddress::SiiConfig => 0x0500,
            RegisterAddress::SiiControl => 0x0502,
            RegisterAddress::SiiAddress => 0x0504,
            RegisterAddress::SiiData => 0x0508,
        }
    }

    /// Address of the configuration area of sync manager channel `index`.
    pub fn sync_manager(index: u8) -> (r: u16)
        ensures
            r == 0x0800 + index * 8,
    {
        SYNC_MANAGER_BASE + (index as u16) * 8
    }

    /// Address of the status byte of sync manager channel `index`.
    pub fn sync_manager_status(index: u8) -> (r: u16)
        ensures
            r == 0x0800 + index * 8 + 5,
    {
        SYNC_MANAGER_BASE + (index as u16) * 8 + SYNC_MANAGER_STATUS_OFFSET
    }
}

} // verus!
