//! Slave Information Interface (SII) types: the EEPROM control/status word,
//! read requests, and the records of the EEPROM category sections.

use vstd::prelude::*;

use crate::codec::splice_prefix;
use crate::codec::zero_buffer;
use crate::codec::EtherCatWire;
use crate::codec::EtherCatWireSized;
use crate::error::EepromError;
use crate::error::Error;
use crate::error::WireError;
use crate::parse::map_opt;
use crate::parse::new_all_consumed;
use crate::parse::new_le_i16;
use crate::parse::new_le_u16;
use crate::parse::new_le_u8;
use crate::sync_manager_channel::Control;

verus! {

/// Which side owns EEPROM access.
#[derive(Debug, Clone, Copy, PartialEq, Eq, Structural)]
pub enum SiiOwner {
    /// The master owns EEPROM access.
    Master,
    /// The device-side application (PDI) owns EEPROM access.
    Pdi,
}

impl SiiOwner {
    /// The code of an owner.
    pub open spec fn spec_raw(self) -> u8 {
        match self {
            SiiOwner::Master => 0x00,
            SiiOwner::Pdi => 0x01,
        }
    }

    /// The owner declared for a code, if any.
    pub open spec fn spec_of_raw(raw: u8) -> Option<SiiOwner> {
        if raw == 0x00 {
            Some(SiiOwner::Master)
        } else if raw == 0x01 {
            Some(SiiOwner::Pdi)
        } else {
            None
        }
    }

    /// Encode an owner.
    pub fn to_raw(self) -> (r: u8)
        ensures
            r == self.spec_raw(),
    {
        match self {
            SiiOwner::Master => 0x00,
            SiiOwner::Pdi => 0x01,
        }
    }

    /// Decode an owner code.
    pub fn from_raw(raw: u8) -> (r: Option<SiiOwner>)
        ensures
            r == SiiOwner::spec_of_raw(raw),
    {
        if raw == 0x00 {
            Some(SiiOwner::Master)
        } else if raw == 0x01 {
            Some(SiiOwner::Pdi)
        } else {
            None
        }
    }
}

/// EEPROM access rights advertised by the control word.
#[derive(Debug, Clone, Copy, PartialEq, Eq, Structural)]
pub enum SiiAccess {
    /// Read-only access.
    ReadOnly,
    /// Read and write access.
    ReadWrite,
}

impl SiiAccess {
    /// The one-bit code of an access mode.
    pub open spec fn spec_raw(self) -> u8 {
        match self {
            SiiAccess::ReadOnly => 0x00,
            SiiAccess::ReadWrite => 0x01,
        }
    }

    /// Encode the access mode.
    pub fn to_raw(self) -> (r: u8)
        ensures
            r == self.spec_raw(),
            r <= 1,
    {
        match self {
            SiiAccess::ReadOnly => 0x00,
            SiiAccess::ReadWrite => 0x01,
        }
    }

    /// The access mode of a one-bit code.
    pub open spec fn spec_of_bit(bit: u8) -> SiiAccess {
        if bit == 1 {
            SiiAccess::ReadWrite
        } else {
            SiiAccess::ReadOnly
        }
    }
}

/// How many octets one EEPROM read delivers.
#[derive(Debug, Clone, Copy, PartialEq, Eq, Structural)]
pub enum SiiReadSize {
    /// Four octets at a time.
    Octets4,
    /// Eight octets at a time.
    Octets8,
}

impl SiiReadSize {
    /// The one-bit code of a read size.
    pub open spec fn spec_raw(self) -> u8 {
        match self {
            SiiReadSize::Octets4 => 0x00,
            SiiReadSize::Octets8 => 0x01,
        }
    }

    /// Encode the read size.
    pub fn to_raw(self) -> (r: u8)
        ensures
            r == self.spec_raw(),
            r <= 1,
    {
        match self {
            SiiReadSize::Octets4 => 0x00,
            SiiReadSize::Octets8 => 0x01,
        }
    }

    /// The read size of a one-bit code.
    pub open spec fn spec_of_bit(bit: u8) -> SiiReadSize {
        if bit == 1 {
            SiiReadSize::Octets8
        } else {
            SiiReadSize::Octets4
        }
    }

    /// The number of bytes one read of this size delivers.
    pub fn chunk_len(&self) -> (r: u16)
        ensures
            r == match *self {
                SiiReadSize::Octets4 => 4u16,
                SiiReadSize::Octets8 => 8u16,
            },
    {
        match self {
            SiiReadSize::Octets4 => 4,
            SiiReadSize::Octets8 => 8,
        }
    }
}

/// Width of EEPROM addresses.
#[derive(Debug, Clone, Copy, PartialEq, Eq, Structural)]
pub enum SiiAddressSize {
    /// Eight-bit addressing.
    U8,
    /// Sixteen-bit addressing.
    U16,
}

impl SiiAddressSize {
    /// The one-bit code of an address size.
    pub open spec fn spec_raw(self) -> u8 {
        match self {
            SiiAddressSize::U8 => 0x00,
            SiiAddressSize::U16 => 0x01,
        }
    }

    /// Encode the address size.
    pub fn to_raw(self) -> (r: u8)
        ensures
            r == self.spec_raw(),
            r <= 1,
    {
        match self {
            SiiAddressSize::U8 => 0x00,
            SiiAddressSize::U16 => 0x01,
        }
    }

    /// The address size of a one-bit code.
    pub open spec fn spec_of_bit(bit: u8) -> SiiAddressSize {
        if bit == 1 {
            SiiAddressSize::U16
        } else {
            SiiAddressSize::U8
        }
    }
}

/// Well-known word addresses within the EEPROM.
#[derive(Debug, Clone, Copy, PartialEq, Eq, Structural)]
pub enum SiiCoding {
    /// PDI control word.
    PdiControl,
    /// PDI configuration word.
    PdiConfiguration,
    /// Sync impulse length.
    SyncImpulseLen,
    /// Second PDI configuration word.
    PdiConfiguration2,
    /// Configured station alias.
    ConfiguredStationAlias,
    /// Checksum word.
    Checksum,
    /// Vendor identifier.
    VendorId,
    /// Product code.
    ProductCode,
    /// Revision number.
    RevisionNumber,
    /// Serial number.
    SerialNumber,
    /// Reserved byte.
    Reserved,
    /// Bootstrap receive mailbox offset.
    BootstrapReceiveMailboxOffset,
    /// Bootstrap receive mailbox size.
    BootstrapReceiveMailboxSize,
    /// Bootstrap send mailbox offset.
    BootstrapSendMailboxOffset,
    /// Bootstrap send mailbox size.
    BootstrapSendMailboxSize,
    /// Standard receive mailbox offset.
    StandardReceiveMailboxOffset,
    /// Standard receive mailbox size.
    StandardReceiveMailboxSize,
    /// Standard send mailbox offset.
    StandardSendMailboxOffset,
    /// Standard send mailbox size.
    StandardSendMailboxSize,
    /// Supported mailbox protocols bitmask.
    MailboxProtocol,
    /// EEPROM size word.
    Size,
    /// Layout version word.
    Version,
}

impl SiiCoding {
    /// The word address of each well-known EEPROM field.
    pub open spec fn spec_raw(self) -> u16 {
        match self {
            SiiCoding::PdiControl => 0x0000,
            SiiCoding::PdiConfiguration => 0x0001,
            SiiCoding::SyncImpulseLen => 0x0002,
            SiiCoding::PdiConfiguration2 => 0x0003,
            SiiCoding::ConfiguredStationAlias => 0x0004,
            SiiCoding::Checksum => 0x0007,
            SiiCoding::VendorId => 0x0008,
            SiiCoding::ProductCode => 0x000A,
            SiiCoding::RevisionNumber => 0x000C,
            SiiCoding::SerialNumber => 0x000E,
            SiiCoding::Reserved => 0x0010,
            SiiCoding::BootstrapReceiveMailboxOffset => 0x0014,
            SiiCoding::BootstrapReceiveMailboxSize => 0x0015,
            SiiCoding::BootstrapSendMailboxOffset => 0x0016,
            SiiCoding::BootstrapSendMailboxSize => 0x0017,
            SiiCoding::StandardReceiveMailboxOffset => 0x0018,
            SiiCoding::StandardReceiveMailboxSize => 0x0019,
            SiiCoding::StandardSendMailboxOffset => 0x001A,
            SiiCoding::StandardSendMailboxSize => 0x001B,
            SiiCoding::MailboxProtocol => 0x001C,
            SiiCoding::Size => 0x003E,
            SiiCoding::Version => 0x003F,
        }
    }

    /// The word address of this field.
    pub fn to_raw(self) -> (r: u16)
        ensures
            r == self.spec_raw(),
    {
        match self {
            SiiCoding::PdiControl => 0x0000,
            SiiCoding::PdiConfiguration => 0x0001,
            SiiCoding::SyncImpulseLen => 0x0002,
            SiiCoding::PdiConfiguration2 => 0x0003,
            SiiCoding::ConfiguredStationAlias => 0x0004,
            SiiCoding::Checksum => 0x0007,
            SiiCoding::VendorId => 0x0008,
            SiiCoding::ProductCode => 0x000A,
            SiiCoding::RevisionNumber => 0x000C,
            SiiCoding::SerialNumber => 0x000E,
            SiiCoding::Reserved => 0x0010,
            SiiCoding::BootstrapReceiveMailboxOffset => 0x0014,
            SiiCoding::BootstrapReceiveMailboxSize => 0x0015,
            SiiCoding::BootstrapSendMailboxOffset => 0x0016,
            SiiCoding::BootstrapSendMailboxSize => 0x0017,
            SiiCoding::StandardReceiveMailboxOffset => 0x0018,
            SiiCoding::StandardReceiveMailboxSize => 0x0019,
            SiiCoding::StandardSendMailboxOffset => 0x001A,
            SiiCoding::StandardSendMailboxSize => 0x001B,
            SiiCoding::MailboxProtocol => 0x001C,
            SiiCoding::Size => 0x003E,
            SiiCoding::Version => 0x003F,
        }
    }
}

/// Category record types of the EEPROM layout.
#[derive(Debug, Clone, Copy, PartialEq, Eq, Structural)]
pub enum CategoryType {
    /// Empty category.
    Nop,
    /// Device-specific category; codes 2 through 9 are declared alternates
    /// of the primary code 1.
    DeviceSpecific,
    /// String table.
    Strings,
    /// Data type descriptions.
    DataTypes,
    /// General device information.
    General,
    /// FMMU usage list.
    Fmmu,
    /// Sync manager configurations.
    SyncManager,
    /// Extended FMMU descriptions.
    FmmuExtended,
    /// Sync unit descriptions.
    SyncUnit,
    /// Transmit PDO descriptions.
    TxPdo,
    /// Receive PDO descriptions.
    RxPdo,
    /// Distributed clock settings.
    DistributedClock,
    /// End-of-categories marker.
    End,
}

impl CategoryType {
    /// The primary code of a category.
    pub open spec fn spec_raw(self) -> u16 {
        match self {
            CategoryType::Nop => 0,
            CategoryType::DeviceSpecific => 1,
            CategoryType::Strings => 10,
            CategoryType::DataTypes => 20,
            CategoryType::General => 30,
            CategoryType::Fmmu => 40,
            CategoryType::SyncManager => 41,
            CategoryType::FmmuExtended => 42,
            CategoryType::SyncUnit => 43,
            CategoryType::TxPdo => 50,
            CategoryType::RxPdo => 51,
            CategoryType::DistributedClock => 60,
            CategoryType::End => 0xffff,
        }
    }

    /// The category declared for a code, if any. Codes 2 through 9 decode
    /// to the same variant as the primary code 1.
    pub open spec fn spec_of_raw(raw: u16) -> Option<CategoryType> {
        if raw == 0 {
            Some(CategoryType::Nop)
        } else if 1 <= raw <= 9 {
            Some(CategoryType::DeviceSpecific)
        } else if raw == 10 {
            Some(CategoryType::Strings)
        } else if raw == 20 {
            Some(CategoryType::DataTypes)
        } else if raw == 30 {
            Some(CategoryType::General)
        } else if raw == 40 {
            Some(CategoryType::Fmmu)
        } else if raw == 41 {
            Some(CategoryType::SyncManager)
        } else if raw == 42 {
            Some(CategoryType::FmmuExtended)
        } else if raw == 43 {
            Some(CategoryType::SyncUnit)
        } else if raw == 50 {
            Some(CategoryType::TxPdo)
        } else if raw == 51 {
            Some(CategoryType::RxPdo)
        } else if raw == 60 {
            Some(CategoryType::DistributedClock)
        } else if raw == 0xffff {
            Some(CategoryType::End)
        } else {
            None
        }
    }

    /// Encode a category as its primary code.
    pub fn to_raw(self) -> (r: u16)
        ensures
            r == self.spec_raw(),
    {
        match self {
            CategoryType::Nop => 0,
            CategoryType::DeviceSpecific => 1,
            CategoryType::Strings => 10,
            CategoryType::DataTypes => 20,
            CategoryType::General => 30,
            CategoryType::Fmmu => 40,
            CategoryType::SyncManager => 41,
            CategoryType::FmmuExtended => 42,
            CategoryType::SyncUnit => 43,
            CategoryType::TxPdo => 50,
            CategoryType::RxPdo => 51,
            CategoryType::DistributedClock => 60,
            CategoryType::End => 0xffff,
        }
    }

    /// Decode a category code, primary or alternate.
    pub fn from_raw(raw: u16) -> (r: Option<CategoryType>)
        ensures
            r == CategoryType::spec_of_raw(raw),
    {
        if raw == 0 {
            Some(CategoryType::Nop)
        } else if 1 <= raw && raw <= 9 {
            Some(CategoryType::DeviceSpecific)
        } else if raw == 10 {
            Some(CategoryType::Strings)
        } else if raw == 20 {
            Some(CategoryType::DataTypes)
        } else if raw == 30 {
            Some(CategoryType::General)
        } else if raw == 40 {
            Some(CategoryType::Fmmu)
        } else if raw == 41 {
            Some(CategoryType::SyncManager)
        } else if raw == 42 {
            Some(CategoryType::FmmuExtended)
        } else if raw == 43 {
            Some(CategoryType::SyncUnit)
        } else if raw == 50 {
            Some(CategoryType::TxPdo)
        } else if raw == 51 {
            Some(CategoryType::RxPdo)
        } else if raw == 60 {
            Some(CategoryType::DistributedClock)
        } else if raw == 0xffff {
            Some(CategoryType::End)
        } else {
            None
        }
    }
}

/// The kind of PDO category to search for.
#[derive(Debug, Clone, Copy, PartialEq, Eq, Structural)]
pub enum PdoType {
    /// Transmit PDOs.
    Tx,
    /// Receive PDOs.
    Rx,
}

impl From<PdoType> for CategoryType {
    /// The category holding the given kind of PDO.
    fn from(value: PdoType) -> (r: CategoryType) {
        match value {
            PdoType::Tx => CategoryType::TxPdo,
            PdoType::Rx => CategoryType::RxPdo,
        }
    }
}

impl vstd::std_specs::convert::FromSpecImpl<PdoType> for CategoryType {
    open spec fn obeys_from_spec() -> bool {
        true
    }

    open spec fn from_spec(value: PdoType) -> CategoryType {
        match value {
            PdoType::Tx => CategoryType::TxPdo,
            PdoType::Rx => CategoryType::RxPdo,
        }
    }
}

/// What an FMMU is used for.
#[derive(Debug, Clone, Copy, PartialEq, Eq, Structural)]
pub enum FmmuUsage {
    /// Not used; code 0xff is a declared alternate of the primary code 0.
    Unused,
    /// Maps outputs.
    Outputs,
    /// Maps inputs.
    Inputs,
    /// Maps the sync manager status area.
    SyncManagerStatus,
}

impl FmmuUsage {
    /// The primary code of a usage.
    pub open spec fn spec_raw(self) -> u8 {
        match self {
            FmmuUsage::Unused => 0x00,
            FmmuUsage::Outputs => 0x01,
            FmmuUsage::Inputs => 0x02,
            FmmuUsage::SyncManagerStatus => 0x03,
        }
    }

    /// The usage declared for a code, if any. Code 0xff decodes to the
    /// same variant as the primary code 0.
    pub open spec fn spec_of_raw(raw: u8) -> Option<FmmuUsage> {
        if raw == 0x00 || raw == 0xff {
            Some(FmmuUsage::Unused)
        } else if raw == 0x01 {
            Some(FmmuUsage::Outputs)
        } else if raw == 0x02 {
            Some(FmmuUsage::Inputs)
        } else if raw == 0x03 {
            Some(FmmuUsage::SyncManagerStatus)
        } else {
            None
        }
    }

    /// Encode a usage as its primary code.
    pub fn to_raw(self) -> (r: u8)
        ensures
            r == self.spec_raw(),
    {
        match self {
            FmmuUsage::Unused => 0x00,
            FmmuUsage::Outputs => 0x01,
            FmmuUsage::Inputs => 0x02,
            FmmuUsage::SyncManagerStatus => 0x03,
        }
    }

    /// Decode a usage code, primary or alternate.
    pub fn from_raw(raw: u8) -> (r: Option<FmmuUsage>)
        ensures
            r == FmmuUsage::spec_of_raw(raw),
    {
        if raw == 0x00 || raw == 0xff {
            Some(FmmuUsage::Unused)
        } else if raw == 0x01 {
            Some(FmmuUsage::Outputs)
        } else if raw == 0x02 {
            Some(FmmuUsage::Inputs)
        } else if raw == 0x03 {
            Some(FmmuUsage::SyncManagerStatus)
        } else {
            None
        }
    }
}

/// Physical link kind reported for one port.
#[derive(Debug, Clone, Copy, PartialEq, Eq, Structural)]
pub enum PortStatus {
    /// Port not used.
    Unused,
    /// MII link.
    Mii,
    /// Reserved code.
    Reserved,
    /// EBUS link.
    Ebus,
    /// Fast hot-connect link.
    FastHotConnect,
}

impl PortStatus {
    /// The code of a port status.
    pub open spec fn spec_raw(self) -> u8 {
        match self {
            PortStatus::Unused => 0x00,
            PortStatus::Mii => 0x01,
            PortStatus::Reserved => 0x02,
            PortStatus::Ebus => 0x03,
            PortStatus::FastHotConnect => 0x04,
        }
    }

    /// The port status of a code; undeclared codes read as unused.
    pub open spec fn spec_of_raw_total(raw: u8) -> PortStatus {
        if raw == 0x01 {
            PortStatus::Mii
        } else if raw == 0x02 {
            PortStatus::Reserved
        } else if raw == 0x03 {
            PortStatus::Ebus
        } else if raw == 0x04 {
            PortStatus::FastHotConnect
        } else {
            PortStatus::Unused
        }
    }

    /// Decode a port status code, reading undeclared codes as unused.
    pub fn from_raw_total(raw: u8) -> (r: PortStatus)
        ensures
            r == PortStatus::spec_of_raw_total(raw),
    {
        if raw == 0x01 {
            PortStatus::Mii
        } else if raw == 0x02 {
            PortStatus::Reserved
        } else if raw == 0x03 {
            PortStatus::Ebus
        } else if raw == 0x04 {
            PortStatus::FastHotConnect
        } else {
            PortStatus::Unused
        }
    }
}

/// What a sync manager channel is used for.
#[derive(Debug, Clone, Copy, PartialEq, Eq, Structural)]
pub enum SyncManagerType {
    /// Not used or unknown.
    Unknown,
    /// Used for writing into the device.
    MailboxWrite,
    /// Used for reading from the device.
    MailboxRead,
    /// Used for process data outputs from the master.
    ProcessDataWrite,
    /// Used for process data inputs to the master.
    ProcessDataRead,
}

impl SyncManagerType {
    /// The code of a sync manager type.
    pub open spec fn spec_raw(self) -> u8 {
        match self {
            SyncManagerType::Unknown => 0x00,
            SyncManagerType::MailboxWrite => 0x01,
            SyncManagerType::MailboxRead => 0x02,
            SyncManagerType::ProcessDataWrite => 0x03,
            SyncManagerType::ProcessDataRead => 0x04,
        }
    }

    /// The sync manager type of a code; undeclared codes read as unknown.
    pub open spec fn spec_of_raw_total(raw: u8) -> SyncManagerType {
        if raw == 0x01 {
            SyncManagerType::MailboxWrite
        } else if raw == 0x02 {
            SyncManagerType::MailboxRead
        } else if raw == 0x03 {
            SyncManagerType::ProcessDataWrite
        } else if raw == 0x04 {
            SyncManagerType::ProcessDataRead
        } else {
            SyncManagerType::Unknown
        }
    }

    /// Decode a sync manager type code, reading undeclared codes as
    /// unknown.
    pub fn from_raw_total(raw: u8) -> (r: SyncManagerType)
        ensures
            r == SyncManagerType::spec_of_raw_total(raw),
    {
        if raw == 0x01 {
            SyncManagerType::MailboxWrite
        } else if raw == 0x02 {
            SyncManagerType::MailboxRead
        } else if raw == 0x03 {
            SyncManagerType::ProcessDataWrite
        } else if raw == 0x04 {
            SyncManagerType::ProcessDataRead
        } else {
            SyncManagerType::Unknown
        }
    }
}

/// General-category flags, a set over the low five bits of a byte.
#[derive(Debug, Clone, Copy, PartialEq, Eq, Structural)]
pub struct Flags {
    /// The raw bit set; only declared bits may be present.
    pub bits: u8,
}

impl Flags {
    /// Mask of the declared flag bits.
    pub open spec fn spec_mask() -> u8 {
        0x1f
    }

    /// Accept a raw byte exactly when it holds declared bits alone.
    pub fn from_bits(bits: u8) -> (r: Option<Flags>)
        ensures
            bits & 0x1f == bits ==> r == Some(Flags { bits }),
            bits & 0x1f != bits ==> r is None,
    {
        if bits & 0x1f == bits {
            Some(Flags { bits })
        } else {
            None
        }
    }
}

/// CoE feature details of the general category, a set over the low six
/// bits of a byte.
#[derive(Debug, Clone, Copy, PartialEq, Eq, Structural)]
pub struct CoeDetails {
    /// The raw bit set; only declared bits may be present.
    pub bits: u8,
}

impl CoeDetails {
    /// Whether SDO access is enabled (bit 0).
    pub open spec fn spec_enable_sdo(self) -> bool {
        self.bits & 0x01 == 0x01
    }

    /// Whether SDO complete access is enabled (bit 5).
    pub open spec fn spec_enable_complete_access(self) -> bool {
        self.bits & 0x20 == 0x20
    }

    /// Accept a raw byte exactly when it holds declared bits alone.
    pub fn from_bits(bits: u8) -> (r: Option<CoeDetails>)
        ensures
            bits & 0x3f == bits ==> r == Some(CoeDetails { bits }),
            bits & 0x3f != bits ==> r is None,
    {
        if bits & 0x3f == bits {
            Some(CoeDetails { bits })
        } else {
            None
        }
    }

    /// Whether SDO complete access is enabled.
    pub fn enable_complete_access(&self) -> (r: bool)
        ensures
            r == self.spec_enable_complete_access(),
    {
        self.bits & 0x20 == 0x20
    }
}

/// Enable word of a sync manager category record, a set over the low four
/// bits of a byte.
#[derive(Debug, Clone, Copy, PartialEq, Eq, Structural)]
pub struct SyncManagerEnable {
    /// The raw bit set; only declared bits may be present.
    pub bits: u8,
}

impl SyncManagerEnable {
    /// Whether the channel is enabled (bit 0).
    pub open spec fn spec_enable(self) -> bool {
        self.bits & 0x01 == 0x01
    }

    /// Accept a raw byte exactly when it holds declared bits alone.
    pub fn from_bits(bits: u8) -> (r: Option<SyncManagerEnable>)
        ensures
            bits & 0x0f == bits ==> r == Some(SyncManagerEnable { bits }),
            bits & 0x0f != bits ==> r is None,
    {
        if bits & 0x0f == bits {
            Some(SyncManagerEnable { bits })
        } else {
            None
        }
    }
}

/// PDO property flags of a PDO category record, a sixteen-bit set; bit 3
/// is undeclared.
#[derive(Debug, Clone, Copy, PartialEq, Eq, Structural)]
pub struct PdoFlags {
    /// The raw bit set; only declared bits may be present.
    pub bits: u16,
}

impl PdoFlags {
    /// Accept a raw word exactly when it holds declared bits alone.
    pub fn from_bits(bits: u16) -> (r: Option<PdoFlags>)
        ensures
            bits & 0xfff7 == bits ==> r == Some(PdoFlags { bits }),
            bits & 0xfff7 != bits ==> r is None,
    {
        if bits & 0xfff7 == bits {
            Some(PdoFlags { bits })
        } else {
            None
        }
    }
}

/// Mailbox protocols supported by a device, a set over the low six bits of
/// a sixteen-bit word.
#[derive(Debug, Clone, Copy, PartialEq, Eq, Structural)]
pub struct MailboxProtocols {
    /// The raw bit set; only declared bits may be present.
    pub bits: u16,
}

impl MailboxProtocols {
    /// Whether CoE is supported (bit 2).
    pub open spec fn spec_coe(self) -> bool {
        self.bits & 0x0004 == 0x0004
    }

    /// Accept a raw word exactly when it holds declared bits alone.
    pub fn from_bits(bits: u16) -> (r: Option<MailboxProtocols>)
        ensures
            bits & 0x003f == bits ==> r == Some(MailboxProtocols { bits }),
            bits & 0x003f != bits ==> r is None,
    {
        if bits & 0x003f == bits {
            Some(MailboxProtocols { bits })
        } else {
            None
        }
    }

    /// Whether no protocol at all is supported.
    pub fn is_empty(&self) -> (r: bool)
        ensures
            r == (self.bits == 0),
    {
        self.bits == 0
    }

    /// Whether CoE is supported.
    pub fn coe(&self) -> (r: bool)
        ensures
            r == self.spec_coe(),
    {
        self.bits & 0x0004 == 0x0004
    }
}

/// The SII control/status word: EEPROM access configuration in the first
/// byte, command and error bits in the second.
#[derive(Debug, Clone, Copy, PartialEq, Eq, Structural)]
pub struct SiiControl {
    /// Access rights (bit 0 of the first byte).
    pub access: SiiAccess,
    /// Whether SII access is emulated (bit 5).
    pub emulate_sii: bool,
    /// Octets delivered per read (bit 6).
    pub read_size: SiiReadSize,
    /// Address width (bit 7).
    pub address_type: SiiAddressSize,
    /// Read command bit (bit 0 of the second byte).
    pub read: bool,
    /// Write command bit (bit 1).
    pub write: bool,
    /// Reload command bit (bit 2).
    pub reload: bool,
    /// Checksum error flag (bit 3).
    pub checksum_error: bool,
    /// Device information error flag (bit 4).
    pub device_info_error: bool,
    /// Command error flag (bit 5).
    pub command_error: bool,
    /// Write error flag (bit 6).
    pub write_error: bool,
    /// Busy flag (bit 7).
    pub busy: bool,
}

impl SiiControl {
    /// The first packed byte.
    pub open spec fn spec_byte0(self) -> u8 {
        self.access.spec_raw() | (if self.emulate_sii {
            0x20u8
        } else {
            0u8
        }) | (self.read_size.spec_raw() << 6) | (self.address_type.spec_raw() << 7)
    }

    /// The second packed byte.
    pub open spec fn spec_byte1(self) -> u8 {
        (if self.read {
            0x01u8
        } else {
            0u8
        }) | (if self.write {
            0x02u8
        } else {
            0u8
        }) | (if self.reload {
            0x04u8
        } else {
            0u8
        }) | (if self.checksum_error {
            0x08u8
        } else {
            0u8
        }) | (if self.device_info_error {
            0x10u8
        } else {
            0u8
        }) | (if self.command_error {
            0x20u8
        } else {
            0u8
        }) | (if self.write_error {
            0x40u8
        } else {
            0u8
        }) | (if self.busy {
            0x80u8
        } else {
            0u8
        })
    }

    /// Whether any error flag is set.
    pub fn has_error(&self) -> (r: bool)
        ensures
            r == (self.checksum_error || self.device_info_error || self.command_error
                || self.write_error),
    {
        self.checksum_error || self.device_info_error || self.command_error || self.write_error
    }

    /// The same word with every error flag cleared.
    pub fn error_reset(self) -> (r: Self)
        ensures
            r == (SiiControl {
                checksum_error: false,
                device_info_error: false,
                command_error: false,
                write_error: false,
                ..self
            }),
    {
        Self {
            checksum_error: false,
            device_info_error: false,
            command_error: false,
            write_error: false,
            ..self
        }
    }

    /// A control word issuing a read command, with every other field at
    /// its idle value.
    pub fn read() -> (r: Self)
        ensures
            r == SiiControl::spec_read(),
    {
        Self {
            access: SiiAccess::ReadOnly,
            emulate_sii: false,
            read_size: SiiReadSize::Octets4,
            address_type: SiiAddressSize::U8,
            read: true,
            write: false,
            reload: false,
            checksum_error: false,
            device_info_error: false,
            command_error: false,
            write_error: false,
            busy: false,
        }
    }

    /// The read-command control word.
    pub open spec fn spec_read() -> SiiControl {
        SiiControl {
            access: SiiAccess::ReadOnly,
            emulate_sii: false,
            read_size: SiiReadSize::Octets4,
            address_type: SiiAddressSize::U8,
            read: true,
            write: false,
            reload: false,
            checksum_error: false,
            device_info_error: false,
            command_error: false,
            write_error: false,
            busy: false,
        }
    }
}

impl EtherCatWire for SiiControl {
    open spec fn spec_packed_len() -> nat {
        2
    }

    open spec fn wire_bytes(&self) -> Seq<u8> {
        seq![self.spec_byte0(), self.spec_byte1()]
    }

    open spec fn spec_unpack(b: Seq<u8>) -> Option<SiiControl> {
        Some(
            SiiControl {
                access: SiiAccess::spec_of_bit(b[0] & 1),
                emulate_sii: (b[0] >> 5) & 1 == 1,
                read_size: SiiReadSize::spec_of_bit((b[0] >> 6) & 1),
                address_type: SiiAddressSize::spec_of_bit((b[0] >> 7) & 1),
                read: b[1] & 1 == 1,
                write: (b[1] >> 1) & 1 == 1,
                reload: (b[1] >> 2) & 1 == 1,
                checksum_error: (b[1] >> 3) & 1 == 1,
                device_info_error: (b[1] >> 4) & 1 == 1,
                command_error: (b[1] >> 5) & 1 == 1,
                write_error: (b[1] >> 6) & 1 == 1,
                busy: (b[1] >> 7) & 1 == 1,
            },
        )
    }

    open spec fn wire_valid(&self) -> bool {
        true
    }

    proof fn lemma_wire_len(&self) {
    }

    proof fn lemma_wire_round_trip(&self) {
        let a = self.access.spec_raw();
        let e: u8 = if self.emulate_sii {
            1
        } else {
            0
        };
        let rs = self.read_size.spec_raw();
        let at = self.address_type.spec_raw();
        let b0 = self.spec_byte0();
        assert(b0 & 1 == a && (b0 >> 5) & 1 == e && (b0 >> 6) & 1 == rs && (b0 >> 7) & 1 == at)
            by (bit_vector)
            requires
                a <= 1,
                e <= 1,
                rs <= 1,
                at <= 1,
                b0 == a | (if e == 1 { 0x20u8 } else { 0u8 }) | (rs << 6) | (at << 7),
        ;
        let r: u8 = if self.read {
            1
        } else {
            0
        };
        let w: u8 = if self.write {
            1
        } else {
            0
        };
        let rl: u8 = if self.reload {
            1
        } else {
            0
        };
        let ce: u8 = if self.checksum_error {
            1
        } else {
            0
        };
        let de: u8 = if self.device_info_error {
            1
        } else {
            0
        };
        let cme: u8 = if self.command_error {
            1
        } else {
            0
        };
        let we: u8 = if self.write_error {
            1
        } else {
            0
        };
        let bu: u8 = if self.busy {
            1
        } else {
            0
        };
        let b1 = self.spec_byte1();
        assert(b1 & 1 == r && (b1 >> 1) & 1 == w && (b1 >> 2) & 1 == rl && (b1 >> 3) & 1 == ce
            && (b1 >> 4) & 1 == de && (b1 >> 5) & 1 == cme && (b1 >> 6) & 1 == we && (b1 >> 7)
            & 1 == bu) by (bit_vector)
            requires
                r <= 1,
                w <= 1,
                rl <= 1,
                ce <= 1,
                de <= 1,
                cme <= 1,
                we <= 1,
                bu <= 1,
                b1 == (if r == 1 { 0x01u8 } else { 0u8 }) | (if w == 1 { 0x02u8 } else { 0u8 })
                    | (if rl == 1 { 0x04u8 } else { 0u8 }) | (if ce == 1 { 0x08u8 } else { 0u8 })
                    | (if de == 1 { 0x10u8 } else { 0u8 }) | (if cme == 1 { 0x20u8 } else { 0u8 })
                    | (if we == 1 { 0x40u8 } else { 0u8 }) | (if bu == 1 { 0x80u8 } else { 0u8 }),
        ;
    }

    fn packed_len(&self) -> usize {
        2
    }

    fn pack_to_slice(&self, buf: &mut Vec<u8>) -> Result<(), WireError> {
        let tmp = self.pack();
        let r = splice_prefix(buf, &tmp);
        r
    }

    fn unpack_from_slice(buf: &[u8]) -> Result<SiiControl, WireError> {
        if buf.len() < 2 {
            return Err(WireError::ReadBufferTooShort);
        }
        let b0 = *vstd::slice::slice_index_get(buf, 0);
        let b1 = *vstd::slice::slice_index_get(buf, 1);
        proof {
            assert(buf@.take(2)[0] == buf@[0] && buf@.take(2)[1] == buf@[1]);
        }
        let access = if b0 & 1 == 1 {
            SiiAccess::ReadWrite
        } else {
            SiiAccess::ReadOnly
        };
        let read_size = if (b0 >> 6) & 1 == 1 {
            SiiReadSize::Octets8
        } else {
            SiiReadSize::Octets4
        };
        let address_type = if (b0 >> 7) & 1 == 1 {
            SiiAddressSize::U16
        } else {
            SiiAddressSize::U8
        };
        Ok(
            SiiControl {
                access,
                emulate_sii: (b0 >> 5) & 1 == 1,
                read_size,
                address_type,
                read: b1 & 1 == 1,
                write: (b1 >> 1) & 1 == 1,
                reload: (b1 >> 2) & 1 == 1,
                checksum_error: (b1 >> 3) & 1 == 1,
                device_info_error: (b1 >> 4) & 1 == 1,
                command_error: (b1 >> 5) & 1 == 1,
                write_error: (b1 >> 6) & 1 == 1,
                busy: (b1 >> 7) & 1 == 1,
            },
        )
    }
}

impl EtherCatWireSized for SiiControl {
    fn pack(&self) -> Vec<u8> {
        let b0: u8 = self.access.to_raw() | (if self.emulate_sii {
            0x20u8
        } else {
            0u8
        }) | (self.read_size.to_raw() << 6) | (self.address_type.to_raw() << 7);
        let b1: u8 = (if self.read {
            0x01u8
        } else {
            0u8
        }) | (if self.write {
            0x02u8
        } else {
            0u8
        }) | (if self.reload {
            0x04u8
        } else {
            0u8
        }) | (if self.checksum_error {
            0x08u8
        } else {
            0u8
        }) | (if self.device_info_error {
            0x10u8
        } else {
            0u8
        }) | (if self.command_error {
            0x20u8
        } else {
            0u8
        }) | (if self.write_error {
            0x40u8
        } else {
            0u8
        }) | (if self.busy {
            0x80u8
        } else {
            0u8
        });
        let mut out: Vec<u8> = Vec::new();
        out.push(b0);
        out.push(b1);
        assert(out@ =~= self.wire_bytes());
        out
    }

    fn buffer() -> Vec<u8> {
        zero_buffer(2)
    }
}

/// An EEPROM read request: the control word commanding the read, then the
/// word address, then a padding word for the unused high address word.
#[derive(Debug, Clone, Copy, PartialEq, Eq, Structural)]
pub struct SiiRequest {
    /// Control word to write.
    pub control: SiiControl,
    /// EEPROM word address to read.
    pub address: u16,
}

impl SiiRequest {
    /// A request to read the EEPROM word at `address`.
    pub fn read(address: u16) -> (r: Self)
        ensures
            r == (SiiRequest { control: SiiControl::spec_read(), address }),
    {
        Self { control: SiiControl::read(), address }
    }
}

impl EtherCatWire for SiiRequest {
    open spec fn spec_packed_len() -> nat {
        6
    }

    open spec fn wire_bytes(&self) -> Seq<u8> {
        self.control.wire_bytes() + crate::wire::spec_u16_le(self.address) + seq![0u8, 0u8]
    }

    open spec fn spec_unpack(b: Seq<u8>) -> Option<SiiRequest> {
        match SiiControl::spec_unpack(b.take(2)) {
            Some(control) => Some(
                SiiRequest { control, address: crate::wire::spec_u16_of_le(b[2], b[3]) },
            ),
            None => None,
        }
    }

    open spec fn wire_valid(&self) -> bool {
        true
    }

    proof fn lemma_wire_len(&self) {
    }

    proof fn lemma_wire_round_trip(&self) {
        self.control.lemma_wire_round_trip();
        assert(self.wire_bytes().take(2) =~= self.control.wire_bytes());
        crate::wire::lemma_u16_le_round_trip(self.address, 0, 0);
    }

    fn packed_len(&self) -> usize {
        6
    }

    fn pack_to_slice(&self, buf: &mut Vec<u8>) -> Result<(), WireError> {
        let tmp = self.pack();
        let r = splice_prefix(buf, &tmp);
        r
    }

    fn unpack_from_slice(buf: &[u8]) -> Result<SiiRequest, WireError> {
        if buf.len() < 6 {
            return Err(WireError::ReadBufferTooShort);
        }
        let control = match SiiControl::unpack_from_slice(buf) {
            Ok(control) => control,
            Err(e) => {
                return Err(e);
            },
        };
        let address = crate::wire::read_u16_le(buf, 2);
        proof {
            assert(buf@.take(6).take(2) =~= buf@.take(2));
            assert(buf@.take(6)[2] == buf@[2] && buf@.take(6)[3] == buf@[3]);
        }
        Ok(SiiRequest { control, address })
    }
}

impl EtherCatWireSized for SiiRequest {
    fn pack(&self) -> Vec<u8> {
        let mut out = self.control.pack();
        crate::wire::push_u16_le(&mut out, self.address);
        out.push(0u8);
        out.push(0u8);
        assert(out@ =~= self.wire_bytes());
        out
    }

    fn buffer() -> Vec<u8> {
        zero_buffer(6)
    }
}

/// Standard CoE primitive data type codes.
#[derive(Debug, Clone, Copy, PartialEq, Eq, Structural)]
pub enum PrimitiveDataType {
    /// A single bit.
    Bool,
    /// Signed 8-bit integer.
    Int8,
    /// Signed 16-bit integer.
    Int16,
    /// Signed 32-bit integer.
    Int32,
    /// Unsigned 8-bit integer.
    Uint8,
    /// Unsigned 16-bit integer.
    Uint16,
    /// Unsigned 32-bit integer.
    Uint32,
    /// 32-bit real.
    Real32,
    /// Printable string.
    VisibleString,
    /// Raw byte string.
    OctetString,
    /// Unicode string.
    UnicodeString,
    /// Time of day.
    TimeOfDay,
    /// Time difference.
    TimeDifference,
    /// Opaque domain data.
    Domain,
}

impl PrimitiveDataType {
    /// The code of a data type.
    pub open spec fn spec_raw(self) -> u8 {
        match self {
            PrimitiveDataType::Bool => 0x01,
            PrimitiveDataType::Int8 => 0x02,
            PrimitiveDataType::Int16 => 0x03,
            PrimitiveDataType::Int32 => 0x04,
            PrimitiveDataType::Uint8 => 0x05,
            PrimitiveDataType::Uint16 => 0x06,
            PrimitiveDataType::Uint32 => 0x07,
            PrimitiveDataType::Real32 => 0x08,
            PrimitiveDataType::VisibleString => 0x09,
            PrimitiveDataType::OctetString => 0x0A,
            PrimitiveDataType::UnicodeString => 0x0B,
            PrimitiveDataType::TimeOfDay => 0x0C,
            PrimitiveDataType::TimeDifference => 0x0D,
            PrimitiveDataType::Domain => 0x0F,
        }
    }

    /// The data type declared for a code, if any.
    pub open spec fn spec_of_raw(raw: u8) -> Option<PrimitiveDataType> {
        if raw == 0x01 {
            Some(PrimitiveDataType::Bool)
        } else if raw == 0x02 {
            Some(PrimitiveDataType::Int8)
        } else if raw == 0x03 {
            Some(PrimitiveDataType::Int16)
        } else if raw == 0x04 {
            Some(PrimitiveDataType::Int32)
        } else if raw == 0x05 {
            Some(PrimitiveDataType::Uint8)
        } else if raw == 0x06 {
            Some(PrimitiveDataType::Uint16)
        } else if raw == 0x07 {
            Some(PrimitiveDataType::Uint32)
        } else if raw == 0x08 {
            Some(PrimitiveDataType::Real32)
        } else if raw == 0x09 {
            Some(PrimitiveDataType::VisibleString)
        } else if raw == 0x0A {
            Some(PrimitiveDataType::OctetString)
        } else if raw == 0x0B {
            Some(PrimitiveDataType::UnicodeString)
        } else if raw == 0x0C {
            Some(PrimitiveDataType::TimeOfDay)
        } else if raw == 0x0D {
            Some(PrimitiveDataType::TimeDifference)
        } else if raw == 0x0F {
            Some(PrimitiveDataType::Domain)
        } else {
            None
        }
    }

    /// Decode a data type code.
    pub fn from_raw(raw: u8) -> (r: Option<PrimitiveDataType>)
        ensures
            r == PrimitiveDataType::spec_of_raw(raw),
    {
        if raw == 0x01 {
            Some(PrimitiveDataType::Bool)
        } else if raw == 0x02 {
            Some(PrimitiveDataType::Int8)
        } else if raw == 0x03 {
            Some(PrimitiveDataType::Int16)
        } else if raw == 0x04 {
            Some(PrimitiveDataType::Int32)
        } else if raw == 0x05 {
            Some(PrimitiveDataType::Uint8)
        } else if raw == 0x06 {
            Some(PrimitiveDataType::Uint16)
        } else if raw == 0x07 {
            Some(PrimitiveDataType::Uint32)
        } else if raw == 0x08 {
            Some(PrimitiveDataType::Real32)
        } else if raw == 0x09 {
            Some(PrimitiveDataType::VisibleString)
        } else if raw == 0x0A {
            Some(PrimitiveDataType::OctetString)
        } else if raw == 0x0B {
            Some(PrimitiveDataType::UnicodeString)
        } else if raw == 0x0C {
            Some(PrimitiveDataType::TimeOfDay)
        } else if raw == 0x0D {
            Some(PrimitiveDataType::TimeDifference)
        } else if raw == 0x0F {
            Some(PrimitiveDataType::Domain)
        } else {
            None
        }
    }
}

/// The extended FMMU record. Only the sync manager index is kept; the
/// bytes before and after it are reserved.
#[derive(Debug, Clone, Copy, PartialEq, Eq, Structural)]
pub struct FmmuEx {
    /// Sync manager index.
    pub sync_manager: u8,
}

impl FmmuEx {
    /// Record size in bytes.
    pub open spec fn spec_storage_size() -> nat {
        3
    }

    /// Parse a record, leaving the (empty) remaining input. Succeeds
    /// exactly on a three-byte input.
    pub fn parse_fields(i: &[u8]) -> (r: Result<(&[u8], Self), Error>)
        ensures
            r is Ok <==> i@.len() == 3,
            r matches Ok(p) ==> p.0@.len() == 0 && p.1 == (FmmuEx { sync_manager: i@[1] }),
            i@.len() < 3 ==> r == Err::<(&[u8], FmmuEx), Error>(Error::Eeprom(EepromError::Decode)),
            i@.len() > 3 ==> r == Err::<(&[u8], FmmuEx), Error>(Error::Pdu(crate::error::PduError::Decode)),
    {
        let (i2, _before) = new_le_u8(i)?;
        let (i3, sync_manager) = new_le_u8(i2)?;
        let (i4, _after) = new_le_u8(i3)?;
        new_all_consumed(i4)?;
        Ok((i4, Self { sync_manager }))
    }

    /// Parse a record from exactly one stored category item.
    pub fn parse(i: &[u8]) -> (r: Result<Self, Error>)
        ensures
            r is Ok <==> i@.len() == 3,
            r matches Ok(v) ==> v == (FmmuEx { sync_manager: i@[1] }),
            r is Err ==> r == Err::<FmmuEx, Error>(Error::Eeprom(EepromError::Decode)),
    {
        match Self::parse_fields(i) {
            Ok((_rest, v)) => Ok(v),
            Err(_e) => Err(Error::Eeprom(EepromError::Decode)),
        }
    }
}

/// The SII "general" category record.
#[derive(Debug, Clone, PartialEq, Eq)]
pub struct SiiGeneral {
    /// String index of the device group.
    pub group_string_idx: u8,
    /// String index of the device image name.
    pub image_string_idx: u8,
    /// String index of the order number.
    pub order_string_idx: u8,
    /// String index of the device name.
    pub name_string_idx: u8,
    /// CoE feature details.
    pub coe_details: CoeDetails,
    /// Whether FoE is enabled.
    pub foe_enabled: bool,
    /// Whether EoE is enabled.
    pub eoe_enabled: bool,
    /// General flags.
    pub flags: Flags,
    /// EBUS current consumption in milliamperes; negative values feed in.
    pub ebus_current: i16,
    /// Physical link kind of the four ports.
    pub ports: [PortStatus; 4],
    /// ESC memory address of the identification word; not carried by this
    /// record and always zero here.
    pub physical_memory_addr: u16,
}

impl SiiGeneral {
    /// Record size in bytes.
    pub open spec fn spec_storage_size() -> nat {
        16
    }

    /// The record read from exactly sixteen bytes.
    pub open spec fn spec_of_bytes(b: Seq<u8>) -> SiiGeneral {
        SiiGeneral {
            group_string_idx: b[0],
            image_string_idx: b[1],
            order_string_idx: b[2],
            name_string_idx: b[3],
            coe_details: CoeDetails { bits: b[5] },
            foe_enabled: b[6] != 0,
            eoe_enabled: b[7] != 0,
            flags: Flags { bits: b[11] },
            ebus_current: crate::wire::spec_u16_of_le(b[12], b[13]) as i16,
            ports: [
                PortStatus::spec_of_raw_total((crate::wire::spec_u16_of_le(b[14], b[15])
                    & 0x0f) as u8),
                PortStatus::spec_of_raw_total(((crate::wire::spec_u16_of_le(b[14], b[15]) >> 4)
                    & 0x0f) as u8),
                PortStatus::spec_of_raw_total(((crate::wire::spec_u16_of_le(b[14], b[15]) >> 8)
                    & 0x0f) as u8),
                PortStatus::spec_of_raw_total(((crate::wire::spec_u16_of_le(b[14], b[15]) >> 12)
                    & 0x0f) as u8),
            ],
            physical_memory_addr: 0,
        }
    }

    /// Parse a record, leaving the (empty) remaining input. Succeeds
    /// exactly on a sixteen-byte input whose flag bytes hold declared bits
    /// alone.
    pub fn parse_fields(i: &[u8]) -> (r: Result<(&[u8], Self), Error>)
        ensures
            r is Ok <==> i@.len() == 16 && i@[5] & 0x3f == i@[5] && i@[11] & 0x1f == i@[11],
            r matches Ok(p) ==> p.0@.len() == 0 && p.1 == SiiGeneral::spec_of_bytes(i@),
    {
        let (i2, group_string_idx) = new_le_u8(i)?;
        let (i3, image_string_idx) = new_le_u8(i2)?;
        let (i4, order_string_idx) = new_le_u8(i3)?;
        let (i5, name_string_idx) = new_le_u8(i4)?;
        let (i6, _reserved) = new_le_u8(i5)?;
        let (i7, coe_details) = map_opt(new_le_u8(i6)?, CoeDetails::from_bits)?;
        let (i8, foe_raw) = new_le_u8(i7)?;
        let (i9, eoe_raw) = new_le_u8(i8)?;
        let (i10, _soe_channels) = new_le_u8(i9)?;
        let (i11, _ds402_channels) = new_le_u8(i10)?;
        let (i12, _sysman_class) = new_le_u8(i11)?;
        let (i13, flags) = map_opt(new_le_u8(i12)?, Flags::from_bits)?;
        let (i14, ebus_current) = new_le_i16(i13)?;
        let (i15, ports_raw) = new_le_u16(i14)?;
        new_all_consumed(i15)?;
        let p1 = #[verifier::truncate] ((ports_raw & 0x0f) as u8);
        let p2 = #[verifier::truncate] (((ports_raw >> 4) & 0x0f) as u8);
        let p3 = #[verifier::truncate] (((ports_raw >> 8) & 0x0f) as u8);
        let p4 = #[verifier::truncate] (((ports_raw >> 12) & 0x0f) as u8);
        let ports = [
            PortStatus::from_raw_total(p1),
            PortStatus::from_raw_total(p2),
            PortStatus::from_raw_total(p3),
            PortStatus::from_raw_total(p4),
        ];
        Ok(
            (
                i15,
                Self {
                    group_string_idx,
                    image_string_idx,
                    order_string_idx,
                    name_string_idx,
                    coe_details,
                    foe_enabled: foe_raw != 0,
                    eoe_enabled: eoe_raw != 0,
                    flags,
                    ebus_current,
                    ports,
                    physical_memory_addr: 0,
                },
            ),
        )
    }

    /// Parse a record from exactly one stored category item.
    pub fn parse(i: &[u8]) -> (r: Result<Self, Error>)
        ensures
            r is Ok <==> i@.len() == 16 && i@[5] & 0x3f == i@[5] && i@[11] & 0x1f == i@[11],
            r matches Ok(v) ==> v == SiiGeneral::spec_of_bytes(i@),
            r is Err ==> r == Err::<SiiGeneral, Error>(Error::Eeprom(EepromError::Decode)),
    {
        match Self::parse_fields(i) {
            Ok((_rest, v)) => Ok(v),
            Err(_e) => Err(Error::Eeprom(EepromError::Decode)),
        }
    }
}

/// A sync manager category record.
#[derive(Debug, Clone, Copy, PartialEq, Eq, Structural)]
pub struct SyncManager {
    /// Physical start address of the buffer.
    pub start_addr: u16,
    /// Buffer length in bytes.
    pub length: u16,
    /// Channel control byte.
    pub control: Control,
    /// Channel enable bits.
    pub enable: SyncManagerEnable,
    /// What the channel is used for.
    pub usage_type: SyncManagerType,
}

impl SyncManager {
    /// Record size in bytes.
    pub open spec fn spec_storage_size() -> nat {
        8
    }

    /// Parse a record, leaving the (empty) remaining input. Succeeds
    /// exactly on an eight-byte input whose control byte decodes and whose
    /// enable byte holds declared bits alone.
    pub fn parse_fields(i: &[u8]) -> (r: Result<(&[u8], Self), Error>)
        ensures
            r is Ok <==> i@.len() == 8 && Control::spec_of_byte(i@[4]) is Some && i@[6] & 0x0f
                == i@[6],
            r matches Ok(p) ==> p.0@.len() == 0 && p.1 == (SyncManager {
                start_addr: crate::wire::spec_u16_of_le(i@[0], i@[1]),
                length: crate::wire::spec_u16_of_le(i@[2], i@[3]),
                control: Control::spec_of_byte(i@[4]).unwrap(),
                enable: SyncManagerEnable { bits: i@[6] },
                usage_type: SyncManagerType::spec_of_raw_total(i@[7]),
            }),
    {
        let (i2, start_addr) = new_le_u16(i)?;
        let (i3, length) = new_le_u16(i2)?;
        let (i4, control_raw) = new_le_u8(i3)?;
        let control = match Control::unpack_byte(control_raw) {
            Some(control) => control,
            None => {
                return Err(Error::Eeprom(EepromError::Decode));
            },
        };
        let (i5, _status) = new_le_u8(i4)?;
        let (i6, enable) = map_opt(new_le_u8(i5)?, SyncManagerEnable::from_bits)?;
        let (i7, usage_raw) = new_le_u8(i6)?;
        new_all_consumed(i7)?;
        let usage_type = SyncManagerType::from_raw_total(usage_raw);
        Ok((i7, Self { start_addr, length, control, enable, usage_type }))
    }

    /// Parse a record from exactly one stored category item.
    pub fn parse(i: &[u8]) -> (r: Result<Self, Error>)
        ensures
            r is Ok <==> i@.len() == 8 && Control::spec_of_byte(i@[4]) is Some && i@[6] & 0x0f
                == i@[6],
            r matches Ok(v) ==> v == (SyncManager {
                start_addr: crate::wire::spec_u16_of_le(i@[0], i@[1]),
                length: crate::wire::spec_u16_of_le(i@[2], i@[3]),
                control: Control::spec_of_byte(i@[4]).unwrap(),
                enable: SyncManagerEnable { bits: i@[6] },
                usage_type: SyncManagerType::spec_of_raw_total(i@[7]),
            }),
            r is Err ==> r == Err::<SyncManager, Error>(Error::Eeprom(EepromError::Decode)),
    {
        match Self::parse_fields(i) {
            Ok((_rest, v)) => Ok(v),
            Err(_e) => Err(Error::Eeprom(EepromError::Decode)),
        }
    }
}

/// One entry of a PDO category record.
#[derive(Debug, Clone, Copy, PartialEq, Eq, Structural)]
pub struct PdoEntry {
    /// Object dictionary index of the mapped object.
    pub index: u16,
    /// Sub-index of the mapped object.
    pub sub_index: u8,
    /// String index of the entry name.
    pub name_string_idx: u8,
    /// Primitive data type of the entry.
    pub data_type: PrimitiveDataType,
    /// Width of the entry in bits.
    pub data_length_bits: u8,
    /// Reserved flag word.
    pub flags: u16,
}

impl PdoEntry {
    /// Record size in bytes.
    pub open spec fn spec_storage_size() -> nat {
        8
    }

    /// Parse an entry, leaving the (empty) remaining input. Succeeds
    /// exactly on an eight-byte input whose data type code is declared.
    pub fn parse_fields(i: &[u8]) -> (r: Result<(&[u8], Self), Error>)
        ensures
            r is Ok <==> i@.len() == 8 && PrimitiveDataType::spec_of_raw(i@[4]) is Some,
            r matches Ok(p) ==> p.0@.len() == 0 && p.1 == (PdoEntry {
                index: crate::wire::spec_u16_of_le(i@[0], i@[1]),
                sub_index: i@[2],
                name_string_idx: i@[3],
                data_type: PrimitiveDataType::spec_of_raw(i@[4]).unwrap(),
                data_length_bits: i@[5],
                flags: crate::wire::spec_u16_of_le(i@[6], i@[7]),
            }),
    {
        let (i2, index) = new_le_u16(i)?;
        let (i3, sub_index) = new_le_u8(i2)?;
        let (i4, name_string_idx) = new_le_u8(i3)?;
        let (i5, data_type) = map_opt(new_le_u8(i4)?, PrimitiveDataType::from_raw)?;
        let (i6, data_length_bits) = new_le_u8(i5)?;
        let (i7, flags) = new_le_u16(i6)?;
        new_all_consumed(i7)?;
        Ok((i7, Self { index, sub_index, name_string_idx, data_type, data_length_bits, flags }))
    }

    /// Parse an entry from exactly one stored record.
    pub fn parse(i: &[u8]) -> (r: Result<Self, Error>)
        ensures
            r is Ok <==> i@.len() == 8 && PrimitiveDataType::spec_of_raw(i@[4]) is Some,
            r matches Ok(v) ==> v == (PdoEntry {
                index: crate::wire::spec_u16_of_le(i@[0], i@[1]),
                sub_index: i@[2],
                name_string_idx: i@[3],
                data_type: PrimitiveDataType::spec_of_raw(i@[4]).unwrap(),
                data_length_bits: i@[5],
                flags: crate::wire::spec_u16_of_le(i@[6], i@[7]),
            }),
            r is Err ==> r == Err::<PdoEntry, Error>(Error::Eeprom(EepromError::Decode)),
    {
        match Self::parse_fields(i) {
            Ok((_rest, v)) => Ok(v),
            Err(_e) => Err(Error::Eeprom(EepromError::Decode)),
        }
    }
}

/// The sum of the entry widths of a PDO, in bits.
pub open spec fn spec_pdo_bits(entries: Seq<PdoEntry>) -> int
    decreases entries.len(),
{
    if entries.len() == 0 {
        0
    } else {
        spec_pdo_bits(entries.drop_last()) + entries.last().data_length_bits
    }
}

/// A PDO category record together with its parsed entries.
#[derive(Debug, Clone, PartialEq, Eq)]
pub struct Pdo {
    /// Object dictionary index of the PDO.
    pub index: u16,
    /// Declared number of entries.
    pub num_entries: u8,
    /// Sync manager channel the PDO is assigned to.
    pub sync_manager: u8,
    /// Distributed clock synchronisation mode.
    pub dc_sync: u8,
    /// String index of the PDO name.
    pub name_string_idx: u8,
    /// PDO property flags.
    pub flags: PdoFlags,
    /// Parsed entries, filled in after the record itself; at most sixteen.
    pub entries: Vec<PdoEntry>,
}

impl Pdo {
    /// Record size in bytes, entries excluded.
    pub open spec fn spec_storage_size() -> nat {
        8
    }

    /// A PDO holds at most sixteen entries.
    pub open spec fn well_formed(self) -> bool {
        self.entries@.len() <= 16
    }

    /// Total bit length of the PDO: the sum of the widths of its entries.
    pub fn bit_len(&self) -> (r: u16)
        requires
            self.well_formed(),
        ensures
            r == spec_pdo_bits(self.entries@),
    {
        let mut total: u16 = 0;
        let mut k: usize = 0;
        while k < self.entries.len()
            invariant
                self.entries@.len() <= 16,
                k <= self.entries@.len(),
                total == spec_pdo_bits(self.entries@.take(k as int)),
                total <= k * 255,
            decreases self.entries@.len() - k,
        {
            proof {
                assert(self.entries@.take(k as int + 1).drop_last() =~= self.entries@.take(
                    k as int,
                ));
            }
            total = total + self.entries[k].data_length_bits as u16;
            k += 1;
        }
        proof {
            assert(self.entries@.take(self.entries@.len() as int) =~= self.entries@);
        }
        total
    }

    /// Parse a record, leaving the (empty) remaining input and no entries.
    /// Succeeds exactly on an eight-byte input whose flag word holds
    /// declared bits alone.
    pub fn parse_fields(i: &[u8]) -> (r: Result<(&[u8], Self), Error>)
        ensures
            r is Ok <==> i@.len() == 8 && crate::wire::spec_u16_of_le(i@[6], i@[7]) & 0xfff7
                == crate::wire::spec_u16_of_le(i@[6], i@[7]),
            r matches Ok(p) ==> p.0@.len() == 0 && p.1.index == crate::wire::spec_u16_of_le(
                i@[0],
                i@[1],
            ) && p.1.num_entries == i@[2] && p.1.sync_manager == i@[3] && p.1.dc_sync == i@[4]
                && p.1.name_string_idx == i@[5] && p.1.flags == (PdoFlags {
                bits: crate::wire::spec_u16_of_le(i@[6], i@[7]),
            }) && p.1.entries@.len() == 0,
    {
        let (i2, index) = new_le_u16(i)?;
        let (i3, num_entries) = new_le_u8(i2)?;
        let (i4, sync_manager) = new_le_u8(i3)?;
        let (i5, dc_sync) = new_le_u8(i4)?;
        let (i6, name_string_idx) = new_le_u8(i5)?;
        let (i7, flags) = map_opt(new_le_u16(i6)?, PdoFlags::from_bits)?;
        new_all_consumed(i7)?;
        Ok(
            (
                i7,
                Self {
                    index,
                    num_entries,
                    sync_manager,
                    dc_sync,
                    name_string_idx,
                    flags,
                    entries: Vec::new(),
                },
            ),
        )
    }
}

/// The default mailbox configuration read from the EEPROM header area.
#[derive(Debug, Clone, Copy, PartialEq, Eq, Structural)]
pub struct DefaultMailbox {
    /// Master-to-device receive mailbox address offset.
    pub slave_receive_offset: u16,
    /// Master-to-device receive mailbox size.
    pub slave_receive_size: u16,
    /// Device-to-master send mailbox address offset.
    pub slave_send_offset: u16,
    /// Device-to-master send mailbox size.
    pub slave_send_size: u16,
    /// Mailbox protocols supported by the device.
    pub supported_protocols: MailboxProtocols,
}

impl DefaultMailbox {
    /// Record size in bytes.
    pub open spec fn spec_storage_size() -> nat {
        10
    }

    /// Whether the device offers a usable mailbox: it supports some
    /// protocol and has a receive buffer, or it has a send buffer.
    pub fn has_mailbox(&self) -> (r: bool)
        ensures
            r == ((self.supported_protocols.bits != 0 && self.slave_receive_size > 0)
                || self.slave_send_size > 0),
    {
        !self.supported_protocols.is_empty() && self.slave_receive_size > 0
            || self.slave_send_size > 0
    }

    /// Parse a record, leaving the (empty) remaining input. Succeeds
    /// exactly on a ten-byte input whose protocol word holds declared bits
    /// alone.
    pub fn parse_fields(i: &[u8]) -> (r: Result<(&[u8], Self), Error>)
        ensures
            r is Ok <==> i@.len() == 10 && crate::wire::spec_u16_of_le(i@[8], i@[9]) & 0x003f
                == crate::wire::spec_u16_of_le(i@[8], i@[9]),
            r matches Ok(p) ==> p.0@.len() == 0 && p.1 == (DefaultMailbox {
                slave_receive_offset: crate::wire::spec_u16_of_le(i@[0], i@[1]),
                slave_receive_size: crate::wire::spec_u16_of_le(i@[2], i@[3]),
                slave_send_offset: crate::wire::spec_u16_of_le(i@[4], i@[5]),
                slave_send_size: crate::wire::spec_u16_of_le(i@[6], i@[7]),
                supported_protocols: MailboxProtocols {
                    bits: crate::wire::spec_u16_of_le(i@[8], i@[9]),
                },
            }),
    {
        let (i2, receive_offset) = new_le_u16(i)?;
        let (i3, receive_size) = new_le_u16(i2)?;
        let (i4, send_offset) = new_le_u16(i3)?;
        let (i5, send_size) = new_le_u16(i4)?;
        let (i6, supported_protocols) = map_opt(new_le_u16(i5)?, MailboxProtocols::from_bits)?;
        new_all_consumed(i6)?;
        Ok(
            (
                i6,
                Self {
                    slave_receive_offset: receive_offset,
                    slave_receive_size: receive_size,
                    slave_send_offset: send_offset,
                    slave_send_size: send_size,
                    supported_protocols,
                },
            ),
        )
    }

    /// Parse a record from exactly one stored header area.
    pub fn parse(i: &[u8]) -> (r: Result<Self, Error>)
        ensures
            r is Ok <==> i@.len() == 10 && crate::wire::spec_u16_of_le(i@[8], i@[9]) & 0x003f
                == crate::wire::spec_u16_of_le(i@[8], i@[9]),
            r matches Ok(v) ==> v == (DefaultMailbox {
                slave_receive_offset: crate::wire::spec_u16_of_le(i@[0], i@[1]),
                slave_receive_size: crate::wire::spec_u16_of_le(i@[2], i@[3]),
                slave_send_offset: crate::wire::spec_u16_of_le(i@[4], i@[5]),
                slave_send_size: crate::wire::spec_u16_of_le(i@[6], i@[7]),
                supported_protocols: MailboxProtocols {
                    bits: crate::wire::spec_u16_of_le(i@[8], i@[9]),
                },
            }),
            r is Err ==> r == Err::<DefaultMailbox, Error>(Error::Eeprom(EepromError::Decode)),
    {
        match Self::parse_fields(i) {
            Ok((_rest, v)) => Ok(v),
            Err(_e) => Err(Error::Eeprom(EepromError::Decode)),
        }
    }
}

/// Decoding any declared alternate category or usage code yields the same
/// variant as its primary code.
pub proof fn lemma_alternate_discriminants()
    ensures
        forall|raw: u16|
            2 <= raw <= 9 ==> #[trigger] CategoryType::spec_of_raw(raw)
                == CategoryType::spec_of_raw(1),
        FmmuUsage::spec_of_raw(0xff) == FmmuUsage::spec_of_raw(0x00),
{
}

} // verus!
