//! Sync manager channel control and status words.
//!
//! The control byte configures a sync manager channel; the status byte
//! reports, among other bits, whether a mailbox buffer is full. The mailbox
//! handshake polls that bit.

use vstd::prelude::*;

verus! {

/// Buffer operation mode of a sync manager channel.
#[derive(Debug, Clone, Copy, PartialEq, Eq, Structural)]
pub enum OperationMode {
    /// Triple-buffered process data exchange.
    Normal,
    /// Single-buffered mailbox exchange with a full/empty handshake.
    Mailbox,
}

impl OperationMode {
    /// The two-bit code of a mode.
    pub open spec fn spec_raw(self) -> u8 {
        match self {
            OperationMode::Normal => 0,
            OperationMode::Mailbox => 2,
        }
    }

    /// The mode declared for a two-bit code, if any.
    pub open spec fn spec_of_raw(raw: u8) -> Option<OperationMode> {
        if raw == 0 {
            Some(OperationMode::Normal)
        } else if raw == 2 {
            Some(OperationMode::Mailbox)
        } else {
            None
        }
    }

    /// Decode a two-bit mode code.
    pub fn from_raw(raw: u8) -> (r: Option<OperationMode>)
        ensures
            r == OperationMode::spec_of_raw(raw),
    {
        if raw == 0 {
            Some(OperationMode::Normal)
        } else if raw == 2 {
            Some(OperationMode::Mailbox)
        } else {
            None
        }
    }

    /// Encode a mode as its two-bit code.
    pub fn to_raw(self) -> (r: u8)
        ensures
            r == self.spec_raw(),
            r < 4,
    {
        match self {
            OperationMode::Normal => 0,
            OperationMode::Mailbox => 2,
        }
    }
}

/// Transfer direction of a sync manager channel, seen from the master.
#[derive(Debug, Clone, Copy, PartialEq, Eq, Structural)]
pub enum Direction {
    /// The master reads this buffer.
    MasterRead,
    /// The master writes this buffer.
    MasterWrite,
}

impl Direction {
    /// The two-bit code of a direction.
    pub open spec fn spec_raw(self) -> u8 {
        match self {
            Direction::MasterRead => 0,
            Direction::MasterWrite => 1,
        }
    }

    /// The direction declared for a two-bit code, if any.
    pub open spec fn spec_of_raw(raw: u8) -> Option<Direction> {
        if raw == 0 {
            Some(Direction::MasterRead)
        } else if raw == 1 {
            Some(Direction::MasterWrite)
        } else {
            None
        }
    }

    /// Decode a two-bit direction code.
    pub fn from_raw(raw: u8) -> (r: Option<Direction>)
        ensures
            r == Direction::spec_of_raw(raw),
    {
        if raw == 0 {
            Some(Direction::MasterRead)
        } else if raw == 1 {
            Some(Direction::MasterWrite)
        } else {
            None
        }
    }

    /// Encode a direction as its two-bit code.
    pub fn to_raw(self) -> (r: u8)
        ensures
            r == self.spec_raw(),
            r < 4,
    {
        match self {
            Direction::MasterRead => 0,
            Direction::MasterWrite => 1,
        }
    }
}

/// Sync manager channel control byte: operation mode in bits 0..2,
/// direction in bits 2..4, event enables in bits 4 and 5, watchdog enable
/// in bit 6.
#[derive(Debug, Clone, Copy, PartialEq, Eq, Structural)]
pub struct Control {
    /// Buffer operation mode.
    pub operation_mode: OperationMode,
    /// Transfer direction.
    pub direction: Direction,
    /// Raise an EtherCAT interrupt on buffer events.
    pub ecat_event_enable: bool,
    /// Raise a device-local interrupt on buffer events.
    pub dls_user_event_enable: bool,
    /// Enable the channel watchdog.
    pub watchdog_enable: bool,
}

impl Control {
    /// The packed control byte.
    pub open spec fn spec_byte(self) -> u8 {
        self.operation_mode.spec_raw() | (self.direction.spec_raw() << 2) | (if self
            .ecat_event_enable {
            0x10u8
        } else {
            0u8
        }) | (if self.dls_user_event_enable {
            0x20u8
        } else {
            0u8
        }) | (if self.watchdog_enable {
            0x40u8
        } else {
            0u8
        })
    }

    /// The control value decoded from a byte, if its mode and direction
    /// codes are declared. Bit 7 is reserved and ignored.
    pub open spec fn spec_of_byte(b: u8) -> Option<Control> {
        match (OperationMode::spec_of_raw(b & 0x03), Direction::spec_of_raw((b >> 2) & 0x03)) {
            (Some(operation_mode), Some(direction)) => Some(
                Control {
                    operation_mode,
                    direction,
                    ecat_event_enable: (b >> 4) & 1 == 1,
                    dls_user_event_enable: (b >> 5) & 1 == 1,
                    watchdog_enable: (b >> 6) & 1 == 1,
                },
            ),
            _ => None,
        }
    }

    /// Pack the control byte.
    pub fn pack_byte(self) -> (r: u8)
        ensures
            r == self.spec_byte(),
    {
        self.operation_mode.to_raw() | (self.direction.to_raw() << 2) | (if self
            .ecat_event_enable {
            0x10u8
        } else {
            0u8
        }) | (if self.dls_user_event_enable {
            0x20u8
        } else {
            0u8
        }) | (if self.watchdog_enable {
            0x40u8
        } else {
            0u8
        })
    }

    /// Decode a control byte.
    pub fn unpack_byte(b: u8) -> (r: Option<Control>)
        ensures
            r == Control::spec_of_byte(b),
    {
        let mode_raw = b & 0x03;
        let dir_raw = (b >> 2) & 0x03;
        match (OperationMode::from_raw(mode_raw), Direction::from_raw(dir_raw)) {
            (Some(operation_mode), Some(direction)) => Some(
                Control {
                    operation_mode,
                    direction,
                    ecat_event_enable: (b >> 4) & 1 == 1,
                    dls_user_event_enable: (b >> 5) & 1 == 1,
                    watchdog_enable: (b >> 6) & 1 == 1,
                },
            ),
            _ => None,
        }
    }

    /// Decoding a packed control byte yields the value back.
    pub proof fn lemma_byte_round_trip(self)
        ensures
            Control::spec_of_byte(self.spec_byte()) == Some(self),
    {
        let m = self.operation_mode.spec_raw();
        let d = self.direction.spec_raw();
        let e: u8 = if self.ecat_event_enable {
            0x10
        } else {
            0
        };
        let u: u8 = if self.dls_user_event_enable {
            0x20
        } else {
            0
        };
        let w: u8 = if self.watchdog_enable {
            0x40
        } else {
            0
        };
        let b = self.spec_byte();
        assert(b & 0x03 == m && (b >> 2) & 0x03 == d && ((b >> 4) & 1 == 1 <==> e == 0x10) && ((
        b >> 5) & 1 == 1 <==> u == 0x20) && ((b >> 6) & 1 == 1 <==> w == 0x40)) by (bit_vector)
            requires
                m < 4,
                d < 4,
                e == 0x10 || e == 0,
                u == 0x20 || u == 0,
                w == 0x40 || w == 0,
                b == m | (d << 2) | e | u | w,
        ;
    }
}

/// Sync manager channel status byte. Only the mailbox-full bit takes part
/// in the mailbox handshake; the remaining bits are ignored here.
#[derive(Debug, Clone, Copy, PartialEq, Eq, Structural)]
pub struct Status {
    /// Whether the guarded mailbox buffer holds unread data.
    pub mailbox_full: bool,
}

impl Status {
    /// The status decoded from a status byte: the mailbox-full flag is
    /// bit 3.
    pub open spec fn spec_of_byte(b: u8) -> Status {
        Status { mailbox_full: (b >> 3) & 1 == 1 }
    }

    /// Decode a status byte.
    pub fn unpack_byte(b: u8) -> (r: Status)
        ensures
            r == Status::spec_of_byte(b),
    {
        Status { mailbox_full: (b >> 3) & 1 == 1 }
    }
}

} // verus!
