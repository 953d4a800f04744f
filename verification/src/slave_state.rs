//! Application-layer states of a device.

use vstd::prelude::*;

verus! {

/// The application-layer (AL) state machine states a device can report or
/// be requested to enter. The wire representation is a four-bit code.
#[derive(Debug, Clone, Copy, PartialEq, Eq, Structural)]
pub enum SlaveState {
    /// No application-layer communication; only register access.
    Init,
    /// Mailbox communication is available.
    PreOp,
    /// Firmware update state; mailbox only, restricted object access.
    Bootstrap,
    /// Inputs are exchanged; outputs are not yet applied.
    SafeOp,
    /// Full cyclic exchange of inputs and outputs.
    Op,
}

impl SlaveState {
    /// The four-bit code of a state.
    pub open spec fn spec_raw(self) -> u8 {
        match self {
            SlaveState::Init => 1,
            SlaveState::PreOp => 2,
            SlaveState::Bootstrap => 3,
            SlaveState::SafeOp => 4,
            SlaveState::Op => 8,
        }
    }

    /// The state declared for a four-bit code, if any.
    pub open spec fn spec_of_raw(raw: u8) -> Option<SlaveState> {
        if raw == 1 {
            Some(SlaveState::Init)
        } else if raw == 2 {
            Some(SlaveState::PreOp)
        } else if raw == 3 {
            Some(SlaveState::Bootstrap)
        } else if raw == 4 {
            Some(SlaveState::SafeOp)
        } else if raw == 8 {
            Some(SlaveState::Op)
        } else {
            None
        }
    }

    /// Encode the state as its four-bit code.
    pub fn to_raw(self) -> (r: u8)
        ensures
            r == self.spec_raw(),
            r < 16,
    {
        match self {
            SlaveState::Init => 1,
            SlaveState::PreOp => 2,
            SlaveState::Bootstrap => 3,
            SlaveState::SafeOp => 4,
            SlaveState::Op => 8,
        }
    }

    /// Decode a four-bit code; codes matching no declared state are invalid.
    pub fn from_raw(raw: u8) -> (r: Option<SlaveState>)
        ensures
            r == SlaveState::spec_of_raw(raw),
    {
        if raw == 1 {
            Some(SlaveState::Init)
        } else if raw == 2 {
            Some(SlaveState::PreOp)
        } else if raw == 3 {
            Some(SlaveState::Bootstrap)
        } else if raw == 4 {
            Some(SlaveState::SafeOp)
        } else if raw == 8 {
            Some(SlaveState::Op)
        } else {
            None
        }
    }

    /// Decoding the code of a state yields the state back.
    pub proof fn lemma_raw_round_trip(self)
        ensures
            SlaveState::spec_of_raw(self.spec_raw()) == Some(self),
    {
    }
}

} // verus!
