//! Device handles: per-device metadata, the cyclic mailbox counter and
//! the application-layer state gate.

use vstd::prelude::*;

use crate::al_control::AlControl;
use crate::channel::PollState;
use crate::channel::PollStep;
use crate::error::Error;
use crate::slave_state::SlaveState;
use crate::slave_types::SlaveConfig;
use crate::slave_types::SlaveIdentity;

verus! {

/// Bounds, in polls, of the protocol's waiting loops.
#[derive(Debug, Clone, Copy, PartialEq, Eq, Structural)]
pub struct Timeouts {
    /// Budget for a device to reach a requested state.
    pub state_transition: u64,
    /// Budget for a response to a single datagram.
    pub pdu: u64,
    /// Budget for an EEPROM operation to finish.
    pub eeprom: u64,
    /// Delay between two polls of a status register.
    pub wait_loop_delay: u64,
    /// Budget for the mailbox full/empty handshake.
    pub mailbox_echo: u64,
    /// Budget for a device to produce a mailbox response.
    pub mailbox_response: u64,
}

/// An addressed register transfer to be carried out by the transport.
#[derive(Debug, Clone, Copy, PartialEq, Eq, Structural)]
pub enum Command {
    /// Configured-address read of a register.
    Fprd {
        /// Configured station address of the device.
        address: u16,
        /// Register to read.
        register: u16,
    },
    /// Configured-address write of a register.
    Fpwr {
        /// Configured station address of the device.
        address: u16,
        /// Register to write.
        register: u16,
    },
}

impl Command {
    /// A configured-address read.
    pub fn fprd(address: u16, register: u16) -> (r: Self)
        ensures
            r == (Command::Fprd { address, register }),
    {
        Command::Fprd { address, register }
    }

    /// A configured-address write.
    pub fn fpwr(address: u16, register: u16) -> (r: Self)
        ensures
            r == (Command::Fpwr { address, register }),
    {
        Command::Fpwr { address, register }
    }
}

/// The counter value following `n` in the mailbox counter cycle.
pub open spec fn spec_next_counter(n: u8) -> u8 {
    if n >= 7 {
        1
    } else {
        (n + 1) as u8
    }
}

/// The `k`-th value the counter hands out, counting from the first
/// request of a fresh device handle.
pub open spec fn spec_counter_at(k: nat) -> u8
    decreases k,
{
    if k == 0 {
        1
    } else {
        spec_next_counter(spec_counter_at((k - 1) as nat))
    }
}

/// One step of the counter cycle stays within 1..=7, is never the
/// reserved value 0, and advances by one until it wraps from 7 to 1.
pub proof fn lemma_counter_step(n: u8)
    requires
        1 <= n <= 7,
    ensures
        1 <= spec_next_counter(n) <= 7,
        spec_next_counter(n) != 0,
        n < 7 ==> spec_next_counter(n) == n + 1,
        n == 7 ==> spec_next_counter(n) == 1,
{
}

/// The counter sequence is `1, 2, 3, 4, 5, 6, 7, 1, 2, ...`: the `k`-th
/// value handed out is `k % 7 + 1`, and in particular never 0.
pub proof fn lemma_counter_sequence(k: nat)
    ensures
        spec_counter_at(k) == k % 7 + 1,
        spec_counter_at(k) != 0,
    decreases k,
{
    if k > 0 {
        lemma_counter_sequence((k - 1) as nat);
        assert(k % 7 == if (k - 1) % 7 == 6 {
            0int
        } else {
            (k - 1) % 7 + 1
        }) by (nonlinear_arith);
    }
}

/// Metadata of one device on the network, owned by its handle.
#[derive(Debug, Clone, PartialEq, Eq)]
pub struct Slave {
    /// Configured station address.
    pub configured_address: u16,
    /// Process-data and mailbox configuration.
    pub config: SlaveConfig,
    /// Identity words read from the EEPROM.
    pub identity: SlaveIdentity,
    /// Human-readable device name; at most 64 bytes.
    pub name: String,
    /// Distributed-clock latch receive time.
    pub dc_receive_time: i64,
    /// Position of the device in the network.
    pub index: usize,
    /// Position of the upstream device, if any.
    pub parent_index: Option<usize>,
    /// Propagation delay of the device in nanoseconds.
    pub propagation_delay: u32,
    /// The cyclic mailbox counter, always within 1..=7.
    pub mailbox_counter: u8,
}

impl Slave {
    /// The mailbox counter stays within its cycle.
    pub open spec fn counter_wf(self) -> bool {
        1 <= self.mailbox_counter <= 7
    }

    /// Create a device handle. The mailbox counter starts at 1: 0 is a
    /// reserved value, and the cycle runs 1 through 7.
    pub fn new(
        configured_address: u16,
        index: usize,
        name: String,
        identity: SlaveIdentity,
        config: SlaveConfig,
    ) -> (r: Self)
        ensures
            r.configured_address == configured_address,
            r.index == index,
            r.name == name,
            r.identity == identity,
            r.config == config,
            r.parent_index is None,
            r.propagation_delay == 0,
            r.dc_receive_time == 0,
            r.mailbox_counter == 1,
            r.counter_wf(),
    {
        Self {
            configured_address,
            config,
            identity,
            name,
            dc_receive_time: 0,
            index,
            parent_index: None,
            propagation_delay: 0,
            mailbox_counter: 1,
        }
    }

    /// The device's human-readable name.
    pub fn name(&self) -> (r: &str)
        ensures
            r@ == self.name@,
    {
        self.name.as_str()
    }

    /// The device's identity words.
    pub fn identity(&self) -> (r: SlaveIdentity)
        ensures
            r == self.identity,
    {
        self.identity
    }

    /// The device's propagation delay in nanoseconds.
    pub fn propagation_delay(&self) -> (r: u32)
        ensures
            r == self.propagation_delay,
    {
        self.propagation_delay
    }
}

/// A device handle: the device's metadata together with the configured
/// timeouts, giving the protocol layers everything they decide on.
#[derive(Debug, Clone, PartialEq, Eq)]
pub struct SlaveRef {
    /// Configured station address the handle talks to.
    pub configured_address: u16,
    /// The device's metadata.
    pub state: Slave,
    /// Configured waiting bounds.
    pub timeouts: Timeouts,
}

impl SlaveRef {
    /// Wrap device metadata in a handle.
    pub fn new(configured_address: u16, state: Slave, timeouts: Timeouts) -> (r: Self)
        ensures
            r == (SlaveRef { configured_address, state, timeouts }),
    {
        Self { configured_address, state, timeouts }
    }

    /// The configured station address of the device.
    pub fn configured_address(&self) -> (r: u16)
        ensures
            r == self.configured_address,
    {
        self.configured_address
    }

    /// The device's human-readable name.
    pub fn name(&self) -> (r: &str)
        ensures
            r@ == self.state.name@,
    {
        self.state.name.as_str()
    }

    /// The device's identity words.
    pub fn identity(&self) -> (r: SlaveIdentity)
        ensures
            r == self.state.identity,
    {
        self.state.identity
    }

    /// The device's propagation delay in nanoseconds.
    pub fn propagation_delay(&self) -> (r: u32)
        ensures
            r == self.state.propagation_delay,
    {
        self.state.propagation_delay
    }

    /// The configured waiting bounds.
    pub fn timeouts(&self) -> (r: Timeouts)
        ensures
            r == self.timeouts,
    {
        self.timeouts
    }

    /// Hand out the current mailbox counter value and advance the cycle:
    /// the returned values run `1, 2, ..., 7, 1, 2, ...` over successive
    /// calls and are never the reserved value 0.
    pub fn mailbox_counter(&mut self) -> (r: u8)
        requires
            old(self).state.counter_wf(),
        ensures
            r == old(self).state.mailbox_counter,
            1 <= r <= 7,
            final(self).state.mailbox_counter == spec_next_counter(r),
            final(self).state.counter_wf(),
            final(self).state == (Slave {
                mailbox_counter: final(self).state.mailbox_counter,
                ..old(self).state
            }),
            final(self).configured_address == old(self).configured_address,
            final(self).timeouts == old(self).timeouts,
    {
        let current = self.state.mailbox_counter;
        let next: u8 = if current >= 7 {
            1
        } else {
            current + 1
        };
        self.state.mailbox_counter = next;
        current
    }

    /// A read of one of the device's registers, for the transport.
    pub fn read(&self, register: u16) -> (r: Command)
        ensures
            r == (Command::Fprd { address: self.configured_address, register }),
    {
        Command::fprd(self.configured_address, register)
    }

    /// A write of one of the device's registers, for the transport.
    pub fn write(&self, register: u16) -> (r: Command)
        ensures
            r == (Command::Fpwr { address: self.configured_address, register }),
    {
        Command::fpwr(self.configured_address, register)
    }
}

/// Decide the outcome of a state transition request from the control word
/// the device echoed: an echoed error flag refuses the transition and the
/// device's AL status code is surfaced with the failure.
pub fn check_state_response(response: AlControl, code: u16) -> (r: Result<(), Error>)
    ensures
        response.error ==> r == Err::<(), Error>(Error::StateTransition { code }),
        !response.error ==> r == Ok::<(), Error>(()),
{
    if response.error {
        Err(Error::StateTransition { code })
    } else {
        Ok(())
    }
}

/// One step of waiting for a device to report the desired state: ready
/// as soon as the reported state matches.
pub fn wait_for_state_step(st: PollState, observed: SlaveState, desired: SlaveState) -> (r:
    PollStep)
    ensures
        observed == desired ==> r == PollStep::Ready,
        observed != desired && st.ticks_left == 0 ==> r == PollStep::TimedOut,
        observed != desired && st.ticks_left > 0 ==> r == PollStep::Wait(
            PollState { ticks_left: (st.ticks_left - 1) as u64 },
        ),
{
    if observed == desired {
        PollStep::Ready
    } else if st.ticks_left == 0 {
        PollStep::TimedOut
    } else {
        PollStep::Wait(PollState { ticks_left: st.ticks_left - 1 })
    }
}

/// Decide the outcome of a bounded wait for a device to report the
/// desired state, over the states observed one per poll: the position of
/// the first matching observation, or a timeout.
pub fn wait_for_state_poll(observed: &Vec<SlaveState>, desired: SlaveState, timeout_ticks: u64) -> (r:
    Result<usize, Error>)
    requires
        timeout_ticks <= observed@.len(),
    ensures
        r matches Ok(i) ==> i < timeout_ticks && observed@[i as int] == desired && (forall|
            j: int,
        |
            0 <= j < i ==> observed@[j] != desired),
        r is Err ==> r == Err::<usize, Error>(Error::Timeout) && (forall|j: int|
            0 <= j < timeout_ticks ==> observed@[j] != desired),
        r is Ok <==> exists|j: int| 0 <= j < timeout_ticks && observed@[j] == desired,
{
    let n: usize = observed.len();
    let mut i: usize = 0;
    while (i as u64) < timeout_ticks
        invariant
            timeout_ticks <= n == observed@.len(),
            i <= timeout_ticks,
            forall|j: int| 0 <= j < i ==> observed@[j] != desired,
        decreases timeout_ticks - i,
    {
        let here = observed[i];
        if here == desired {
            return Ok(i);
        }
        i += 1;
    }
    Err(Error::Timeout)
}

/// A device-address-bound command factory for register transfers.
#[derive(Debug, Clone, Copy, PartialEq, Eq, Structural)]
pub struct SlaveClient {
    /// Configured station address the commands are bound to.
    pub configured_address: u16,
    /// Configured waiting bounds.
    pub timeouts: Timeouts,
}

impl SlaveClient {
    /// Bind a command factory to a device address.
    pub fn new(configured_address: u16, timeouts: Timeouts) -> (r: Self)
        ensures
            r == (SlaveClient { configured_address, timeouts }),
    {
        Self { configured_address, timeouts }
    }

    /// The configured waiting bounds.
    pub fn timeouts(&self) -> (r: Timeouts)
        ensures
            r == self.timeouts,
    {
        self.timeouts
    }

    /// A read of one of the device's registers.
    pub fn read(&self, register: u16) -> (r: Command)
        ensures
            r == (Command::Fprd { address: self.configured_address, register }),
    {
        Command::fprd(self.configured_address, register)
    }

    /// A write of one of the device's registers.
    pub fn write(&self, register: u16) -> (r: Command)
        ensures
            r == (Command::Fpwr { address: self.configured_address, register }),
    {
        Command::fpwr(self.configured_address, register)
    }
}

} // verus!
