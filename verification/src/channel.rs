//! The mailbox channel handshake.
//!
//! Each direction of a device's mailbox is guarded by a single full/empty
//! bit in the owning sync manager's status byte. Before a request, the
//! write mailbox must report not-full and a stale read mailbox is drained;
//! after a request, the read mailbox must report full before its one
//! fixed-length read. Both waits are bounded: the poll machines here take
//! one observed status per tick and decide whether to proceed, keep
//! waiting, or give up. A driver reads the status register between steps.

use vstd::prelude::*;

use crate::error::Error;
use crate::error::MailboxError;
use crate::slave_types::Mailbox;
use crate::slave_types::MailboxConfig;
use crate::sync_manager_channel::Status;

verus! {

/// Remaining budget of a bounded poll, in polls.
#[derive(Debug, Clone, Copy, PartialEq, Eq, Structural)]
pub struct PollState {
    /// Number of further polls allowed before the wait gives up.
    pub ticks_left: u64,
}

/// Decision after one observed status.
#[derive(Debug, Clone, Copy, PartialEq, Eq, Structural)]
pub enum PollStep {
    /// The awaited condition holds: proceed.
    Ready,
    /// The budget is exhausted: the wait has timed out.
    TimedOut,
    /// Keep waiting with the reduced budget.
    Wait(PollState),
}

/// Pick the CoE read and write mailboxes out of a device's mailbox
/// configuration; a device missing either one cannot carry CoE traffic.
pub fn coe_mailboxes_config(config: &MailboxConfig) -> (r: Result<(Mailbox, Mailbox), Error>)
    ensures
        config.read is None || config.write is None ==> r == Err::<(Mailbox, Mailbox), Error>(
            Error::Mailbox(MailboxError::NoMailbox),
        ),
        config.read is Some && config.write is Some ==> r == Ok::<(Mailbox, Mailbox), Error>(
            (config.read.unwrap(), config.write.unwrap()),
        ),
{
    let write_mailbox = match config.write {
        Some(m) => m,
        None => {
            return Err(Error::Mailbox(MailboxError::NoMailbox));
        },
    };
    let read_mailbox = match config.read {
        Some(m) => m,
        None => {
            return Err(Error::Mailbox(MailboxError::NoMailbox));
        },
    };
    Ok((read_mailbox, write_mailbox))
}

/// Whether the read mailbox must be drained before a new exchange: a full
/// read mailbox at this point is leftover of an earlier, aborted exchange,
/// and its contents are read once and discarded.
pub fn needs_drain(status: Status) -> (r: bool)
    ensures
        r == status.mailbox_full,
{
    status.mailbox_full
}

/// One step of waiting for the write mailbox to become available: ready
/// as soon as it is not full.
pub fn acquire_write_step(st: PollState, status: Status) -> (r: PollStep)
    ensures
        !status.mailbox_full ==> r == PollStep::Ready,
        status.mailbox_full && st.ticks_left == 0 ==> r == PollStep::TimedOut,
        status.mailbox_full && st.ticks_left > 0 ==> r == PollStep::Wait(
            PollState { ticks_left: (st.ticks_left - 1) as u64 },
        ),
{
    if !status.mailbox_full {
        PollStep::Ready
    } else if st.ticks_left == 0 {
        PollStep::TimedOut
    } else {
        PollStep::Wait(PollState { ticks_left: st.ticks_left - 1 })
    }
}

/// One step of waiting for the read mailbox to fill: ready as soon as it
/// is full.
pub fn await_response_step(st: PollState, status: Status) -> (r: PollStep)
    ensures
        status.mailbox_full ==> r == PollStep::Ready,
        !status.mailbox_full && st.ticks_left == 0 ==> r == PollStep::TimedOut,
        !status.mailbox_full && st.ticks_left > 0 ==> r == PollStep::Wait(
            PollState { ticks_left: (st.ticks_left - 1) as u64 },
        ),
{
    if status.mailbox_full {
        PollStep::Ready
    } else if st.ticks_left == 0 {
        PollStep::TimedOut
    } else {
        PollStep::Wait(PollState { ticks_left: st.ticks_left - 1 })
    }
}

/// Decide the outcome of a bounded wait for the read mailbox over the
/// observed full flags, one per poll: the position of the first poll that
/// saw the mailbox full, or a mailbox timeout carrying the device's
/// station address.
///
/// If the mailbox never reports full within the first `timeout_ticks`
/// observations, the wait fails with [`MailboxError::Timeout`] and yields
/// no data.
pub fn await_response_poll(observed: &Vec<bool>, timeout_ticks: u64, slave: u16) -> (r: Result<
    usize,
    Error,
>)
    requires
        timeout_ticks <= observed@.len(),
    ensures
        r matches Ok(i) ==> i < timeout_ticks && observed@[i as int] && (forall|j: int|
            0 <= j < i ==> !observed@[j]),
        r is Err ==> r == Err::<usize, Error>(
            Error::Mailbox(MailboxError::Timeout { slave }),
        ) && (forall|j: int| 0 <= j < timeout_ticks ==> !observed@[j]),
        r is Ok <==> exists|j: int| 0 <= j < timeout_ticks && observed@[j],
{
    let n: usize = observed.len();
    let mut i: usize = 0;
    while (i as u64) < timeout_ticks
        invariant
            timeout_ticks <= n == observed@.len(),
            i <= timeout_ticks,
            forall|j: int| 0 <= j < i ==> !observed@[j],
        decreases timeout_ticks - i,
    {
        if observed[i] {
            return Ok(i);
        }
        i += 1;
    }
    Err(Error::Mailbox(MailboxError::Timeout { slave }))
}

/// Decide the outcome of a bounded wait for the write mailbox to empty,
/// over the observed full flags: the position of the first poll that saw
/// it not-full, or a mailbox timeout carrying the device's station
/// address.
pub fn acquire_write_poll(observed: &Vec<bool>, timeout_ticks: u64, slave: u16) -> (r: Result<
    usize,
    Error,
>)
    requires
        timeout_ticks <= observed@.len(),
    ensures
        r matches Ok(i) ==> i < timeout_ticks && !observed@[i as int] && (forall|j: int|
            0 <= j < i ==> observed@[j]),
        r is Err ==> r == Err::<usize, Error>(
            Error::Mailbox(MailboxError::Timeout { slave }),
        ) && (forall|j: int| 0 <= j < timeout_ticks ==> observed@[j]),
        r is Ok <==> exists|j: int| 0 <= j < timeout_ticks && !observed@[j],
{
    let n: usize = observed.len();
    let mut i: usize = 0;
    while (i as u64) < timeout_ticks
        invariant
            timeout_ticks <= n == observed@.len(),
            i <= timeout_ticks,
            forall|j: int| 0 <= j < i ==> observed@[j],
        decreases timeout_ticks - i,
    {
        if !observed[i] {
            return Ok(i);
        }
        i += 1;
    }
    Err(Error::Mailbox(MailboxError::Timeout { slave }))
}

} // verus!
