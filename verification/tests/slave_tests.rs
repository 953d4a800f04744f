use ecat_core::al_control::AlControl;
use ecat_core::channel::acquire_write_poll;
use ecat_core::channel::acquire_write_step;
use ecat_core::channel::await_response_poll;
use ecat_core::channel::await_response_step;
use ecat_core::channel::coe_mailboxes_config;
use ecat_core::channel::needs_drain;
use ecat_core::channel::PollState;
use ecat_core::channel::PollStep;
use ecat_core::eeprom::MailboxProtocols;
use ecat_core::error::Error;
use ecat_core::error::MailboxError;
use ecat_core::register::RegisterAddress;
use ecat_core::slave::check_state_response;
use ecat_core::slave::wait_for_state_poll;
use ecat_core::slave::wait_for_state_step;
use ecat_core::slave::Command;
use ecat_core::slave::Slave;
use ecat_core::slave::SlaveClient;
use ecat_core::slave::SlaveRef;
use ecat_core::slave::Timeouts;
use ecat_core::slave_state::SlaveState;
use ecat_core::slave_types::IoRanges;
use ecat_core::slave_types::Mailbox;
use ecat_core::slave_types::MailboxConfig;
use ecat_core::slave_types::PdiSegment;
use ecat_core::slave_types::SlaveConfig;
use ecat_core::slave_types::SlaveIdentity;
use ecat_core::sync_manager_channel::Status;

fn test_timeouts() -> Timeouts {
    Timeouts {
        state_transition: 100,
        pdu: 10,
        eeprom: 100,
        wait_loop_delay: 1,
        mailbox_echo: 50,
        mailbox_response: 50,
    }
}

fn test_slave() -> Slave {
    let segment = PdiSegment {
        bit_len: 0,
        bytes_start: 0,
        bytes_end: 0,
    };
    Slave::new(
        0x1001,
        0,
        String::from("EL2004"),
        SlaveIdentity {
            vendor_id: 2,
            product_id: 0x07d43052,
            revision: 1,
            serial: 0,
        },
        SlaveConfig {
            io: IoRanges {
                input: segment,
                output: segment,
            },
            mailbox: MailboxConfig::unconfigured(),
        },
    )
}

#[test]
fn counter_starts_at_one_and_cycles_without_zero() {
    let slave = test_slave();
    assert_eq!(slave.mailbox_counter, 1);

    let mut handle = SlaveRef::new(0x1001, slave, test_timeouts());

    let mut seen = Vec::new();
    for _ in 0..16 {
        seen.push(handle.mailbox_counter());
    }

    assert_eq!(seen, [1, 2, 3, 4, 5, 6, 7, 1, 2, 3, 4, 5, 6, 7, 1, 2]);
    assert!(seen.iter().all(|&c| c != 0));
}

#[test]
fn slave_getters() {
    let slave = test_slave();
    assert_eq!(slave.name(), "EL2004");
    assert_eq!(slave.identity().vendor_id, 2);
    assert_eq!(slave.propagation_delay(), 0);

    let handle = SlaveRef::new(0x1001, slave, test_timeouts());
    assert_eq!(handle.configured_address(), 0x1001);
    assert_eq!(handle.name(), "EL2004");
    assert_eq!(handle.identity().product_id, 0x07d43052);
    assert_eq!(handle.propagation_delay(), 0);
    assert_eq!(handle.timeouts().mailbox_echo, 50);

    assert_eq!(
        handle.read(0x0130),
        Command::Fprd {
            address: 0x1001,
            register: 0x0130,
        }
    );
    assert_eq!(
        handle.write(0x0120),
        Command::Fpwr {
            address: 0x1001,
            register: 0x0120,
        }
    );
}

#[test]
fn slave_client_commands() {
    let client = SlaveClient::new(0x1002, test_timeouts());

    assert_eq!(client.timeouts().pdu, 10);
    assert_eq!(
        client.read(0x0110),
        Command::Fprd {
            address: 0x1002,
            register: 0x0110,
        }
    );
    assert_eq!(
        client.write(0x0500),
        Command::Fpwr {
            address: 0x1002,
            register: 0x0500,
        }
    );
}

#[test]
fn missing_mailbox_is_rejected() {
    let config = MailboxConfig::unconfigured();
    assert_eq!(
        coe_mailboxes_config(&config),
        Err(Error::Mailbox(MailboxError::NoMailbox))
    );

    let read = Mailbox {
        address: 0x1000,
        len: 128,
        sync_manager: 1,
    };
    let write = Mailbox {
        address: 0x1080,
        len: 128,
        sync_manager: 0,
    };
    let full = MailboxConfig {
        read: Some(read),
        write: Some(write),
        supported_protocols: MailboxProtocols { bits: 0x0004 },
        coe_sync_manager_types: Vec::new(),
        has_coe: true,
        complete_access: false,
    };
    assert_eq!(coe_mailboxes_config(&full), Ok((read, write)));
}

#[test]
fn await_response_times_out_without_full_flag() {
    // The read mailbox never reports full within the timeout window: the
    // wait fails with a mailbox timeout and yields no data.
    let observed = vec![false; 10];
    let outcome = await_response_poll(&observed, 10, 0x1001);

    assert_eq!(
        outcome,
        Err(Error::Mailbox(MailboxError::Timeout { slave: 0x1001 }))
    );
}

#[test]
fn await_response_sees_full_flag() {
    let observed = vec![false, false, true, false];
    let outcome = await_response_poll(&observed, 4, 0x1001);

    assert_eq!(outcome, Ok(2));
}

#[test]
fn acquire_write_waits_for_empty() {
    let observed = vec![true, true, false];
    assert_eq!(acquire_write_poll(&observed, 3, 7), Ok(2));

    let never = vec![true; 5];
    assert_eq!(
        acquire_write_poll(&never, 5, 7),
        Err(Error::Mailbox(MailboxError::Timeout { slave: 7 }))
    );
}

#[test]
fn poll_steps() {
    let full = Status { mailbox_full: true };
    let empty = Status { mailbox_full: false };

    assert_eq!(
        await_response_step(PollState { ticks_left: 3 }, full),
        PollStep::Ready
    );
    assert_eq!(
        await_response_step(PollState { ticks_left: 3 }, empty),
        PollStep::Wait(PollState { ticks_left: 2 })
    );
    assert_eq!(
        await_response_step(PollState { ticks_left: 0 }, empty),
        PollStep::TimedOut
    );

    assert_eq!(
        acquire_write_step(PollState { ticks_left: 3 }, empty),
        PollStep::Ready
    );
    assert_eq!(
        acquire_write_step(PollState { ticks_left: 0 }, full),
        PollStep::TimedOut
    );

    assert!(needs_drain(full));
    assert!(!needs_drain(empty));
}

#[test]
fn state_transition_error_carries_code() {
    let refused = AlControl {
        state: SlaveState::Init,
        error: true,
        id_request: false,
    };
    assert_eq!(
        check_state_response(refused, 0x0011),
        Err(Error::StateTransition { code: 0x0011 })
    );

    let accepted = AlControl::new(SlaveState::PreOp);
    assert_eq!(check_state_response(accepted, 0), Ok(()));
}

#[test]
fn wait_for_state_step_decides() {
    assert_eq!(
        wait_for_state_step(PollState { ticks_left: 3 }, SlaveState::PreOp, SlaveState::PreOp),
        PollStep::Ready
    );
    assert_eq!(
        wait_for_state_step(PollState { ticks_left: 3 }, SlaveState::Init, SlaveState::PreOp),
        PollStep::Wait(PollState { ticks_left: 2 })
    );
    assert_eq!(
        wait_for_state_step(PollState { ticks_left: 0 }, SlaveState::Init, SlaveState::PreOp),
        PollStep::TimedOut
    );
}

#[test]
fn wait_for_state_matches_or_times_out() {
    let observed = vec![SlaveState::Init, SlaveState::Init, SlaveState::PreOp];
    assert_eq!(wait_for_state_poll(&observed, SlaveState::PreOp, 3), Ok(2));
    assert_eq!(
        wait_for_state_poll(&observed, SlaveState::Op, 3),
        Err(Error::Timeout)
    );
}

#[test]
fn register_addresses() {
    assert_eq!(RegisterAddress::AlControl.to_raw(), 0x0120);
    assert_eq!(RegisterAddress::AlStatus.to_raw(), 0x0130);
    assert_eq!(RegisterAddress::AlStatusCode.to_raw(), 0x0134);
    assert_eq!(RegisterAddress::SiiConfig.to_raw(), 0x0500);
    assert_eq!(RegisterAddress::sync_manager(1), 0x0808);
    assert_eq!(RegisterAddress::sync_manager_status(1), 0x080d);
}

#[test]
fn status_byte_full_flag() {
    assert!(Status::unpack_byte(0x08).mailbox_full);
    assert!(!Status::unpack_byte(0x04).mailbox_full);
}
