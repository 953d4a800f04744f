use ecat_core::al_control::AlControl;
use ecat_core::codec::EtherCatWire;
use ecat_core::codec::EtherCatWireSized;
use ecat_core::error::WireError;
use ecat_core::frame_header::FrameHeader;
use ecat_core::frame_header::ProtocolType;
use ecat_core::pdu_flags::PduFlags;
use ecat_core::eeprom::SiiRequest;
use ecat_core::mailbox::MailboxHeader;
use ecat_core::mailbox::MailboxType;
use ecat_core::slave_state::SlaveState;
use ecat_core::sync_manager_channel::Control;
use ecat_core::sync_manager_channel::Direction;
use ecat_core::sync_manager_channel::OperationMode;

#[test]
fn al_control() {
    let value = AlControl {
        state: SlaveState::SafeOp,
        error: true,
        id_request: false,
    };

    let packed = value.pack();

    assert_eq!(packed, [0x04 | 0x10, 0x00]);
}

#[test]
fn unpack() {
    let value = AlControl {
        state: SlaveState::SafeOp,
        error: true,
        id_request: false,
    };

    let parsed = AlControl::unpack_from_slice(&[0x04 | 0x10, 0x00]).unwrap();

    assert_eq!(value, parsed);
}

#[test]
fn unpack_short() {
    let parsed = AlControl::unpack_from_slice(&[0x04 | 0x10]);

    assert!(parsed.is_err());
}

#[test]
fn unpack_unknown_state() {
    let parsed = AlControl::unpack_from_slice(&[0x05, 0x00]);

    assert_eq!(parsed, Err(WireError::InvalidDiscriminant));
}

#[test]
fn al_control_reset_word() {
    let value = AlControl::reset();

    assert_eq!(value.state, SlaveState::Init);
    assert!(value.error);
    assert!(!value.id_request);
    assert_eq!(value.pack(), [0x11, 0x00]);
}

#[test]
fn al_control_request_word_acknowledges_errors() {
    // A state request carries the target state plus the error-acknowledge
    // flag.
    let value = AlControl::request(SlaveState::PreOp);

    assert_eq!(value.state, SlaveState::PreOp);
    assert!(value.error);
    assert!(!value.id_request);
    assert_eq!(value.pack(), [0x12, 0x00]);
}

#[test]
fn al_control_new_word() {
    let value = AlControl::new(SlaveState::Op);

    assert_eq!(value.pack(), [0x08, 0x00]);
}

#[test]
fn pdu_header() {
    let header = FrameHeader::pdu(0x28);

    let packed = header.0;

    let expected = 0b0001_0000_0010_1000;

    assert_eq!(packed, expected, "{packed:016b} == {expected:016b}");
}

#[test]
fn decode_pdu_len() {
    let raw = 0b0001_0000_0010_1000;

    let header = FrameHeader(raw);

    assert_eq!(header.payload_len(), 0x28);
    assert_eq!(header.protocol_type(), ProtocolType::DlPdu);
}

#[test]
fn parse() {
    // Header taken from a captured frame.
    let raw = &[0x3c, 0x10];

    let (rest, header) = FrameHeader::parse(raw).unwrap();

    assert_eq!(rest, &[]);

    assert_eq!(header.payload_len(), 0x3c);
    assert_eq!(header.protocol_type(), ProtocolType::DlPdu);
}

#[test]
fn parse_rejects_other_protocols() {
    // Same length, but a mailbox protocol nibble instead of PDU.
    let raw = &[0x3c, 0x50];

    assert!(FrameHeader::parse(raw).is_err());
    assert!(FrameHeader::parse(&[0x3c]).is_err());
}

#[test]
fn pdu_flags_round_trip() {
    let flags = PduFlags {
        length: 0x110,
        circulated: false,
        is_not_last: true,
    };

    let packed = flags.pack();

    assert_eq!(packed, [0x10, 0x81]);

    let unpacked = PduFlags::unpack_from_slice(&packed).unwrap();

    assert_eq!(unpacked, flags);
}

#[test]
fn correct_length() {
    let flags = PduFlags {
        length: 1036,
        circulated: false,
        is_not_last: false,
    };

    assert_eq!(flags.len(), 1036);

    assert_eq!(flags.pack(), [0b0000_1100, 0b0000_0100]);
    assert_eq!(flags.pack(), [0x0c, 0x04]);
}

#[test]
fn primitive_round_trips() {
    let v: u16 = 0xa55a;
    assert_eq!(v.pack(), [0x5a, 0xa5]);
    assert_eq!(u16::unpack_from_slice(&v.pack()), Ok(v));

    let w: u32 = 0x0102_0304;
    assert_eq!(w.pack(), [0x04, 0x03, 0x02, 0x01]);
    assert_eq!(u32::unpack_from_slice(&w.pack()), Ok(w));

    let x: i16 = -2;
    assert_eq!(x.pack(), [0xfe, 0xff]);
    assert_eq!(i16::unpack_from_slice(&x.pack()), Ok(x));

    let y: u64 = 0x1122_3344_5566_7788;
    assert_eq!(u64::unpack_from_slice(&y.pack()), Ok(y));

    assert!(bool::unpack_from_slice(&true.pack()).unwrap());
    assert_eq!(u16::unpack_from_slice(&[0x01]), Err(WireError::ReadBufferTooShort));
}

#[test]
fn pack_to_slice_keeps_tail_and_checks_space() {
    let v: u16 = 0x1234;
    let mut buf = vec![0xaa_u8, 0xbb, 0xcc, 0xdd];
    v.pack_to_slice(&mut buf).unwrap();
    assert_eq!(buf, [0x34, 0x12, 0xcc, 0xdd]);

    let mut short = vec![0x00_u8];
    assert_eq!(v.pack_to_slice(&mut short), Err(WireError::WriteBufferTooShort));
    assert_eq!(short, [0x00]);
}

#[test]
fn field_merge_preserves_siblings() {
    // Pack only the state nibble of a word whose sibling bits are already
    // set: the sibling flags must come through unchanged.
    let merged = ecat_core::wire::merge_field(0x30, 0x04, 0, 4);
    assert_eq!(merged, 0x34);
    assert_eq!(ecat_core::wire::extract_field(merged, 4, 1), 1);
    assert_eq!(ecat_core::wire::extract_field(merged, 5, 1), 1);
    assert_eq!(ecat_core::wire::extract_field(merged, 0, 4), 0x04);
}

#[test]
fn mailbox_header_round_trip() {
    let header = MailboxHeader {
        length: 0x0a,
        address: 0x1001,
        priority: 1,
        mailbox_type: MailboxType::Coe,
        counter: 5,
    };

    let packed = header.pack();
    assert_eq!(packed, [0x0a, 0x00, 0x01, 0x10, 0x40, 0x53]);

    let unpacked = MailboxHeader::unpack_from_slice(&packed).unwrap();
    assert_eq!(unpacked, header);

    // An undeclared mailbox type nibble is rejected.
    assert_eq!(
        MailboxHeader::unpack_from_slice(&[0x0a, 0x00, 0x01, 0x10, 0x40, 0x56]),
        Err(WireError::InvalidDiscriminant)
    );
}

#[test]
fn sync_manager_control_round_trip() {
    let control = Control {
        operation_mode: OperationMode::Mailbox,
        direction: Direction::MasterWrite,
        ecat_event_enable: true,
        dls_user_event_enable: false,
        watchdog_enable: true,
    };

    let byte = control.pack_byte();
    assert_eq!(byte, 0x56);
    assert_eq!(Control::unpack_byte(byte), Some(control));
    assert_eq!(Control::unpack_byte(0x03), None);
}

#[test]
fn sii_request_round_trip() {
    let request = SiiRequest::read(0xbeef);
    let unpacked = SiiRequest::unpack_from_slice(&request.pack()).unwrap();
    assert_eq!(unpacked, request);
}
