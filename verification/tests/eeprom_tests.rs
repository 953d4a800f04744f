use ecat_core::codec::EtherCatWire;
use ecat_core::codec::EtherCatWireSized;
use ecat_core::eeprom::CategoryType;
use ecat_core::eeprom::DefaultMailbox;
use ecat_core::eeprom::FmmuEx;
use ecat_core::eeprom::FmmuUsage;
use ecat_core::eeprom::MailboxProtocols;
use ecat_core::eeprom::Pdo;
use ecat_core::eeprom::PdoEntry;
use ecat_core::eeprom::PortStatus;
use ecat_core::eeprom::PrimitiveDataType;
use ecat_core::eeprom::SiiAccess;
use ecat_core::eeprom::SiiAddressSize;
use ecat_core::eeprom::SiiControl;
use ecat_core::eeprom::SiiGeneral;
use ecat_core::eeprom::SiiReadSize;
use ecat_core::eeprom::SiiRequest;
use ecat_core::eeprom::SyncManager;
use ecat_core::eeprom::SyncManagerType;
use ecat_core::sync_manager_channel::Direction;
use ecat_core::sync_manager_channel::OperationMode;

#[test]
fn sii_control_pack() {
    let ctl = SiiControl {
        access: SiiAccess::ReadWrite,
        emulate_sii: false,
        read_size: SiiReadSize::Octets8,
        address_type: SiiAddressSize::U8,
        read: false,
        write: false,
        reload: false,
        checksum_error: false,
        device_info_error: false,
        command_error: false,
        write_error: false,
        busy: true,
    };

    assert_eq!(ctl.pack(), [0b0100_0001, 0b1000_0000],);
}

#[test]
fn sii_request_read_pack() {
    let packed = SiiRequest::read(0x1234).pack();

    assert_eq!(packed, [0x00, 0x01, 0x34, 0x12, 0x00, 0x00]);
}

#[test]
fn sii_control_round_trip() {
    let ctl = SiiControl {
        access: SiiAccess::ReadOnly,
        emulate_sii: true,
        read_size: SiiReadSize::Octets4,
        address_type: SiiAddressSize::U16,
        read: true,
        write: true,
        reload: false,
        checksum_error: true,
        device_info_error: false,
        command_error: true,
        write_error: false,
        busy: false,
    };

    let unpacked = SiiControl::unpack_from_slice(&ctl.pack()).unwrap();
    assert_eq!(unpacked, ctl);
}

#[test]
fn sii_control_error_flags() {
    let mut ctl = SiiControl::read();
    assert!(!ctl.has_error());

    ctl.command_error = true;
    assert!(ctl.has_error());

    let cleared = ctl.error_reset();
    assert!(!cleared.has_error());
    assert!(cleared.read);
}

#[test]
fn sii_read_size_chunk_len() {
    assert_eq!(SiiReadSize::Octets4.chunk_len(), 4);
    assert_eq!(SiiReadSize::Octets8.chunk_len(), 8);
}

#[test]
fn category_alternates_decode_as_primary() {
    assert_eq!(CategoryType::from_raw(1), Some(CategoryType::DeviceSpecific));
    for raw in 2u16..=9 {
        assert_eq!(CategoryType::from_raw(raw), CategoryType::from_raw(1));
    }
    assert_eq!(CategoryType::from_raw(11), None);

    assert_eq!(FmmuUsage::from_raw(0x00), Some(FmmuUsage::Unused));
    assert_eq!(FmmuUsage::from_raw(0xff), FmmuUsage::from_raw(0x00));
    assert_eq!(FmmuUsage::from_raw(0x09), None);
}

#[test]
fn fmmu_ex_parse() {
    let parsed = FmmuEx::parse(&[0xaa, 0x02, 0xbb]).unwrap();
    assert_eq!(parsed.sync_manager, 0x02);

    assert!(FmmuEx::parse(&[0xaa, 0x02]).is_err());
    assert!(FmmuEx::parse(&[0xaa, 0x02, 0xbb, 0xcc]).is_err());
}

#[test]
fn sii_general_parse() {
    let buf = [
        0x01, // group string index
        0x02, // image string index
        0x03, // order string index
        0x04, // name string index
        0x00, // reserved
        0x21, // CoE details: SDO enable + complete access
        0x01, // FoE enabled
        0x00, // EoE disabled
        0x00, 0x00, 0x00, // reserved channels
        0x05, // flags
        0xfe, 0xff, // EBUS current: -2 mA
        0x31, 0x00, // ports: MII, EBUS, unused, unused
    ];

    let parsed = SiiGeneral::parse(&buf).unwrap();

    assert_eq!(parsed.group_string_idx, 1);
    assert_eq!(parsed.name_string_idx, 4);
    assert_eq!(parsed.coe_details.bits, 0x21);
    assert!(parsed.foe_enabled);
    assert!(!parsed.eoe_enabled);
    assert_eq!(parsed.flags.bits, 0x05);
    assert_eq!(parsed.ebus_current, -2);
    assert_eq!(
        parsed.ports,
        [
            PortStatus::Mii,
            PortStatus::Ebus,
            PortStatus::Unused,
            PortStatus::Unused
        ]
    );
    assert_eq!(parsed.physical_memory_addr, 0);

    // An undeclared CoE details bit is rejected.
    let mut bad = buf;
    bad[5] = 0x40;
    assert!(SiiGeneral::parse(&bad).is_err());

    assert!(SiiGeneral::parse(&buf[..15]).is_err());
}

#[test]
fn sync_manager_parse() {
    let buf = [
        0x00, 0x10, // start address 0x1000
        0x80, 0x00, // length 0x0080
        0x16, // control: mailbox mode, master write, ECAT irq
        0x00, // status, ignored
        0x01, // enabled
        0x02, // mailbox read
    ];

    let parsed = SyncManager::parse(&buf).unwrap();

    assert_eq!(parsed.start_addr, 0x1000);
    assert_eq!(parsed.length, 0x0080);
    assert_eq!(parsed.control.operation_mode, OperationMode::Mailbox);
    assert_eq!(parsed.control.direction, Direction::MasterWrite);
    assert!(parsed.control.ecat_event_enable);
    assert!(!parsed.control.watchdog_enable);
    assert!(parsed.enable.bits & 0x01 == 0x01);
    assert_eq!(parsed.usage_type, SyncManagerType::MailboxRead);

    // An undeclared operation mode code is rejected.
    let mut bad = buf;
    bad[4] = 0x03;
    assert!(SyncManager::parse(&bad).is_err());
}

#[test]
fn pdo_entry_parse() {
    let buf = [
        0x00, 0x60, // index 0x6000
        0x01, // sub-index
        0x05, // name string index
        0x03, // INT16
        0x10, // 16 bits
        0x00, 0x00, // flags
    ];

    let parsed = PdoEntry::parse(&buf).unwrap();

    assert_eq!(parsed.index, 0x6000);
    assert_eq!(parsed.sub_index, 1);
    assert_eq!(parsed.data_type, PrimitiveDataType::Int16);
    assert_eq!(parsed.data_length_bits, 16);

    let mut bad = buf;
    bad[4] = 0xe0;
    assert!(PdoEntry::parse(&bad).is_err());
}

#[test]
fn pdo_parse_and_bit_len() {
    let buf = [
        0x00, 0x1a, // index 0x1a00
        0x02, // two entries
        0x03, // sync manager 3
        0x00, // DC sync
        0x07, // name string index
        0x01, 0x00, // flags: mandatory
    ];

    let (rest, mut pdo) = Pdo::parse_fields(&buf).unwrap();
    assert!(rest.is_empty());
    assert_eq!(pdo.index, 0x1a00);
    assert_eq!(pdo.num_entries, 2);
    assert_eq!(pdo.bit_len(), 0);

    let entry = |bits: u8| PdoEntry {
        index: 0x6000,
        sub_index: 1,
        name_string_idx: 0,
        data_type: PrimitiveDataType::Uint8,
        data_length_bits: bits,
        flags: 0,
    };
    pdo.entries.push(entry(16));
    pdo.entries.push(entry(3));

    assert_eq!(pdo.bit_len(), 19);
}

#[test]
fn default_mailbox_parse_and_has_mailbox() {
    let buf = [
        0x00, 0x10, // receive offset
        0x80, 0x00, // receive size
        0x80, 0x10, // send offset
        0x80, 0x00, // send size
        0x04, 0x00, // protocols: CoE
    ];

    let parsed = DefaultMailbox::parse(&buf).unwrap();

    assert_eq!(parsed.slave_receive_offset, 0x1000);
    assert_eq!(parsed.slave_receive_size, 0x0080);
    assert_eq!(parsed.slave_send_offset, 0x1080);
    assert_eq!(parsed.slave_send_size, 0x0080);
    assert!(parsed.supported_protocols.coe());
    assert!(parsed.has_mailbox());

    let none = DefaultMailbox {
        slave_receive_offset: 0,
        slave_receive_size: 0,
        slave_send_offset: 0,
        slave_send_size: 0,
        supported_protocols: MailboxProtocols { bits: 0 },
    };
    assert!(!none.has_mailbox());

    // An undeclared protocol bit is rejected.
    let mut bad = buf;
    bad[8] = 0x40;
    assert!(DefaultMailbox::parse(&bad).is_err());
}
