use ecat_core::coe::SubIndex;
use ecat_core::coe::upload;
use ecat_core::coe::upload_segmented;
use ecat_core::error::Error;
use ecat_core::error::MailboxError;
use ecat_core::sdo::apply_segment_response;
use ecat_core::sdo::check_sdo_write_response;
use ecat_core::sdo::classify_upload_response;
use ecat_core::sdo::sdo_read_decode;
use ecat_core::sdo::sdo_write_request;
use ecat_core::sdo::SegmentStep;
use ecat_core::sdo::UploadOutcome;

/// A full initiate response frame: mailbox header, CoE header, SDO command
/// byte, index, sub-index and four data bytes.
fn init_response(counter: u8, flags: u8, index: u16, sub_index: u8, data: [u8; 4]) -> Vec<u8> {
    let mut out = vec![
        0x0a,
        0x00,
        0x00,
        0x00,
        0x00,
        0x03 | (counter << 4),
        0x00,
        0x30,
        flags,
        (index & 0xff) as u8,
        (index >> 8) as u8,
        sub_index,
    ];
    out.extend_from_slice(&data);
    out
}

/// A segment response frame: mailbox header, CoE header, segment command
/// byte and data.
fn segment_response(counter: u8, mbox_len: u16, seg: u8, data: &[u8]) -> Vec<u8> {
    let mut out = vec![
        (mbox_len & 0xff) as u8,
        (mbox_len >> 8) as u8,
        0x00,
        0x00,
        0x00,
        0x03 | (counter << 4),
        0x00,
        0x30,
        seg,
    ];
    out.extend_from_slice(data);
    out
}

#[test]
fn upload_request_frame_bytes() {
    let frame = upload(1, 0x1018, SubIndex::Index(2));

    assert_eq!(
        frame,
        [
            0x0a, 0x00, // data length
            0x00, 0x00, // address
            0x00, // channel/priority
            0x13, // CoE type, counter 1
            0x00, 0x20, // CoE header: SDO request
            0x40, // upload initiate
            0x18, 0x10, // index
            0x02, // sub-index
            0x00, 0x00, 0x00, 0x00, // unused data
        ]
    );
}

#[test]
fn segment_request_toggle_bit() {
    let clear = upload_segmented(2, false);
    let set = upload_segmented(2, true);

    assert_eq!(clear[8], 0x60);
    assert_eq!(set[8], 0x70);
    assert_eq!(clear.len(), 16);
    assert_eq!(clear[5], 0x23);
}

#[test]
fn expedited_upload() {
    // Upload response, expedited, two unused bytes: a 16-bit value.
    let frame = init_response(1, 0x4b, 0x1018, 0x02, [0xad, 0xde, 0x00, 0x00]);

    let outcome = classify_upload_response(&frame, 1, 32).unwrap();

    match outcome {
        UploadOutcome::Expedited(data) => {
            assert_eq!(data, [0xad, 0xde]);
            assert_eq!(sdo_read_decode::<u16>(&data), Ok(0xdead));
        }
        other => panic!("expected an expedited outcome, got {other:?}"),
    }
}

#[test]
fn mismatched_counter_is_rejected() {
    // The device answers with counter 5 although the request carried 1:
    // the response must be rejected and no data handed out.
    let frame = init_response(5, 0x4b, 0x1018, 0x02, [0xad, 0xde, 0x00, 0x00]);

    let outcome = classify_upload_response(&frame, 1, 32);

    assert_eq!(
        outcome,
        Err(Error::Mailbox(MailboxError::SdoResponseInvalid {
            address: 0x1018,
            sub_index: 0x02,
        }))
    );

    let write_check = check_sdo_write_response(&frame, 1);
    assert_eq!(
        write_check,
        Err(Error::Mailbox(MailboxError::SdoResponseInvalid {
            address: 0x1018,
            sub_index: 0x02,
        }))
    );
}

#[test]
fn non_coe_mailbox_type_is_rejected() {
    let mut frame = init_response(1, 0x4b, 0x1018, 0x02, [0xad, 0xde, 0x00, 0x00]);
    // Rewrite the mailbox type nibble to EoE.
    frame[5] = 0x02 | (1 << 4);

    let outcome = classify_upload_response(&frame, 1, 32);

    assert_eq!(
        outcome,
        Err(Error::Mailbox(MailboxError::SdoResponseInvalid {
            address: 0x1018,
            sub_index: 0x02,
        }))
    );
}

#[test]
fn abort_response_surfaces_code() {
    // Abort command with code 0x0601_0000 ("unsupported access").
    let frame = init_response(1, 0x80, 0x1018, 0x02, [0x00, 0x00, 0x01, 0x06]);

    let outcome = classify_upload_response(&frame, 1, 32);

    assert_eq!(
        outcome,
        Err(Error::Mailbox(MailboxError::Aborted {
            code: 0x0601_0000,
            address: 0x1018,
            sub_index: 0x02,
        }))
    );
}

#[test]
fn normal_upload() {
    // Four payload bytes follow the four-byte total length; mailbox data
    // length is 0x0a + 4.
    let mut frame = segment_response(1, 0x0e, 0x00, &[]);
    frame[8] = 0x40; // upload initiate response, not expedited
    frame.extend_from_slice(&[0x18, 0x10, 0x02]); // index, sub-index
    frame.extend_from_slice(&[0x04, 0x00, 0x00, 0x00]); // total length 4
    frame.extend_from_slice(&[0xde, 0xad, 0xbe, 0xef]); // payload

    let outcome = classify_upload_response(&frame, 1, 32).unwrap();

    match outcome {
        UploadOutcome::Normal(data) => assert_eq!(data, [0xde, 0xad, 0xbe, 0xef]),
        other => panic!("expected a normal outcome, got {other:?}"),
    }
}

#[test]
fn too_long_upload_is_rejected_before_any_copy() {
    let mut frame = segment_response(1, 0x0e, 0x00, &[]);
    frame[8] = 0x40;
    frame.extend_from_slice(&[0x18, 0x10, 0x02]);
    frame.extend_from_slice(&[0xff, 0x00, 0x00, 0x00]); // total length 255
    frame.extend_from_slice(&[0xde, 0xad, 0xbe, 0xef]);

    let outcome = classify_upload_response(&frame, 1, 32);

    assert_eq!(
        outcome,
        Err(Error::Mailbox(MailboxError::TooLong {
            address: 0x1018,
            sub_index: 0x02,
        }))
    );
}

#[test]
fn segmented_upload_with_minimum_frame_correction() {
    // First response announces 21 bytes, more than its own 4-byte data
    // area: the transfer continues segmented.
    let mut first = segment_response(1, 0x0e, 0x00, &[]);
    first[8] = 0x40;
    first.extend_from_slice(&[0x18, 0x10, 0x02]);
    first.extend_from_slice(&[0x15, 0x00, 0x00, 0x00]); // total length 21
    first.extend_from_slice(&[0x00, 0x00, 0x00, 0x00]);

    let outcome = classify_upload_response(&first, 1, 64).unwrap();
    let state = match outcome {
        UploadOutcome::Segmented(st) => st,
        other => panic!("expected a segmented outcome, got {other:?}"),
    };
    assert!(!state.toggle);
    assert!(state.collected.is_empty());

    // Segment 1: eight data bytes (mailbox length 3 + 8).
    let seg1 = segment_response(2, 0x0b, 0x00, &[1, 2, 3, 4, 5, 6, 7, 8]);
    let state = match apply_segment_response(state, &seg1, 2).unwrap() {
        SegmentStep::Continue(st) => st,
        SegmentStep::Done(_) => panic!("transfer ended too early"),
    };
    assert!(state.toggle);
    assert_eq!(state.collected, [1, 2, 3, 4, 5, 6, 7, 8]);

    // Segment 2: the minimum-sized frame. The mailbox data length gives
    // chunk length 10 - 3 == 7 exactly, so the two unused trailing bytes
    // declared by the header are dropped.
    let seg2 = segment_response(3, 0x0a, 0x14, &[9, 10, 11, 12, 13, 0xee, 0xee]);
    let state = match apply_segment_response(state, &seg2, 3).unwrap() {
        SegmentStep::Continue(st) => st,
        SegmentStep::Done(_) => panic!("transfer ended too early"),
    };
    assert!(!state.toggle);
    assert_eq!(state.collected, [1, 2, 3, 4, 5, 6, 7, 8, 9, 10, 11, 12, 13]);

    // Segment 3: last segment, eight data bytes.
    let seg3 = segment_response(4, 0x0b, 0x01, &[14, 15, 16, 17, 18, 19, 20, 21]);
    let data = match apply_segment_response(state, &seg3, 4).unwrap() {
        SegmentStep::Done(data) => data,
        SegmentStep::Continue(_) => panic!("last segment did not end the transfer"),
    };

    assert_eq!(
        data,
        [1, 2, 3, 4, 5, 6, 7, 8, 9, 10, 11, 12, 13, 14, 15, 16, 17, 18, 19, 20, 21]
    );
}

#[test]
fn segment_overflowing_destination_fails() {
    let state = ecat_core::sdo::SegmentedUpload {
        index: 0x1018,
        sub_index: 2,
        toggle: false,
        collected: vec![0; 4],
        max_len: 8,
    };

    let seg = segment_response(2, 0x0b, 0x00, &[1, 2, 3, 4, 5, 6, 7, 8]);
    let outcome = apply_segment_response(state, &seg, 2);

    assert_eq!(outcome, Err(Error::BufferTooShort));
}

#[test]
fn segment_with_mismatched_counter_is_rejected() {
    let state = ecat_core::sdo::SegmentedUpload {
        index: 0x1018,
        sub_index: 2,
        toggle: false,
        collected: Vec::new(),
        max_len: 64,
    };

    let seg = segment_response(6, 0x0b, 0x00, &[1, 2, 3, 4, 5, 6, 7, 8]);
    let outcome = apply_segment_response(state, &seg, 2);

    assert_eq!(
        outcome,
        Err(Error::Mailbox(MailboxError::SdoResponseInvalid {
            address: 0x1018,
            sub_index: 2,
        }))
    );
}

#[test]
fn expedited_write_request_bytes() {
    let value = vec![0x12, 0x34];
    let frame = sdo_write_request(1, 0x1c12, SubIndex::Index(1), &value).unwrap();

    assert_eq!(
        frame,
        [
            0x0a, 0x00, // data length
            0x00, 0x00, // address
            0x00, // channel/priority
            0x13, // CoE type, counter 1
            0x00, 0x20, // CoE header: SDO request
            0x2b, // download, expedited, two unused bytes
            0x12, 0x1c, // index
            0x01, // sub-index
            0x12, 0x34, 0x00, 0x00, // value, padded
        ]
    );
}

#[test]
fn oversized_write_fails_fast() {
    let value = vec![1, 2, 3, 4, 5];
    let frame = sdo_write_request(1, 0x1c12, SubIndex::Index(1), &value);

    assert_eq!(frame, Err(Error::NotSupported));
}

#[test]
fn write_response_validates() {
    // Download response command code, correlating counter: accepted.
    let frame = init_response(1, 0x60, 0x1c12, 0x01, [0, 0, 0, 0]);
    assert_eq!(check_sdo_write_response(&frame, 1), Ok(()));
}

#[test]
fn complete_access_sub_index() {
    let frame = upload(1, 0x1c12, SubIndex::Complete);

    // Complete access flag set, sub-index zero.
    assert_eq!(frame[8], 0x50);
    assert_eq!(frame[11], 0x00);
}

#[test]
fn segment_abort_surfaces_code() {
    let state = ecat_core::sdo::SegmentedUpload {
        index: 0x1018,
        sub_index: 2,
        toggle: false,
        collected: Vec::new(),
        max_len: 64,
    };

    // Abort command in the segment byte; the four bytes after the headers
    // carry the code.
    let seg = segment_response(2, 0x0a, 0x80, &[0x00, 0x00, 0x01, 0x06, 0x00, 0x00, 0x00]);
    let outcome = apply_segment_response(state, &seg, 2);

    assert_eq!(
        outcome,
        Err(Error::Mailbox(MailboxError::Aborted {
            code: 0x0601_0000,
            address: 0x1018,
            sub_index: 2,
        }))
    );
}

#[test]
fn decode_rejects_short_payload() {
    assert_eq!(
        sdo_read_decode::<u32>(&[0x01, 0x02]),
        Err(Error::Pdu(ecat_core::error::PduError::Decode))
    );
}
