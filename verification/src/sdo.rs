//! SDO transfer logic: response validation and classification, and the
//! segmented-upload accumulator.
//!
//! The functions here are pure: they map a request context and the raw
//! bytes read from the device's mailbox to either data, the next transfer
//! state, or a typed error. A driver performs the mailbox I/O between
//! steps. Every response is validated before any byte reaches a caller
//! buffer: its mailbox type must be CoE and its counter must equal the
//! request's counter.

use vstd::prelude::*;

use crate::codec::EtherCatWire;
use crate::coe::InitSdoFlags;
use crate::coe::SegmentSdoHeader;
use crate::coe::SDO_COMMAND_ABORT;
use crate::error::Error;
use crate::error::MailboxError;
use crate::error::PduError;
use crate::error::WireError;
use crate::mailbox::MailboxHeader;
use crate::mailbox::MailboxType;
use crate::wire::copy_range;
use crate::wire::read_u16_le;
use crate::wire::read_u32_le;
use crate::wire::spec_u16_of_le;
use crate::wire::spec_u32_of_le;

verus! {

/// The headers of an SDO initiate response.
#[derive(Debug, Clone, Copy, PartialEq, Eq, Structural)]
pub struct SdoResponseHeader {
    /// The mailbox header framing the response.
    pub header: MailboxHeader,
    /// The SDO command/flag byte.
    pub flags: InitSdoFlags,
    /// Object index echoed by the device.
    pub index: u16,
    /// Sub-index echoed by the device.
    pub sub_index: u8,
}

/// The mailbox header of `b`, decoded from its first six bytes.
pub open spec fn spec_mbox(b: Seq<u8>) -> Option<MailboxHeader> {
    MailboxHeader::spec_unpack(b.take(6))
}

/// The initiate response header of `b`.
pub open spec fn spec_init_header(b: Seq<u8>) -> Option<SdoResponseHeader> {
    match spec_mbox(b) {
        Some(header) => Some(
            SdoResponseHeader {
                header,
                flags: InitSdoFlags::spec_of_byte(b[8]),
                index: spec_u16_of_le(b[9], b[10]),
                sub_index: b[11],
            },
        ),
        None => None,
    }
}

/// Whether a response correlates with the request just sent: its mailbox
/// type is CoE and its counter equals the request's counter.
pub open spec fn spec_correlates(header: MailboxHeader, expected_counter: u8) -> bool {
    header.mailbox_type == MailboxType::Coe && header.counter == expected_counter
}

/// Parse the headers of an SDO initiate response.
pub fn parse_sdo_response_header(buf: &[u8]) -> (r: Result<SdoResponseHeader, Error>)
    ensures
        r is Ok <==> buf@.len() >= 12 && spec_mbox(buf@) is Some,
        r matches Ok(h) ==> Some(h) == spec_init_header(buf@),
        buf@.len() < 12 ==> r == Err::<SdoResponseHeader, Error>(
            Error::Wire(WireError::ReadBufferTooShort),
        ),
        buf@.len() >= 12 && spec_mbox(buf@) is None ==> r == Err::<SdoResponseHeader, Error>(
            Error::Wire(WireError::InvalidDiscriminant),
        ),
{
    if buf.len() < 12 {
        return Err(Error::Wire(WireError::ReadBufferTooShort));
    }
    let header = match MailboxHeader::unpack_from_slice(buf) {
        Ok(header) => header,
        Err(e) => {
            return Err(Error::Wire(e));
        },
    };
    let flags = InitSdoFlags::unpack_byte(*vstd::slice::slice_index_get(buf, 8));
    let index = read_u16_le(buf, 9);
    let sub_index = *vstd::slice::slice_index_get(buf, 11);
    Ok(SdoResponseHeader { header, flags, index, sub_index })
}

/// Validate an initiate response: surface an abort verbatim, then reject
/// any response that does not correlate with the request.
///
/// On an abort the trailing four little-endian data bytes carry the
/// vendor abort code. A response that is not an abort and whose mailbox
/// type is not CoE, or whose counter differs from the request's, fails
/// with [`MailboxError::SdoResponseInvalid`]; nothing of such a response
/// is used.
pub fn check_sdo_response(h: &SdoResponseHeader, buf: &[u8], expected_counter: u8) -> (r:
    Result<(), Error>)
    requires
        buf@.len() >= 16,
    ensures
        h.flags.command == SDO_COMMAND_ABORT ==> r == Err::<(), Error>(
            Error::Mailbox(
                MailboxError::Aborted {
                    code: spec_u32_of_le(buf@[12], buf@[13], buf@[14], buf@[15]),
                    address: h.index,
                    sub_index: h.sub_index,
                },
            ),
        ),
        h.flags.command != SDO_COMMAND_ABORT && !spec_correlates(h.header, expected_counter)
            ==> r == Err::<(), Error>(
            Error::Mailbox(
                MailboxError::SdoResponseInvalid { address: h.index, sub_index: h.sub_index },
            ),
        ),
        h.flags.command != SDO_COMMAND_ABORT && spec_correlates(h.header, expected_counter)
            ==> r == Ok::<(), Error>(()),
{
    if h.flags.command == SDO_COMMAND_ABORT {
        let code = read_u32_le(buf, 12);
        return Err(
            Error::Mailbox(
                MailboxError::Aborted { code, address: h.index, sub_index: h.sub_index },
            ),
        );
    }
    let type_ok = match h.header.mailbox_type {
        MailboxType::Coe => true,
        _ => false,
    };
    if !type_ok || h.header.counter != expected_counter {
        return Err(
            Error::Mailbox(
                MailboxError::SdoResponseInvalid { address: h.index, sub_index: h.sub_index },
            ),
        );
    }
    Ok(())
}

/// State of a segmented upload between segment exchanges.
#[derive(Debug, Clone, PartialEq, Eq)]
pub struct SegmentedUpload {
    /// Object index of the transfer, for error reporting.
    pub index: u16,
    /// Sub-index of the transfer, for error reporting.
    pub sub_index: u8,
    /// Toggle bit for the next segment request; alternates, starting
    /// clear.
    pub toggle: bool,
    /// Data accumulated so far.
    pub collected: Vec<u8>,
    /// Capacity of the caller's destination buffer.
    pub max_len: usize,
}

impl SegmentedUpload {
    /// The accumulated data never exceeds the destination capacity.
    pub open spec fn wf(self) -> bool {
        self.collected@.len() <= self.max_len
    }
}

/// How an upload initiate response delivers its data.
#[derive(Debug, Clone, PartialEq, Eq)]
pub enum UploadOutcome {
    /// The data was carried in the four header data bytes.
    Expedited(Vec<u8>),
    /// The whole payload followed the four-byte total length in this one
    /// response.
    Normal(Vec<u8>),
    /// The payload exceeds this response's capacity: segment requests
    /// must follow, starting with a clear toggle bit.
    Segmented(SegmentedUpload),
}

/// What applying one segment response yields.
#[derive(Debug, Clone, PartialEq, Eq)]
pub enum SegmentStep {
    /// More segments follow: send the next segment request with the
    /// state's toggle bit.
    Continue(SegmentedUpload),
    /// The last segment arrived; the accumulated payload is complete.
    Done(Vec<u8>),
}

/// Expected payload length of an expedited response: four bytes minus the
/// size code.
pub open spec fn spec_expedited_len(flags: InitSdoFlags) -> int {
    4 - (if flags.size > 4 {
        4int
    } else {
        flags.size as int
    })
}

/// Declared payload length of a normal upload response: the mailbox data
/// length minus the CoE and SDO header bytes, floored at zero.
pub open spec fn spec_normal_data_len(mbox_len: u16) -> int {
    if mbox_len >= 0x0a {
        mbox_len - 0x0a
    } else {
        0
    }
}

/// Data bytes carried by one segment response: the mailbox data length
/// minus the fixed three-byte protocol overhead; when that is exactly
/// seven (the minimum frame), the response's unused-byte count is
/// subtracted.
pub open spec fn spec_chunk_len(mbox_len: u16, seg_size: u8) -> int
    recommends
        mbox_len >= 3,
        seg_size < 8,
{
    if mbox_len - 3 == 7 {
        7 - seg_size
    } else {
        mbox_len - 3
    }
}

/// Classify an upload initiate response and extract its data.
///
/// The response is validated first: aborts and uncorrelated responses
/// fail, and nothing is written anywhere. An expedited response carries
/// `4 - size` data bytes in the header area. Otherwise a four-byte total
/// length precedes the payload: if the total fits this response's
/// declared data length the payload is returned whole, and if not the
/// transfer continues segmented. A total length beyond `max_len` fails
/// with [`MailboxError::TooLong`] before any data is touched.
pub fn classify_upload_response(buf: &[u8], expected_counter: u8, max_len: usize) -> (r: Result<
    UploadOutcome,
    Error,
>)
    ensures
        buf@.len() < 16 ==> r == Err::<UploadOutcome, Error>(
            Error::Wire(WireError::ReadBufferTooShort),
        ),
        buf@.len() >= 16 && spec_mbox(buf@) is None ==> r == Err::<UploadOutcome, Error>(
            Error::Wire(WireError::InvalidDiscriminant),
        ),
        buf@.len() >= 16 && spec_mbox(buf@) is Some ==> ({
            let h = spec_init_header(buf@).unwrap();
            let cs = spec_u32_of_le(buf@[12], buf@[13], buf@[14], buf@[15]);
            let dl = spec_normal_data_len(h.header.length);
            &&& h.flags.command == SDO_COMMAND_ABORT ==> r == Err::<UploadOutcome, Error>(
                Error::Mailbox(
                    MailboxError::Aborted { code: cs, address: h.index, sub_index: h.sub_index },
                ),
            )
            &&& h.flags.command != SDO_COMMAND_ABORT && !spec_correlates(
                h.header,
                expected_counter,
            ) ==> r == Err::<UploadOutcome, Error>(
                Error::Mailbox(
                    MailboxError::SdoResponseInvalid {
                        address: h.index,
                        sub_index: h.sub_index,
                    },
                ),
            )
            &&& h.flags.command != SDO_COMMAND_ABORT && spec_correlates(
                h.header,
                expected_counter,
            ) ==> ({
                if h.flags.expedited_transfer {
                    r matches Ok(o) && o matches UploadOutcome::Expedited(d) && d@
                        == buf@.subrange(12, 12 + spec_expedited_len(h.flags))
                } else if cs > max_len {
                    r == Err::<UploadOutcome, Error>(
                        Error::Mailbox(
                            MailboxError::TooLong {
                                address: h.index,
                                sub_index: h.sub_index,
                            },
                        ),
                    )
                } else if cs <= dl {
                    if dl > max_len {
                        r == Err::<UploadOutcome, Error>(Error::BufferTooShort)
                    } else if buf@.len() < 16 + dl {
                        r == Err::<UploadOutcome, Error>(Error::Pdu(PduError::Decode))
                    } else {
                        r matches Ok(o) && o matches UploadOutcome::Normal(d) && d@
                            == buf@.subrange(16, 16 + dl)
                    }
                } else {
                    r matches Ok(o) && o matches UploadOutcome::Segmented(st)
                        && st == (SegmentedUpload {
                        index: h.index,
                        sub_index: h.sub_index,
                        toggle: false,
                        collected: st.collected,
                        max_len,
                    }) && st.collected@.len() == 0
                }
            })
        }),
        r matches Ok(o) ==> (o matches UploadOutcome::Segmented(st) ==> st.wf()),
{
    if buf.len() < 16 {
        return Err(Error::Wire(WireError::ReadBufferTooShort));
    }
    let h = match parse_sdo_response_header(buf) {
        Ok(h) => h,
        Err(e) => {
            return Err(e);
        },
    };
    match check_sdo_response(&h, buf, expected_counter) {
        Ok(()) => (),
        Err(e) => {
            return Err(e);
        },
    }
    if h.flags.expedited_transfer {
        let size = if h.flags.size > 4 {
            4
        } else {
            h.flags.size
        };
        let data_len: usize = (4 - size) as usize;
        let data = copy_range(buf, 12, data_len);
        return Ok(UploadOutcome::Expedited(data));
    }
    let complete_size = read_u32_le(buf, 12);
    let data_length: u16 = if h.header.length >= 0x0a {
        h.header.length - 0x0a
    } else {
        0
    };
    if complete_size as usize > max_len {
        return Err(
            Error::Mailbox(MailboxError::TooLong { address: h.index, sub_index: h.sub_index }),
        );
    }
    if complete_size <= data_length as u32 {
        if data_length as usize > max_len {
            return Err(Error::BufferTooShort);
        }
        if buf.len() < 16 + data_length as usize {
            return Err(Error::Pdu(PduError::Decode));
        }
        let data = copy_range(buf, 16, data_length as usize);
        return Ok(UploadOutcome::Normal(data));
    }
    Ok(
        UploadOutcome::Segmented(
            SegmentedUpload {
                index: h.index,
                sub_index: h.sub_index,
                toggle: false,
                collected: Vec::new(),
                max_len,
            },
        ),
    )
}

/// Apply one segment response to a segmented upload in progress.
///
/// The response is validated like every other response. Its data bytes
/// follow the nine header bytes; their count is the mailbox data length
/// minus three, corrected by the unused-byte count exactly when it is
/// seven. The bytes are appended to the accumulated data; growing past
/// the destination capacity fails with [`Error::BufferTooShort`] and the
/// last-segment flag ends the transfer.
pub fn apply_segment_response(st: SegmentedUpload, buf: &[u8], expected_counter: u8) -> (r:
    Result<SegmentStep, Error>)
    requires
        st.wf(),
    ensures
        buf@.len() < 9 ==> r == Err::<SegmentStep, Error>(
            Error::Wire(WireError::ReadBufferTooShort),
        ),
        buf@.len() >= 9 && spec_mbox(buf@) is None ==> r == Err::<SegmentStep, Error>(
            Error::Wire(WireError::InvalidDiscriminant),
        ),
        buf@.len() >= 9 && spec_mbox(buf@) is Some ==> ({
            let mh = spec_mbox(buf@).unwrap();
            let seg = SegmentSdoHeader::spec_of_byte(buf@[8]);
            &&& seg.command == SDO_COMMAND_ABORT ==> ({
                if buf@.len() >= 13 {
                    r == Err::<SegmentStep, Error>(
                        Error::Mailbox(
                            MailboxError::Aborted {
                                code: spec_u32_of_le(buf@[9], buf@[10], buf@[11], buf@[12]),
                                address: st.index,
                                sub_index: st.sub_index,
                            },
                        ),
                    )
                } else {
                    r == Err::<SegmentStep, Error>(Error::Pdu(PduError::Decode))
                }
            })
            &&& seg.command != SDO_COMMAND_ABORT && !spec_correlates(mh, expected_counter)
                ==> r == Err::<SegmentStep, Error>(
                Error::Mailbox(
                    MailboxError::SdoResponseInvalid {
                        address: st.index,
                        sub_index: st.sub_index,
                    },
                ),
            )
            &&& seg.command != SDO_COMMAND_ABORT && spec_correlates(mh, expected_counter)
                ==> ({
                if mh.length < 3 {
                    r == Err::<SegmentStep, Error>(Error::Pdu(PduError::Decode))
                } else {
                    let chunk = spec_chunk_len(mh.length, seg.segment_data_size);
                    if buf@.len() < 9 + chunk {
                        r == Err::<SegmentStep, Error>(Error::Pdu(PduError::Decode))
                    } else if st.collected@.len() + chunk > st.max_len {
                        r == Err::<SegmentStep, Error>(Error::BufferTooShort)
                    } else {
                        let data = buf@.subrange(9, 9 + chunk);
                        if seg.is_last_segment {
                            r matches Ok(s) && s matches SegmentStep::Done(v) && v@
                                == st.collected@ + data
                        } else {
                            r matches Ok(s) && s matches SegmentStep::Continue(st2)
                                && st2.collected@ == st.collected@ + data && st2.toggle
                                == !st.toggle && st2.max_len == st.max_len && st2.index
                                == st.index && st2.sub_index == st.sub_index && st2.wf()
                        }
                    }
                }
            })
        }),
{
    if buf.len() < 9 {
        return Err(Error::Wire(WireError::ReadBufferTooShort));
    }
    let mh = match MailboxHeader::unpack_from_slice(buf) {
        Ok(mh) => mh,
        Err(_e) => {
            return Err(Error::Wire(WireError::InvalidDiscriminant));
        },
    };
    let seg = SegmentSdoHeader::unpack_byte(*vstd::slice::slice_index_get(buf, 8));
    if seg.command == SDO_COMMAND_ABORT {
        if buf.len() < 13 {
            return Err(Error::Pdu(PduError::Decode));
        }
        let code = read_u32_le(buf, 9);
        return Err(
            Error::Mailbox(
                MailboxError::Aborted { code, address: st.index, sub_index: st.sub_index },
            ),
        );
    }
    let type_ok = match mh.mailbox_type {
        MailboxType::Coe => true,
        _ => false,
    };
    if !type_ok || mh.counter != expected_counter {
        return Err(
            Error::Mailbox(
                MailboxError::SdoResponseInvalid { address: st.index, sub_index: st.sub_index },
            ),
        );
    }
    if mh.length < 3 {
        return Err(Error::Pdu(PduError::Decode));
    }
    let mut chunk_len: u16 = mh.length - 3;
    if chunk_len == 7 {
        chunk_len = 7 - seg.segment_data_size as u16;
    }
    if buf.len() < 9 + chunk_len as usize {
        return Err(Error::Pdu(PduError::Decode));
    }
    if chunk_len as usize > st.max_len - st.collected.len() {
        return Err(Error::BufferTooShort);
    }
    let mut st = st;
    let mut data = copy_range(buf, 9, chunk_len as usize);
    st.collected.append(&mut data);
    if seg.is_last_segment {
        Ok(SegmentStep::Done(st.collected))
    } else {
        st.toggle = !st.toggle;
        Ok(SegmentStep::Continue(st))
    }
}

/// Build an expedited SDO download request, the only supported download
/// form: a value longer than four bytes is rejected before any I/O.
pub fn sdo_write_request(counter: u8, index: u16, sub_index: crate::coe::SubIndex, value: &Vec<
    u8,
>) -> (r: Result<Vec<u8>, Error>)
    ensures
        value@.len() > 4 ==> r == Err::<Vec<u8>, Error>(Error::NotSupported),
        value@.len() <= 4 ==> (r matches Ok(req) && req@ == crate::coe::spec_sdo_request_bytes(
            counter,
            InitSdoFlags {
                size_indicator: true,
                expedited_transfer: true,
                size: (4 - value@.len()) as u8,
                complete_access: sub_index.spec_complete(),
                command: crate::coe::SDO_COMMAND_DOWNLOAD,
            },
            index,
            sub_index.spec_sub_index(),
            value@ + Seq::new((4 - value@.len()) as nat, |j: int| 0u8),
        )),
{
    if value.len() > 4 {
        return Err(Error::NotSupported);
    }
    let len: u8 = value.len() as u8;
    let mut data: Vec<u8> = Vec::new();
    let mut k: usize = 0;
    while k < value.len()
        invariant
            k <= value@.len() <= 4,
            data@ == value@.take(k as int),
        decreases value@.len() - k,
    {
        let b = value[k];
        data.push(b);
        proof {
            assert(value@.take(k as int + 1) =~= value@.take(k as int) + seq![value@[k as int]]);
        }
        k += 1;
    }
    while data.len() < 4
        invariant
            value@.len() <= 4,
            value@.len() <= data@.len() <= 4,
            data@ == value@ + Seq::new((data@.len() - value@.len()) as nat, |j: int| 0u8),
        decreases 4 - data@.len(),
    {
        data.push(0u8);
        proof {
            assert(value@ + Seq::new((data@.len() - value@.len()) as nat, |j: int| 0u8)
                =~= (value@ + Seq::new((data@.len() - 1 - value@.len()) as nat, |j: int| 0u8))
                + seq![0u8]);
        }
    }
    proof {
        assert(value@.take(value@.len() as int) =~= value@);
        assert(value@ + Seq::new(0nat, |j: int| 0u8) =~= value@);
    }
    Ok(crate::coe::download(counter, index, sub_index, &data, len))
}

/// Validate the response to an expedited download. The reply carries no
/// data of interest; only its correlation with the request matters.
pub fn check_sdo_write_response(buf: &[u8], expected_counter: u8) -> (r: Result<(), Error>)
    ensures
        buf@.len() < 16 ==> r == Err::<(), Error>(Error::Wire(WireError::ReadBufferTooShort)),
        buf@.len() >= 16 && spec_mbox(buf@) is None ==> r == Err::<(), Error>(
            Error::Wire(WireError::InvalidDiscriminant),
        ),
        buf@.len() >= 16 && spec_mbox(buf@) is Some ==> ({
            let h = spec_init_header(buf@).unwrap();
            &&& h.flags.command == SDO_COMMAND_ABORT ==> r == Err::<(), Error>(
                Error::Mailbox(
                    MailboxError::Aborted {
                        code: spec_u32_of_le(buf@[12], buf@[13], buf@[14], buf@[15]),
                        address: h.index,
                        sub_index: h.sub_index,
                    },
                ),
            )
            &&& h.flags.command != SDO_COMMAND_ABORT && !spec_correlates(
                h.header,
                expected_counter,
            ) ==> r == Err::<(), Error>(
                Error::Mailbox(
                    MailboxError::SdoResponseInvalid {
                        address: h.index,
                        sub_index: h.sub_index,
                    },
                ),
            )
            &&& h.flags.command != SDO_COMMAND_ABORT && spec_correlates(
                h.header,
                expected_counter,
            ) ==> r == Ok::<(), Error>(())
        }),
{
    if buf.len() < 16 {
        return Err(Error::Wire(WireError::ReadBufferTooShort));
    }
    let h = match parse_sdo_response_header(buf) {
        Ok(h) => h,
        Err(e) => {
            return Err(e);
        },
    };
    check_sdo_response(&h, buf, expected_counter)
}

/// Decode the assembled upload payload as a fixed-size wire value; a
/// payload that is too short or holds an undeclared discriminant fails as
/// a PDU decode error.
pub fn sdo_read_decode<T: EtherCatWire>(data: &[u8]) -> (r: Result<T, Error>)
    ensures
        r is Ok <==> data@.len() >= T::spec_packed_len() && T::spec_unpack(
            data@.take(T::spec_packed_len() as int),
        ) is Some,
        r matches Ok(v) ==> T::spec_unpack(data@.take(T::spec_packed_len() as int)) == Some(v),
        r is Err ==> r == Err::<T, Error>(Error::Pdu(PduError::Decode)),
{
    match T::unpack_from_slice(data) {
        Ok(v) => Ok(v),
        Err(_e) => Err(Error::Pdu(PduError::Decode)),
    }
}

} // verus!
