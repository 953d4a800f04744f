//! CAN-over-EtherCAT (CoE) headers and SDO service requests.
//!
//! A CoE frame inside a mailbox starts with a two-byte CoE header (a
//! nine-bit number, unused here, and a four-bit service code), followed by
//! an SDO header: a command/flag byte, then for initiate services a 16-bit
//! object index and an 8-bit sub-index.

use vstd::prelude::*;

use crate::codec::EtherCatWire;
use crate::codec::EtherCatWireSized;
use crate::mailbox::MailboxHeader;
use crate::mailbox::MailboxType;

verus! {

/// SDO command code of a download initiate request.
pub const SDO_COMMAND_DOWNLOAD: u8 = 1;

/// SDO command code of an upload initiate request.
pub const SDO_COMMAND_UPLOAD: u8 = 2;

/// SDO command code of an upload segment request.
pub const SDO_COMMAND_SEGMENT_UPLOAD: u8 = 3;

/// SDO command code of an abort.
pub const SDO_COMMAND_ABORT: u8 = 4;

/// Data length of every CoE SDO request frame: the two CoE header bytes
/// plus the four SDO header bytes plus four data bytes.
pub const COE_SDO_DATA_LENGTH: u16 = 0x0a;

/// Service code carried in a CoE header.
#[derive(Debug, Clone, Copy, PartialEq, Eq, Structural)]
pub enum CoeService {
    /// Emergency message.
    Emergency,
    /// SDO request.
    SdoRequest,
    /// SDO response.
    SdoResponse,
    /// Transmit PDO.
    TxPdo,
    /// Receive PDO.
    RxPdo,
    /// Transmit PDO remote request.
    TxPdoRemoteRequest,
    /// Receive PDO remote request.
    RxPdoRemoteRequest,
    /// SDO information service.
    SdoInfo,
}

impl CoeService {
    /// The four-bit code of a service.
    pub open spec fn spec_raw(self) -> u8 {
        match self {
            CoeService::Emergency => 0x01,
            CoeService::SdoRequest => 0x02,
            CoeService::SdoResponse => 0x03,
            CoeService::TxPdo => 0x04,
            CoeService::RxPdo => 0x05,
            CoeService::TxPdoRemoteRequest => 0x06,
            CoeService::RxPdoRemoteRequest => 0x07,
            CoeService::SdoInfo => 0x08,
        }
    }

    /// The service declared for a four-bit code, if any.
    pub open spec fn spec_of_raw(raw: u8) -> Option<CoeService> {
        if raw == 0x01 {
            Some(CoeService::Emergency)
        } else if raw == 0x02 {
            Some(CoeService::SdoRequest)
        } else if raw == 0x03 {
            Some(CoeService::SdoResponse)
        } else if raw == 0x04 {
            Some(CoeService::TxPdo)
        } else if raw == 0x05 {
            Some(CoeService::RxPdo)
        } else if raw == 0x06 {
            Some(CoeService::TxPdoRemoteRequest)
        } else if raw == 0x07 {
            Some(CoeService::RxPdoRemoteRequest)
        } else if raw == 0x08 {
            Some(CoeService::SdoInfo)
        } else {
            None
        }
    }

    /// Encode a service code.
    pub fn to_raw(self) -> (r: u8)
        ensures
            r == self.spec_raw(),
            r < 16,
    {
        match self {
            CoeService::Emergency => 0x01,
            CoeService::SdoRequest => 0x02,
            CoeService::SdoResponse => 0x03,
            CoeService::TxPdo => 0x04,
            CoeService::RxPdo => 0x05,
            CoeService::TxPdoRemoteRequest => 0x06,
            CoeService::RxPdoRemoteRequest => 0x07,
            CoeService::SdoInfo => 0x08,
        }
    }

    /// Decode a service code.
    pub fn from_raw(raw: u8) -> (r: Option<CoeService>)
        ensures
            r == CoeService::spec_of_raw(raw),
    {
        if raw == 0x01 {
            Some(CoeService::Emergency)
        } else if raw == 0x02 {
            Some(CoeService::SdoRequest)
        } else if raw == 0x03 {
            Some(CoeService::SdoResponse)
        } else if raw == 0x04 {
            Some(CoeService::TxPdo)
        } else if raw == 0x05 {
            Some(CoeService::RxPdo)
        } else if raw == 0x06 {
            Some(CoeService::TxPdoRemoteRequest)
        } else if raw == 0x07 {
            Some(CoeService::RxPdoRemoteRequest)
        } else if raw == 0x08 {
            Some(CoeService::SdoInfo)
        } else {
            None
        }
    }
}

/// The two CoE header bytes for a service, with the number field zero: the
/// service code sits in bits 4..8 of the second byte.
pub open spec fn spec_coe_header_bytes(service: CoeService) -> Seq<u8> {
    seq![0u8, (service.spec_raw() << 4) as u8]
}

/// Addressing of one sub-object, or of a whole object via complete access.
#[derive(Debug, Clone, Copy, PartialEq, Eq, Structural)]
pub enum SubIndex {
    /// One sub-object.
    Index(u8),
    /// The whole object, starting at sub-index 0.
    Complete,
}

impl SubIndex {
    /// The sub-index byte sent on the wire.
    pub open spec fn spec_sub_index(self) -> u8 {
        match self {
            SubIndex::Index(idx) => idx,
            SubIndex::Complete => 0,
        }
    }

    /// Whether the complete-access flag is set.
    pub open spec fn spec_complete(self) -> bool {
        self is Complete
    }

    /// The sub-index byte sent on the wire.
    pub fn sub_index(self) -> (r: u8)
        ensures
            r == self.spec_sub_index(),
    {
        match self {
            SubIndex::Index(idx) => idx,
            SubIndex::Complete => 0,
        }
    }

    /// Whether the complete-access flag is set.
    pub fn complete(self) -> (r: bool)
        ensures
            r == self.spec_complete(),
    {
        match self {
            SubIndex::Index(_) => false,
            SubIndex::Complete => true,
        }
    }
}

/// The command/flag byte of an SDO initiate service: size indicator in
/// bit 0, expedited flag in bit 1, size code in bits 2..4, complete-access
/// flag in bit 4, command code in bits 5..8.
#[derive(Debug, Clone, Copy, PartialEq, Eq, Structural)]
pub struct InitSdoFlags {
    /// Whether the size code is meaningful.
    pub size_indicator: bool,
    /// Whether the data is carried inside the header area itself.
    pub expedited_transfer: bool,
    /// Number of data bytes of the four that hold no data.
    pub size: u8,
    /// Whether the whole object is addressed.
    pub complete_access: bool,
    /// Command code.
    pub command: u8,
}

impl InitSdoFlags {
    /// The packed flag byte.
    pub open spec fn spec_byte(self) -> u8 {
        (if self.size_indicator {
            0x01u8
        } else {
            0u8
        }) | (if self.expedited_transfer {
            0x02u8
        } else {
            0u8
        }) | (((self.size & 0x03) << 2) as u8) | (if self.complete_access {
            0x10u8
        } else {
            0u8
        }) | (((self.command & 0x07) << 5) as u8)
    }

    /// The flags decoded from a flag byte.
    pub open spec fn spec_of_byte(b: u8) -> InitSdoFlags {
        InitSdoFlags {
            size_indicator: b & 0x01 == 0x01,
            expedited_transfer: (b >> 1) & 1 == 1,
            size: (b >> 2) & 0x03,
            complete_access: (b >> 4) & 1 == 1,
            command: (b >> 5) & 0x07,
        }
    }

    /// Pack the flag byte.
    pub fn pack_byte(self) -> (r: u8)
        ensures
            r == self.spec_byte(),
    {
        (if self.size_indicator {
            0x01u8
        } else {
            0u8
        }) | (if self.expedited_transfer {
            0x02u8
        } else {
            0u8
        }) | ((self.size & 0x03) << 2) | (if self.complete_access {
            0x10u8
        } else {
            0u8
        }) | ((self.command & 0x07) << 5)
    }

    /// Decode a flag byte.
    pub fn unpack_byte(b: u8) -> (r: InitSdoFlags)
        ensures
            r == InitSdoFlags::spec_of_byte(b),
            r.size < 4,
            r.command < 8,
    {
        proof {
            assert((b >> 2) & 0x03 < 4 && (b >> 5) & 0x07 < 8) by (bit_vector);
        }
        InitSdoFlags {
            size_indicator: b & 0x01 == 0x01,
            expedited_transfer: (b >> 1) & 1 == 1,
            size: (b >> 2) & 0x03,
            complete_access: (b >> 4) & 1 == 1,
            command: (b >> 5) & 0x07,
        }
    }

    /// Decoding a packed flag byte yields the value back, for in-range
    /// size and command codes.
    pub proof fn lemma_byte_round_trip(self)
        requires
            self.size < 4,
            self.command < 8,
        ensures
            InitSdoFlags::spec_of_byte(self.spec_byte()) == self,
    {
        let si: u8 = if self.size_indicator {
            1
        } else {
            0
        };
        let e: u8 = if self.expedited_transfer {
            1
        } else {
            0
        };
        let s = self.size;
        let ca: u8 = if self.complete_access {
            1
        } else {
            0
        };
        let cmd = self.command;
        let b = self.spec_byte();
        assert((b & 0x01 == 0x01 <==> si == 1) && ((b >> 1) & 1 == 1 <==> e == 1) && (b >> 2)
            & 0x03 == s && ((b >> 4) & 1 == 1 <==> ca == 1) && (b >> 5) & 0x07 == cmd)
            by (bit_vector)
            requires
                si <= 1,
                e <= 1,
                ca <= 1,
                s < 4,
                cmd < 8,
                b == (if si == 1 { 0x01u8 } else { 0u8 }) | (if e == 1 { 0x02u8 } else { 0u8 })
                    | (((s & 0x03) << 2) as u8) | (if ca == 1 { 0x10u8 } else { 0u8 }) | (((cmd
                    & 0x07) << 5) as u8),
        ;
    }
}

/// The command byte of an upload segment service: last-segment flag in
/// bit 0, unused-byte count in bits 1..4, toggle in bit 4, command code in
/// bits 5..8.
#[derive(Debug, Clone, Copy, PartialEq, Eq, Structural)]
pub struct SegmentSdoHeader {
    /// Whether this is the last segment of the transfer.
    pub is_last_segment: bool,
    /// For minimum-sized responses, the number of trailing bytes of the
    /// segment area that hold no data.
    pub segment_data_size: u8,
    /// Toggle bit, alternating between consecutive segment exchanges and
    /// starting clear.
    pub toggle: bool,
    /// Command code.
    pub command: u8,
}

impl SegmentSdoHeader {
    /// The packed segment command byte.
    pub open spec fn spec_byte(self) -> u8 {
        (if self.is_last_segment {
            0x01u8
        } else {
            0u8
        }) | (((self.segment_data_size & 0x07) << 1) as u8) | (if self.toggle {
            0x10u8
        } else {
            0u8
        }) | (((self.command & 0x07) << 5) as u8)
    }

    /// The header decoded from a segment command byte.
    pub open spec fn spec_of_byte(b: u8) -> SegmentSdoHeader {
        SegmentSdoHeader {
            is_last_segment: b & 0x01 == 0x01,
            segment_data_size: (b >> 1) & 0x07,
            toggle: (b >> 4) & 1 == 1,
            command: (b >> 5) & 0x07,
        }
    }

    /// Pack the segment command byte.
    pub fn pack_byte(self) -> (r: u8)
        ensures
            r == self.spec_byte(),
    {
        (if self.is_last_segment {
            0x01u8
        } else {
            0u8
        }) | ((self.segment_data_size & 0x07) << 1) | (if self.toggle {
            0x10u8
        } else {
            0u8
        }) | ((self.command & 0x07) << 5)
    }

    /// Decode a segment command byte.
    pub fn unpack_byte(b: u8) -> (r: SegmentSdoHeader)
        ensures
            r == SegmentSdoHeader::spec_of_byte(b),
            r.segment_data_size < 8,
            r.command < 8,
    {
        proof {
            assert((b >> 1) & 0x07 < 8 && (b >> 5) & 0x07 < 8) by (bit_vector);
        }
        SegmentSdoHeader {
            is_last_segment: b & 0x01 == 0x01,
            segment_data_size: (b >> 1) & 0x07,
            toggle: (b >> 4) & 1 == 1,
            command: (b >> 5) & 0x07,
        }
    }

    /// Decoding a packed segment command byte yields the value back, for
    /// in-range size and command codes.
    pub proof fn lemma_byte_round_trip(self)
        requires
            self.segment_data_size < 8,
            self.command < 8,
        ensures
            SegmentSdoHeader::spec_of_byte(self.spec_byte()) == self,
    {
        let l: u8 = if self.is_last_segment {
            1
        } else {
            0
        };
        let s = self.segment_data_size;
        let t: u8 = if self.toggle {
            1
        } else {
            0
        };
        let cmd = self.command;
        let b = self.spec_byte();
        assert((b & 0x01 == 0x01 <==> l == 1) && (b >> 1) & 0x07 == s && ((b >> 4) & 1 == 1
            <==> t == 1) && (b >> 5) & 0x07 == cmd) by (bit_vector)
            requires
                l <= 1,
                t <= 1,
                s < 8,
                cmd < 8,
                b == (if l == 1 { 0x01u8 } else { 0u8 }) | (((s & 0x07) << 1) as u8) | (if t
                    == 1 { 0x10u8 } else { 0u8 }) | (((cmd & 0x07) << 5) as u8),
        ;
    }
}

/// The bytes of a full SDO request frame: mailbox header, CoE header, the
/// SDO command byte, the object index and sub-index, then four data bytes.
pub open spec fn spec_sdo_request_bytes(
    counter: u8,
    flags: InitSdoFlags,
    index: u16,
    sub_index: u8,
    data: Seq<u8>,
) -> Seq<u8> {
    (MailboxHeader {
        length: COE_SDO_DATA_LENGTH,
        address: 0,
        priority: 0,
        mailbox_type: MailboxType::Coe,
        counter,
    }).wire_bytes() + spec_coe_header_bytes(CoeService::SdoRequest) + seq![flags.spec_byte()]
        + crate::wire::spec_u16_le(index) + seq![sub_index] + data
}

/// Build a full SDO initiate request frame.
pub fn sdo_request_frame(
    counter: u8,
    flags: InitSdoFlags,
    index: u16,
    sub_index: u8,
    data: &Vec<u8>,
) -> (r: Vec<u8>)
    requires
        data@.len() == 4,
    ensures
        r@ == spec_sdo_request_bytes(counter, flags, index, sub_index, data@),
        r@.len() == 16,
{
    let header = MailboxHeader {
        length: COE_SDO_DATA_LENGTH,
        address: 0,
        priority: 0,
        mailbox_type: MailboxType::Coe,
        counter,
    };
    let mut out = header.pack();
    out.push(0u8);
    out.push(CoeService::SdoRequest.to_raw() << 4);
    out.push(flags.pack_byte());
    crate::wire::push_u16_le(&mut out, index);
    out.push(sub_index);
    out.push(data[0]);
    out.push(data[1]);
    out.push(data[2]);
    out.push(data[3]);
    proof {
        assert(data@ =~= seq![data@[0], data@[1], data@[2], data@[3]]);
        assert(out@ =~= spec_sdo_request_bytes(counter, flags, index, sub_index, data@));
    }
    out
}

/// The bytes of an upload segment request frame: mailbox header, CoE
/// header, the segment command byte, then seven padding bytes.
pub open spec fn spec_segment_request_bytes(counter: u8, seg: SegmentSdoHeader) -> Seq<u8> {
    (MailboxHeader {
        length: COE_SDO_DATA_LENGTH,
        address: 0,
        priority: 0,
        mailbox_type: MailboxType::Coe,
        counter,
    }).wire_bytes() + spec_coe_header_bytes(CoeService::SdoRequest) + seq![seg.spec_byte()]
        + seq![0u8, 0u8, 0u8, 0u8, 0u8, 0u8, 0u8]
}

/// Build a full upload segment request frame.
pub fn segment_request_frame(counter: u8, seg: SegmentSdoHeader) -> (r: Vec<u8>)
    ensures
        r@ == spec_segment_request_bytes(counter, seg),
        r@.len() == 16,
{
    let header = MailboxHeader {
        length: COE_SDO_DATA_LENGTH,
        address: 0,
        priority: 0,
        mailbox_type: MailboxType::Coe,
        counter,
    };
    let mut out = header.pack();
    out.push(0u8);
    out.push(CoeService::SdoRequest.to_raw() << 4);
    out.push(seg.pack_byte());
    let mut k: usize = 0;
    while k < 7
        invariant
            k <= 7,
            out@ == header.wire_bytes() + spec_coe_header_bytes(CoeService::SdoRequest)
                + seq![seg.spec_byte()] + Seq::new(k as nat, |j: int| 0u8),
        decreases 7 - k,
    {
        out.push(0u8);
        proof {
            assert(Seq::new(k as nat + 1, |j: int| 0u8) =~= Seq::new(k as nat, |j: int| 0u8)
                + seq![0u8]);
        }
        k += 1;
    }
    proof {
        assert(Seq::new(7nat, |j: int| 0u8) =~= seq![0u8, 0u8, 0u8, 0u8, 0u8, 0u8, 0u8]);
        assert(out@ =~= spec_segment_request_bytes(counter, seg));
    }
    out
}

/// Build an expedited download request: the value's bytes are carried in
/// the four data bytes of the header area, and the size code records how
/// many of them are unused.
pub fn download(counter: u8, index: u16, sub_index: SubIndex, data: &Vec<u8>, len: u8) -> (r:
    Vec<u8>)
    requires
        data@.len() == 4,
        len <= 4,
    ensures
        r@ == spec_sdo_request_bytes(
            counter,
            InitSdoFlags {
                size_indicator: true,
                expedited_transfer: true,
                size: (4 - len) as u8,
                complete_access: sub_index.spec_complete(),
                command: SDO_COMMAND_DOWNLOAD,
            },
            index,
            sub_index.spec_sub_index(),
            data@,
        ),
{
    let flags = InitSdoFlags {
        size_indicator: true,
        expedited_transfer: true,
        size: 4 - len,
        complete_access: sub_index.complete(),
        command: SDO_COMMAND_DOWNLOAD,
    };
    sdo_request_frame(counter, flags, index, sub_index.sub_index(), data)
}

/// Build an upload request for the object at `index` and `sub_index`.
pub fn upload(counter: u8, index: u16, sub_index: SubIndex) -> (r: Vec<u8>)
    ensures
        r@ == spec_sdo_request_bytes(
            counter,
            InitSdoFlags {
                size_indicator: false,
                expedited_transfer: false,
                size: 0,
                complete_access: sub_index.spec_complete(),
                command: SDO_COMMAND_UPLOAD,
            },
            index,
            sub_index.spec_sub_index(),
            seq![0u8, 0u8, 0u8, 0u8],
        ),
{
    let flags = InitSdoFlags {
        size_indicator: false,
        expedited_transfer: false,
        size: 0,
        complete_access: sub_index.complete(),
        command: SDO_COMMAND_UPLOAD,
    };
    let data = crate::codec::zero_buffer(4);
    proof {
        assert(data@ =~= seq![0u8, 0u8, 0u8, 0u8]);
    }
    sdo_request_frame(counter, flags, index, sub_index.sub_index(), &data)
}

/// Build an upload segment request with the given toggle bit.
pub fn upload_segmented(counter: u8, toggle: bool) -> (r: Vec<u8>)
    ensures
        r@ == spec_segment_request_bytes(
            counter,
            SegmentSdoHeader {
                is_last_segment: false,
                segment_data_size: 0,
                toggle,
                command: SDO_COMMAND_SEGMENT_UPLOAD,
            },
        ),
{
    let seg = SegmentSdoHeader {
        is_last_segment: false,
        segment_data_size: 0,
        toggle,
        command: SDO_COMMAND_SEGMENT_UPLOAD,
    };
    segment_request_frame(counter, seg)
}

} // verus!
