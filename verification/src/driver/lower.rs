//! The lower transport layer on the way in: reading the transport PDU of a
//! network PDU as a segment or an unsegmented message, and deciding which
//! segments the node reassembles.

use vstd::prelude::*;
use crate::address::{is_unicast, lemma_be16_split, spec_address_of, u16_be_bytes, Address};
use crate::driver::block_ack::BlockAck;
use crate::driver::inbound::{
    ingest_fits, instant_ok, kind_of, meta_view_of, reaches_ingest, reassembled, spec_process, upper_meta,
    InboundSegmentation, SegmentOutcome,
};
use crate::driver::outbound::{access_header, segment_header, OutboundSegmentation};
use crate::driver::pdu::{
    control_opcode_code, CleartextNetworkPDU, ControlOpcode, Ctl, LowerMetadata, SegmentedLowerAccessPDU,
    SegmentedLowerControlPDU, SegmentedLowerPDU, SzMic, UpperAccessPDU, UpperControlPDU, UpperMetadata, UpperPDU,
};
use crate::driver::tables::{subscriptions_to, Subscriptions};
use crate::models::configuration::model_subscription::subscription_address_from;
use crate::driver::watchdog::Watchdog;
use crate::error::{DriverError, ParseError};

verus! {

/// An unsegmented access message: its key identifier, if any, and its upper
/// transport PDU.
#[derive(Clone, Debug)]
pub struct UnsegmentedLowerAccessPDU {
    pub aid: Option<u8>,
    pub upper_pdu: Vec<u8>,
    pub meta: LowerMetadata,
}

/// An unsegmented control message.
#[derive(Clone, Debug)]
pub struct UnsegmentedLowerControlPDU {
    pub opcode: ControlOpcode,
    pub parameters: Vec<u8>,
    pub meta: LowerMetadata,
}

/// An unsegmented access or control message.
#[derive(Clone, Debug)]
pub enum UnsegmentedLowerPDU {
    Access(UnsegmentedLowerAccessPDU),
    Control(UnsegmentedLowerControlPDU),
}

/// A lower transport PDU.
#[derive(Clone, Debug)]
pub enum LowerPDU {
    Unsegmented(UnsegmentedLowerPDU),
    Segmented(SegmentedLowerPDU),
}

/// The control opcode of a seven-bit code.
pub open spec fn spec_control_opcode(code: u8) -> Option<ControlOpcode> {
    if code == 0x00 {
        Some(ControlOpcode::SegmentAcknowledgement)
    } else if code == 0x01 {
        Some(ControlOpcode::FriendPoll)
    } else if code == 0x02 {
        Some(ControlOpcode::FriendUpdate)
    } else if code == 0x03 {
        Some(ControlOpcode::FriendRequest)
    } else if code == 0x04 {
        Some(ControlOpcode::FriendOffer)
    } else if code == 0x05 {
        Some(ControlOpcode::FriendClear)
    } else if code == 0x06 {
        Some(ControlOpcode::FriendClearConfirm)
    } else if code == 0x07 {
        Some(ControlOpcode::FriendSubscriptionListAdd)
    } else if code == 0x08 {
        Some(ControlOpcode::FriendSubscriptionListRemove)
    } else if code == 0x09 {
        Some(ControlOpcode::FriendSubscriptionListConfirm)
    } else if code == 0x0a {
        Some(ControlOpcode::Heartbeat)
    } else {
        None
    }
}

/// Reads a seven-bit control opcode code.
pub fn control_opcode(code: u8) -> (r: Option<ControlOpcode>)
    ensures
        r == spec_control_opcode(code),
{
    if code == 0x00 {
        Some(ControlOpcode::SegmentAcknowledgement)
    } else if code == 0x01 {
        Some(ControlOpcode::FriendPoll)
    } else if code == 0x02 {
        Some(ControlOpcode::FriendUpdate)
    } else if code == 0x03 {
        Some(ControlOpcode::FriendRequest)
    } else if code == 0x04 {
        Some(ControlOpcode::FriendOffer)
    } else if code == 0x05 {
        Some(ControlOpcode::FriendClear)
    } else if code == 0x06 {
        Some(ControlOpcode::FriendClearConfirm)
    } else if code == 0x07 {
        Some(ControlOpcode::FriendSubscriptionListAdd)
    } else if code == 0x08 {
        Some(ControlOpcode::FriendSubscriptionListRemove)
    } else if code == 0x09 {
        Some(ControlOpcode::FriendSubscriptionListConfirm)
    } else if code == 0x0a {
        Some(ControlOpcode::Heartbeat)
    } else {
        None
    }
}

/// Every control opcode reads back from its code.
pub proof fn lemma_control_opcode_roundtrip(o: ControlOpcode)
    ensures
        spec_control_opcode(control_opcode_code(o)) == Some(o),
{
}

/// The 24 bits after the first byte of a segment.
pub open spec fn segment_bits(b1: u8, b2: u8, b3: u8) -> int {
    b1 as int * 65536 + b2 as int * 256 + b3 as int
}

/// The metadata of the lower transport layer for a network PDU received in
/// IV index `iv_index`.
pub open spec fn spec_lower_meta(pdu: CleartextNetworkPDU, iv_index: u32) -> LowerMetadata {
    LowerMetadata { iv_index, nid: pdu.nid, src: pdu.src, dst: pdu.dst, seq: pdu.seq, ttl: pdu.ttl }
}

impl LowerMetadata {
    /// The metadata of a network PDU received in IV index `iv_index`.
    pub fn from_network_pdu(pdu: &CleartextNetworkPDU, iv_index: u32) -> (r: LowerMetadata)
        ensures
            r == spec_lower_meta(*pdu, iv_index),
    {
        LowerMetadata { iv_index, nid: pdu.nid, src: pdu.src, dst: pdu.dst, seq: pdu.seq, ttl: pdu.ttl }
    }

    /// The source address.
    pub fn src(&self) -> (r: u16)
        ensures
            r == self.src,
    {
        self.src
    }

    /// The destination address.
    pub fn dst(&self) -> (r: u16)
        ensures
            r == self.dst,
    {
        self.dst
    }

    /// The sequence number.
    pub fn seq(&self) -> (r: u32)
        ensures
            r == self.seq,
    {
        self.seq
    }

    /// The time to live.
    pub fn ttl(&self) -> (r: u8)
        ensures
            r == self.ttl,
    {
        self.ttl
    }

    /// The IV index.
    pub fn iv_index(&self) -> (r: u32)
        ensures
            r == self.iv_index,
    {
        self.iv_index
    }
}

/// The application key identifier in the first byte of an access message, if
/// its application key flag is set.
pub open spec fn aid_of_header(b0: u8) -> Option<u8> {
    if b0 % 0x80 >= 0x40 {
        Some((b0 % 0x40) as u8)
    } else {
        None
    }
}

/// The `SeqZero` in the header bits of a segment.
pub open spec fn seq_zero_of_bits(v: int) -> u16 {
    ((v / 1024) % 8192) as u16
}

/// The segment offset in the header bits of a segment.
pub open spec fn seg_o_of_bits(v: int) -> u8 {
    ((v / 32) % 32) as u8
}

/// The last segment offset in the header bits of a segment.
pub open spec fn seg_n_of_bits(v: int) -> u8 {
    (v % 32) as u8
}

/// The MIC size in the header bits of an access segment.
pub open spec fn szmic_of_bits(v: int) -> SzMic {
    if v >= 0x800000 {
        SzMic::Bit64
    } else {
        SzMic::Bit32
    }
}

/// Whether `r` is what reading the transport PDU `d` of a network PDU gives.
/// Its first byte holds the segmentation bit, then for an access message the
/// application key flag and identifier, for a control message the opcode. An
/// unsegmented message carries the rest; a segment carries three more header
/// bytes (the MIC size or a reserved bit, thirteen bits of `SeqZero`, five
/// bits each of the segment offset and the last segment offset) and at least
/// one byte.
pub open spec fn parsed_as(d: Seq<u8>, ctl: Ctl, meta: LowerMetadata, r: Result<LowerPDU, ParseError>) -> bool {
    if d.len() == 0 {
        r == Err::<LowerPDU, ParseError>(ParseError::InvalidLength)
    } else if d[0] < 0x80 {
        match ctl {
            Ctl::Access => r matches Ok(LowerPDU::Unsegmented(UnsegmentedLowerPDU::Access(x))) && x.aid == aid_of_header(d[0])
                && x.upper_pdu@ == d.skip(1) && x.meta == meta,
            Ctl::Control => match spec_control_opcode(d[0]) {
                Some(opcode) => r matches Ok(LowerPDU::Unsegmented(UnsegmentedLowerPDU::Control(x))) && x.opcode == opcode
                    && x.parameters@ == d.skip(1) && x.meta == meta,
                None => r == Err::<LowerPDU, ParseError>(ParseError::InvalidValue),
            },
        }
    } else if d.len() < 5 {
        r == Err::<LowerPDU, ParseError>(ParseError::InvalidLength)
    } else {
        let v = segment_bits(d[1], d[2], d[3]);
        match ctl {
            Ctl::Access => r matches Ok(LowerPDU::Segmented(SegmentedLowerPDU::Access(x))) && x.aid == aid_of_header(d[0])
                && x.szmic == szmic_of_bits(v) && x.seq_zero == seq_zero_of_bits(v) && x.seg_o == seg_o_of_bits(v)
                && x.seg_n == seg_n_of_bits(v) && x.segment_m@ == d.skip(4) && x.meta == meta,
            Ctl::Control => match spec_control_opcode((d[0] % 0x80) as u8) {
                Some(opcode) => r matches Ok(LowerPDU::Segmented(SegmentedLowerPDU::Control(x))) && x.opcode == opcode
                    && x.seq_zero == seq_zero_of_bits(v) && x.seg_o == seg_o_of_bits(v) && x.seg_n == seg_n_of_bits(v)
                    && x.segment_m@ == d.skip(4) && x.meta == meta,
                None => r == Err::<LowerPDU, ParseError>(ParseError::InvalidValue),
            },
        }
    }
}

/// The bytes of `data` from `from` on.
fn tail(data: &Vec<u8>, from: usize) -> (r: Vec<u8>)
    requires
        from <= data@.len(),
    ensures
        r@ == data@.skip(from as int),
{
    let mut r: Vec<u8> = Vec::new();
    let mut i: usize = from;
    while i < data.len()
        invariant
            from <= i <= data@.len(),
            r@ == data@.subrange(from as int, i as int),
        decreases data@.len() - i,
    {
        r.push(data[i]);
        i = i + 1;
        assert(r@ =~= data@.subrange(from as int, i as int));
    }
    assert(r@ =~= data@.skip(from as int));
    r
}

impl LowerPDU {
    /// Reads the transport PDU of a network PDU received in IV index
    /// `iv_index`.
    pub fn parse(pdu: &CleartextNetworkPDU, iv_index: u32) -> (r: Result<LowerPDU, ParseError>)
        ensures
            parsed_as(pdu.transport_pdu@, pdu.ctl, spec_lower_meta(*pdu, iv_index), r),
    {
        let d = &pdu.transport_pdu;
        let meta = LowerMetadata::from_network_pdu(pdu, iv_index);
        if d.len() == 0 {
            return Err(ParseError::InvalidLength);
        }
        let seg = d[0] >= 0x80;
        let low = d[0] % 0x80;
        let aid = if low >= 0x40 { Some(low % 0x40) } else { None };
        if !seg {
            let rest = tail(d, 1);
            match pdu.ctl {
                Ctl::Access => Ok(LowerPDU::Unsegmented(UnsegmentedLowerPDU::Access(UnsegmentedLowerAccessPDU { aid, upper_pdu: rest, meta }))),
                Ctl::Control => match control_opcode(low) {
                    Some(opcode) => Ok(LowerPDU::Unsegmented(UnsegmentedLowerPDU::Control(UnsegmentedLowerControlPDU {
                        opcode,
                        parameters: rest,
                        meta,
                    }))),
                    None => Err(ParseError::InvalidValue),
                },
            }
        } else {
            if d.len() < 5 {
                return Err(ParseError::InvalidLength);
            }
            let v: u32 = (d[1] as u32) * 65536 + (d[2] as u32) * 256 + d[3] as u32;
            let seq_zero = ((v / 1024) % 8192) as u16;
            let seg_o = ((v / 32) % 32) as u8;
            let seg_n = (v % 32) as u8;
            let segment_m = tail(d, 4);
            match pdu.ctl {
                Ctl::Access => Ok(LowerPDU::Segmented(SegmentedLowerPDU::Access(SegmentedLowerAccessPDU {
                    aid,
                    szmic: if v >= 0x800000 { SzMic::Bit64 } else { SzMic::Bit32 },
                    seq_zero,
                    seg_o,
                    seg_n,
                    segment_m,
                    meta,
                }))),
                Ctl::Control => match control_opcode(low) {
                    Some(opcode) => Ok(LowerPDU::Segmented(SegmentedLowerPDU::Control(SegmentedLowerControlPDU {
                        opcode,
                        seq_zero,
                        seg_o,
                        seg_n,
                        segment_m,
                        meta,
                    }))),
                    None => Err(ParseError::InvalidValue),
                },
            }
        }
    }
}

/// The header of a segment written by the outbound segmentation reads back as
/// the segment it was: its key identifier, a 32-bit MIC, its `SeqZero`, its
/// offset, its last offset and its bytes.
pub proof fn lemma_segment_roundtrip(aid: Option<u8>, seq_zero: u16, seg_o: int, seg_n: int, m: Seq<u8>)
    requires
        0 <= seg_o < 32,
        0 <= seg_n < 32,
        aid matches Some(a) ==> a < 64,
    ensures
        ({
            let d = segment_header(aid, seq_zero, seg_o, seg_n) + m;
            let v = segment_bits(d[1], d[2], d[3]);
            &&& d[0] >= 0x80
            &&& aid_of_header(d[0]) == aid
            &&& szmic_of_bits(v) == SzMic::Bit32
            &&& seq_zero_of_bits(v) == seq_zero % 8192
            &&& seg_o_of_bits(v) == seg_o
            &&& seg_n_of_bits(v) == seg_n
            &&& d.skip(4) == m
        }),
{
    let h = segment_header(aid, seq_zero, seg_o, seg_n);
    let d = h + m;
    let v = (seq_zero % 8192) as int * 1024 + seg_o * 32 + seg_n;
    lemma_header_fields(seq_zero, seg_o, seg_n);
    lemma_bytes_of_bits(v);
    assert(seg_o % 32 == seg_o && seg_n % 32 == seg_n);
    let b1 = v / 65536;
    let b2 = (v / 256) % 256;
    let b3 = v % 256;
    assert(h == seq![access_header(true, aid), b1 as u8, b2 as u8, b3 as u8]);
    assert(b1 as u8 == b1 && b2 as u8 == b2 && b3 as u8 == b3);
    assert(d[0] == h[0] && d[1] == h[1] && d[2] == h[2] && d[3] == h[3]);
    assert(segment_bits(d[1], d[2], d[3]) == v);
    assert(d.skip(4) =~= m);
    assert(aid_of_header(d[0]) == aid);
}

/// The fields of the header bits of a segment.
proof fn lemma_header_fields(seq_zero: u16, seg_o: int, seg_n: int)
    requires
        0 <= seg_o < 32,
        0 <= seg_n < 32,
    ensures
        ({
            let v = (seq_zero % 8192) as int * 1024 + seg_o * 32 + seg_n;
            &&& 0 <= v < 0x800000
            &&& (v / 1024) % 8192 == seq_zero % 8192
            &&& (v / 32) % 32 == seg_o
            &&& v % 32 == seg_n
        }),
{
    let z = (seq_zero % 8192) as int;
    assert(0 <= z < 8192);
    let v = z * 1024 + seg_o * 32 + seg_n;
    assert(0 <= v < 0x800000) by (nonlinear_arith)
        requires
            v == z * 1024 + seg_o * 32 + seg_n,
            0 <= z < 8192,
            0 <= seg_o < 32,
            0 <= seg_n < 32,
    ;
    assert((v / 1024) % 8192 == z && (v / 32) % 32 == seg_o && v % 32 == seg_n) by (nonlinear_arith)
        requires
            v == z * 1024 + seg_o * 32 + seg_n,
            0 <= z < 8192,
            0 <= seg_o < 32,
            0 <= seg_n < 32,
    ;
}

/// Three bytes of 24 bits put back together.
proof fn lemma_bytes_of_bits(v: int)
    requires
        0 <= v < 0x1000000,
    ensures
        0 <= v / 65536 < 256,
        0 <= (v / 256) % 256 < 256,
        0 <= v % 256 < 256,
        (v / 65536) * 65536 + ((v / 256) % 256) * 256 + v % 256 == v,
{
    assert((v / 65536) * 65536 + ((v / 256) % 256) * 256 + v % 256 == v && 0 <= v / 65536 < 256) by (nonlinear_arith)
        requires
            0 <= v < 0x1000000,
    ;
}

/// The node's unicast addresses: its primary address and the addresses of
/// its further elements.
#[derive(Copy, Clone, Debug, PartialEq, Eq, Structural)]
pub struct DeviceInfo {
    pub primary_unicast_address: u16,
    pub number_of_elements: u8,
}

impl DeviceInfo {
    /// Whether `addr` is a unicast address of one of the node's elements.
    pub open spec fn spec_is_local_unicast(&self, addr: u16) -> bool {
        is_unicast(addr) && self.primary_unicast_address <= addr < self.primary_unicast_address + self.number_of_elements
    }

    /// Whether `addr` is a unicast address of one of the node's elements.
    pub fn is_local_unicast(&self, addr: u16) -> (r: bool)
        ensures
            r == self.spec_is_local_unicast(addr),
    {
        addr != 0 && addr < 0x8000 && self.primary_unicast_address <= addr
            && (addr - self.primary_unicast_address) < self.number_of_elements as u16
    }

    /// Whether `addr` is the unicast address of another node.
    pub fn is_non_local_unicast(&self, addr: u16) -> (r: bool)
        ensures
            r == (is_unicast(addr) && !self.spec_is_local_unicast(addr)),
    {
        addr != 0 && addr < 0x8000 && !self.is_local_unicast(addr)
    }
}

/// An upper transport access PDU with a four-byte MIC: everything but the
/// last four bytes is payload.
pub fn upper_access_pdu(bytes: &Vec<u8>, meta: UpperMetadata) -> (r: Result<UpperAccessPDU, ParseError>)
    ensures
        bytes@.len() < 4 ==> r == Err::<UpperAccessPDU, ParseError>(ParseError::InvalidLength),
        bytes@.len() >= 4 ==> (r matches Ok(u) && u.payload@ == bytes@.take(bytes@.len() - 4) && u.transmic@ == bytes@.skip(
            bytes@.len() - 4,
        ) && u.meta == meta),
{
    if bytes.len() < 4 {
        return Err(ParseError::InvalidLength);
    }
    let split = bytes.len() - 4;
    let mut payload: Vec<u8> = Vec::new();
    let mut i: usize = 0;
    while i < split
        invariant
            split == bytes@.len() - 4,
            i <= split,
            payload@ == bytes@.take(i as int),
        decreases split - i,
    {
        payload.push(bytes[i]);
        i = i + 1;
        assert(payload@ =~= bytes@.take(i as int));
    }
    let transmic = tail(bytes, split);
    Ok(UpperAccessPDU { payload, transmic, meta })
}

/// Two segments read from the same bytes agree on everything a reassembly
/// looks at.
proof fn lemma_parsed_segments_agree(d: Seq<u8>, ctl: Ctl, meta: LowerMetadata, x: SegmentedLowerPDU, y: SegmentedLowerPDU)
    requires
        parsed_as(d, ctl, meta, Ok(LowerPDU::Segmented(x))),
        parsed_as(d, ctl, meta, Ok(LowerPDU::Segmented(y))),
    ensures
        kind_of(x) == kind_of(y),
        x.spec_meta() == y.spec_meta(),
        x.spec_seq_zero() == y.spec_seq_zero(),
        x.spec_seg_o() == y.spec_seg_o(),
        x.spec_seg_n() == y.spec_seg_n(),
        x.spec_segment() == y.spec_segment(),
        meta_view_of(x) == meta_view_of(y),
        forall|s: Seq<(u16, crate::driver::inbound::InFlightView)>, now: u64| reaches_ingest(s, x, now) == reaches_ingest(s, y, now),
        ingest_fits(kind_of(x), x) == ingest_fits(kind_of(y), y),
{
    assert(crate::driver::system::spec_upper_metadata_of_segment(x) == crate::driver::system::spec_upper_metadata_of_segment(y));
}

/// Whether every segment with these header fields and bytes, where it
/// reaches a reassembly buffer, fits it.
pub open spec fn segments_fit(s: Seq<(u16, crate::driver::inbound::InFlightView)>, d: Seq<u8>, ctl: Ctl, meta: LowerMetadata, now: u64) -> bool {
    forall|x: SegmentedLowerPDU| #[trigger] reaches_ingest(s, x, now) && parsed_as(d, ctl, meta, Ok(LowerPDU::Segmented(x)))
        ==> ingest_fits(kind_of(x), x)
}

/// What processing the transport PDU of a network PDU gives, `s0` and `s1`
/// being the reassemblies before and after: an error where it cannot be read;
/// an unsegmented message's upper PDU at once; nothing for a segment to
/// another node's unicast address or to a group address that no model
/// subscribes to; otherwise what the segment's reassembly gives.
pub open spec fn inbound_outcome(
    device_info: DeviceInfo,
    pdu: CleartextNetworkPDU,
    iv_index: u32,
    now: u64,
    slots: Seq<Option<crate::driver::tables::Subscription>>,
    s0: Seq<(u16, crate::driver::inbound::InFlightView)>,
    s1: Seq<(u16, crate::driver::inbound::InFlightView)>,
    r: Result<(Option<(BlockAck, UpperMetadata)>, Option<UpperPDU>), DriverError>,
) -> bool {
    let d = pdu.transport_pdu@;
    let meta = spec_lower_meta(pdu, iv_index);
    if d.len() == 0 || (d[0] >= 0x80 && d.len() < 5) {
        r == Err::<(Option<(BlockAck, UpperMetadata)>, Option<UpperPDU>), DriverError>(DriverError::Parse(ParseError::InvalidLength))
            && s1 == s0
    } else if pdu.ctl is Control && spec_control_opcode((d[0] % 0x80) as u8) is None {
        r == Err::<(Option<(BlockAck, UpperMetadata)>, Option<UpperPDU>), DriverError>(DriverError::Parse(ParseError::InvalidValue))
            && s1 == s0
    } else if d[0] < 0x80 {
        &&& s1 == s0
        &&& match pdu.ctl {
            Ctl::Access => if d.len() < 5 {
                r == Err::<(Option<(BlockAck, UpperMetadata)>, Option<UpperPDU>), DriverError>(DriverError::Parse(ParseError::InvalidLength))
            } else {
                r matches Ok((None, Some(UpperPDU::Access(u)))) && u.payload@ == d.subrange(1, d.len() - 4)
                    && u.transmic@ == d.skip(d.len() - 4) && u.meta.aid == aid_of_header(d[0]) && u.meta.src == meta.src
                    && u.meta.dst == meta.dst && u.meta.seq == meta.seq && u.meta.replay_seq == Some(meta.seq)
                    && u.meta.iv_index == meta.iv_index && u.meta.label_uuids@.len() == 0
            },
            Ctl::Control => r matches Ok((None, Some(UpperPDU::Control(c)))) && c.opcode == spec_control_opcode(d[0])->0
                && c.parameters@ == d.skip(1) && c.meta.src == meta.src && c.meta.dst == meta.dst && c.meta.seq == meta.seq
                && c.meta.iv_index == meta.iv_index && c.meta.label_uuids@.len() == 0,
        }
    } else if (is_unicast(pdu.dst) && !device_info.spec_is_local_unicast(pdu.dst)) || (!is_unicast(pdu.dst) && !(match subscription_address_from(spec_address_of(pdu.dst)) {
        Ok(a) => subscriptions_to(slots, a).len() > 0,
        Err(_) => false,
    })) {
        r matches Ok((None, None)) && s1 == s0
    } else {
        exists|x: SegmentedLowerPDU| parsed_as(d, pdu.ctl, meta, Ok(LowerPDU::Segmented(x)))
            && s1 == spec_process(s0, x, now).0
            && match spec_process(s0, x, now).1 {
            SegmentOutcome::Failed(e) => r == Err::<(Option<(BlockAck, UpperMetadata)>, Option<UpperPDU>), DriverError>(e),
            SegmentOutcome::Acked(b) => r matches Ok((Some((b2, m)), None)) && b2 == b && m.view_meta() == meta_view_of(x),
            SegmentOutcome::Completed(b) => r matches Ok((Some((b2, m)), Some(u))) && b2 == b && m.view_meta()
                == meta_view_of(x) && upper_meta(u).view_meta() == meta_view_of(x)
                && reassembled(spec_process(s0, x, now).2, upper_meta(u), Ok(u)),
        }
    }
}

/// How the lower transport layer answers a transport PDU, case by case: an
/// unsegmented access or control message gives its upper PDU at once and no
/// acknowledgement, leaving the reassemblies alone; a segment for another
/// node's unicast address, or for a group or virtual address that no model
/// subscribes to, gives nothing and leaves the reassemblies alone; only a
/// segment taken into a reassembly is acknowledged, and an acknowledgement
/// comes with an upper PDU only once the message is complete.
pub proof fn lemma_inbound_outcome_cases(
    device_info: DeviceInfo,
    pdu: CleartextNetworkPDU,
    iv_index: u32,
    now: u64,
    slots: Seq<Option<crate::driver::tables::Subscription>>,
    s0: Seq<(u16, crate::driver::inbound::InFlightView)>,
    s1: Seq<(u16, crate::driver::inbound::InFlightView)>,
    r: Result<(Option<(BlockAck, UpperMetadata)>, Option<UpperPDU>), DriverError>,
)
    requires
        inbound_outcome(device_info, pdu, iv_index, now, slots, s0, s1, r),
    ensures
        ({
            let d = pdu.transport_pdu@;
            &&& (d.len() >= 5 && d[0] < 0x80 && pdu.ctl is Access) ==> (r matches Ok((None, Some(UpperPDU::Access(_))))) && s1 == s0
            &&& (d.len() > 0 && d[0] < 0x80 && pdu.ctl is Control && spec_control_opcode(d[0]) is Some)
                ==> (r matches Ok((None, Some(UpperPDU::Control(_))))) && s1 == s0
            &&& (d.len() >= 5 && d[0] >= 0x80 && !(pdu.ctl is Control && spec_control_opcode((d[0] % 0x80) as u8) is None)
                && ((is_unicast(pdu.dst) && !device_info.spec_is_local_unicast(pdu.dst)) || (!is_unicast(pdu.dst) && !(match subscription_address_from(spec_address_of(pdu.dst)) {
                    Ok(a) => subscriptions_to(slots, a).len() > 0,
                    Err(_) => false,
                })))) ==> r == Ok::<(Option<(BlockAck, UpperMetadata)>, Option<UpperPDU>), DriverError>((None, None)) && s1 == s0
            &&& (r matches Ok((Some(_), _))) ==> d.len() >= 5 && d[0] >= 0x80
            &&& (d.len() > 0 && d[0] < 0x80) ==> s1 == s0 && !(r matches Ok((Some(_), _)))
            &&& (d.len() >= 5 && d[0] >= 0x80 && r is Ok && r->Ok_0.1 is Some) ==> r->Ok_0.0 is Some
        }),
{
    let d = pdu.transport_pdu@;
    if d.len() > 0 && d[0] < 0x80 && pdu.ctl is Control && spec_control_opcode(d[0]) is Some {
        assert((d[0] % 0x80) as u8 == d[0]);
    }
}

/// The lower transport layer: the reassemblies in progress and the outbound
/// segmentation.
pub struct LowerDriver {
    pub inbound_segmentation: InboundSegmentation,
    pub outbound_segmentation: OutboundSegmentation,
}

impl LowerDriver {
    /// No reassembly in progress.
    pub fn new() -> (r: LowerDriver)
        ensures
            r.inbound_segmentation.wf(),
            r.inbound_segmentation.views().len() == 0,
    {
        LowerDriver { inbound_segmentation: InboundSegmentation::new(), outbound_segmentation: OutboundSegmentation::new() }
    }

    /// Whether the transport PDU of `pdu`, received in IV index `iv_index`
    /// at `now`, can be processed: where it is a segment that would be
    /// written into a reassembly buffer, it fits there.
    pub fn fits_inbound(&self, pdu: &CleartextNetworkPDU, iv_index: u32, now: u64) -> (r: bool)
        requires
            self.inbound_segmentation.wf(),
        ensures
            r == segments_fit(self.inbound_segmentation.views(), pdu.transport_pdu@, pdu.ctl, spec_lower_meta(*pdu, iv_index), now),
    {
        let ghost s = self.inbound_segmentation.views();
        let ghost d = pdu.transport_pdu@;
        let ghost meta = spec_lower_meta(*pdu, iv_index);
        match LowerPDU::parse(pdu, iv_index) {
            Ok(LowerPDU::Segmented(x)) => {
                let r = self.inbound_segmentation.segment_fits(&x, now);
                proof {
                    assert forall|y: SegmentedLowerPDU| #[trigger] reaches_ingest(s, y, now) && parsed_as(d, pdu.ctl, meta, Ok(LowerPDU::Segmented(y)))
                        implies ingest_fits(kind_of(y), y) == ingest_fits(kind_of(x), x)
                        && reaches_ingest(s, x, now) by {
                        lemma_parsed_segments_agree(d, pdu.ctl, meta, x, y);
                    }
                    if r == false {
                        assert(reaches_ingest(s, x, now) && parsed_as(d, pdu.ctl, meta, Ok(LowerPDU::Segmented(x))));
                    }
                }
                r
            },
            _ => true,
        }
    }

    /// Processes the transport PDU of a decrypted network PDU received in IV
    /// index `iv_index`: an unsegmented message gives its upper PDU at once; a
    /// segment to another node's unicast address, or to a group address no
    /// model subscribes to, is left alone; any other segment goes to its
    /// reassembly, which gives the acknowledgement and, once complete, the
    /// upper PDU.
    pub fn process_inbound_cleartext_network_pdu(
        &mut self,
        device_info: &DeviceInfo,
        pdu: &CleartextNetworkPDU,
        iv_index: u32,
        watchdog: &mut Watchdog,
        now: u64,
        subscriptions: &Subscriptions,
    ) -> (r: Result<(Option<(BlockAck, UpperMetadata)>, Option<UpperPDU>), DriverError>)
        requires
            old(self).inbound_segmentation.wf(),
            instant_ok(now),
            segments_fit(old(self).inbound_segmentation.views(), pdu.transport_pdu@, pdu.ctl, spec_lower_meta(*pdu, iv_index), now),
        ensures
            final(self).inbound_segmentation.wf(),
            inbound_outcome(
                *device_info,
                *pdu,
                iv_index,
                now,
                subscriptions.slots(),
                old(self).inbound_segmentation.views(),
                final(self).inbound_segmentation.views(),
                r,
            ),
    {
        let lower = match LowerPDU::parse(pdu, iv_index) {
            Ok(l) => l,
            Err(e) => return Err(DriverError::Parse(e)),
        };
        match lower {
            LowerPDU::Unsegmented(UnsegmentedLowerPDU::Access(access)) => {
                if access.upper_pdu.len() < 4 {
                    return Err(DriverError::Parse(ParseError::InvalidLength));
                }
                let meta = UpperMetadata::from_unsegmented(access.meta, access.aid);
                match upper_access_pdu(&access.upper_pdu, meta) {
                    Ok(u) => {
                        proof {
                            assert(u.payload@ =~= pdu.transport_pdu@.subrange(1, pdu.transport_pdu@.len() - 4));
                            assert(u.transmic@ =~= pdu.transport_pdu@.skip(pdu.transport_pdu@.len() - 4));
                        }
                        Ok((None, Some(UpperPDU::Access(u))))
                    },
                    Err(e) => Err(DriverError::Parse(e)),
                }
            },
            LowerPDU::Unsegmented(UnsegmentedLowerPDU::Control(control)) => {
                let meta = UpperMetadata::from_unsegmented(control.meta, None);
                Ok((None, Some(UpperPDU::Control(UpperControlPDU { opcode: control.opcode, parameters: control.parameters, meta }))))
            },
            LowerPDU::Segmented(inner) => {
                let dst = pdu.dst;
                if device_info.is_non_local_unicast(dst) {
                    return Ok((None, None));
                }
                let is_unicast_dst = dst != 0 && dst < 0x8000;
                let bytes = u16_be_bytes(dst);
                proof {
                    lemma_be16_split(dst);
                }
                if is_unicast_dst || subscriptions.matches(Address::parse(bytes)) {
                    match self.inbound_segmentation.process(&inner, watchdog, now) {
                        Ok(result) => Ok((Some((result.block_ack, result.meta)), result.upper_pdu)),
                        Err(e) => Err(e),
                    }
                } else {
                    Ok((None, None))
                }
            },
        }
    }
}

} // verus!
