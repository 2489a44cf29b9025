//! The transport-layer values the stack's logic reads: lower (segmented)
//! PDUs and upper PDUs, held as plain values.

use vstd::prelude::*;
use crate::address::LabelUuid;

verus! {

/// The size of the message integrity check of an access message.
#[derive(Copy, Clone, Debug, PartialEq, Eq, Structural)]
pub enum SzMic {
    Bit32,
    Bit64,
}

/// The number of bytes of a message integrity check.
pub open spec fn mic_len(s: SzMic) -> nat {
    match s {
        SzMic::Bit32 => 4,
        SzMic::Bit64 => 8,
    }
}

impl SzMic {
    /// The number of bytes of the message integrity check.
    pub fn len(&self) -> (r: usize)
        ensures
            r == mic_len(*self),
    {
        match self {
            SzMic::Bit32 => 4,
            SzMic::Bit64 => 8,
        }
    }
}

/// Transport control message opcodes.
#[derive(Copy, Clone, Debug, PartialEq, Eq, Structural)]
pub enum ControlOpcode {
    SegmentAcknowledgement,
    FriendPoll,
    FriendUpdate,
    FriendRequest,
    FriendOffer,
    FriendClear,
    FriendClearConfirm,
    FriendSubscriptionListAdd,
    FriendSubscriptionListRemove,
    FriendSubscriptionListConfirm,
    Heartbeat,
}

/// The seven-bit code of a control opcode.
pub open spec fn control_opcode_code(o: ControlOpcode) -> u8 {
    match o {
        ControlOpcode::SegmentAcknowledgement => 0x00,
        ControlOpcode::FriendPoll => 0x01,
        ControlOpcode::FriendUpdate => 0x02,
        ControlOpcode::FriendRequest => 0x03,
        ControlOpcode::FriendOffer => 0x04,
        ControlOpcode::FriendClear => 0x05,
        ControlOpcode::FriendClearConfirm => 0x06,
        ControlOpcode::FriendSubscriptionListAdd => 0x07,
        ControlOpcode::FriendSubscriptionListRemove => 0x08,
        ControlOpcode::FriendSubscriptionListConfirm => 0x09,
        ControlOpcode::Heartbeat => 0x0A,
    }
}

impl ControlOpcode {
    /// The seven-bit code of the opcode.
    pub fn code(&self) -> (r: u8)
        ensures
            r == control_opcode_code(*self),
    {
        match self {
            ControlOpcode::SegmentAcknowledgement => 0x00,
            ControlOpcode::FriendPoll => 0x01,
            ControlOpcode::FriendUpdate => 0x02,
            ControlOpcode::FriendRequest => 0x03,
            ControlOpcode::FriendOffer => 0x04,
            ControlOpcode::FriendClear => 0x05,
            ControlOpcode::FriendClearConfirm => 0x06,
            ControlOpcode::FriendSubscriptionListAdd => 0x07,
            ControlOpcode::FriendSubscriptionListRemove => 0x08,
            ControlOpcode::FriendSubscriptionListConfirm => 0x09,
            ControlOpcode::Heartbeat => 0x0A,
        }
    }
}

/// What the lower transport layer knows of a PDU from its network PDU.
#[derive(Copy, Clone, Debug, PartialEq, Eq, Structural)]
pub struct LowerMetadata {
    pub iv_index: u32,
    pub nid: u8,
    pub src: u16,
    pub dst: u16,
    pub seq: u32,
    pub ttl: u8,
}

/// One segment of a segmented access message.
#[derive(Clone, Debug)]
pub struct SegmentedLowerAccessPDU {
    pub aid: Option<u8>,
    pub szmic: SzMic,
    pub seq_zero: u16,
    pub seg_o: u8,
    pub seg_n: u8,
    pub segment_m: Vec<u8>,
    pub meta: LowerMetadata,
}

/// One segment of a segmented control message.
#[derive(Clone, Debug)]
pub struct SegmentedLowerControlPDU {
    pub opcode: ControlOpcode,
    pub seq_zero: u16,
    pub seg_o: u8,
    pub seg_n: u8,
    pub segment_m: Vec<u8>,
    pub meta: LowerMetadata,
}

/// A segment of an access or control message.
#[derive(Clone, Debug)]
pub enum SegmentedLowerPDU {
    Access(SegmentedLowerAccessPDU),
    Control(SegmentedLowerControlPDU),
}

impl SegmentedLowerPDU {
    pub open spec fn spec_meta(&self) -> LowerMetadata {
        match self {
            SegmentedLowerPDU::Access(p) => p.meta,
            SegmentedLowerPDU::Control(p) => p.meta,
        }
    }

    pub open spec fn spec_seq_zero(&self) -> u16 {
        match self {
            SegmentedLowerPDU::Access(p) => p.seq_zero,
            SegmentedLowerPDU::Control(p) => p.seq_zero,
        }
    }

    pub open spec fn spec_seg_o(&self) -> u8 {
        match self {
            SegmentedLowerPDU::Access(p) => p.seg_o,
            SegmentedLowerPDU::Control(p) => p.seg_o,
        }
    }

    pub open spec fn spec_seg_n(&self) -> u8 {
        match self {
            SegmentedLowerPDU::Access(p) => p.seg_n,
            SegmentedLowerPDU::Control(p) => p.seg_n,
        }
    }

    pub open spec fn spec_segment(&self) -> Seq<u8> {
        match self {
            SegmentedLowerPDU::Access(p) => p.segment_m@,
            SegmentedLowerPDU::Control(p) => p.segment_m@,
        }
    }

    /// The metadata of the segment.
    pub fn meta(&self) -> (r: LowerMetadata)
        ensures
            r == self.spec_meta(),
    {
        match self {
            SegmentedLowerPDU::Access(p) => p.meta,
            SegmentedLowerPDU::Control(p) => p.meta,
        }
    }

    /// The low thirteen bits of the first segment's sequence number.
    pub fn seq_zero(&self) -> (r: u16)
        ensures
            r == self.spec_seq_zero(),
    {
        match self {
            SegmentedLowerPDU::Access(p) => p.seq_zero,
            SegmentedLowerPDU::Control(p) => p.seq_zero,
        }
    }

    /// The offset of this segment.
    pub fn seg_o(&self) -> (r: u8)
        ensures
            r == self.spec_seg_o(),
    {
        match self {
            SegmentedLowerPDU::Access(p) => p.seg_o,
            SegmentedLowerPDU::Control(p) => p.seg_o,
        }
    }

    /// The offset of the last segment.
    pub fn seg_n(&self) -> (r: u8)
        ensures
            r == self.spec_seg_n(),
    {
        match self {
            SegmentedLowerPDU::Access(p) => p.seg_n,
            SegmentedLowerPDU::Control(p) => p.seg_n,
        }
    }
}

/// What the upper transport layer knows of a PDU.
#[derive(Clone, Debug)]
pub struct UpperMetadata {
    pub iv_index: u32,
    pub nid: u8,
    pub aid: Option<u8>,
    pub seq: u32,
    pub src: u16,
    pub dst: u16,
    pub ttl: u8,
    pub label_uuids: Vec<LabelUuid>,
    pub seq_auth: Option<u32>,
    pub replay_seq: Option<u32>,
}

/// An upper transport access PDU: the encrypted payload and its message
/// integrity check.
#[derive(Clone, Debug)]
pub struct UpperAccessPDU {
    pub payload: Vec<u8>,
    pub transmic: Vec<u8>,
    pub meta: UpperMetadata,
}

/// An upper transport control PDU.
#[derive(Clone, Debug)]
pub struct UpperControlPDU {
    pub opcode: ControlOpcode,
    pub parameters: Vec<u8>,
    pub meta: UpperMetadata,
}

/// An upper transport PDU.
#[derive(Clone, Debug)]
pub enum UpperPDU {
    Access(UpperAccessPDU),
    Control(UpperControlPDU),
}

/// Whether a network PDU carries an access or a control message.
#[derive(Copy, Clone, Debug, PartialEq, Eq, Structural)]
pub enum Ctl {
    Access,
    Control,
}

/// A network PDU before encryption.
#[derive(Clone, Debug)]
pub struct CleartextNetworkPDU {
    pub ivi: u8,
    pub nid: u8,
    pub ctl: Ctl,
    pub ttl: u8,
    pub seq: u32,
    pub src: u16,
    pub dst: u16,
    pub transport_pdu: Vec<u8>,
}

/// A network PDU as plain values: its IV index bit, network identifier,
/// kind, time to live, sequence number, addresses and transport bytes.
pub open spec fn network_view(p: CleartextNetworkPDU) -> (u8, u8, Ctl, u8, u32, u16, u16, Seq<u8>) {
    (p.ivi, p.nid, p.ctl, p.ttl, p.seq, p.src, p.dst, p.transport_pdu@)
}

/// A copy of a network PDU.
pub fn copy_network_pdu(p: &CleartextNetworkPDU) -> (r: CleartextNetworkPDU)
    ensures
        network_view(r) == network_view(*p),
{
    let mut transport_pdu: Vec<u8> = Vec::new();
    let mut i: usize = 0;
    while i < p.transport_pdu.len()
        invariant
            i <= p.transport_pdu@.len(),
            transport_pdu@ == p.transport_pdu@.take(i as int),
        decreases p.transport_pdu@.len() - i,
    {
        transport_pdu.push(p.transport_pdu[i]);
        i = i + 1;
        assert(transport_pdu@ =~= p.transport_pdu@.take(i as int));
    }
    assert(p.transport_pdu@.take(p.transport_pdu@.len() as int) =~= p.transport_pdu@);
    CleartextNetworkPDU {
        ivi: p.ivi,
        nid: p.nid,
        ctl: p.ctl,
        ttl: p.ttl,
        seq: p.seq,
        src: p.src,
        dst: p.dst,
        transport_pdu,
    }
}

} // verus!
