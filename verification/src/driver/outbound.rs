//! Splitting upper PDUs into network PDUs.

use vstd::prelude::*;
use crate::error::DriverError;
use crate::driver::pdu::{
    CleartextNetworkPDU, ControlOpcode, Ctl, UpperAccessPDU, UpperControlPDU, UpperMetadata, UpperPDU,
    control_opcode_code,
};
use crate::driver::sequence::Sequence;

verus! {

/// The bytes of an access message segment.
pub const SEGMENTED_ACCESS_MTU: usize = 12;

/// The most bytes an unsegmented access message carries.
pub const NONSEGMENTED_ACCESS_MTU: usize = 15;

/// The most parameter bytes of an unsegmented control message.
pub const NONSEGMENTED_CONTROL_MTU: usize = 11;

/// The most bytes of an upper access PDU.
pub const UPPER_ACCESS_CAPACITY: usize = 380;

/// The sequence number after `n` sequence numbers were taken from `s`.
pub open spec fn seq_after(s: u32, n: int) -> u32 {
    ((s + n) % 0x1_0000_0000) as u32
}

/// The first byte of a lower access PDU: the segmentation bit, then the
/// application key flag and identifier.
pub open spec fn access_header(seg: bool, aid: Option<u8>) -> u8 {
    ((if seg { 0x80int } else { 0 }) + match aid {
        Some(a) => 0x40 + a % 64,
        None => 0,
    }) as u8
}

/// The header of an access segment: the first byte, then 24 bits holding a
/// clear MIC-size bit, the thirteen bits of `seq_zero`, and five bits each of
/// the segment offset and the last segment offset.
pub open spec fn segment_header(aid: Option<u8>, seq_zero: u16, seg_o: int, seg_n: int) -> Seq<u8> {
    let v = (seq_zero % 8192) as int * 1024 + (seg_o % 32) * 32 + seg_n % 32;
    seq![access_header(true, aid), (v / 65536) as u8, ((v / 256) % 256) as u8, (v % 256) as u8]
}

/// The bytes of an upper access PDU: payload, then MIC.
pub open spec fn access_bytes(a: UpperAccessPDU) -> Seq<u8> {
    a.payload@ + a.transmic@
}

/// The number of segments of `len` bytes.
pub open spec fn segment_count(len: nat) -> nat {
    ((len + 11) / 12) as nat
}

/// Segment `i` of `bytes`.
pub open spec fn segment(bytes: Seq<u8>, i: int) -> Seq<u8> {
    bytes.subrange(12 * i, if 12 * i + 12 <= bytes.len() { 12 * i + 12 } else { bytes.len() as int })
}

/// The network PDU fields besides the sequence number and transport PDU.
pub open spec fn network_fields_match(p: CleartextNetworkPDU, meta: UpperMetadata, ctl: Ctl) -> bool {
    &&& p.ivi == meta.iv_index % 2
    &&& p.nid == meta.nid
    &&& p.ctl == ctl
    &&& p.ttl == meta.ttl
    &&& p.src == meta.src
    &&& p.dst == meta.dst
}

/// The sequence number of segment `i` when the sequence stood at `s0`: the
/// first segment of a first transmission keeps the message's own number,
/// every other segment takes the next number.
pub open spec fn segment_seq(meta_seq: u32, s0: u32, is_retransmit: bool, i: int) -> u32 {
    if is_retransmit {
        seq_after(s0, i)
    } else if i == 0 {
        meta_seq
    } else {
        seq_after(s0, i - 1)
    }
}

/// How many sequence numbers the first `k` segments take.
pub open spec fn seqs_taken(is_retransmit: bool, k: int) -> int {
    if is_retransmit || k == 0 {
        k
    } else {
        k - 1
    }
}

/// Builds network PDUs from upper PDUs, segmenting access messages that do
/// not fit one network PDU.
#[derive(Copy, Clone, Debug, PartialEq, Eq, Structural)]
pub struct OutboundSegmentation {}

/// The bytes of an upper access PDU, payload then MIC, when they fit.
fn emit_access(inner: &UpperAccessPDU) -> (r: Result<Vec<u8>, DriverError>)
    ensures
        access_bytes(*inner).len() <= 380 ==> (r matches Ok(b) && b@ == access_bytes(*inner)),
        access_bytes(*inner).len() > 380 ==> r == Err::<Vec<u8>, DriverError>(DriverError::InsufficientSpace),
{
    if inner.payload.len() > UPPER_ACCESS_CAPACITY || inner.transmic.len() > UPPER_ACCESS_CAPACITY - inner.payload.len() {
        return Err(DriverError::InsufficientSpace);
    }
    let mut payload: Vec<u8> = Vec::new();
    payload.extend_from_slice(inner.payload.as_slice());
    payload.extend_from_slice(inner.transmic.as_slice());
    assert(payload@ =~= access_bytes(*inner));
    Ok(payload)
}

/// The header of an access segment.
fn segment_header_bytes(aid: Option<u8>, seq_zero: u16, seg_o: u8, seg_n: u8) -> (r: Vec<u8>)
    ensures
        r@ == segment_header(aid, seq_zero, seg_o as int, seg_n as int),
{
    let first: u8 = 0x80 + match aid {
        Some(a) => 0x40 + a % 64,
        None => 0,
    };
    let v: u32 = ((seq_zero % 8192) as u32) * 1024 + ((seg_o % 32) as u32) * 32 + (seg_n % 32) as u32;
    let mut r = Vec::new();
    r.push(first);
    r.push((v / 65536) as u8);
    r.push(((v / 256) % 256) as u8);
    r.push((v % 256) as u8);
    assert(r@ =~= segment_header(aid, seq_zero, seg_o as int, seg_n as int));
    r
}

/// A network PDU for `meta` carrying `transport_pdu`.
fn network_pdu(meta: &UpperMetadata, ctl: Ctl, seq: u32, transport_pdu: Vec<u8>) -> (r: CleartextNetworkPDU)
    ensures
        network_fields_match(r, *meta, ctl),
        r.seq == seq,
        r.transport_pdu@ == transport_pdu@,
{
    CleartextNetworkPDU {
        ivi: (meta.iv_index % 2) as u8,
        nid: meta.nid,
        ctl,
        ttl: meta.ttl,
        seq,
        src: meta.src,
        dst: meta.dst,
        transport_pdu,
    }
}

impl OutboundSegmentation {
    /// The segmentation stage holds no state of its own.
    pub fn new() -> (r: OutboundSegmentation) {
        OutboundSegmentation {}
    }

    /// The network PDU of an unsegmented control message: the opcode byte then
    /// the parameters, with the next sequence number. More than eleven
    /// parameter bytes do not fit.
    pub fn process_unsegmented_control(&self, sequence: &mut Sequence, pdu: &UpperControlPDU) -> (r: Result<CleartextNetworkPDU, DriverError>)
        ensures
            pdu.parameters@.len() > 11 ==> r == Err::<CleartextNetworkPDU, DriverError>(DriverError::InsufficientSpace)
                && final(sequence)@ == old(sequence)@,
            pdu.parameters@.len() <= 11 ==> (r matches Ok(p) && network_fields_match(p, pdu.meta, Ctl::Control)
                && p.seq == old(sequence)@ && p.transport_pdu@ == seq![control_opcode_code(pdu.opcode)] + pdu.parameters@
                && final(sequence)@ == seq_after(old(sequence)@, 1)),
    {
        if pdu.parameters.len() > NONSEGMENTED_CONTROL_MTU {
            return Err(DriverError::InsufficientSpace);
        }
        let mut transport_pdu = Vec::new();
        transport_pdu.push(pdu.opcode.code());
        transport_pdu.extend_from_slice(pdu.parameters.as_slice());
        assert(transport_pdu@ =~= seq![control_opcode_code(pdu.opcode)] + pdu.parameters@);
        let seq = sequence.next();
        Ok(network_pdu(&pdu.meta, Ctl::Control, seq, transport_pdu))
    }
}

/// The first sequence number's low thirteen bits.
pub open spec fn seq_zero_of(seq: u32) -> u16 {
    (seq % 8192) as u16
}

/// Whether `v` holds the network PDUs of the segments of `bytes`.
pub open spec fn segments_match(v: Seq<CleartextNetworkPDU>, meta: UpperMetadata, bytes: Seq<u8>, s0: u32, is_retransmit: bool) -> bool {
    let n = segment_count(bytes.len());
    &&& v.len() == n
    &&& forall|i: int| 0 <= i < n ==> {
        &&& network_fields_match(#[trigger] v[i], meta, Ctl::Access)
        &&& v[i].seq == segment_seq(meta.seq, s0, is_retransmit, i)
        &&& v[i].transport_pdu@ == segment_header(meta.aid, seq_zero_of(meta.seq), i, n - 1) + segment(bytes, i)
    }
}

/// What segmenting an upper PDU gives, the sequence standing at `s0` before
/// and at `s1` after.
pub open spec fn segmentation_outcome(
    pdu: UpperPDU,
    s0: u32,
    s1: u32,
    is_retransmit: bool,
    max_pdus: usize,
    r: Result<Vec<CleartextNetworkPDU>, DriverError>,
) -> bool {
    match pdu {
        UpperPDU::Control(c) => if c.parameters@.len() > 11 {
            r == Err::<Vec<CleartextNetworkPDU>, DriverError>(DriverError::InsufficientSpace)
                && s1 == s0
        } else if max_pdus == 0 {
            r == Err::<Vec<CleartextNetworkPDU>, DriverError>(DriverError::InsufficientSpace)
                && s1 == seq_after(s0, 1)
        } else {
            r matches Ok(v) && v@.len() == 1 && network_fields_match(v@[0], c.meta, Ctl::Control)
                && v@[0].seq == s0
                && v@[0].transport_pdu@ == seq![control_opcode_code(c.opcode)] + c.parameters@
                && s1 == seq_after(s0, 1)
        },
        UpperPDU::Access(a) => {
            let bytes = access_bytes(a);
            if bytes.len() > 380 {
                r == Err::<Vec<CleartextNetworkPDU>, DriverError>(DriverError::InsufficientSpace)
                    && s1 == s0
            } else if bytes.len() <= 15 {
                s1 == s0 && if max_pdus == 0 {
                    r == Err::<Vec<CleartextNetworkPDU>, DriverError>(DriverError::InsufficientSpace)
                } else {
                    r matches Ok(v) && v@.len() == 1 && network_fields_match(v@[0], a.meta, Ctl::Access)
                        && v@[0].seq == a.meta.seq
                        && v@[0].transport_pdu@ == seq![access_header(false, a.meta.aid)] + bytes
                }
            } else if segment_count(bytes.len()) <= max_pdus {
                r matches Ok(v) && segments_match(v@, a.meta, bytes, s0, is_retransmit)
                    && s1 == seq_after(
                    s0,
                    seqs_taken(is_retransmit, segment_count(bytes.len()) as int),
                )
            } else {
                r == Err::<Vec<CleartextNetworkPDU>, DriverError>(DriverError::InsufficientSpace)
                    && s1 == seq_after(s0, seqs_taken(is_retransmit, max_pdus + 1))
            }
        },
    }
}

/// The sequence number of an access message, where the sequence has moved
/// past it: the first transmission keeps it for its first PDU.
pub open spec fn upper_seq(pdu: UpperPDU) -> u32 {
    match pdu {
        UpperPDU::Access(a) => a.meta.seq,
        UpperPDU::Control(c) => c.meta.seq,
    }
}

/// A residue of a number below twice the modulus.
proof fn lemma_wrap(x: int)
    requires
        0 <= x < 2 * 0x1_0000_0000,
    ensures
        x % 0x1_0000_0000 == (if x < 0x1_0000_0000 { x } else { x - 0x1_0000_0000 }),
{
    assert(x % 0x1_0000_0000 == (if x < 0x1_0000_0000 { x } else { x - 0x1_0000_0000 })) by (nonlinear_arith)
        requires 0 <= x < 2 * 0x1_0000_0000;
}

/// The network PDUs an access message is cut into carry its source,
/// destination and TTL, and distinct sequence numbers: a retransmission takes
/// a fresh number for each, and a first transmission keeps the message's own
/// number for its first PDU alone, provided the sequence has moved past that
/// number and has not come round to it again.
pub proof fn lemma_segment_seqs_distinct(
    pdu: UpperPDU,
    s0: u32,
    s1: u32,
    is_retransmit: bool,
    max_pdus: usize,
    v: Vec<CleartextNetworkPDU>,
)
    requires
        pdu is Access,
        segmentation_outcome(pdu, s0, s1, is_retransmit, max_pdus, Ok(v)),
        !is_retransmit ==> upper_seq(pdu) < s0 && s0 + v@.len() - 2 < 0x1_0000_0000 + upper_seq(pdu),
    ensures
        forall|i: int| 0 <= i < v@.len() ==> #[trigger] v@[i].src == pdu->Access_0.meta.src && v@[i].dst == pdu->Access_0.meta.dst
            && v@[i].ttl == pdu->Access_0.meta.ttl,
        forall|i: int, j: int| 0 <= i < j < v@.len() ==> #[trigger] v@[i].seq != #[trigger] v@[j].seq,
        v@.len() > 0 && (v@[0].seq == upper_seq(pdu) <==> (!is_retransmit || v@.len() == 1 || s0 == upper_seq(pdu))),
{
    let a = pdu->Access_0;
    let bytes = access_bytes(a);
    let m = a.meta.seq;
    if bytes.len() <= 15 {
        return;
    }
    let n = segment_count(bytes.len());
    assert(n <= 32);
    assert(v@.len() == n);
    assert(network_fields_match(v@[0], a.meta, Ctl::Access));
    assert forall|i: int| 0 <= i < v@.len() implies #[trigger] v@[i].src == a.meta.src && v@[i].dst == a.meta.dst
        && v@[i].ttl == a.meta.ttl by {
        assert(network_fields_match(v@[i], a.meta, Ctl::Access));
    }
    assert forall|i: int, j: int| 0 <= i < j < v@.len() implies #[trigger] v@[i].seq != #[trigger] v@[j].seq by {
        assert(network_fields_match(v@[i], a.meta, Ctl::Access));
        assert(network_fields_match(v@[j], a.meta, Ctl::Access));
        let ki = if is_retransmit { i } else { i - 1 };
        let kj = if is_retransmit { j } else { j - 1 };
        lemma_wrap(s0 + kj);
        if ki >= 0 {
            lemma_wrap(s0 + ki);
        }
    }
    if is_retransmit && n > 1 {
        lemma_wrap(s0 as int);
    }
}

impl OutboundSegmentation {
    /// The network PDUs of an upper PDU, at most `max_pdus` of them. An access
    /// message of up to fifteen bytes (payload and MIC) goes unsegmented with
    /// its own sequence number; a longer one is cut into twelve-byte segments,
    /// the first keeping the message's sequence number unless retransmitted,
    /// every other taking the next one. A control message goes unsegmented
    /// with the next sequence number. Producing more than `max_pdus` PDUs
    /// fails once the sequence numbers up to the first PDU over the limit
    /// were taken.
    #[verifier::rlimit(40)]
    pub fn process(
        &mut self,
        sequence: &mut Sequence,
        pdu: &UpperPDU,
        is_retransmit: bool,
        max_pdus: usize,
    ) -> (r: Result<Vec<CleartextNetworkPDU>, DriverError>)
        ensures
            segmentation_outcome(*pdu, old(sequence)@, final(sequence)@, is_retransmit, max_pdus, r),
    {
        let mut result: Vec<CleartextNetworkPDU> = Vec::new();
        match pdu {
            UpperPDU::Access(inner) => {
                let payload = emit_access(inner)?;
                if payload.len() <= NONSEGMENTED_ACCESS_MTU {
                    let mut transport_pdu = Vec::new();
                    let first: u8 = match inner.meta.aid {
                        Some(a) => 0x40 + a % 64,
                        None => 0,
                    };
                    transport_pdu.push(first);
                    transport_pdu.extend_from_slice(payload.as_slice());
                    assert(transport_pdu@ =~= seq![access_header(false, inner.meta.aid)] + payload@);
                    if max_pdus == 0 {
                        return Err(DriverError::InsufficientSpace);
                    }
                    result.push(network_pdu(&inner.meta, Ctl::Access, inner.meta.seq, transport_pdu));
                } else {
                    let seq_zero: u16 = (inner.meta.seq % 8192) as u16;
                    let len = payload.len();
                    let count = (len + 11) / 12;
                    let seg_n = count - 1;
                    let ghost s0 = sequence@;
                    let ghost bytes = payload@;
                    let mut seg_o: usize = 0;
                    while seg_o < count
                        invariant
                            s0 == old(sequence)@,
                            *pdu == UpperPDU::Access(*inner),
                            bytes == payload@,
                            bytes == access_bytes(*inner),
                            15 < len <= 380,
                            len == bytes.len(),
                            count == segment_count(len as nat),
                            seg_n == count - 1,
                            seq_zero == seq_zero_of(inner.meta.seq),
                            seg_o <= count,
                            seg_o <= max_pdus,
                            result@.len() == seg_o,
                            sequence@ == seq_after(s0, seqs_taken(is_retransmit, seg_o as int)),
                            forall|i: int| 0 <= i < seg_o ==> {
                                &&& network_fields_match(#[trigger] result@[i], inner.meta, Ctl::Access)
                                &&& result@[i].seq == segment_seq(inner.meta.seq, s0, is_retransmit, i)
                                &&& result@[i].transport_pdu@ == segment_header(inner.meta.aid, seq_zero, i, seg_n as int)
                                    + segment(bytes, i)
                            },
                        decreases count - seg_o,
                    {
                        let seq = if !is_retransmit && seg_o == 0 {
                            inner.meta.seq
                        } else {
                            sequence.next()
                        };
                        let start = 12 * seg_o;
                        let end = if start + 12 <= len { start + 12 } else { len };
                        let mut transport_pdu = segment_header_bytes(inner.meta.aid, seq_zero, seg_o as u8, seg_n as u8);
                        transport_pdu.extend_from_slice(vstd::slice::slice_subrange(payload.as_slice(), start, end));
                        if seg_o >= max_pdus {
                            assert(sequence@ == seq_after(s0, seqs_taken(is_retransmit, seg_o + 1)));
                            return Err(DriverError::InsufficientSpace);
                        }
                        result.push(network_pdu(&inner.meta, Ctl::Access, seq, transport_pdu));
                        seg_o = seg_o + 1;
                    }
                }
            },
            UpperPDU::Control(inner) => {
                let network = self.process_unsegmented_control(sequence, inner)?;
                if max_pdus == 0 {
                    return Err(DriverError::InsufficientSpace);
                }
                result.push(network);
            },
        }
        Ok(result)
    }
}

/// The parameters of a Segment Acknowledgement: the thirteen bits of
/// `seq_zero` shifted left by two in a big-endian 16-bit field, then the
/// acknowledgement bits big-endian.
pub open spec fn block_ack_parameters(seq_zero: u16, bits: u32) -> Seq<u8> {
    let v = ((seq_zero % 0x8000) as int * 4) % 0x10000;
    seq![
        (v / 256) as u8,
        (v % 256) as u8,
        (bits / 0x100_0000) as u8,
        ((bits / 0x1_0000) % 256) as u8,
        ((bits / 256) % 256) as u8,
        (bits % 256) as u8,
    ]
}

/// The Segment Acknowledgement to send from `src` for the message described
/// by `meta`: addressed to the message's source, with the next sequence
/// number and the message's labels (more than three do not fit).
pub fn block_ack_to_upper_pdu(
    sequence: &mut Sequence,
    block_ack: crate::driver::block_ack::BlockAck,
    meta: &UpperMetadata,
    src: u16,
) -> (r: Result<UpperControlPDU, crate::error::InsufficientBuffer>)
    ensures
        final(sequence)@ == seq_after(old(sequence)@, 1),
        meta.label_uuids@.len() > 3 ==> r is Err,
        meta.label_uuids@.len() <= 3 ==> (r matches Ok(c) && c.opcode == ControlOpcode::SegmentAcknowledgement
            && c.parameters@ == block_ack_parameters(block_ack.spec_seq_zero(), block_ack.spec_bits())
            && c.meta.iv_index == meta.iv_index && c.meta.nid == meta.nid && c.meta.aid == meta.aid
            && c.meta.seq == old(sequence)@ && c.meta.src == src && c.meta.dst == meta.src
            && c.meta.ttl == meta.ttl && c.meta.label_uuids@ == meta.label_uuids@
            && c.meta.seq_auth is None && c.meta.replay_seq is None),
{
    let raw: u16 = block_ack.seq_zero();
    let sz: u16 = raw & 0b0111111111111111u16;
    let shifted: u16 = sz << 2u16;
    assert(sz == raw % 0x8000 && shifted == ((sz as int * 4) % 0x10000) as u16) by (bit_vector)
        requires
            sz == raw & 0x7fffu16,
            shifted == sz << 2u16,
    ;
    let bits = block_ack.value();
    let mut parameters: Vec<u8> = Vec::new();
    parameters.push((shifted / 256) as u8);
    parameters.push((shifted % 256) as u8);
    parameters.push((bits / 0x100_0000) as u8);
    parameters.push(((bits / 0x1_0000) % 256) as u8);
    parameters.push(((bits / 256) % 256) as u8);
    parameters.push((bits % 256) as u8);
    assert(parameters@ =~= block_ack_parameters(block_ack.spec_seq_zero(), block_ack.spec_bits()));
    let seq = sequence.next();
    if meta.label_uuids.len() > 3 {
        return Err(crate::error::InsufficientBuffer);
    }
    let mut label_uuids = Vec::new();
    label_uuids.extend_from_slice(meta.label_uuids.as_slice());
    assert(label_uuids@ =~= meta.label_uuids@);
    Ok(UpperControlPDU {
        opcode: ControlOpcode::SegmentAcknowledgement,
        parameters,
        meta: UpperMetadata {
            iv_index: meta.iv_index,
            nid: meta.nid,
            aid: meta.aid,
            seq,
            src,
            dst: meta.src,
            ttl: meta.ttl,
            label_uuids,
            seq_auth: None,
            replay_seq: None,
        },
    })
}

} // verus!
