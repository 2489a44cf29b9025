//! Reassembly of segmented messages.

use vstd::prelude::*;
use crate::error::{DriverError, ParseError};
use crate::driver::block_ack::{BlockAck, Blocks, spec_is_complete, lemma_ack_bits};
use crate::driver::pdu::{
    ControlOpcode, SegmentedLowerPDU, SzMic, UpperAccessPDU, UpperControlPDU, UpperMetadata, UpperPDU,
    mic_len,
};
use crate::driver::system::{spec_upper_metadata_of_segment, UpperMetadataFields};
use crate::address::LabelUuid;
use crate::driver::watchdog::{Watchdog, keep_earlier, WatchdogEvent};
use crate::chunks::slice_chunk;

verus! {

/// The bytes of an access message segment.
pub const ACCESS_SEGMENT_SIZE: usize = 12;

/// The bytes of a control message segment.
pub const CONTROL_SEGMENT_SIZE: usize = 8;

/// The room for a reassembled access message.
pub const ACCESS_CAPACITY: usize = 380;

/// The room for a reassembled control message.
pub const CONTROL_CAPACITY: usize = 256;

/// `data` with `m` written at `off`.
pub open spec fn splice(data: Seq<u8>, off: int, m: Seq<u8>) -> Seq<u8> {
    data.subrange(0, off) + m + data.subrange(off + m.len(), data.len() as int)
}

/// Segment `k` of a message cut into segments of `size` bytes: the bytes
/// from offset `k * size` to the next offset or the end of the message.
pub open spec fn message_segment(msg: Seq<u8>, size: nat, k: int) -> Seq<u8> {
    msg.subrange(k * size, if (k + 1) * size < msg.len() { (k + 1) * size } else { msg.len() as int })
}

/// The buffer after the segments of `msg` numbered in `order` were written
/// at their offsets, in that order.
pub open spec fn spliced_segments(data: Seq<u8>, size: nat, msg: Seq<u8>, order: Seq<int>) -> Seq<u8>
    decreases order.len(),
{
    if order.len() == 0 {
        data
    } else {
        splice(spliced_segments(data, size, msg, order.drop_last()), order.last() * size, message_segment(msg, size, order.last()))
    }
}

/// Every position of the message whose segment was written holds the
/// message's byte.
proof fn lemma_spliced_positions(data: Seq<u8>, size: nat, msg: Seq<u8>, order: Seq<int>)
    requires
        size > 0,
        msg.len() <= data.len(),
        forall|i: int| 0 <= i < order.len() ==> 0 <= #[trigger] order[i] && order[i] * size < msg.len(),
    ensures
        spliced_segments(data, size, msg, order).len() == data.len(),
        forall|j: int| 0 <= j < msg.len() && order.contains(j / size as int) ==> #[trigger] spliced_segments(data, size, msg, order)[j] == msg[j],
    decreases order.len(),
{
    if order.len() > 0 {
        let rest = order.drop_last();
        assert forall|i: int| 0 <= i < rest.len() implies 0 <= #[trigger] rest[i] && rest[i] * size < msg.len() by {
            assert(rest[i] == order[i]);
        }
        lemma_spliced_positions(data, size, msg, rest);
        let prev = spliced_segments(data, size, msg, rest);
        let k = order.last();
        assert(0 <= k && k * size < msg.len()) by {
            assert(order[order.len() - 1] == k);
        }
        let off = k * size;
        let end = if (k + 1) * size < msg.len() { (k + 1) * size } else { msg.len() as int };
        assert(off <= end) by (nonlinear_arith)
            requires
                off == k * size,
                end == (if (k + 1) * size < msg.len() { (k + 1) * size } else { msg.len() as int }),
                k * size < msg.len(),
                size > 0,
        ;
        assert((k + 1) * size == k * size + size) by (nonlinear_arith);
        let seg = message_segment(msg, size, k);
        assert(seg.len() == end - off);
        let after = spliced_segments(data, size, msg, order);
        assert(after == splice(prev, off, seg));
        assert forall|j: int| 0 <= j < msg.len() && order.contains(j / size as int) implies #[trigger] after[j] == msg[j] by {
            let q = j / size as int;
            assert(q * size <= j < q * size + size) by (nonlinear_arith)
                requires
                    q == j / size as int,
                    0 <= j,
                    size > 0,
            ;
            if q == k {
                assert(off <= j < end);
                assert(after[j] == seg[j - off]);
            } else {
                let i = choose|i: int| 0 <= i < order.len() && order[i] == q;
                assert(i != order.len() - 1);
                assert(rest[i] == q);
                assert(rest.contains(q));
                if off <= j < end {
                    assert(k * size <= j < k * size + size);
                    assert(q == k) by (nonlinear_arith)
                        requires
                            k * size <= j < k * size + size,
                            q * size <= j < q * size + size,
                            size > 0,
                    ;
                }
                assert(after[j] == prev[j]);
            }
        }
    }
}

/// Writing every segment of a message into a buffer that can hold it, in
/// any order, leaves the message at the front of the buffer.
pub proof fn lemma_segments_reassemble(data: Seq<u8>, size: nat, msg: Seq<u8>, order: Seq<int>)
    requires
        size > 0,
        msg.len() <= data.len(),
        forall|i: int| 0 <= i < order.len() ==> 0 <= #[trigger] order[i] && order[i] * size < msg.len(),
        forall|k: int| 0 <= k && k * size < msg.len() ==> #[trigger] order.contains(k),
    ensures
        spliced_segments(data, size, msg, order).subrange(0, msg.len() as int) == msg,
{
    lemma_spliced_positions(data, size, msg, order);
    let r = spliced_segments(data, size, msg, order);
    assert forall|j: int| 0 <= j < msg.len() implies #[trigger] r.subrange(0, msg.len() as int)[j] == msg[j] by {
        let q = j / size as int;
        assert(0 <= q && q * size <= j) by (nonlinear_arith)
            requires
                q == j / size as int,
                0 <= j,
                size > 0,
        ;
        assert(order.contains(q));
    }
    assert(r.subrange(0, msg.len() as int) =~= msg);
}

/// What a reassembly is of: an access message with its MIC size, or a
/// control message with its opcode.
#[derive(Copy, Clone, Debug, PartialEq, Eq, Structural)]
pub enum ReassemblyKind {
    Access(SzMic),
    Control(ControlOpcode),
}

/// A random-access buffer in which the segments of a message are assembled.
#[derive(Clone, Debug)]
pub struct Reassembly {
    pub kind: ReassemblyKind,
    pub data: Vec<u8>,
    pub len: usize,
}

/// The segment size and buffer size of a reassembly kind.
pub open spec fn segment_size(kind: ReassemblyKind) -> nat {
    match kind {
        ReassemblyKind::Access(_) => 12,
        ReassemblyKind::Control(_) => 8,
    }
}

pub open spec fn capacity(kind: ReassemblyKind) -> nat {
    match kind {
        ReassemblyKind::Access(_) => 380,
        ReassemblyKind::Control(_) => 256,
    }
}

/// Whether a segment is of the kind of message being assembled.
pub open spec fn same_kind(kind: ReassemblyKind, pdu: SegmentedLowerPDU) -> bool {
    match (kind, pdu) {
        (ReassemblyKind::Access(_), SegmentedLowerPDU::Access(_)) => true,
        (ReassemblyKind::Control(_), SegmentedLowerPDU::Control(_)) => true,
        _ => false,
    }
}

/// The segments a reassembly can take without an out-of-range write: a
/// segment other than the last has exactly the segment size, and every
/// segment lies within the buffer.
pub open spec fn ingest_fits(kind: ReassemblyKind, pdu: SegmentedLowerPDU) -> bool {
    let size = segment_size(kind);
    let off = size * pdu.spec_seg_o();
    let m = pdu.spec_segment();
    if pdu.spec_seg_o() == pdu.spec_seg_n() {
        off + m.len() <= capacity(kind)
    } else {
        m.len() == size && off + size <= capacity(kind)
    }
}

impl Reassembly {
    /// The buffer has the size of its kind and the length lies within it.
    pub open spec fn wf(&self) -> bool {
        &&& self.data@.len() == capacity(self.kind)
        &&& self.len <= self.data@.len()
    }

    /// An empty reassembly of the given kind.
    pub fn new(kind: ReassemblyKind) -> (r: Reassembly)
        ensures
            r.wf(),
            r.kind == kind,
            r.len == 0,
            r.data@ == Seq::new(capacity(kind), |i: int| 0u8),
    {
        let size: usize = match kind {
            ReassemblyKind::Access(_) => ACCESS_CAPACITY,
            ReassemblyKind::Control(_) => CONTROL_CAPACITY,
        };
        let mut data: Vec<u8> = Vec::new();
        let mut i: usize = 0;
        while i < size
            invariant
                i <= size,
                size == capacity(kind),
                data@ == Seq::new(i as nat, |j: int| 0u8),
            decreases size - i,
        {
            data.push(0);
            i = i + 1;
            assert(data@ =~= Seq::new(i as nat, |j: int| 0u8));
        }
        Reassembly { kind, data, len: 0 }
    }

    /// An empty reassembly of an access message.
    pub fn new_access(szmic: SzMic) -> (r: Reassembly)
        ensures
            r.wf(),
            r.kind == ReassemblyKind::Access(szmic),
            r.len == 0,
    {
        Reassembly::new(ReassemblyKind::Access(szmic))
    }

    /// An empty reassembly of a control message.
    pub fn new_control(opcode: ControlOpcode) -> (r: Reassembly)
        ensures
            r.wf(),
            r.kind == ReassemblyKind::Control(opcode),
            r.len == 0,
    {
        Reassembly::new(ReassemblyKind::Control(opcode))
    }

    /// Writes a segment at its offset; the last segment also fixes the length.
    /// A segment of the other kind of message is refused.
    pub fn ingest(&mut self, pdu: &SegmentedLowerPDU) -> (r: Result<(), DriverError>)
        requires
            old(self).wf(),
            same_kind(old(self).kind, *pdu) ==> ingest_fits(old(self).kind, *pdu),
        ensures
            final(self).wf(),
            final(self).kind == old(self).kind,
            !same_kind(old(self).kind, *pdu) ==> r == Err::<(), DriverError>(DriverError::InvalidPDU)
                && final(self).data@ == old(self).data@ && final(self).len == old(self).len,
            same_kind(old(self).kind, *pdu) ==> r is Ok && final(self).data@ == splice(
                old(self).data@,
                segment_size(old(self).kind) * pdu.spec_seg_o(),
                pdu.spec_segment(),
            ) && final(self).len == (if pdu.spec_seg_o() == pdu.spec_seg_n() {
                segment_size(old(self).kind) * pdu.spec_seg_n() + pdu.spec_segment().len()
            } else {
                old(self).len as int
            }),
    {
        let size: usize = match (&self.kind, pdu) {
            (ReassemblyKind::Access(_), SegmentedLowerPDU::Access(_)) => ACCESS_SEGMENT_SIZE,
            (ReassemblyKind::Control(_), SegmentedLowerPDU::Control(_)) => CONTROL_SEGMENT_SIZE,
            _ => return Err(DriverError::InvalidPDU),
        };
        let (seg_o, seg_n, m) = match pdu {
            SegmentedLowerPDU::Access(p) => (p.seg_o, p.seg_n, &p.segment_m),
            SegmentedLowerPDU::Control(p) => (p.seg_o, p.seg_n, &p.segment_m),
        };
        let off = size * (seg_o as usize);
        let ghost before = self.data@;
        assert(size as nat == segment_size(self.kind));
        assert(off + m@.len() <= before.len());
        let mut i: usize = 0;
        while i < m.len()
            invariant
                i <= m@.len(),
                off + m@.len() <= before.len(),
                before.len() <= 380,
                self.kind == old(self).kind,
                self.len == old(self).len,
                self.len <= before.len(),
                self.data@.len() == before.len(),
                forall|j: int| 0 <= j < off ==> self.data@[j] == before[j],
                forall|j: int| off <= j < off + i ==> self.data@[j] == m@[j - off],
                forall|j: int| off + i <= j < before.len() ==> self.data@[j] == before[j],
            decreases m@.len() - i,
        {
            self.data.set(off + i, m[i]);
            i = i + 1;
        }
        assert(self.data@ =~= splice(before, off as int, m@));
        if seg_o == seg_n {
            self.len = size * (seg_n as usize) + m.len();
        }
        Ok(())
    }

    /// The assembled message: the first `len` bytes, split into payload and
    /// MIC for an access message.
    pub fn reassemble(&self, meta: UpperMetadata) -> (r: Result<UpperPDU, DriverError>)
        requires
            self.wf(),
        ensures
            match self.kind {
                ReassemblyKind::Control(opcode) => r matches Ok(UpperPDU::Control(c)) && c.opcode == opcode
                    && c.parameters@ == self.data@.subrange(0, self.len as int) && c.meta == meta,
                ReassemblyKind::Access(szmic) => if self.len < mic_len(szmic) {
                    r == Err::<UpperPDU, DriverError>(DriverError::Parse(ParseError::InvalidLength))
                } else {
                    r matches Ok(UpperPDU::Access(a)) && a.payload@ == self.data@.subrange(
                        0,
                        self.len - mic_len(szmic),
                    ) && a.transmic@ == self.data@.subrange(self.len - mic_len(szmic), self.len as int)
                        && a.meta == meta
                },
            },
    {
        let bytes = vstd::slice::slice_subrange(self.data.as_slice(), 0, self.len);
        match self.kind {
            ReassemblyKind::Control(opcode) => {
                Ok(UpperPDU::Control(UpperControlPDU { opcode, parameters: slice_chunk(bytes), meta }))
            },
            ReassemblyKind::Access(szmic) => {
                let mic = szmic.len();
                if bytes.len() < mic {
                    return Err(DriverError::Parse(ParseError::InvalidLength));
                }
                let payload = slice_chunk(vstd::slice::slice_subrange(bytes, 0, bytes.len() - mic));
                let transmic = slice_chunk(vstd::slice::slice_subrange(bytes, bytes.len() - mic, bytes.len()));
                Ok(UpperPDU::Access(UpperAccessPDU { payload, transmic, meta }))
            },
        }
    }
}

/// The plain state of upper metadata.
pub struct UpperMetaView {
    pub fields: UpperMetadataFields,
    pub aid: Option<u8>,
    pub label_uuids: Seq<LabelUuid>,
}

impl UpperMetadata {
    pub open spec fn view_meta(&self) -> UpperMetaView {
        UpperMetaView { fields: self.fields(), aid: self.aid, label_uuids: self.label_uuids@ }
    }

    /// A copy of the metadata.
    pub fn duplicate(&self) -> (r: UpperMetadata)
        ensures
            r.view_meta() == self.view_meta(),
    {
        let mut label_uuids: Vec<LabelUuid> = Vec::new();
        let mut i: usize = 0;
        while i < self.label_uuids.len()
            invariant
                i <= self.label_uuids@.len(),
                label_uuids@ == self.label_uuids@.subrange(0, i as int),
            decreases self.label_uuids@.len() - i,
        {
            label_uuids.push(self.label_uuids[i]);
            i = i + 1;
            assert(label_uuids@ =~= self.label_uuids@.subrange(0, i as int));
        }
        assert(self.label_uuids@.subrange(0, i as int) =~= self.label_uuids@);
        UpperMetadata {
            iv_index: self.iv_index,
            nid: self.nid,
            aid: self.aid,
            seq: self.seq,
            src: self.src,
            dst: self.dst,
            ttl: self.ttl,
            label_uuids,
            seq_auth: self.seq_auth,
            replay_seq: self.replay_seq,
        }
    }
}

/// The largest instant, in ticks, the stack accepts: an inbound deadline is
/// at most 12 900 ticks later.
pub open spec fn instant_ok(t: u64) -> bool {
    t <= u64::MAX - 20_000
}

/// The plain state of an in-flight reassembly.
pub struct InFlightView {
    pub seq_zero: u16,
    pub blocks: Blocks,
    pub kind: ReassemblyKind,
    pub data: Seq<u8>,
    pub len: nat,
    pub meta: UpperMetaView,
    pub last_ack: u64,
    pub watchdogs: u8,
}

/// What a segment's message is assembled as.
pub open spec fn kind_of(pdu: SegmentedLowerPDU) -> ReassemblyKind {
    match pdu {
        SegmentedLowerPDU::Access(a) => ReassemblyKind::Access(a.szmic),
        SegmentedLowerPDU::Control(c) => ReassemblyKind::Control(c.opcode),
    }
}

/// The metadata view of a segment's message.
pub open spec fn meta_view_of(pdu: SegmentedLowerPDU) -> UpperMetaView {
    UpperMetaView {
        fields: spec_upper_metadata_of_segment(pdu).0,
        aid: spec_upper_metadata_of_segment(pdu).1,
        label_uuids: Seq::empty(),
    }
}

/// A fresh reassembly for the message of `pdu`, started at `now`.
pub open spec fn fresh_view(pdu: SegmentedLowerPDU, now: u64) -> InFlightView {
    InFlightView {
        seq_zero: pdu.spec_seq_zero(),
        blocks: Blocks { seg_n: pdu.spec_seg_n(), block_ack: BlockAck::spec_new(0, pdu.spec_seq_zero()) },
        kind: kind_of(pdu),
        data: Seq::new(capacity(kind_of(pdu)), |i: int| 0u8),
        len: 0,
        meta: meta_view_of(pdu),
        last_ack: now,
        watchdogs: 0,
    }
}

/// Whether a segment belongs to the message being reassembled: same kind,
/// same MIC size or opcode, same first sequence number.
pub open spec fn view_accepts(v: InFlightView, pdu: SegmentedLowerPDU) -> bool {
    kind_of(pdu) == v.kind && v.seq_zero == pdu.spec_seq_zero()
}

/// The in-flight reassembly of a segmented message from one source.
pub struct InFlight {
    pub seq_zero: u16,
    pub blocks: Blocks,
    pub reassembly: Reassembly,
    pub meta: UpperMetadata,
    pub last_ack: u64,
    pub watchdogs: u8,
}

impl InFlight {
    pub open spec fn view(&self) -> InFlightView {
        InFlightView {
            seq_zero: self.seq_zero,
            blocks: self.blocks,
            kind: self.reassembly.kind,
            data: self.reassembly.data@,
            len: self.reassembly.len as nat,
            meta: self.meta.view_meta(),
            last_ack: self.last_ack,
            watchdogs: self.watchdogs,
        }
    }

    pub open spec fn wf(&self) -> bool {
        self.reassembly.wf()
    }

    /// Starts the reassembly of an access message.
    pub fn new_access(seq_zero: u16, seg_n: u8, szmic: SzMic, meta: UpperMetadata, now: u64) -> (r: InFlight)
        ensures
            r.wf(),
            r.seq_zero == seq_zero,
            r.blocks.seg_n == seg_n,
            r.blocks.block_ack == BlockAck::spec_new(0, seq_zero),
            r.reassembly.kind == ReassemblyKind::Access(szmic),
            r.reassembly.len == 0,
            r.reassembly.data@ == Seq::new(380, |i: int| 0u8),
            r.meta == meta,
            r.last_ack == now,
            r.watchdogs == 0,
    {
        let blocks = Blocks::new(seq_zero, seg_n);
        InFlight {
            seq_zero,
            blocks,
            reassembly: Reassembly::new(ReassemblyKind::Access(szmic)),
            meta,
            last_ack: now,
            watchdogs: 0,
        }
    }

    /// Starts the reassembly of a control message.
    pub fn new_control(seq_zero: u16, seg_n: u8, opcode: ControlOpcode, meta: UpperMetadata, now: u64) -> (r: InFlight)
        ensures
            r.wf(),
            r.seq_zero == seq_zero,
            r.blocks.seg_n == seg_n,
            r.blocks.block_ack == BlockAck::spec_new(0, seq_zero),
            r.reassembly.kind == ReassemblyKind::Control(opcode),
            r.reassembly.len == 0,
            r.reassembly.data@ == Seq::new(256, |i: int| 0u8),
            r.meta == meta,
            r.last_ack == now,
            r.watchdogs == 0,
    {
        let blocks = Blocks::new(seq_zero, seg_n);
        InFlight {
            seq_zero,
            blocks,
            reassembly: Reassembly::new(ReassemblyKind::Control(opcode)),
            meta,
            last_ack: now,
            watchdogs: 0,
        }
    }

    /// Starts the reassembly of the message `pdu` is a segment of.
    pub fn new(pdu: &SegmentedLowerPDU, now: u64) -> (r: InFlight)
        ensures
            r.wf(),
            r.view() == fresh_view(*pdu, now),
    {
        let meta = UpperMetadata::from_segmented_lower_pdu(pdu);
        assert(meta.label_uuids@ =~= Seq::<LabelUuid>::empty());
        match pdu {
            SegmentedLowerPDU::Access(inner) => InFlight::new_access(inner.seq_zero, inner.seg_n, inner.szmic, meta, now),
            SegmentedLowerPDU::Control(inner) => InFlight::new_control(inner.seq_zero, inner.seg_n, inner.opcode, meta, now),
        }
    }

    /// Counts a watchdog expiry: past the second, the reassembly is given up
    /// and the source returned; otherwise the acknowledgement is sent again.
    pub fn expire(&mut self, now: u64) -> (r: Result<Option<(BlockAck, UpperMetadata)>, u16>)
        requires
            old(self).watchdogs < 255,
        ensures
            final(self).watchdogs == old(self).watchdogs + 1,
            old(self).watchdogs + 1 > 2 ==> r == Err::<Option<(BlockAck, UpperMetadata)>, u16>(old(self).meta.src)
                && final(self).view() == (InFlightView { watchdogs: (old(self).watchdogs + 1) as u8, ..old(self).view() }),
            old(self).watchdogs + 1 <= 2 ==> (r matches Ok(Some((b, m))) && b == old(self).blocks.block_ack
                && m.view_meta() == old(self).meta.view_meta()
                && final(self).view() == (InFlightView {
                    watchdogs: (old(self).watchdogs + 1) as u8,
                    last_ack: now,
                    ..old(self).view()
                })),
            final(self).wf() == old(self).wf(),
    {
        self.watchdogs = self.watchdogs + 1;
        if self.watchdogs > 2 {
            Err(self.meta.src)
        } else {
            self.last_ack = now;
            Ok(Some((self.blocks.block_ack, self.meta.duplicate())))
        }
    }

    /// The current acknowledgement.
    pub fn block_ack(&self) -> (r: BlockAck)
        ensures
            r == self.blocks.block_ack,
    {
        self.blocks.block_ack
    }

    /// Whether `pdu` is a segment of this message.
    pub fn is_valid(&self, pdu: &SegmentedLowerPDU) -> (r: bool)
        ensures
            r == view_accepts(self.view(), *pdu),
    {
        match (&self.reassembly.kind, pdu) {
            (ReassemblyKind::Access(szmic), SegmentedLowerPDU::Access(p)) => {
                if p.szmic != *szmic {
                    return false;
                }
            },
            (ReassemblyKind::Control(opcode), SegmentedLowerPDU::Control(p)) => {
                if p.opcode != *opcode {
                    return false;
                }
            },
            _ => return false,
        }
        self.seq_zero == pdu.seq_zero()
    }

    /// Whether the segment was already processed.
    pub fn already_seen(&self, pdu: &SegmentedLowerPDU) -> (r: Result<bool, DriverError>)
        ensures
            r == (if pdu.spec_seg_o() < 32 {
                Ok(self.blocks.block_ack.acked(pdu.spec_seg_o() as int))
            } else {
                Err::<bool, DriverError>(DriverError::InvalidState)
            }),
    {
        self.blocks.already_seen(pdu.seg_o())
    }

    /// Takes a segment of this message.
    pub fn ingest(&mut self, pdu: &SegmentedLowerPDU, now: u64) -> (r: Result<(), DriverError>)
        requires
            old(self).wf(),
            ingest_fits(old(self).reassembly.kind, *pdu),
        ensures
            final(self).wf(),
            final(self).view() == spec_ingest(old(self).view(), *pdu, now).0,
            r == spec_ingest(old(self).view(), *pdu, now).1,
    {
        if !self.is_valid(pdu) {
            return Err(DriverError::InvalidPDU);
        }
        let ghost before = self.view();
        self.last_ack = now;
        let r = self.reassembly.ingest(pdu);
        assert(r is Ok);
        let ghost written = spec_ingest(before, *pdu, now).0;
        assert(self.reassembly.data@ == splice(before.data, segment_size(before.kind) * pdu.spec_seg_o(), pdu.spec_segment()));
        let r = self.blocks.ack(pdu.seg_o());
        proof {
            if pdu.spec_seg_o() > before.blocks.seg_n || pdu.spec_seg_o() >= 32 {
                assert(self.view() == written);
            } else {
                assert(self.view().blocks == written.blocks);
                assert(self.view() == written);
            }
        }
        match r {
            Ok(()) => Ok(()),
            Err(e) => Err(e),
        }
    }

    /// Whether every segment was processed.
    pub fn is_complete(&self) -> (r: Result<bool, DriverError>)
        ensures
            r == spec_is_complete(self.blocks.block_ack, self.blocks.seg_n),
    {
        self.blocks.is_complete()
    }

    /// The reassembled message, once complete.
    pub fn reassemble(&self, meta: UpperMetadata) -> (r: Result<UpperPDU, DriverError>)
        requires
            self.wf(),
        ensures
            spec_is_complete(self.blocks.block_ack, self.blocks.seg_n) matches Err(e) ==> r == Err::<UpperPDU, DriverError>(e),
            spec_is_complete(self.blocks.block_ack, self.blocks.seg_n) == Ok::<bool, DriverError>(false)
                ==> r == Err::<UpperPDU, DriverError>(DriverError::InvalidState),
            spec_is_complete(self.blocks.block_ack, self.blocks.seg_n) == Ok::<bool, DriverError>(true)
                ==> reassembled(self.view(), meta, r),
    {
        if !self.is_complete()? {
            return Err(DriverError::InvalidState);
        }
        self.reassembly.reassemble(meta)
    }

    /// Records the deadline of this reassembly: 150 ticks plus 50 per hop of
    /// TTL after the last acknowledgement.
    pub fn set_watchdog_expiration(&self, watchdog: &mut Watchdog)
        requires
            instant_ok(self.last_ack),
        ensures
            *final(watchdog) == (Watchdog {
                inbound_expiration: keep_earlier(
                    old(watchdog).inbound_expiration,
                    (self.last_ack + 150 + 50 * self.meta.ttl) as u64,
                    WatchdogEvent::InboundExpiration(self.seq_zero),
                ),
                ..*old(watchdog)
            }),
    {
        watchdog.inbound_expiration((self.last_ack + (150 + 50 * (self.meta.ttl as u64)), self.seq_zero));
    }
}

/// What taking a segment does: a segment of another message is refused and
/// changes nothing; otherwise the segment is written and the acknowledgement
/// time moves to `now`, then the segment is acknowledged, which fails (after
/// the write) for an offset beyond the last segment or beyond 31.
pub open spec fn spec_ingest(before: InFlightView, pdu: SegmentedLowerPDU, now: u64) -> (InFlightView, Result<(), DriverError>) {
    if !view_accepts(before, pdu) {
        (before, Err(DriverError::InvalidPDU))
    } else {
        let written = InFlightView {
            data: splice(before.data, segment_size(before.kind) * pdu.spec_seg_o(), pdu.spec_segment()),
            len: if pdu.spec_seg_o() == pdu.spec_seg_n() {
                (segment_size(before.kind) * pdu.spec_seg_n() + pdu.spec_segment().len()) as nat
            } else {
                before.len
            },
            last_ack: now,
            ..before
        };
        if pdu.spec_seg_o() > before.blocks.seg_n || pdu.spec_seg_o() >= 32 {
            (written, Err(DriverError::InvalidState))
        } else {
            (
                InFlightView {
                    blocks: Blocks {
                        seg_n: before.blocks.seg_n,
                        block_ack: BlockAck::spec_new(
                            before.blocks.block_ack.spec_bits() | (1u32 << pdu.spec_seg_o()),
                            before.blocks.block_ack.spec_seq_zero(),
                        ),
                    },
                    ..written
                },
                Ok(()),
            )
        }
    }
}

/// The message a complete reassembly gives: its first `len` bytes, split
/// into payload and MIC for an access message.
pub open spec fn reassembled(v: InFlightView, meta: UpperMetadata, r: Result<UpperPDU, DriverError>) -> bool {
    match v.kind {
        ReassemblyKind::Control(opcode) => r matches Ok(UpperPDU::Control(c)) && c.opcode == opcode
            && c.parameters@ == v.data.subrange(0, v.len as int) && c.meta == meta,
        ReassemblyKind::Access(szmic) => if v.len < mic_len(szmic) {
            r == Err::<UpperPDU, DriverError>(DriverError::Parse(ParseError::InvalidLength))
        } else {
            r matches Ok(UpperPDU::Access(a)) && a.payload@ == v.data.subrange(0, v.len - mic_len(szmic))
                && a.transmic@ == v.data.subrange(v.len - mic_len(szmic), v.len as int) && a.meta == meta
        },
    }
}

/// The deadline of an in-flight reassembly: 150 ticks plus 50 per hop of TTL
/// after its last acknowledgement.
pub open spec fn deadline_of(v: InFlightView) -> u64 {
    (v.last_ack + 150 + 50 * v.meta.fields.ttl) as u64
}

/// The inbound deadline after recording that of each reassembly in turn.
pub open spec fn record_deadlines(w: Option<crate::driver::watchdog::Deadline>, s: Seq<(u16, InFlightView)>) -> Option<crate::driver::watchdog::Deadline>
    decreases s.len(),
{
    if s.len() == 0 {
        w
    } else {
        keep_earlier(
            record_deadlines(w, s.drop_last()),
            deadline_of(s.last().1),
            WatchdogEvent::InboundExpiration(s.last().1.seq_zero),
        )
    }
}

/// The index of the reassembly from `src`, if there is one.
pub open spec fn key_index(s: Seq<(u16, InFlightView)>, src: u16) -> Option<int> {
    if exists|i: int| 0 <= i < s.len() && #[trigger] s[i].0 == src {
        Some(choose|i: int| 0 <= i < s.len() && #[trigger] s[i].0 == src)
    } else {
        None
    }
}

/// The first index of a reassembly with the given first sequence number.
pub open spec fn seq_zero_index(s: Seq<(u16, InFlightView)>, seq_zero: u16) -> Option<int> {
    if exists|i: int| 0 <= i < s.len() && #[trigger] s[i].1.seq_zero == seq_zero {
        Some(choose|i: int| 0 <= i < s.len() && #[trigger] s[i].1.seq_zero == seq_zero
            && forall|j: int| 0 <= j < i ==> s[j].1.seq_zero != seq_zero)
    } else {
        None
    }
}

/// `s` without entry `i`, the last entry taking its place.
pub open spec fn swap_removed<T>(s: Seq<T>, i: int) -> Seq<T> {
    s.update(i, s.last()).drop_last()
}

/// What taking a segment comes to.
pub enum SegmentOutcome {
    /// The segment was refused with this error.
    Failed(DriverError),
    /// The segment was taken (or had been); this is the acknowledgement.
    Acked(BlockAck),
    /// The segment completed the message; this is the acknowledgement.
    Completed(BlockAck),
}

/// The reassemblies after taking a segment, what it comes to, and the state
/// of the reassembly it went to.
pub open spec fn spec_process(s: Seq<(u16, InFlightView)>, pdu: SegmentedLowerPDU, now: u64) -> (Seq<(u16, InFlightView)>, SegmentOutcome, InFlightView) {
    let src = pdu.spec_meta().src;
    let found = key_index(s, src);
    if found is None && s.len() >= 4 {
        (s, SegmentOutcome::Failed(DriverError::InsufficientSpace), fresh_view(pdu, now))
    } else {
        let s1 = if found is Some { s } else { s.push((src, fresh_view(pdu, now))) };
        let i = if found is Some { found->0 } else { s.len() as int };
        let e = s1[i].1;
        if !view_accepts(e, pdu) {
            (s1, SegmentOutcome::Failed(DriverError::InvalidPDU), e)
        } else if pdu.spec_seg_o() >= 32 {
            (s1, SegmentOutcome::Failed(DriverError::InvalidState), e)
        } else if e.blocks.block_ack.acked(pdu.spec_seg_o() as int) {
            (s1, SegmentOutcome::Acked(e.blocks.block_ack), e)
        } else {
            let e2 = spec_ingest(e, pdu, now).0;
            let s2 = s1.update(i, (src, e2));
            match spec_ingest(e, pdu, now).1 {
                Err(err) => (s2, SegmentOutcome::Failed(err), e2),
                Ok(_) => match spec_is_complete(e2.blocks.block_ack, e2.blocks.seg_n) {
                    Err(err) => (s2, SegmentOutcome::Failed(err), e2),
                    Ok(false) => (s2, SegmentOutcome::Acked(e2.blocks.block_ack), e2),
                    Ok(true) => if e2.kind matches ReassemblyKind::Access(sz) && e2.len < mic_len(sz) {
                        (s2, SegmentOutcome::Failed(DriverError::Parse(ParseError::InvalidLength)), e2)
                    } else {
                        (swap_removed(s2, i), SegmentOutcome::Completed(e2.blocks.block_ack), e2)
                    },
                },
            }
        }
    }
}

/// Reassembly tables as they come about: one reassembly per source, each
/// acknowledging segments of its own first sequence number.
pub open spec fn views_consistent(s: Seq<(u16, InFlightView)>) -> bool {
    &&& forall|i: int, j: int| 0 <= i < j < s.len() ==> (#[trigger] s[i]).0 != (#[trigger] s[j]).0
    &&& forall|i: int| 0 <= i < s.len() ==> (#[trigger] s[i]).1.blocks.block_ack.spec_seq_zero() == s[i].1.seq_zero
}

/// With distinct sources, the entry found for a source is the only one.
proof fn lemma_key_index_unique(s: Seq<(u16, InFlightView)>, src: u16, k: int)
    requires
        views_consistent(s),
        0 <= k < s.len(),
        s[k].0 == src,
    ensures
        key_index(s, src) == Some(k),
{
    let c = choose|i: int| 0 <= i < s.len() && #[trigger] s[i].0 == src;
    assert(0 <= c < s.len() && s[c].0 == src);
    if c < k {
        assert(s[c].0 != s[k].0);
    } else if c > k {
        assert(s[k].0 != s[c].0);
    }
}

/// What taking a segment acknowledges, for a table as it comes about:
/// - the table stays as it comes about;
/// - an acknowledgement is for the segment's first sequence number and has
///   the segment's bit set;
/// - a completed message has every segment up to the last acknowledged, and
///   its reassembly is gone from the table, while a newly written segment
///   that leaves the message incomplete is acknowledged with a segment still
///   missing;
/// - a segment of another message than the one its source is sending is
///   refused as invalid, and one of a new source when four are in flight for
///   lack of room, the table unchanged either way.
pub proof fn lemma_process_acknowledges(s: Seq<(u16, InFlightView)>, pdu: SegmentedLowerPDU, now: u64)
    requires
        views_consistent(s),
    ensures
        ({
            let (s2, out, e) = spec_process(s, pdu, now);
            let src = pdu.spec_meta().src;
            &&& views_consistent(s2)
            &&& out matches SegmentOutcome::Acked(b) ==> b.spec_seq_zero() == pdu.spec_seq_zero() && b.acked(pdu.spec_seg_o() as int)
            &&& (out is Acked && reaches_ingest(s, pdu, now))
                ==> exists|i: int| 0 <= i <= e.blocks.seg_n && i < 32 && !#[trigger] out->Acked_0.acked(i)
            &&& out matches SegmentOutcome::Completed(b) ==> {
                &&& b.spec_seq_zero() == pdu.spec_seq_zero()
                &&& b.acked(pdu.spec_seg_o() as int)
                &&& forall|i: int| 0 <= i <= e.blocks.seg_n ==> #[trigger] b.acked(i)
                &&& key_index(s2, src) is None
            }
            &&& (key_index(s, src) matches Some(k) && !view_accepts(s[k].1, pdu))
                ==> out == SegmentOutcome::Failed(DriverError::InvalidPDU) && s2 == s
            &&& (key_index(s, src) is None && s.len() >= 4)
                ==> out == SegmentOutcome::Failed(DriverError::InsufficientSpace) && s2 == s
        }),
{
    let src = pdu.spec_meta().src;
    let found = key_index(s, src);
    if found is Some {
        let k = choose|i: int| 0 <= i < s.len() && #[trigger] s[i].0 == src;
        lemma_key_index_unique(s, src, k);
    }
    if found is None && s.len() >= 4 {
        return;
    }
    let s1 = if found is Some { s } else { s.push((src, fresh_view(pdu, now))) };
    let i = if found is Some { found->0 } else { s.len() as int };
    BlockAck::lemma_spec_new(0, pdu.spec_seq_zero());
    assert(views_consistent(s1)) by {
        if found is None {
            assert forall|a: int| 0 <= a < s.len() implies (#[trigger] s[a]).0 != src by {
                assert(s[a].0 == src ==> exists|x: int| 0 <= x < s.len() && #[trigger] s[x].0 == src);
            }
            assert forall|a: int, b: int| 0 <= a < b < s1.len() implies (#[trigger] s1[a]).0 != (#[trigger] s1[b]).0 by {
                if b == s.len() {
                    assert(s1[a] == s[a]);
                } else {
                    assert(s1[a] == s[a] && s1[b] == s[b]);
                }
            }
        }
    }
    assert(0 <= i < s1.len() && s1[i].0 == src);
    let e = s1[i].1;
    if !view_accepts(e, pdu) || pdu.spec_seg_o() >= 32 || e.blocks.block_ack.acked(pdu.spec_seg_o() as int) {
        return;
    }
    let e2 = spec_ingest(e, pdu, now).0;
    let s2 = s1.update(i, (src, e2));
    lemma_ack_bits(e.blocks.block_ack, pdu.spec_seg_o());
    BlockAck::lemma_spec_new(
        e.blocks.block_ack.spec_bits() | (1u32 << pdu.spec_seg_o()),
        e.blocks.block_ack.spec_seq_zero(),
    );
    assert(views_consistent(s2)) by {
        assert forall|a: int, b: int| 0 <= a < b < s2.len() implies (#[trigger] s2[a]).0 != (#[trigger] s2[b]).0 by {
            assert(s1[a].0 != s1[b].0);
        }
    }
    if spec_ingest(e, pdu, now).1 is Ok && spec_is_complete(e2.blocks.block_ack, e2.blocks.seg_n) == Ok::<bool, DriverError>(true)
        && !(e2.kind matches ReassemblyKind::Access(sz) && e2.len < mic_len(sz)) {
        let s3 = swap_removed(s2, i);
        let last = s2.len() - 1;
        assert forall|a: int| 0 <= a < s3.len() implies (#[trigger] s3[a]).0 != src by {
            if a == i {
                assert(s3[a] == s2[last]);
                assert(s2[i].0 != s2[last].0);
            } else {
                assert(s3[a] == s2[a]);
                if a < i {
                    assert(s2[a].0 != s2[i].0);
                } else {
                    assert(s2[i].0 != s2[a].0);
                }
            }
        }
        assert(views_consistent(s3)) by {
            assert forall|a: int, b: int| 0 <= a < b < s3.len() implies (#[trigger] s3[a]).0 != (#[trigger] s3[b]).0 by {
                if a == i {
                    assert(s3[a] == s2[last] && s3[b] == s2[b]);
                    assert(s2[b].0 != s2[last].0);
                } else if b == i {
                    assert(s3[b] == s2[last] && s3[a] == s2[a]);
                    assert(s2[a].0 != s2[last].0);
                } else {
                    assert(s3[a] == s2[a] && s3[b] == s2[b]);
                }
            }
            assert forall|a: int| 0 <= a < s3.len() implies (#[trigger] s3[a]).1.blocks.block_ack.spec_seq_zero() == s3[a].1.seq_zero by {
                if a == i {
                    assert(s3[a] == s2[last]);
                } else {
                    assert(s3[a] == s2[a]);
                }
            }
        }
        assert forall|x: int| 0 <= x <= e2.blocks.seg_n implies #[trigger] e2.blocks.block_ack.acked(x) by {
            if !e2.blocks.block_ack.acked(x) {
                if x < 32 {
                    assert(!e2.blocks.block_ack.acked(x));
                } else {
                    assert(e2.blocks.seg_n >= 32);
                }
            }
        }
    }
}

/// The result of taking a segment: the acknowledgement to send, the
/// metadata of the message, and the message once reassembled.
pub struct SegmentationResult {
    pub block_ack: BlockAck,
    pub meta: UpperMetadata,
    pub upper_pdu: Option<UpperPDU>,
}

/// The reassemblies in progress, at most four, one per source.
pub struct InboundSegmentation {
    current: Vec<(u16, InFlight)>,
}

impl InboundSegmentation {
    /// The reassemblies in progress, with their sources, in table order.
    pub open spec fn views(&self) -> Seq<(u16, InFlightView)> {
        self.spec_entries().map_values(|e: (u16, InFlight)| (e.0, e.1.view()))
    }

    pub closed spec fn spec_entries(&self) -> Seq<(u16, InFlight)> {
        self.current@
    }

    /// At most four reassemblies, one per source, each keyed by the source of
    /// its message, well formed, with an acceptable last acknowledgement and at
    /// most two watchdog expiries counted.
    pub closed spec fn wf(&self) -> bool {
        &&& self.current@.len() <= 4
        &&& forall|i: int, j: int| 0 <= i < j < self.current@.len() ==> self.current@[i].0 != self.current@[j].0
        &&& forall|i: int| 0 <= i < self.current@.len() ==> {
            &&& (#[trigger] self.current@[i]).1.wf()
            &&& self.current@[i].1.meta.src == self.current@[i].0
            &&& instant_ok(self.current@[i].1.last_ack)
            &&& self.current@[i].1.watchdogs <= 2
        }
    }

    /// No reassembly in progress.
    pub fn new() -> (r: InboundSegmentation)
        ensures
            r.wf(),
            r.views() == Seq::<(u16, InFlightView)>::empty(),
    {
        let r = InboundSegmentation { current: Vec::new() };
        assert(r.views() =~= Seq::<(u16, InFlightView)>::empty());
        r
    }
}

/// Whether taking `pdu` writes it into a buffer: it belongs to the (found or
/// new) reassembly of its source, has an offset below 32 and was not seen.
pub open spec fn reaches_ingest(s: Seq<(u16, InFlightView)>, pdu: SegmentedLowerPDU, now: u64) -> bool {
    let src = pdu.spec_meta().src;
    let found = key_index(s, src);
    let e = if found is Some { s[found->0].1 } else { fresh_view(pdu, now) };
    &&& !(found is None && s.len() >= 4)
    &&& view_accepts(e, pdu)
    &&& pdu.spec_seg_o() < 32
    &&& !e.blocks.block_ack.acked(pdu.spec_seg_o() as int)
}

/// The metadata of an upper PDU.
pub open spec fn upper_meta(u: UpperPDU) -> UpperMetadata {
    match u {
        UpperPDU::Access(a) => a.meta,
        UpperPDU::Control(c) => c.meta,
    }
}

/// Whether a segment fits the buffer of its kind of message: a segment other
/// than the last has exactly the segment size, and each lies within the
/// buffer.
pub fn fits_buffer(pdu: &SegmentedLowerPDU) -> (r: bool)
    ensures
        r == ingest_fits(kind_of(*pdu), *pdu),
{
    let (size, cap, len): (u64, u64, usize) = match pdu {
        SegmentedLowerPDU::Access(p) => (12, 380, p.segment_m.len()),
        SegmentedLowerPDU::Control(p) => (8, 256, p.segment_m.len()),
    };
    let off: u64 = size * pdu.seg_o() as u64;
    if pdu.seg_o() == pdu.seg_n() {
        (len as u64) <= cap && off <= cap - len as u64
    } else {
        len as u64 == size && off + size <= cap
    }
}

impl InboundSegmentation {
    /// The index of the reassembly from `src`.
    fn find(&self, src: u16) -> (r: Option<usize>)
        requires
            self.wf(),
        ensures
            r == (match key_index(self.views(), src) {
                Some(i) => Some(i as usize),
                None => None::<usize>,
            }),
    {
        let ghost v = self.views();
        let mut k: usize = 0;
        while k < self.current.len()
            invariant
                self.wf(),
                v == self.views(),
                k <= v.len(),
                forall|j: int| 0 <= j < k ==> v[j].0 != src,
            decreases v.len() - k,
        {
            if self.current[k].0 == src {
                assert(v[k as int].0 == src);
                let ghost c = choose|i: int| 0 <= i < v.len() && #[trigger] v[i].0 == src;
                assert(c == k) by {
                    if c != k {
                        assert(self.current@[c].0 == self.current@[k as int].0);
                    }
                };
                return Some(k);
            }
            k = k + 1;
        }
        None
    }

    /// Whether taking `pdu` at `now` is safe: where the segment would be
    /// written into a buffer, it fits there.
    pub fn segment_fits(&self, pdu: &SegmentedLowerPDU, now: u64) -> (r: bool)
        requires
            self.wf(),
        ensures
            r == (reaches_ingest(self.views(), *pdu, now) ==> ingest_fits(kind_of(*pdu), *pdu)),
    {
        let src = pdu.meta().src;
        let seg_o = pdu.seg_o();
        match self.find(src) {
            Some(i) => {
                let entry = &self.current[i].1;
                assert(self.views()[i as int].1 == entry.view());
                if !entry.is_valid(pdu) || seg_o >= 32 {
                    return true;
                }
                match entry.already_seen(pdu) {
                    Ok(true) => return true,
                    _ => {},
                }
            },
            None => {
                if self.current.len() >= 4 || seg_o >= 32 {
                    return true;
                }
                proof {
                    BlockAck::lemma_spec_new(0, pdu.spec_seq_zero());
                    crate::driver::block_ack::lemma_zero_bits(seg_o as u32);
                }
            },
        }
        fits_buffer(pdu)
    }

    /// Takes a segment: finds or starts the reassembly of its source's message
    /// (a new one has its deadline recorded, even when the table is full and it
    /// is not kept), checks that the segment belongs to it and, unless already
    /// seen, writes and acknowledges it. A completed message is reassembled and
    /// its reassembly dropped.
    #[verifier::rlimit(60)]
    pub fn process(&mut self, pdu: &SegmentedLowerPDU, watchdog: &mut Watchdog, now: u64) -> (r: Result<SegmentationResult, DriverError>)
        requires
            old(self).wf(),
            instant_ok(now),
            reaches_ingest(old(self).views(), *pdu, now) ==> ingest_fits(kind_of(*pdu), *pdu),
        ensures
            final(self).wf(),
            final(self).views() == spec_process(old(self).views(), *pdu, now).0,
            key_index(old(self).views(), pdu.spec_meta().src) is None ==> *final(watchdog) == (Watchdog {
                inbound_expiration: keep_earlier(
                    old(watchdog).inbound_expiration,
                    deadline_of(fresh_view(*pdu, now)),
                    WatchdogEvent::InboundExpiration(pdu.spec_seq_zero()),
                ),
                ..*old(watchdog)
            }),
            key_index(old(self).views(), pdu.spec_meta().src) is Some ==> *final(watchdog) == *old(watchdog),
            match spec_process(old(self).views(), *pdu, now).1 {
                SegmentOutcome::Failed(e) => r == Err::<SegmentationResult, DriverError>(e),
                SegmentOutcome::Acked(b) => r matches Ok(res) && res.block_ack == b
                    && res.meta.view_meta() == meta_view_of(*pdu) && res.upper_pdu is None,
                SegmentOutcome::Completed(b) => r matches Ok(res) && res.upper_pdu matches Some(u)
                    && res.block_ack == b && res.meta.view_meta() == meta_view_of(*pdu)
                    && upper_meta(u).view_meta() == meta_view_of(*pdu)
                    && reassembled(spec_process(old(self).views(), *pdu, now).2, upper_meta(u), Ok(u)),
            },
    {
        let ghost s = self.views();
        let src = pdu.meta().src;
        let found = self.find(src);
        let i = match found {
            Some(i) => i,
            None => {
                let in_flight = InFlight::new(pdu, now);
                in_flight.set_watchdog_expiration(watchdog);
                if self.current.len() >= 4 {
                    return Err(DriverError::InsufficientSpace);
                }
                self.current.push((src, in_flight));
                proof {
                    assert(self.views() =~= s.push((src, fresh_view(*pdu, now))));
                    assert(self.current@.last().1.meta.src == src);
                    assert forall|a: int, b: int| 0 <= a < b < self.current@.len()
                        implies self.current@[a].0 != self.current@[b].0 by {
                        if b == self.current@.len() - 1 {
                            assert(s[a].0 == self.current@[a].0);
                        }
                    }
                    assert(self.wf());
                }
                self.current.len() - 1
            },
        };
        let ghost s1 = self.views();
        let ghost e = s1[i as int].1;
        assert(e == self.current@[i as int].1.view());
        if !self.current[i].1.is_valid(pdu) {
            return Err(DriverError::InvalidPDU);
        }
        let seen = self.current[i].1.already_seen(pdu)?;
        if seen {
            let meta = UpperMetadata::from_segmented_lower_pdu(pdu);
            assert(meta.label_uuids@ =~= Seq::<LabelUuid>::empty());
            return Ok(
                SegmentationResult {
                    block_ack: self.current[i].1.block_ack(),
                    meta,
                    upper_pdu: None,
                },
            );
        }
        let ghost before_entries = self.current@;
        let r = self.current[i].1.ingest(pdu, now);
        proof {
            assert(self.current@ == before_entries.update(i as int, (src, self.current@[i as int].1)));
            assert(self.views() =~= s1.update(i as int, (src, spec_ingest(e, *pdu, now).0)));
        }
        if r.is_err() {
            return match r {
                Ok(()) => Ok(SegmentationResult { block_ack: self.current[i].1.block_ack(), meta: UpperMetadata::from_segmented_lower_pdu(pdu), upper_pdu: None }),
                Err(err) => Err(err),
            };
        }
        let block_ack = self.current[i].1.block_ack();
        let meta = UpperMetadata::from_segmented_lower_pdu(pdu);
        assert(meta.label_uuids@ =~= Seq::<LabelUuid>::empty());
        let complete = self.current[i].1.is_complete()?;
        if complete {
            let upper_meta = UpperMetadata::from_segmented_lower_pdu(pdu);
            assert(upper_meta.label_uuids@ =~= Seq::<LabelUuid>::empty());
            let reassembled = self.current[i].1.reassemble(upper_meta)?;
            let ghost s2 = self.views();
            self.current.swap_remove(i);
            proof {
                assert(self.views() =~= swap_removed(s2, i as int));
            }
            Ok(SegmentationResult { block_ack, meta, upper_pdu: Some(reassembled) })
        } else {
            Ok(SegmentationResult { block_ack, meta, upper_pdu: None })
        }
    }
}

/// The reassemblies after a watchdog expiry for `seq_zero`: the first
/// reassembly with that first sequence number counts the expiry (and, below
/// three, acknowledges again at `now`); the expired one, with its acknowledgement,
/// and whether it was given up.
pub open spec fn spec_expire(s: Seq<(u16, InFlightView)>, seq_zero: u16, now: u64) -> (Seq<(u16, InFlightView)>, Option<int>, bool) {
    match seq_zero_index(s, seq_zero) {
        None => (s, None, false),
        Some(j) => {
            let e = s[j].1;
            let count = (e.watchdogs + 1) as u8;
            if count > 2 {
                (s.update(j, (s[j].0, InFlightView { watchdogs: count, ..e })), Some(j), true)
            } else {
                (s.update(j, (s[j].0, InFlightView { watchdogs: count, last_ack: now, ..e })), Some(j), false)
            }
        },
    }
}

impl InboundSegmentation {
    /// The first index of a reassembly with first sequence number `seq_zero`.
    fn find_seq_zero(&self, seq_zero: u16) -> (r: Option<usize>)
        requires
            self.wf(),
        ensures
            r == (match seq_zero_index(self.views(), seq_zero) {
                Some(i) => Some(i as usize),
                None => None::<usize>,
            }),
    {
        let ghost v = self.views();
        let mut k: usize = 0;
        while k < self.current.len()
            invariant
                self.wf(),
                v == self.views(),
                k <= v.len(),
                forall|j: int| 0 <= j < k ==> v[j].1.seq_zero != seq_zero,
            decreases v.len() - k,
        {
            if self.current[k].1.seq_zero == seq_zero {
                assert(v[k as int].1.seq_zero == seq_zero);
                let ghost c = choose|i: int| 0 <= i < v.len() && #[trigger] v[i].1.seq_zero == seq_zero
                    && forall|j: int| 0 <= j < i ==> v[j].1.seq_zero != seq_zero;
                assert(c == k) by {
                    assert(0 <= k < v.len() && v[k as int].1.seq_zero == seq_zero
                        && forall|j: int| 0 <= j < k ==> v[j].1.seq_zero != seq_zero);
                    if c < k {
                        assert(v[c].1.seq_zero != seq_zero);
                    } else if c > k {
                        assert(v[k as int].1.seq_zero != seq_zero);
                    }
                };
                return Some(k);
            }
            k = k + 1;
        }
        None
    }

    /// Handles a watchdog expiry for `seq_zero`: the first reassembly with
    /// that first sequence number counts it; past two expiries it is dropped
    /// and nothing is returned, otherwise its acknowledgement and metadata are
    /// returned to be sent again. Every reassembly then records its deadline.
    #[verifier::rlimit(40)]
    pub fn expire_inbound(&mut self, seq_zero: u16, watchdog: &mut Watchdog, now: u64) -> (r: Option<(BlockAck, UpperMetadata)>)
        requires
            old(self).wf(),
            instant_ok(now),
        ensures
            final(self).wf(),
            *final(watchdog) == (Watchdog {
                inbound_expiration: record_deadlines(
                    old(watchdog).inbound_expiration,
                    spec_expire(old(self).views(), seq_zero, now).0,
                ),
                ..*old(watchdog)
            }),
            match spec_expire(old(self).views(), seq_zero, now) {
                (s1, None, _) => r is None && final(self).views() == s1,
                (s1, Some(j), true) => r is None && final(self).views() == swap_removed(s1, j),
                (s1, Some(j), false) => r matches Some((b, m)) && b == old(self).views()[j].1.blocks.block_ack
                    && m.view_meta() == old(self).views()[j].1.meta && final(self).views() == s1,
            },
    {
        let ghost s = self.views();
        let found = self.find_seq_zero(seq_zero);
        let mut result: Option<Result<Option<(BlockAck, UpperMetadata)>, u16>> = None;
        if let Some(j) = found {
            let ghost before_entries = self.current@;
            result = Some(self.current[j].1.expire(now));
            proof {
                assert(self.current@ == before_entries.update(j as int, (before_entries[j as int].0, self.current@[j as int].1)));
                assert(self.views() =~= spec_expire(s, seq_zero, now).0);
            }
        } else {
            assert(self.views() =~= spec_expire(s, seq_zero, now).0);
        }
        let ghost s1 = self.views();
        let ghost w0 = watchdog.inbound_expiration;
        let mut k: usize = 0;
        while k < self.current.len()
            invariant
                s1 == self.views(),
                k <= s1.len(),
                s1.len() == self.current@.len(),
                forall|i: int| 0 <= i < self.current@.len() ==> instant_ok(#[trigger] self.current@[i].1.last_ack),
                *watchdog == (Watchdog { inbound_expiration: record_deadlines(w0, s1.take(k as int)), ..*old(watchdog) }),
                w0 == old(watchdog).inbound_expiration,
            decreases s1.len() - k,
        {
            self.current[k].1.set_watchdog_expiration(watchdog);
            proof {
                assert(s1.take(k + 1).drop_last() =~= s1.take(k as int));
                assert(s1.take(k + 1).last() == s1[k as int]);
            }
            k = k + 1;
        }
        assert(s1.take(s1.len() as int) =~= s1);
        match result {
            Some(Err(src)) => {
                let j = found.unwrap();
                self.current.swap_remove(j);
                proof {
                    assert(self.views() =~= swap_removed(s1, j as int));
                }
                None
            },
            Some(Ok(inner)) => inner,
            None => None,
        }
    }
}

} // verus!
