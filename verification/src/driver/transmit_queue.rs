//! The queue of upper PDUs awaiting retransmission or acknowledgement.

use vstd::prelude::*;
use crate::address::is_unicast;
use crate::driver::block_ack::{BlockAck, bit_set};
use crate::driver::pdu::{UpperAccessPDU, UpperControlPDU, UpperMetadata, UpperPDU};
use crate::driver::inbound::{UpperMetaView, instant_ok};
use crate::driver::watchdog::{Watchdog, WatchdogEvent, keep_earlier, Deadline};

verus! {

/// The number of slots of the queue.
pub const QUEUE_SLOTS: usize = 8;

/// The plain content of an upper PDU.
pub struct UpperPDUView {
    pub is_access: bool,
    pub first: Seq<u8>,
    pub second: Seq<u8>,
    pub control_opcode: Option<crate::driver::pdu::ControlOpcode>,
    pub meta: UpperMetaView,
}

/// The plain content of an upper PDU: an access PDU's payload and MIC, or a
/// control PDU's opcode and parameters, and the metadata.
pub open spec fn upper_view(u: UpperPDU) -> UpperPDUView {
    match u {
        UpperPDU::Access(a) => UpperPDUView {
            is_access: true,
            first: a.payload@,
            second: a.transmic@,
            control_opcode: None,
            meta: a.meta.view_meta(),
        },
        UpperPDU::Control(c) => UpperPDUView {
            is_access: false,
            first: c.parameters@,
            second: Seq::empty(),
            control_opcode: Some(c.opcode),
            meta: c.meta.view_meta(),
        },
    }
}

/// The metadata of an upper PDU.
pub open spec fn pdu_meta(u: UpperPDU) -> UpperMetadata {
    match u {
        UpperPDU::Access(a) => a.meta,
        UpperPDU::Control(c) => c.meta,
    }
}

/// The low thirteen bits of a sequence number.
pub open spec fn seq_zero_of_seq(seq: u32) -> u16 {
    (seq % 8192) as u16
}

/// A copy of a byte vector.
fn copy_bytes(v: &Vec<u8>) -> (r: Vec<u8>)
    ensures
        r@ == v@,
{
    let mut r = Vec::new();
    r.extend_from_slice(v.as_slice());
    assert(r@ =~= v@);
    r
}

/// A copy of an upper PDU.
pub fn duplicate_upper(u: &UpperPDU) -> (r: UpperPDU)
    ensures
        upper_view(r) == upper_view(*u),
        pdu_meta(r).seq == pdu_meta(*u).seq,
        pdu_meta(r).ttl == pdu_meta(*u).ttl,
        pdu_meta(r).dst == pdu_meta(*u).dst,
{
    match u {
        UpperPDU::Access(a) => UpperPDU::Access(
            UpperAccessPDU { payload: copy_bytes(&a.payload), transmic: copy_bytes(&a.transmic), meta: a.meta.duplicate() },
        ),
        UpperPDU::Control(c) => UpperPDU::Control(
            UpperControlPDU { opcode: c.opcode, parameters: copy_bytes(&c.parameters), meta: c.meta.duplicate() },
        ),
    }
}

/// The acknowledgements received for a segmented message.
#[derive(Copy, Clone, Debug, PartialEq, Eq, Structural)]
pub struct Acked {
    pub num_segments: u8,
    pub block_ack: BlockAck,
}

/// Whether the first `n` segments are acknowledged.
pub open spec fn fully_acked(b: BlockAck, n: u8) -> bool {
    forall|i: int| 0 <= i < n ==> #[trigger] b.acked(i)
}

impl Acked {
    /// No segment of `num_segments` acknowledged.
    pub fn new(seq_zero: u16, num_segments: u8) -> (r: Acked)
        ensures
            r.num_segments == num_segments,
            r.block_ack == BlockAck::spec_new(0, seq_zero),
    {
        Acked { num_segments, block_ack: BlockAck::new(seq_zero) }
    }

    /// Adds the segments acknowledged by `block_ack`; returns whether every
    /// segment is now acknowledged.
    pub fn ack(&mut self, block_ack: BlockAck) -> (r: bool)
        requires
            old(self).num_segments <= 32,
        ensures
            final(self).num_segments == old(self).num_segments,
            final(self).block_ack == BlockAck::spec_new(
                old(self).block_ack.spec_bits() | block_ack.spec_bits(),
                old(self).block_ack.spec_seq_zero(),
            ),
            forall|i: int| #[trigger] final(self).block_ack.acked(i) == (old(self).block_ack.acked(i) || block_ack.acked(i)),
            r == fully_acked(final(self).block_ack, final(self).num_segments),
    {
        let bits = self.block_ack.value() | block_ack.value();
        let ghost before = self.block_ack;
        self.block_ack = BlockAck::from_bits(bits, self.block_ack.seq_zero());
        proof {
            BlockAck::lemma_spec_new(bits, before.spec_seq_zero());
            assert forall|i: int| #[trigger] self.block_ack.acked(i) == (before.acked(i) || block_ack.acked(i)) by {
                if 0 <= i < 32 {
                    lemma_or_bit(before.spec_bits(), block_ack.spec_bits(), i as u32);
                }
            }
        }
        let mut i: u8 = 0;
        while i < self.num_segments
            invariant
                i <= self.num_segments,
                self.num_segments <= 32,
                self.num_segments == old(self).num_segments,
                self.block_ack == BlockAck::spec_new(
                    old(self).block_ack.spec_bits() | block_ack.spec_bits(),
                    old(self).block_ack.spec_seq_zero(),
                ),
                forall|k: int| #[trigger] self.block_ack.acked(k) == (old(self).block_ack.acked(k) || block_ack.acked(k)),
                forall|j: int| 0 <= j < i ==> #[trigger] self.block_ack.acked(j),
            decreases self.num_segments - i,
        {
            match self.block_ack.is_acked(i) {
                Ok(true) => {},
                _ => {
                    return false;
                },
            }
            i = i + 1;
        }
        true
    }
}

/// Bit `i` of `a | b` is set when it is set in either.
pub proof fn lemma_or_bit(a: u32, b: u32, i: u32)
    requires
        i < 32,
    ensures
        ((a | b) >> i) & 1u32 == 1u32 <==> ((a >> i) & 1u32 == 1u32 || (b >> i) & 1u32 == 1u32),
{
    assert(((a | b) >> i) & 1u32 == 1u32 <==> ((a >> i) & 1u32 == 1u32 || (b >> i) & 1u32 == 1u32)) by (bit_vector)
        requires
            i < 32,
    ;
}

/// A queued upper PDU.
pub enum QueueEntry {
    /// Sent a given number more times, then dropped.
    Nonsegmented { upper_pdu: UpperPDU, num_retransmit: u8, completion_token: Option<u32> },
    /// Sent again until every segment is acknowledged or it expires.
    Segmented { upper_pdu: UpperPDU, acked: Acked, completion_token: Option<u32> },
}

/// The queued PDU of an entry.
pub open spec fn entry_pdu(e: QueueEntry) -> UpperPDU {
    match e {
        QueueEntry::Nonsegmented { upper_pdu, .. } => upper_pdu,
        QueueEntry::Segmented { upper_pdu, .. } => upper_pdu,
    }
}

/// The deadline of a segmented entry: 200 ticks plus 50 per hop of TTL.
pub open spec fn outbound_deadline(now: u64, e: QueueEntry) -> u64 {
    (now + 200 + 50 * pdu_meta(entry_pdu(e)).ttl) as u64
}

/// The outbound deadline after recording that of each segmented entry in turn.
pub open spec fn record_outbound(w: Option<Deadline>, q: Seq<Option<QueueEntry>>, now: u64) -> Option<Deadline>
    decreases q.len(),
{
    if q.len() == 0 {
        w
    } else {
        let rest = record_outbound(w, q.drop_last(), now);
        match q.last() {
            Some(e) => if e is Segmented {
                keep_earlier(
                    rest,
                    outbound_deadline(now, e),
                    WatchdogEvent::OutboundExpiration(seq_zero_of_seq(pdu_meta(entry_pdu(e)).seq)),
                )
            } else {
                rest
            },
            None => rest,
        }
    }
}

/// The first empty slot.
pub open spec fn first_empty(q: Seq<Option<QueueEntry>>) -> Option<int> {
    if exists|i: int| 0 <= i < q.len() && (#[trigger] q[i]) is None {
        Some(choose|i: int| 0 <= i < q.len() && (#[trigger] q[i]) is None && forall|j: int| 0 <= j < i ==> q[j] is Some)
    } else {
        None
    }
}

/// The queue after putting `e` in its first empty slot; a full queue drops it.
pub open spec fn put_first_empty(q: Seq<Option<QueueEntry>>, e: QueueEntry) -> Seq<Option<QueueEntry>> {
    match first_empty(q) {
        Some(i) => q.update(i, Some(e)),
        None => q,
    }
}

/// A segmented entry counts at most 32 segments.
pub open spec fn slot_ok(s: Option<QueueEntry>) -> bool {
    s matches Some(QueueEntry::Segmented { acked, .. }) ==> acked.num_segments <= 32
}

/// Eight slots of queued PDUs.
pub struct TransmitQueue {
    queue: Vec<Option<QueueEntry>>,
}

impl TransmitQueue {
    /// The slots.
    pub closed spec fn slots(&self) -> Seq<Option<QueueEntry>> {
        self.queue@
    }

    /// Exactly eight slots; segmented entries count at most 32 segments.
    pub open spec fn wf(&self) -> bool {
        &&& self.slots().len() == 8
        &&& forall|i: int| 0 <= i < 8 ==> slot_ok(#[trigger] self.slots()[i])
    }

    /// Eight empty slots.
    pub fn new() -> (r: TransmitQueue)
        ensures
            r.wf(),
            forall|i: int| 0 <= i < 8 ==> (#[trigger] r.slots()[i]) is None,
    {
        let mut queue: Vec<Option<QueueEntry>> = Vec::new();
        let mut i: usize = 0;
        while i < QUEUE_SLOTS
            invariant
                i <= 8,
                queue@.len() == i,
                forall|j: int| 0 <= j < i ==> (#[trigger] queue@[j]) is None,
            decreases 8 - i,
        {
            queue.push(None);
            i = i + 1;
        }
        TransmitQueue { queue }
    }

    /// Whether some queued PDU has a completion waiting.
    pub fn has_ongoing_completion(&self) -> (r: bool)
        requires
            self.wf(),
        ensures
            r == exists|i: int| 0 <= i < 8 && match #[trigger] self.slots()[i] {
                Some(QueueEntry::Nonsegmented { completion_token, .. }) => completion_token is Some,
                Some(QueueEntry::Segmented { completion_token, .. }) => completion_token is Some,
                None => false,
            },
    {
        let mut i: usize = 0;
        while i < self.queue.len()
            invariant
                self.wf(),
                i <= 8,
                forall|j: int| 0 <= j < i ==> match #[trigger] self.slots()[j] {
                    Some(QueueEntry::Nonsegmented { completion_token, .. }) => completion_token is None,
                    Some(QueueEntry::Segmented { completion_token, .. }) => completion_token is None,
                    None => true,
                },
            decreases 8 - i,
        {
            let has = match &self.queue[i] {
                Some(QueueEntry::Nonsegmented { completion_token, .. }) => completion_token.is_some(),
                Some(QueueEntry::Segmented { completion_token, .. }) => completion_token.is_some(),
                None => false,
            };
            if has {
                return true;
            }
            i = i + 1;
        }
        false
    }

    /// Puts `e` in the first empty slot; with none, `e` is dropped.
    fn put(&mut self, e: QueueEntry)
        requires
            old(self).wf(),
            e matches QueueEntry::Segmented { acked, .. } ==> acked.num_segments <= 32,
        ensures
            final(self).wf(),
            final(self).slots() == put_first_empty(old(self).slots(), e),
    {
        let mut i: usize = 0;
        while i < self.queue.len()
            invariant
                self.wf(),
                slot_ok(Some(e)),
                self.slots() == old(self).slots(),
                i <= 8,
                forall|j: int| 0 <= j < i ==> (#[trigger] self.slots()[j]) is Some,
            decreases 8 - i,
        {
            if self.queue[i].is_none() {
                let ghost q = self.slots();
                proof {
                    let c = choose|k: int| 0 <= k < q.len() && (#[trigger] q[k]) is None && forall|j: int| 0 <= j < k ==> q[j] is Some;
                    assert(q[i as int] is None);
                    assert(c == i) by {
                        if c < i {
                            assert(q[c] is Some);
                        } else if c > i {
                            assert(q[i as int] is Some);
                        }
                    };
                }
                self.queue.set(i, Some(e));
                assert forall|j: int| 0 <= j < 8 implies slot_ok(#[trigger] self.slots()[j]) by {
                    if j != i {
                        assert(self.slots()[j] == q[j]);
                    } else {
                        assert(self.slots()[j] == Some(e));
                    }
                }
                return;
            }
            i = i + 1;
        }
    }

    /// Queues a PDU sent unsegmented, to be sent `num_retransmit` more times.
    /// A full queue drops it.
    pub fn add_nonsegmented(&mut self, upper_pdu: UpperPDU, num_retransmit: u8, completion_token: Option<u32>) -> (r: Result<(), crate::error::InsufficientBuffer>)
        requires
            old(self).wf(),
        ensures
            r is Ok,
            final(self).wf(),
            final(self).slots() == put_first_empty(
                old(self).slots(),
                QueueEntry::Nonsegmented { upper_pdu, num_retransmit, completion_token },
            ),
    {
        self.put(QueueEntry::Nonsegmented { upper_pdu, num_retransmit, completion_token });
        Ok(())
    }

    /// Records the outbound deadline of every segmented entry.
    fn set_outbound_expirations(&self, watchdog: &mut Watchdog, now: u64)
        requires
            self.wf(),
            instant_ok(now),
        ensures
            *final(watchdog) == (Watchdog {
                outbound_expiration: record_outbound(old(watchdog).outbound_expiration, self.slots(), now),
                ..*old(watchdog)
            }),
    {
        let ghost q = self.slots();
        let mut i: usize = 0;
        while i < self.queue.len()
            invariant
                q == self.slots(),
                q.len() == 8,
                i <= 8,
                instant_ok(now),
                *watchdog == (Watchdog {
                    outbound_expiration: record_outbound(old(watchdog).outbound_expiration, q.take(i as int), now),
                    ..*old(watchdog)
                }),
            decreases 8 - i,
        {
            proof {
                assert(q.take(i + 1).drop_last() =~= q.take(i as int));
                assert(q.take(i + 1).last() == q[i as int]);
            }
            match &self.queue[i] {
                Some(QueueEntry::Segmented { upper_pdu, .. }) => {
                    let meta = match upper_pdu {
                        UpperPDU::Access(a) => &a.meta,
                        UpperPDU::Control(c) => &c.meta,
                    };
                    watchdog.outbound_expiration((now + (200 + 50 * (meta.ttl as u64)), (meta.seq % 8192) as u16));
                },
                _ => {},
            }
            i = i + 1;
        }
        assert(q.take(8) =~= q);
    }

    /// Queues a segmented PDU to a unicast address, to be sent again until
    /// acknowledged, and records the deadlines of every segmented entry; a PDU
    /// to any other address is queued as unsegmented with `num_retransmits`.
    /// A full queue drops the PDU.
    pub fn add_segmented(
        &mut self,
        upper_pdu: UpperPDU,
        num_segments: u8,
        completion_token: Option<u32>,
        watchdog: &mut Watchdog,
        now: u64,
        num_retransmits: u8,
    ) -> (r: Result<(), crate::error::InsufficientBuffer>)
        requires
            old(self).wf(),
            num_segments <= 32,
            instant_ok(now),
        ensures
            r is Ok,
            final(self).wf(),
            is_unicast(pdu_meta(upper_pdu).dst) ==> final(self).slots() == put_first_empty(
                old(self).slots(),
                QueueEntry::Segmented {
                    upper_pdu,
                    acked: Acked {
                        num_segments,
                        block_ack: BlockAck::spec_new(0, seq_zero_of_seq(pdu_meta(upper_pdu).seq)),
                    },
                    completion_token,
                },
            ) && *final(watchdog) == (Watchdog {
                outbound_expiration: record_outbound(old(watchdog).outbound_expiration, final(self).slots(), now),
                ..*old(watchdog)
            }),
            !is_unicast(pdu_meta(upper_pdu).dst) ==> final(self).slots() == put_first_empty(
                old(self).slots(),
                QueueEntry::Nonsegmented { upper_pdu, num_retransmit: num_retransmits, completion_token },
            ) && *final(watchdog) == *old(watchdog),
    {
        let meta = match &upper_pdu {
            UpperPDU::Access(a) => &a.meta,
            UpperPDU::Control(c) => &c.meta,
        };
        if meta.dst != 0 && meta.dst < 0x8000 {
            let seq_zero = (meta.seq % 8192) as u16;
            let acked = Acked::new(seq_zero, num_segments);
            self.put(QueueEntry::Segmented { upper_pdu, acked, completion_token });
            self.set_outbound_expirations(watchdog, now);
            Ok(())
        } else {
            self.add_nonsegmented(upper_pdu, num_retransmits, completion_token)
        }
    }
}

/// A slot after a retransmission round: an unsegmented entry with no
/// retransmission left is dropped, one with some left counts one down.
pub open spec fn after_round(s: Option<QueueEntry>) -> Option<QueueEntry> {
    match s {
        Some(QueueEntry::Nonsegmented { upper_pdu, num_retransmit, completion_token }) => if num_retransmit == 0 {
            None
        } else {
            Some(QueueEntry::Nonsegmented { upper_pdu, num_retransmit: (num_retransmit - 1) as u8, completion_token })
        },
        _ => s,
    }
}

/// How many slots a retransmission round visits: those before the first
/// empty slot, or all of them where none is empty.
pub open spec fn occupied(q: Seq<Option<QueueEntry>>) -> int {
    if exists|i: int| 0 <= i < q.len() && (#[trigger] q[i]) is None {
        choose|i: int| 0 <= i < q.len() && (#[trigger] q[i]) is None && forall|j: int| 0 <= j < i ==> (#[trigger] q[j]) is Some
    } else {
        q.len() as int
    }
}

/// The slots a retransmission round visits.
pub open spec fn round_prefix(q: Seq<Option<QueueEntry>>) -> Seq<Option<QueueEntry>> {
    q.take(occupied(q))
}

/// The queue after a retransmission round: each visited slot as
/// `after_round` leaves it, the others unchanged.
pub open spec fn round_queue(q: Seq<Option<QueueEntry>>) -> Seq<Option<QueueEntry>> {
    Seq::new(q.len(), |j: int| if j < occupied(q) { after_round(q[j]) } else { q[j] })
}

/// The first empty slot, where every slot before it is occupied, is where a
/// round stops.
pub proof fn lemma_occupied_at(q: Seq<Option<QueueEntry>>, i: int)
    requires
        0 <= i < q.len(),
        q[i] is None,
        forall|j: int| 0 <= j < i ==> (#[trigger] q[j]) is Some,
    ensures
        occupied(q) == i,
{
    let c = choose|k: int| 0 <= k < q.len() && (#[trigger] q[k]) is None && forall|j: int| 0 <= j < k ==> (#[trigger] q[j]) is Some;
    assert(0 <= c < q.len() && q[c] is None && forall|j: int| 0 <= j < c ==> (#[trigger] q[j]) is Some);
    if c < i {
        assert(q[c] is Some);
    } else if c > i {
        assert(q[i] is Some);
    }
}

/// With no empty slot, a round visits them all.
pub proof fn lemma_occupied_full(q: Seq<Option<QueueEntry>>)
    requires
        forall|j: int| 0 <= j < q.len() ==> (#[trigger] q[j]) is Some,
    ensures
        occupied(q) == q.len(),
{
}

/// The PDUs sent in a retransmission round: every queued one, in slot order.
pub open spec fn round_pdus(q: Seq<Option<QueueEntry>>) -> Seq<UpperPDUView>
    decreases q.len(),
{
    if q.len() == 0 {
        Seq::empty()
    } else {
        round_pdus(q.drop_last()) + match q.last() {
            Some(e) => seq![upper_view(entry_pdu(e))],
            None => Seq::empty(),
        }
    }
}

/// The completions of a retransmission round: those of the unsegmented
/// entries sent for the last time, in slot order.
pub open spec fn round_completions(q: Seq<Option<QueueEntry>>) -> Seq<u32>
    decreases q.len(),
{
    if q.len() == 0 {
        Seq::empty()
    } else {
        round_completions(q.drop_last()) + match q.last() {
            Some(QueueEntry::Nonsegmented { num_retransmit, completion_token, .. }) => if num_retransmit == 0
                && completion_token is Some {
                seq![completion_token->0]
            } else {
                Seq::empty()
            },
            _ => Seq::empty(),
        }
    }
}

/// Whether a slot holds a segmented entry for `seq_zero`.
pub open spec fn segmented_for(s: Option<QueueEntry>, seq_zero: u16) -> bool {
    s matches Some(QueueEntry::Segmented { upper_pdu, .. }) && seq_zero_of_seq(pdu_meta(upper_pdu).seq) == seq_zero
}

/// The first slot holding a segmented entry for `seq_zero`.
pub open spec fn first_segmented_for(q: Seq<Option<QueueEntry>>, seq_zero: u16) -> Option<int> {
    if exists|i: int| 0 <= i < q.len() && segmented_for(#[trigger] q[i], seq_zero) {
        Some(choose|i: int| 0 <= i < q.len() && segmented_for(#[trigger] q[i], seq_zero)
            && forall|j: int| 0 <= j < i ==> !segmented_for(q[j], seq_zero))
    } else {
        None
    }
}

/// The outbound deadline with that of `seq_zero` cleared.
pub open spec fn cleared_outbound(w: Option<Deadline>, seq_zero: u16) -> Option<Deadline> {
    if w matches Some(Deadline { event: WatchdogEvent::OutboundExpiration(c), .. }) && c == seq_zero {
        None
    } else {
        w
    }
}

/// What an acknowledgement does to the queue: the first segmented entry for
/// its first sequence number takes the acknowledged segments and is dropped
/// once fully acknowledged; returns the queue, whether an entry completed, and
/// its completion.
pub open spec fn spec_receive_ack(q: Seq<Option<QueueEntry>>, block_ack: BlockAck) -> (Seq<Option<QueueEntry>>, bool, Option<u32>) {
    match first_segmented_for(q, block_ack.spec_seq_zero()) {
        None => (q, false, None),
        Some(i) => match q[i] {
            Some(QueueEntry::Segmented { upper_pdu, acked, completion_token }) => {
                let acked2 = Acked {
                    num_segments: acked.num_segments,
                    block_ack: BlockAck::spec_new(
                        acked.block_ack.spec_bits() | block_ack.spec_bits(),
                        acked.block_ack.spec_seq_zero(),
                    ),
                };
                if fully_acked(acked2.block_ack, acked2.num_segments) {
                    (q.update(i, None), true, completion_token)
                } else {
                    (q.update(i, Some(QueueEntry::Segmented { upper_pdu, acked: acked2, completion_token })), false, None)
                }
            },
            _ => (q, false, None),
        },
    }
}

/// Where some slot holds a segmented entry for `seq_zero`, a first one does.
proof fn lemma_first_segmented_exists(q: Seq<Option<QueueEntry>>, seq_zero: u16, w: int)
    requires
        0 <= w < q.len(),
        segmented_for(q[w], seq_zero),
    ensures
        exists|i: int| 0 <= i < q.len() && segmented_for(#[trigger] q[i], seq_zero)
            && forall|j: int| 0 <= j < i ==> !segmented_for(q[j], seq_zero),
    decreases w,
{
    if exists|j: int| 0 <= j < w && segmented_for(#[trigger] q[j], seq_zero) {
        let j = choose|j: int| 0 <= j < w && segmented_for(#[trigger] q[j], seq_zero);
        lemma_first_segmented_exists(q, seq_zero, j);
    } else {
        assert(forall|j: int| 0 <= j < w ==> !segmented_for(#[trigger] q[j], seq_zero));
    }
}

/// What an acknowledgement does to the queue: it touches at most the first
/// segmented entry for its first sequence number, every other slot keeping
/// what it held; with no such entry the queue is unchanged. The entry takes
/// the union of its acknowledged segments and the new ones, and is dropped,
/// handing back its completion, exactly when that union covers all its
/// segments.
pub proof fn lemma_receive_ack_touches_one_entry(q: Seq<Option<QueueEntry>>, block_ack: BlockAck)
    ensures
        ({
            let (q2, done, token) = spec_receive_ack(q, block_ack);
            let sz = block_ack.spec_seq_zero();
            &&& q2.len() == q.len()
            &&& (forall|k: int| 0 <= k < q.len() && !segmented_for(#[trigger] q[k], sz) ==> q2[k] == q[k])
            &&& (forall|k: int| 0 <= k < q.len() && !segmented_for(#[trigger] q[k], sz)) ==> q2 == q && !done && token is None
            &&& match first_segmented_for(q, sz) {
                None => q2 == q && !done && token is None,
                Some(i) => {
                    &&& 0 <= i < q.len()
                    &&& segmented_for(q[i], sz)
                    &&& forall|k: int| 0 <= k < q.len() && k != i ==> #[trigger] q2[k] == q[k]
                    &&& q[i] matches Some(QueueEntry::Segmented { upper_pdu, acked, completion_token }) && {
                        let union = BlockAck::spec_new(acked.block_ack.spec_bits() | block_ack.spec_bits(), acked.block_ack.spec_seq_zero());
                        if fully_acked(union, acked.num_segments) {
                            q2[i] is None && done && token == completion_token
                        } else {
                            q2[i] == Some(QueueEntry::Segmented { upper_pdu, acked: Acked { num_segments: acked.num_segments, block_ack: union }, completion_token })
                                && !done && token is None
                        }
                    }
                },
            }
        }),
{
    let sz = block_ack.spec_seq_zero();
    if exists|i: int| 0 <= i < q.len() && segmented_for(#[trigger] q[i], sz) {
        let w = choose|i: int| 0 <= i < q.len() && segmented_for(#[trigger] q[i], sz);
        lemma_first_segmented_exists(q, sz, w);
    }
}

impl TransmitQueue {
    /// A retransmission round: visits the slots in order up to the first
    /// empty one, returns a copy of each visited PDU and the completions of
    /// the unsegmented entries sent for the last time, which are dropped;
    /// other visited unsegmented entries count one down.
    pub fn retransmit_round(&mut self) -> (r: (Vec<UpperPDU>, Vec<u32>))
        requires
            old(self).wf(),
        ensures
            final(self).wf(),
            final(self).slots() == round_queue(old(self).slots()),
            r.0@.map_values(|u: UpperPDU| upper_view(u)) == round_pdus(round_prefix(old(self).slots())),
            r.1@ == round_completions(round_prefix(old(self).slots())),
    {
        let ghost q = self.slots();
        let mut pdus: Vec<UpperPDU> = Vec::new();
        let mut completions: Vec<u32> = Vec::new();
        let mut i: usize = 0;
        while i < self.queue.len() && self.queue[i].is_some()
            invariant
                q == old(self).slots(),
                q.len() == 8,
                self.slots().len() == 8,
                self.queue@.len() == 8,
                i <= 8,
                forall|j: int| 0 <= j < i ==> (#[trigger] q[j]) is Some,
                forall|j: int| 0 <= j < i ==> #[trigger] self.slots()[j] == after_round(q[j]),
                forall|j: int| i <= j < 8 ==> #[trigger] self.slots()[j] == q[j],
                forall|j: int| 0 <= j < 8 ==> slot_ok(#[trigger] self.slots()[j]),
                pdus@.map_values(|u: UpperPDU| upper_view(u)) == round_pdus(q.take(i as int)),
                completions@ == round_completions(q.take(i as int)),
            decreases 8 - i,
        {
            proof {
                assert(q.take(i + 1).drop_last() =~= q.take(i as int));
                assert(q.take(i + 1).last() == q[i as int]);
            }
            let ghost before = pdus@;
            let mut slot: Option<QueueEntry> = None;
            std::mem::swap(&mut slot, &mut self.queue[i]);
            assert(slot == q[i as int]);
            let next = match slot {
                Some(QueueEntry::Nonsegmented { upper_pdu, num_retransmit, completion_token }) => {
                    pdus.push(duplicate_upper(&upper_pdu));
                    if num_retransmit == 0 {
                        if let Some(token) = completion_token {
                            completions.push(token);
                        }
                        None
                    } else {
                        Some(QueueEntry::Nonsegmented { upper_pdu, num_retransmit: num_retransmit - 1, completion_token })
                    }
                },
                Some(QueueEntry::Segmented { upper_pdu, acked, completion_token }) => {
                    pdus.push(duplicate_upper(&upper_pdu));
                    Some(QueueEntry::Segmented { upper_pdu, acked, completion_token })
                },
                None => None,
            };
            self.queue.set(i, next);
            proof {
                assert(pdus@.map_values(|u: UpperPDU| upper_view(u)) =~= round_pdus(q.take(i + 1)));
                assert(completions@ =~= round_completions(q.take(i + 1)));
            }
            i = i + 1;
        }
        proof {
            if i < 8 {
                assert(self.slots()[i as int] == q[i as int]);
                lemma_occupied_at(q, i as int);
            } else {
                lemma_occupied_full(q);
            }
            assert(occupied(q) == i);
            assert(self.slots() =~= round_queue(q));
        }
        (pdus, completions)
    }

    /// Drops every segmented entry for `seq_zero`.
    pub fn expire_outbound(&mut self, seq_zero: u16)
        requires
            old(self).wf(),
        ensures
            final(self).wf(),
            final(self).slots() == old(self).slots().map_values(
                |s: Option<QueueEntry>| if segmented_for(s, seq_zero) { None } else { s },
            ),
    {
        let ghost q = self.slots();
        let mut i: usize = 0;
        while i < self.queue.len()
            invariant
                q == old(self).slots(),
                q.len() == 8,
                self.slots().len() == 8,
                i <= 8,
                forall|j: int| 0 <= j < i ==> #[trigger] self.slots()[j] == (if segmented_for(q[j], seq_zero) {
                    None
                } else {
                    q[j]
                }),
                forall|j: int| i <= j < 8 ==> #[trigger] self.slots()[j] == q[j],
                forall|j: int| 0 <= j < 8 ==> slot_ok(#[trigger] self.slots()[j]),
            decreases 8 - i,
        {
            let take = match &self.queue[i] {
                Some(QueueEntry::Segmented { upper_pdu, .. }) => {
                    let meta = match upper_pdu {
                        UpperPDU::Access(a) => &a.meta,
                        UpperPDU::Control(c) => &c.meta,
                    };
                    (meta.seq % 8192) as u16 == seq_zero
                },
                _ => false,
            };
            if take {
                self.queue.set(i, None);
            }
            i = i + 1;
        }
        assert(self.slots() =~= q.map_values(|s: Option<QueueEntry>| if segmented_for(s, seq_zero) { None } else { s }));
    }

    /// Takes an acknowledgement from the destination of a segmented message:
    /// the first segmented entry for its first sequence number records the
    /// acknowledged segments; once all are, its deadline is cleared, it is
    /// dropped and its completion returned. The deadlines of the remaining
    /// segmented entries are then recorded.
    pub fn receive_ack(&mut self, block_ack: BlockAck, watchdog: &mut Watchdog, now: u64) -> (r: Result<Option<u32>, crate::error::DriverError>)
        requires
            old(self).wf(),
            instant_ok(now),
        ensures
            final(self).wf(),
            final(self).slots() == spec_receive_ack(old(self).slots(), block_ack).0,
            r == Ok::<Option<u32>, crate::error::DriverError>(spec_receive_ack(old(self).slots(), block_ack).2),
            *final(watchdog) == (Watchdog {
                outbound_expiration: record_outbound(
                    if spec_receive_ack(old(self).slots(), block_ack).1 {
                        cleared_outbound(old(watchdog).outbound_expiration, block_ack.spec_seq_zero())
                    } else {
                        old(watchdog).outbound_expiration
                    },
                    final(self).slots(),
                    now,
                ),
                ..*old(watchdog)
            }),
    {
        let ghost q = self.slots();
        let sz = block_ack.seq_zero();
        let mut found: Option<usize> = None;
        let mut k: usize = 0;
        while k < self.queue.len() && found.is_none()
            invariant
                q == self.slots(),
                q.len() == 8,
                k <= 8,
                found is None ==> forall|j: int| 0 <= j < k ==> !segmented_for(#[trigger] q[j], sz),
                found matches Some(i) ==> i < 8 && segmented_for(q[i as int], sz)
                    && forall|j: int| 0 <= j < i ==> !segmented_for(#[trigger] q[j], sz),
            decreases 8 - k,
        {
            let hit = match &self.queue[k] {
                Some(QueueEntry::Segmented { upper_pdu, .. }) => {
                    let meta = match upper_pdu {
                        UpperPDU::Access(a) => &a.meta,
                        UpperPDU::Control(c) => &c.meta,
                    };
                    (meta.seq % 8192) as u16 == sz
                },
                _ => false,
            };
            if hit {
                found = Some(k);
            }
            k = k + 1;
        }
        let mut token: Option<u32> = None;
        let mut completed = false;
        if let Some(i) = found {
            proof {
                let c = choose|m: int| 0 <= m < q.len() && segmented_for(#[trigger] q[m], sz)
                    && forall|j: int| 0 <= j < m ==> !segmented_for(q[j], sz);
                assert(segmented_for(q[i as int], sz));
                assert(c == i) by {
                    if c < i {
                        assert(!segmented_for(q[c], sz));
                    } else if c > i {
                        assert(!segmented_for(q[i as int], sz));
                    }
                };
            }
            let mut slot: Option<QueueEntry> = None;
            std::mem::swap(&mut slot, &mut self.queue[i]);
            let next = match slot {
                Some(QueueEntry::Segmented { upper_pdu, mut acked, completion_token }) => {
                    let fully = acked.ack(block_ack);
                    if fully {
                        watchdog.clear_outbound_expiration(sz);
                        token = completion_token;
                        completed = true;
                        None
                    } else {
                        Some(QueueEntry::Segmented { upper_pdu, acked, completion_token })
                    }
                },
                other => other,
            };
            self.queue.set(i, next);
            proof {
                assert(self.slots() =~= spec_receive_ack(q, block_ack).0);
                assert forall|j: int| 0 <= j < 8 implies slot_ok(#[trigger] self.slots()[j]) by {
                    if j != i {
                        assert(self.slots()[j] == q[j]);
                    }
                }
            }
        } else {
            proof {
                assert(!exists|m: int| 0 <= m < q.len() && segmented_for(#[trigger] q[m], sz));
            }
        }
        self.set_outbound_expirations(watchdog, now);
        Ok(token)
    }
}

} // verus!
