//! The stack of a provisioned node on the way in: from a decrypted network
//! PDU, through replay protection, relaying, the lower transport layer and
//! the upper transport layer, to a message and the acknowledgement it asks
//! for.

use vstd::prelude::*;
use crate::driver::block_ack::BlockAck;
use crate::driver::inbound::instant_ok;
use crate::driver::lower::{inbound_outcome, segments_fit, spec_lower_meta, DeviceInfo, LowerDriver};
use crate::driver::pdu::{copy_network_pdu, network_view, CleartextNetworkPDU, UpperMetadata, UpperPDU};
use crate::driver::replay::{spec_check_message, spec_check_network, spec_check_upper, NetworkMessageCache, ReplayProtection};
use crate::driver::secrets::Secrets;
use crate::driver::tables::Subscriptions;
use crate::driver::transmit_queue::TransmitQueue;
use crate::driver::upper::{inbound_upper_outcome, upper_pdu_meta, Message, UpperDriver};
use crate::driver::watchdog::Watchdog;
use crate::driver::inbound::{spec_expire, swap_removed};
use crate::driver::outbound::{block_ack_parameters, seq_after};
use crate::driver::pdu::{control_opcode_code, ControlOpcode, Ctl};
use crate::driver::sequence::Sequence;
use crate::driver::transmit_queue::{round_queue, round_prefix, round_completions, round_pdus, upper_view, pdu_meta, put_first_empty, segmented_for, seq_zero_of_seq, spec_receive_ack, Acked, QueueEntry};
use crate::driver::outbound::segmentation_outcome;
use crate::driver::upper::{encrypted_as, process_outbound_message, KeyHandle};
use crate::driver::upper::ControlMessage;
use crate::address::is_unicast;
use crate::error::DriverError;
use crate::driver::deadline::Deadline;
use crate::driver::provisionee::{spec_in_progress, UnprovisionedStack, BEACON_PERIOD, PROVISIONING_RETRANSMIT_DELAY};

verus! {

/// What the stack hands up for a network PDU: the acknowledgement to send
/// with its metadata, the message, and the destination.
pub struct ReceiveResult {
    pub block_ack: Option<(BlockAck, UpperMetadata)>,
    pub message: Option<Message>,
    pub dst: u16,
}

impl ReceiveResult {
    /// A result with an acknowledgement or a message; with neither there is
    /// nothing to hand up.
    pub fn from_parts(block_ack: Option<(BlockAck, UpperMetadata)>, message: Option<Message>, dst: u16) -> (r: Option<ReceiveResult>)
        ensures
            (block_ack is None && message is None) ==> r is None,
            !(block_ack is None && message is None) ==> (r matches Some(x) && x.block_ack == block_ack && x.message == message
                && x.dst == dst),
    {
        if block_ack.is_none() && message.is_none() {
            None
        } else {
            Some(ReceiveResult { block_ack, message, dst })
        }
    }
}

/// The state of a provisioned node's stack.
pub struct ProvisionedStack {
    pub device_info: DeviceInfo,
    pub upper: UpperDriver,
    pub lower: LowerDriver,
    pub replay_protection: ReplayProtection,
    pub network_message_cache: NetworkMessageCache,
    pub transmit_queue: TransmitQueue,
    pub beacon: Deadline,
}

/// How long a provisioned node waits before sending its queued messages
/// again, in milliseconds.
pub const RETRANSMIT_DELAY: u64 = 200;

/// Whether a network PDU from `src` to `dst` is offered for relaying: it was
/// not looped back, it is not for the node itself, and it was not relayed
/// before.
pub open spec fn offered_for_relay(cache: Seq<(u16, u64)>, device_info: DeviceInfo, pdu: CleartextNetworkPDU, is_loopback: bool) -> bool {
    !is_loopback && !device_info.spec_is_local_unicast(pdu.dst) && spec_check_message(cache, pdu.src, pdu.transport_pdu@).1
}

/// The relay cache after a network PDU was considered for relaying.
pub open spec fn cache_after(cache: Seq<(u16, u64)>, device_info: DeviceInfo, pdu: CleartextNetworkPDU, is_loopback: bool) -> Seq<(u16, u64)> {
    if !is_loopback && !device_info.spec_is_local_unicast(pdu.dst) {
        spec_check_message(cache, pdu.src, pdu.transport_pdu@).0
    } else {
        cache
    }
}

/// Whether the stack drops a network PDU without looking further: nothing
/// was decrypted, it comes from one of the node's own addresses, or the
/// network replay cache refuses it.
pub open spec fn refuses_network_pdu(stack: ProvisionedStack, decrypted: Option<CleartextNetworkPDU>, iv_index: u32) -> bool {
    match decrypted {
        None => true,
        Some(c) => stack.device_info.spec_is_local_unicast(c.src)
            || spec_check_network(stack.replay_protection.network_view(), c.src, c.seq, iv_index).1,
    }
}

/// Whether a queued message of the stack still waits for its completion.
pub open spec fn spec_has_ongoing_completion(stack: ProvisionedStack) -> bool {
    exists|i: int| 0 <= i < 8 && match #[trigger] stack.transmit_queue.slots()[i] {
        Some(QueueEntry::Nonsegmented { completion_token, .. }) => completion_token is Some,
        Some(QueueEntry::Segmented { completion_token, .. }) => completion_token is Some,
        None => false,
    }
}

impl ProvisionedStack {
    pub open spec fn wf(&self) -> bool {
        &&& self.upper.wf()
        &&& self.lower.inbound_segmentation.wf()
        &&& self.replay_protection.wf()
        &&& self.network_message_cache.wf()
        &&& self.transmit_queue.wf()
    }

    /// A fresh stack for a node with these addresses.
    pub fn new(device_info: DeviceInfo) -> (r: ProvisionedStack)
        ensures
            r.wf(),
            r.device_info == device_info,
            r.beacon == (Deadline { every: BEACON_PERIOD, at: 0 }),
            forall|i: int| 0 <= i < 8 ==> (#[trigger] r.transmit_queue.slots()[i]) is None,
            forall|i: int| 0 <= i < 20 ==> (#[trigger] r.upper.slots()[i]) is None,
            r.lower.inbound_segmentation.views().len() == 0,
            r.replay_protection.network_view().len() == 0,
            r.replay_protection.upper_view().len() == 0,
            r.network_message_cache.view_entries().len() == 0,
    {
        ProvisionedStack {
            device_info,
            upper: UpperDriver::new(),
            lower: LowerDriver::new(),
            replay_protection: ReplayProtection::new(),
            network_message_cache: NetworkMessageCache::new(),
            transmit_queue: TransmitQueue::new(),
            beacon: Deadline { every: BEACON_PERIOD, at: 0 },
        }
    }

    /// The addresses of the node.
    pub fn device_info(&self) -> (r: DeviceInfo)
        ensures
            r == self.device_info,
    {
        self.device_info
    }

    /// When to send the next beacon: when the beacon deadline fires.
    pub fn next_beacon_deadline(&self, now: u64) -> (r: Option<u64>)
        ensures
            r == Some(if self.beacon.at <= now { now } else { self.beacon.at }),
    {
        Some(self.beacon.next(now))
    }

    /// How long to wait before sending the queued messages again.
    pub fn next_retransmit(&self) -> (r: Option<u64>)
        ensures
            r == Some(RETRANSMIT_DELAY),
    {
        Some(RETRANSMIT_DELAY)
    }

    /// Whether a queued message still waits for its completion.
    pub fn has_ongoing_completion(&self) -> (r: bool)
        requires
            self.wf(),
        ensures
            r == spec_has_ongoing_completion(*self),
    {
        self.transmit_queue.has_ongoing_completion()
    }

    /// Whether the decrypted network PDU `pdu`, received in IV index
    /// `iv_index` at `now`, can be processed: where it carries a segment that
    /// would be written into a reassembly buffer, the segment fits there.
    pub fn fits_inbound(&self, pdu: &CleartextNetworkPDU, iv_index: u32, now: u64) -> (r: bool)
        requires
            self.wf(),
        ensures
            r == segments_fit(
                self.lower.inbound_segmentation.views(),
                pdu.transport_pdu@,
                pdu.ctl,
                spec_lower_meta(*pdu, iv_index),
                now,
            ),
    {
        self.lower.fits_inbound(pdu, iv_index, now)
    }

    /// Processes a network PDU that the network layer decrypted, received in
    /// IV index `iv_index` (nothing, where it could not decrypt it). A PDU
    /// from one of the node's own addresses, or a replayed one, is dropped,
    /// and nothing but the network replay cache is touched.
    /// Unless looped back, a PDU for another node is offered for relaying
    /// once. Its transport PDU then goes through the lower transport layer; a
    /// completed segmented message already acknowledged is answered with its
    /// acknowledgement again; an upper PDU is decrypted into a message, a
    /// failure there giving no message.
    #[verifier::rlimit(60)]
    pub fn process_inbound_network_pdu(
        &mut self,
        secrets: &Secrets,
        decrypted: Option<CleartextNetworkPDU>,
        iv_index: u32,
        watchdog: &mut Watchdog,
        now: u64,
        is_loopback: bool,
        subscriptions: &Subscriptions,
    ) -> (r: Result<(Option<CleartextNetworkPDU>, Option<ReceiveResult>), DriverError>)
        requires
            old(self).wf(),
            secrets.wf(),
            instant_ok(now),
            decrypted matches Some(c) ==> segments_fit(
                old(self).lower.inbound_segmentation.views(),
                c.transport_pdu@,
                c.ctl,
                spec_lower_meta(c, iv_index),
                now,
            ),
        ensures
            final(self).wf(),
            final(self).device_info == old(self).device_info,
            final(self).beacon == old(self).beacon,
            r matches Ok((Some(p), _)) ==> decrypted == Some(p) && offered_for_relay(
                old(self).network_message_cache.view_entries(),
                old(self).device_info,
                p,
                is_loopback,
            ),
            r matches Ok((_, Some(x))) ==> decrypted matches Some(c) && x.dst == c.dst && (x.block_ack is Some || x.message is Some),
            refuses_network_pdu(*old(self), decrypted, iv_index) ==> {
                &&& r matches Ok((None, None))
                &&& final(self).lower == old(self).lower
                &&& final(self).upper == old(self).upper
                &&& final(self).network_message_cache == old(self).network_message_cache
                &&& final(self).transmit_queue == old(self).transmit_queue
                &&& final(self).replay_protection.upper_view() == old(self).replay_protection.upper_view()
                &&& *final(watchdog) == *old(watchdog)
            },
            decrypted is None ==> (r matches Ok((None, None))) && final(self).replay_protection.network_view()
                == old(self).replay_protection.network_view(),
            decrypted matches Some(c) ==> (old(self).device_info.spec_is_local_unicast(c.src) ==> (r matches Ok((None, None)))
                && final(self).replay_protection.network_view() == old(self).replay_protection.network_view()),
            decrypted matches Some(c) ==> (!old(self).device_info.spec_is_local_unicast(c.src) ==> final(self).replay_protection.network_view()
                == spec_check_network(old(self).replay_protection.network_view(), c.src, c.seq, iv_index).0),
            decrypted matches Some(c) ==> (!old(self).device_info.spec_is_local_unicast(c.src) && spec_check_network(
                old(self).replay_protection.network_view(),
                c.src,
                c.seq,
                iv_index,
            ).1 ==> (r matches Ok((None, None)))),
            decrypted matches Some(c) ==> (!old(self).device_info.spec_is_local_unicast(c.src) && !spec_check_network(
                old(self).replay_protection.network_view(),
                c.src,
                c.seq,
                iv_index,
            ).1 ==> final(self).network_message_cache.view_entries() == cache_after(
                old(self).network_message_cache.view_entries(),
                old(self).device_info,
                c,
                is_loopback,
            )),
            decrypted matches Some(c) ==> (!old(self).device_info.spec_is_local_unicast(c.src) && !spec_check_network(
                old(self).replay_protection.network_view(),
                c.src,
                c.seq,
                iv_index,
            ).1 ==> exists|lower_r: Result<(Option<(BlockAck, UpperMetadata)>, Option<UpperPDU>), DriverError>| {
                &&& #[trigger] inbound_outcome(
                    old(self).device_info,
                    c,
                    iv_index,
                    now,
                    subscriptions.slots(),
                    old(self).lower.inbound_segmentation.views(),
                    final(self).lower.inbound_segmentation.views(),
                    lower_r,
                )
                &&& match lower_r {
                    Err(e) => r == Err::<(Option<CleartextNetworkPDU>, Option<ReceiveResult>), DriverError>(e),
                    Ok((ack, upper_pdu)) => stack_outcome(
                        old(self).replay_protection.upper_view(),
                        final(self).replay_protection.upper_view(),
                        old(self).upper.slots(),
                        *secrets,
                        c,
                        offered_for_relay(old(self).network_message_cache.view_entries(), old(self).device_info, c, is_loopback),
                        ack,
                        upper_pdu,
                        r,
                    ),
                }
            }),
    {
        let c = match decrypted {
            Some(c) => c,
            None => return Ok((None, None)),
        };
        if self.device_info.is_local_unicast(c.src) {
            return Ok((None, None));
        }
        if self.replay_protection.check_network_pdu(c.src, c.seq, iv_index) {
            return Ok((None, None));
        }
        let mut relay = false;
        if !is_loopback && !self.device_info.is_local_unicast(c.dst) {
            relay = self.network_message_cache.check(c.src, c.transport_pdu.as_slice());
        }
        let lower_r = self.lower.process_inbound_cleartext_network_pdu(&self.device_info, &c, iv_index, watchdog, now, subscriptions);
        let (ack, upper_pdu) = match lower_r {
            Ok(x) => x,
            Err(e) => return Err(e),
        };
        let ghost upper_view = self.replay_protection.upper_view();
        let ghost label_slots = self.upper.slots();
        let ghost cg = c;
        let r = self.finish_inbound(secrets, c, relay, ack, upper_pdu);
        proof {
            lemma_stack_outcome_shape(upper_view, self.replay_protection.upper_view(), label_slots, *secrets, cg, relay, ack, upper_pdu, r);
        }
        r
    }

    /// Hands up what the lower transport layer gave for a network PDU.
    fn finish_inbound(
        &mut self,
        secrets: &Secrets,
        c: CleartextNetworkPDU,
        relay: bool,
        ack: Option<(BlockAck, UpperMetadata)>,
        upper_pdu: Option<UpperPDU>,
    ) -> (r: Result<(Option<CleartextNetworkPDU>, Option<ReceiveResult>), DriverError>)
        requires
            old(self).wf(),
            secrets.wf(),
            upper_pdu matches Some(u) ==> upper_pdu_meta(u).label_uuids@.len() <= 3,
        ensures
            final(self).wf(),
            final(self).device_info == old(self).device_info,
            final(self).beacon == old(self).beacon,
            final(self).replay_protection.network_view() == old(self).replay_protection.network_view(),
            final(self).network_message_cache.view_entries() == old(self).network_message_cache.view_entries(),
            final(self).lower.inbound_segmentation.views() == old(self).lower.inbound_segmentation.views(),
            final(self).upper.slots() == old(self).upper.slots(),
            stack_outcome(
                old(self).replay_protection.upper_view(),
                final(self).replay_protection.upper_view(),
                old(self).upper.slots(),
                *secrets,
                c,
                relay,
                ack,
                upper_pdu,
                r,
            ),
    {
        let dst = c.dst;
        if let Some((block_ack, meta)) = &ack {
            let replacement = self.replay_protection.check_upper_pdu(meta.src, meta.iv_index, meta.replay_seq, block_ack, upper_pdu.is_some());
            if let Some(replacement) = replacement {
                let m = meta.duplicate();
                return Ok((None, ReceiveResult::from_parts(Some((replacement, m)), None, dst)));
            }
        }
        let ghost label_slots = self.upper.slots();
        let ghost mut seen: Option<(UpperPDU, Result<Message, DriverError>)> = None;
        let message = match upper_pdu {
            Some(u) => {
                let mut u1 = u;
                let outcome = self.upper.process_inbound_upper_pdu(secrets, &mut u1);
                proof {
                    seen = Some((u1, outcome));
                }
                match outcome {
                    Ok(m) => Some(m),
                    Err(_) => None,
                }
            },
            None => None,
        };
        let relay_pdu = if relay { Some(c) } else { None };
        let result = ReceiveResult::from_parts(ack, message, dst);
        Ok((relay_pdu, result))
    }
}

/// What the stack gives once the lower transport layer gave the
/// acknowledgement `ack` and the upper PDU `upper_pdu` for the network PDU
/// `c`: where the acknowledged message was completed before, its recorded
/// acknowledgement again and nothing else; otherwise the PDU to relay, if
/// offered, and the acknowledgement with the message that the upper transport
/// layer decrypts (none where it fails).
pub open spec fn stack_outcome(
    upper_view: Seq<(u16, u32, u16, u32, u16)>,
    upper_view_after: Seq<(u16, u32, u16, u32, u16)>,
    label_slots: Seq<Option<crate::address::LabelUuid>>,
    secrets: Secrets,
    c: CleartextNetworkPDU,
    relay: bool,
    ack: Option<(BlockAck, UpperMetadata)>,
    upper_pdu: Option<UpperPDU>,
    r: Result<(Option<CleartextNetworkPDU>, Option<ReceiveResult>), DriverError>,
) -> bool {
    let checked = match ack {
        Some((b, m)) => spec_check_upper(upper_view, m.src, m.iv_index, m.replay_seq, (b.spec_bits(), b.spec_seq_zero()), upper_pdu is Some),
        None => (upper_view, None),
    };
    &&& upper_view_after == checked.0
    &&& match checked.1 {
        Some((bits, sz)) => r matches Ok((None, Some(x))) && x.message is None && x.dst == c.dst
            && (x.block_ack matches Some((b2, m2)) && b2 == BlockAck::spec_new(bits, sz) && (ack matches Some((_, m)) && m2.view_meta()
            == m.view_meta())),
        None => r matches Ok((relay_pdu, result)) && (relay_pdu is Some <==> relay) && (relay_pdu matches Some(p) ==> p == c)
            && match upper_pdu {
            None => (ack is None ==> result is None) && (ack is Some ==> (result matches Some(x) && x.block_ack == ack
                && x.message is None && x.dst == c.dst)),
            Some(u) => exists|u1: UpperPDU, outcome: Result<Message, DriverError>| #[trigger] inbound_upper_outcome(
                label_slots,
                secrets,
                u,
                u1,
                outcome,
            ) && match outcome {
                Ok(m) => result matches Some(x) && x.block_ack == ack && x.dst == c.dst && x.message == Some(m),
                Err(_) => if ack is None {
                    result is None
                } else {
                    result matches Some(x) && x.block_ack == ack && x.message is None && x.dst == c.dst
                },
            },
        },
    }
}

/// What the stack hands back for a network PDU it took: a PDU to relay only
/// where relaying was offered, and then the PDU itself; a result only for the
/// PDU's destination, and only with an acknowledgement or a message in it.
pub proof fn lemma_stack_outcome_shape(
    upper_view: Seq<(u16, u32, u16, u32, u16)>,
    upper_view_after: Seq<(u16, u32, u16, u32, u16)>,
    label_slots: Seq<Option<crate::address::LabelUuid>>,
    secrets: Secrets,
    c: CleartextNetworkPDU,
    relay: bool,
    ack: Option<(BlockAck, UpperMetadata)>,
    upper_pdu: Option<UpperPDU>,
    r: Result<(Option<CleartextNetworkPDU>, Option<ReceiveResult>), DriverError>,
)
    requires
        stack_outcome(upper_view, upper_view_after, label_slots, secrets, c, relay, ack, upper_pdu, r),
    ensures
        r is Ok,
        r matches Ok((Some(p), _)) ==> p == c && relay,
        r matches Ok((_, Some(x))) ==> x.dst == c.dst && (x.block_ack is Some || x.message is Some),
{
}

/// The acknowledgement in the parameters of a Segment Acknowledgement: six
/// bytes, the first two holding `SeqZero` shifted left by two, the last four
/// the acknowledged segments, big-endian.
pub open spec fn spec_block_ack_of(p: Seq<u8>) -> Option<BlockAck> {
    if p.len() == 6 {
        Some(BlockAck::spec_new(
            (p[2] as int * 0x100_0000 + p[3] as int * 0x1_0000 + p[4] as int * 256 + p[5] as int) as u32,
            (((p[0] as int * 256 + p[1] as int) / 4) % 8192) as u16,
        ))
    } else {
        None
    }
}

/// Reads the acknowledgement in the parameters of a Segment Acknowledgement.
pub fn block_ack_of(parameters: &[u8]) -> (r: Option<BlockAck>)
    ensures
        r == spec_block_ack_of(parameters@),
{
    if parameters.len() != 6 {
        return None;
    }
    let bits: u32 = (parameters[2] as u32) * 0x100_0000 + (parameters[3] as u32) * 0x1_0000 + (parameters[4] as u32) * 256
        + parameters[5] as u32;
    let seq_zero: u16 = ((((parameters[0] as u32) * 256 + parameters[1] as u32) / 4) % 8192) as u16;
    Some(BlockAck::from_bits(bits, seq_zero))
}

/// An acknowledgement sent for `seq_zero` (below 8192) reads back with its
/// segments and `seq_zero`.
pub proof fn lemma_block_ack_roundtrip(seq_zero: u16, bits: u32)
    requires
        seq_zero < 8192,
    ensures
        spec_block_ack_of(block_ack_parameters(seq_zero, bits)) == Some(BlockAck::spec_new(bits, seq_zero)),
{
    let p = block_ack_parameters(seq_zero, bits);
    let v = ((seq_zero % 0x8000) as int * 4) % 0x10000;
    assert(v == seq_zero as int * 4);
    assert(((v / 256) as u8) as int == v / 256 && ((v % 256) as u8) as int == v % 256);
    assert((v / 256) * 256 + v % 256 == v);
    assert(((v / 4) % 8192) == seq_zero);
    let b = bits as int;
    assert((b / 0x100_0000) * 0x100_0000 + ((b / 0x1_0000) % 256) * 0x1_0000 + ((b / 256) % 256) * 256 + b % 256 == b) by (nonlinear_arith)
        requires
            0 <= b,
    ;
    assert(((b / 0x100_0000) as u8) as int == b / 0x100_0000);
}

impl ProvisionedStack {
    /// Handles an inbound control message: a Segment Acknowledgement that can
    /// be read goes to the transmit queue, which gives the completion of a
    /// message it finished; any other control message changes nothing.
    pub fn process_inbound_control(&mut self, message: &ControlMessage, watchdog: &mut Watchdog, now: u64) -> (r: Result<Option<u32>, DriverError>)
        requires
            old(self).wf(),
            instant_ok(now),
        ensures
            final(self).wf(),
            final(self).device_info == old(self).device_info,
            final(self).beacon == old(self).beacon,
            match (message.opcode, spec_block_ack_of(message.parameters@)) {
                (ControlOpcode::SegmentAcknowledgement, Some(b)) => final(self).transmit_queue.slots() == spec_receive_ack(
                    old(self).transmit_queue.slots(),
                    b,
                ).0 && r == Ok::<Option<u32>, DriverError>(spec_receive_ack(old(self).transmit_queue.slots(), b).2),
                _ => r == Ok::<Option<u32>, DriverError>(None) && final(self).transmit_queue.slots() == old(self).transmit_queue.slots()
                    && *final(watchdog) == *old(watchdog),
            },
    {
        match message.opcode {
            ControlOpcode::SegmentAcknowledgement => match block_ack_of(message.parameters.as_slice()) {
                Some(b) => self.transmit_queue.receive_ack(b, watchdog, now),
                None => Ok(None),
            },
            _ => Ok(None),
        }
    }

    /// The network PDU to relay, from one received: it goes out with its time
    /// to live one lower, everything else as it came; one whose time to live
    /// is below two is not relayed.
    pub fn process_outbound_relay_network_pdu(&self, pdu: &CleartextNetworkPDU) -> (r: Result<Option<CleartextNetworkPDU>, DriverError>)
        ensures
            pdu.ttl < 2 ==> r matches Ok(None),
            pdu.ttl >= 2 ==> (r matches Ok(Some(p)) && p.ttl == pdu.ttl - 1 && p.ivi == pdu.ivi && p.nid == pdu.nid
                && p.ctl == pdu.ctl && p.seq == pdu.seq && p.src == pdu.src && p.dst == pdu.dst
                && p.transport_pdu@ == pdu.transport_pdu@),
    {
        if pdu.ttl < 2 {
            return Ok(None);
        }
        let mut transport_pdu: Vec<u8> = Vec::new();
        crate::driver::provisioning_pdu::append(&mut transport_pdu, pdu.transport_pdu.as_slice());
        assert(transport_pdu@ =~= pdu.transport_pdu@);
        Ok(Some(CleartextNetworkPDU {
            ivi: pdu.ivi,
            nid: pdu.nid,
            ctl: pdu.ctl,
            ttl: pdu.ttl - 1,
            seq: pdu.seq,
            src: pdu.src,
            dst: pdu.dst,
            transport_pdu,
        }))
    }

    /// The outbound segmented message with `seq_zero` expired: it is dropped
    /// from the transmit queue.
    pub fn outbound_expiration(&mut self, seq_zero: u16)
        requires
            old(self).wf(),
        ensures
            final(self).wf(),
            final(self).device_info == old(self).device_info,
            final(self).beacon == old(self).beacon,
            final(self).transmit_queue.slots() == old(self).transmit_queue.slots().map_values(
                |s: Option<QueueEntry>| if segmented_for(s, seq_zero) { None } else { s },
            ),
    {
        self.transmit_queue.expire_outbound(seq_zero);
    }

    /// The inbound segmented message with `seq_zero` expired: where its
    /// reassembly is kept and its source sent it to a unicast address, the
    /// acknowledgement so far is sent again from `src`, as the network PDU
    /// that the network layer then encrypts.
    pub fn inbound_expiration(
        &mut self,
        sequence: &mut Sequence,
        seq_zero: u16,
        src: u16,
        watchdog: &mut Watchdog,
        now: u64,
    ) -> (r: Result<Option<CleartextNetworkPDU>, DriverError>)
        requires
            old(self).wf(),
            instant_ok(now),
        ensures
            final(self).wf(),
            final(self).device_info == old(self).device_info,
            final(self).beacon == old(self).beacon,
            match spec_expire(old(self).lower.inbound_segmentation.views(), seq_zero, now) {
                (s1, None, _) => r matches Ok(None) && final(sequence)@ == old(sequence)@
                    && final(self).lower.inbound_segmentation.views() == s1,
                (s1, Some(j), true) => r matches Ok(None) && final(sequence)@ == old(sequence)@
                    && final(self).lower.inbound_segmentation.views() == swap_removed(s1, j),
                (s1, Some(j), false) => {
                    let e = old(self).lower.inbound_segmentation.views()[j].1;
                    &&& final(self).lower.inbound_segmentation.views() == s1
                    &&& if !is_unicast(e.meta.fields.dst) {
                        r matches Ok(None) && final(sequence)@ == old(sequence)@
                    } else if e.meta.label_uuids.len() > 3 {
                        r == Err::<Option<CleartextNetworkPDU>, DriverError>(DriverError::InsufficientSpace)
                            && final(sequence)@ == seq_after(old(sequence)@, 1)
                    } else {
                        r matches Ok(Some(p)) && p.ctl == Ctl::Control && p.src == src && p.dst == e.meta.fields.src
                            && p.seq == seq_after(old(sequence)@, 1) && p.transport_pdu@ == seq![
                            control_opcode_code(ControlOpcode::SegmentAcknowledgement),
                        ] + block_ack_parameters(e.blocks.block_ack.spec_seq_zero(), e.blocks.block_ack.spec_bits())
                            && final(sequence)@ == seq_after(old(sequence)@, 2)
                    }
                },
            },
    {
        match self.lower.inbound_segmentation.expire_inbound(seq_zero, watchdog, now) {
            Some((block_ack, meta)) => {
                if meta.dst == 0 || meta.dst >= 0x8000 {
                    return Ok(None);
                }
                let pdu = match crate::driver::outbound::block_ack_to_upper_pdu(sequence, block_ack, &meta, src) {
                    Ok(p) => p,
                    Err(_) => return Err(DriverError::InsufficientSpace),
                };
                match self.lower.outbound_segmentation.process_unsegmented_control(sequence, &pdu) {
                    Ok(p) => Ok(Some(p)),
                    Err(e) => Err(e),
                }
            },
            None => Ok(None),
        }
    }
}

/// The network PDUs of each part, one part after another, as plain values.
pub open spec fn concat_parts(parts: Seq<Vec<CleartextNetworkPDU>>) -> Seq<(u8, u8, Ctl, u8, u32, u16, u16, Seq<u8>)>
    decreases parts.len(),
{
    if parts.len() == 0 {
        Seq::empty()
    } else {
        concat_parts(parts.drop_last()) + parts.last()@.map_values(|p: CleartextNetworkPDU| network_view(p))
    }
}

/// Whether `pdus` are the upper PDUs `ups` cut again into network PDUs, in
/// order: the `i`-th cut into `parts[i]` from sequence state `seqs[i]` to
/// `seqs[i + 1]`.
pub open spec fn resegmented(ups: Seq<UpperPDU>, seqs: Seq<u32>, parts: Seq<Vec<CleartextNetworkPDU>>, pdus: Seq<CleartextNetworkPDU>) -> bool {
    &&& seqs.len() == ups.len() + 1
    &&& parts.len() == ups.len()
    &&& forall|i: int| 0 <= i < ups.len() ==> segmentation_outcome(#[trigger] ups[i], seqs[i], seqs[i + 1], true, 8, Ok(parts[i]))
    &&& pdus.map_values(|p: CleartextNetworkPDU| network_view(p)) == concat_parts(parts)
}

/// The transmit queue after an outbound upper PDU went out as `n` network
/// PDUs: one is queued as unsegmented, to be sent `retransmits` more times;
/// several to a unicast address are queued as segmented, until acknowledged;
/// several to any other address are queued as unsegmented.
pub open spec fn queued(q: Seq<Option<QueueEntry>>, upper: UpperPDU, n: nat, token: Option<u32>, retransmits: u8) -> Seq<Option<QueueEntry>> {
    if n == 1 || (n > 1 && !is_unicast(pdu_meta(upper).dst)) {
        put_first_empty(q, QueueEntry::Nonsegmented { upper_pdu: upper, num_retransmit: retransmits, completion_token: token })
    } else if n > 1 {
        put_first_empty(
            q,
            QueueEntry::Segmented {
                upper_pdu: upper,
                acked: Acked { num_segments: n as u8, block_ack: BlockAck::spec_new(0, seq_zero_of_seq(pdu_meta(upper).seq)) },
                completion_token: token,
            },
        )
    } else {
        q
    }
}

impl ProvisionedStack {
    /// Sends an access message: it is encrypted under the next sequence
    /// number, cut into at most eight network PDUs, and queued for sending
    /// again; the network PDUs are handed back for the network layer to
    /// encrypt.
    pub fn process_outbound(
        &mut self,
        secrets: &Secrets,
        sequence: &mut Sequence,
        message: &Message,
        completion_token: Option<u32>,
        watchdog: &mut Watchdog,
        now: u64,
        retransmits: u8,
    ) -> (r: Result<Vec<CleartextNetworkPDU>, DriverError>)
        requires
            old(self).wf(),
            secrets.wf(),
            instant_ok(now),
            *message matches Message::Access(m) && !(m.meta.key_handle is Network) && (m.meta.key_handle matches KeyHandle::Application(
                h,
            ) ==> h.index < 4),
        ensures
            final(self).wf(),
            final(self).device_info == old(self).device_info,
            final(self).beacon == old(self).beacon,
            *message matches Message::Access(m) && ({
                let s0 = old(sequence)@;
                let s1 = seq_after(s0, 1);
                ||| (r matches Err(e) && encrypted_as(*secrets, s0, m, Err(e)) && final(sequence)@ == s1
                    && final(self).transmit_queue.slots() == old(self).transmit_queue.slots())
                ||| exists|a: crate::driver::pdu::UpperAccessPDU| #[trigger] encrypted_as(*secrets, s0, m, Ok(a))
                    && segmentation_outcome(UpperPDU::Access(a), s1, final(sequence)@, false, 8, r) && match r {
                    Ok(v) => final(self).transmit_queue.slots() == queued(
                        old(self).transmit_queue.slots(),
                        UpperPDU::Access(a),
                        v@.len(),
                        completion_token,
                        retransmits,
                    ),
                    Err(_) => final(self).transmit_queue.slots() == old(self).transmit_queue.slots(),
                }
            }),
    {
        let upper_pdu = match process_outbound_message(secrets, sequence, message) {
            Ok(u) => u,
            Err(e) => return Err(e),
        };
        let network_pdus = match self.lower.outbound_segmentation.process(sequence, &upper_pdu, false, 8) {
            Ok(v) => v,
            Err(e) => return Err(e),
        };
        let n = network_pdus.len();
        if n == 1 {
            let _ = self.transmit_queue.add_nonsegmented(upper_pdu, retransmits, completion_token);
        } else if n > 1 {
            let _ = self.transmit_queue.add_segmented(upper_pdu, n as u8, completion_token, watchdog, now, retransmits);
        }
        Ok(network_pdus)
    }

    /// A retransmission round: each queued upper PDU is cut into network PDUs
    /// again, with fresh sequence numbers, at most sixteen in all; the
    /// completions of messages sent for the last time are handed back.
    pub fn retransmit(&mut self, sequence: &mut Sequence) -> (r: Result<(Vec<CleartextNetworkPDU>, Vec<u32>), DriverError>)
        requires
            old(self).wf(),
        ensures
            final(self).wf(),
            final(self).device_info == old(self).device_info,
            final(self).beacon == old(self).beacon,
            final(self).transmit_queue.slots() == round_queue(old(self).transmit_queue.slots()),
            r matches Ok((v, done)) ==> v@.len() <= 16 && done@ == round_completions(round_prefix(old(self).transmit_queue.slots()))
                && exists|ups: Seq<UpperPDU>, seqs: Seq<u32>, parts: Seq<Vec<CleartextNetworkPDU>>|
                #![trigger resegmented(ups, seqs, parts, v@)]
                {
                    &&& ups.map_values(|u: UpperPDU| upper_view(u)) == round_pdus(round_prefix(old(self).transmit_queue.slots()))
                    &&& seqs[0] == old(sequence)@
                    &&& seqs.last() == final(sequence)@
                    &&& resegmented(ups, seqs, parts, v@)
                },
    {
        let (upper_pdus, completed) = self.transmit_queue.retransmit_round();
        let mut pdus: Vec<CleartextNetworkPDU> = Vec::new();
        let ghost mut seqs: Seq<u32> = seq![sequence@];
        let ghost mut parts: Seq<Vec<CleartextNetworkPDU>> = Seq::empty();
        let mut i: usize = 0;
        proof {
            assert(upper_pdus@.take(0) =~= Seq::<UpperPDU>::empty());
            assert(pdus@.map_values(|p: CleartextNetworkPDU| network_view(p)) =~= Seq::empty());
        }
        while i < upper_pdus.len()
            invariant
                self.wf(),
                self.device_info == old(self).device_info,
                self.beacon == old(self).beacon,
                self.transmit_queue.slots() == round_queue(old(self).transmit_queue.slots()),
                completed@ == round_completions(round_prefix(old(self).transmit_queue.slots())),
                i <= upper_pdus@.len(),
                pdus@.len() <= 16,
                seqs.len() == i + 1,
                seqs[0] == old(sequence)@,
                seqs.last() == sequence@,
                resegmented(upper_pdus@.take(i as int), seqs, parts, pdus@),
            decreases upper_pdus@.len() - i,
        {
            let v = match self.lower.outbound_segmentation.process(sequence, &upper_pdus[i], true, 8) {
                Ok(v) => v,
                Err(e) => return Err(e),
            };
            let ghost before = pdus@.map_values(|p: CleartextNetworkPDU| network_view(p));
            let mut k: usize = 0;
            proof {
                assert(v@.take(0).map_values(|p: CleartextNetworkPDU| network_view(p)) =~= Seq::empty());
                assert(before + v@.take(0).map_values(|p: CleartextNetworkPDU| network_view(p)) =~= before);
            }
            while k < v.len()
                invariant
                    self.wf(),
                    self.device_info == old(self).device_info,
                    self.beacon == old(self).beacon,
                    self.transmit_queue.slots() == round_queue(old(self).transmit_queue.slots()),
                    k <= v@.len(),
                    pdus@.len() <= 16,
                    pdus@.map_values(|p: CleartextNetworkPDU| network_view(p)) == before + v@.take(k as int).map_values(
                        |p: CleartextNetworkPDU| network_view(p),
                    ),
                decreases v@.len() - k,
            {
                if pdus.len() >= 16 {
                    return Err(DriverError::InsufficientSpace);
                }
                let ghost old_map = pdus@.map_values(|p: CleartextNetworkPDU| network_view(p));
                pdus.push(copy_network_pdu(&v[k]));
                proof {
                    assert(pdus@.map_values(|p: CleartextNetworkPDU| network_view(p)) =~= old_map.push(network_view(v@[k as int])));
                    assert(v@.take(k + 1).map_values(|p: CleartextNetworkPDU| network_view(p)) =~= v@.take(k as int).map_values(
                        |p: CleartextNetworkPDU| network_view(p),
                    ).push(network_view(v@[k as int])));
                }
                k = k + 1;
                assert(pdus@.map_values(|p: CleartextNetworkPDU| network_view(p)) =~= before + v@.take(k as int).map_values(
                    |p: CleartextNetworkPDU| network_view(p),
                ));
            }
            proof {
                assert(v@.take(v@.len() as int) =~= v@);
                let ups0 = upper_pdus@.take(i as int);
                let ups1 = upper_pdus@.take(i + 1);
                let seqs1 = seqs.push(sequence@);
                let parts1 = parts.push(v);
                assert(parts1.drop_last() =~= parts);
                assert forall|j: int| 0 <= j < ups1.len() implies segmentation_outcome(
                    #[trigger] ups1[j],
                    seqs1[j],
                    seqs1[j + 1],
                    true,
                    8,
                    Ok(parts1[j]),
                ) by {
                    if j < i {
                        assert(ups1[j] == ups0[j]);
                        assert(seqs1[j] == seqs[j]);
                        assert(seqs1[j + 1] == seqs[j + 1]);
                        assert(parts1[j] == parts[j]);
                    } else {
                        assert(ups1[j] == upper_pdus@[i as int]);
                    }
                }
                assert(concat_parts(parts1) == concat_parts(parts) + v@.map_values(|p: CleartextNetworkPDU| network_view(p)));
                seqs = seqs1;
                parts = parts1;
            }
            i = i + 1;
        }
        proof {
            assert(upper_pdus@.take(upper_pdus@.len() as int) =~= upper_pdus@);
            assert(resegmented(upper_pdus@, seqs, parts, pdus@));
            assert(upper_pdus@.map_values(|u: UpperPDU| upper_view(u)) == round_pdus(round_prefix(old(self).transmit_queue.slots())));
            assert(seqs[0] == old(sequence)@);
            assert(seqs.last() == sequence@);
        }
        Ok((pdus, completed))
    }
}

/// What the node is: not yet provisioned, with its UUID and whether
/// provisioning is under way; or provisioned.
#[derive(Copy, Clone, Debug)]
pub enum DeviceState {
    Unprovisioned { uuid: [u8; 16], in_progress: bool },
    Provisioned,
}

/// The node's stack: none yet, that of a device waiting to be provisioned,
/// or that of a provisioned node with its sequence numbers.
pub enum Stack {
    Empty,
    Unprovisioned { stack: UnprovisionedStack, uuid: [u8; 16] },
    Provisioned { stack: ProvisionedStack, sequence: Sequence },
}

impl Stack {
    pub open spec fn wf(&self) -> bool {
        match *self {
            Stack::Empty => true,
            Stack::Unprovisioned { stack, .. } => stack.wf(),
            Stack::Provisioned { stack, .. } => stack.wf(),
        }
    }

    /// What the node is, where it has a stack.
    pub fn device_state(&self) -> (r: Option<DeviceState>)
        ensures
            r == (match *self {
                Stack::Empty => None,
                Stack::Unprovisioned { stack, uuid } => Some(DeviceState::Unprovisioned {
                    uuid,
                    in_progress: stack.provisionee matches Some(p) && spec_in_progress(p),
                }),
                Stack::Provisioned { .. } => Some(DeviceState::Provisioned),
            }),
    {
        match self {
            Stack::Empty => None,
            Stack::Unprovisioned { stack, uuid } => Some(DeviceState::Unprovisioned { uuid: *uuid, in_progress: stack.in_progress() }),
            Stack::Provisioned { .. } => Some(DeviceState::Provisioned),
        }
    }

    /// When to send the next beacon, as the stack decides; none without a
    /// stack.
    pub fn next_beacon_deadline(&self, now: u64) -> (r: Option<u64>)
        ensures
            r == (match *self {
                Stack::Empty => None,
                Stack::Unprovisioned { stack, .. } => if stack.provisionee matches Some(p) && spec_in_progress(p) {
                    None
                } else {
                    Some(if stack.beacon.at <= now { now } else { stack.beacon.at })
                },
                Stack::Provisioned { stack, .. } => Some(if stack.beacon.at <= now { now } else { stack.beacon.at }),
            }),
    {
        match self {
            Stack::Empty => None,
            Stack::Unprovisioned { stack, .. } => stack.next_beacon_deadline(now),
            Stack::Provisioned { stack, .. } => stack.next_beacon_deadline(now),
        }
    }

    /// How long to wait before sending again, as the stack decides; none
    /// without a stack.
    pub fn next_retransmit(&self) -> (r: Option<u64>)
        ensures
            r == (match *self {
                Stack::Empty => None,
                Stack::Unprovisioned { stack, .. } => if stack.provisionee matches Some(p) && spec_in_progress(p) {
                    Some(PROVISIONING_RETRANSMIT_DELAY)
                } else {
                    None
                },
                Stack::Provisioned { .. } => Some(RETRANSMIT_DELAY),
            }),
    {
        match self {
            Stack::Empty => None,
            Stack::Unprovisioned { stack, .. } => stack.next_retransmit(),
            Stack::Provisioned { stack, .. } => stack.next_retransmit(),
        }
    }

    /// Whether a queued message still waits for its completion; only a
    /// provisioned node queues messages.
    pub fn has_ongoing_completion(&self) -> (r: bool)
        requires
            self.wf(),
        ensures
            r == (match *self {
                Stack::Provisioned { stack, .. } => spec_has_ongoing_completion(stack),
                _ => false,
            }),
    {
        match self {
            Stack::Empty => false,
            Stack::Unprovisioned { .. } => false,
            Stack::Provisioned { stack, .. } => stack.has_ongoing_completion(),
        }
    }
}

} // verus!
