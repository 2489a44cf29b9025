//! The provisioning link over the advertising bearer (PB-ADV): the state a
//! device keeps of its link and of the transactions on it, and what it answers
//! to each PDU it hears. The bearer's input and output stay with the caller,
//! which performs the transmissions that each decision lists.

use vstd::prelude::*;
use crate::driver::stack::DeviceState;

verus! {

/// The advertising data type of a provisioning bearer PDU.
pub const PB_ADV: u8 = 0x29;

/// The advertising data type of a mesh network PDU.
pub const MESH_MESSAGE: u8 = 0x2a;

/// The advertising data type of a mesh beacon.
pub const MESH_BEACON: u8 = 0x2b;

/// The transaction number of the device's first outbound transaction.
pub const FIRST_OUTBOUND_TRANSACTION: u8 = 0x80;

/// The room for a network PDU in one advertisement.
pub const NETWORK_FRAME_CAPACITY: usize = 64;

/// Errors of the advertising bearer.
#[derive(Copy, Clone, Debug, PartialEq, Eq, Structural)]
pub enum BearerError {
    InvalidLink,
    InvalidTransaction,
    InsufficientResources,
}

/// The messages that open, acknowledge and close a provisioning link.
#[derive(Copy, Clone, Debug)]
pub enum ProvisioningBearerControl {
    LinkOpen([u8; 16]),
    LinkAck,
    LinkClose(u8),
}

/// A generic provisioning PDU: a segment of a transaction, its
/// acknowledgement, or a link control message.
#[derive(Clone, Debug)]
pub enum GenericProvisioningPDU {
    TransactionStart { seg_n: u8, total_length: u16, fcs: u8, data: Vec<u8> },
    TransactionAck,
    TransactionContinuation { segment_index: u8, data: Vec<u8> },
    ProvisioningBearerControl(ProvisioningBearerControl),
}

/// A PDU of the provisioning bearer: a link, a transaction number and a
/// generic provisioning PDU.
#[derive(Clone, Debug)]
pub struct AdvertisingPDU {
    pub link_id: u32,
    pub transaction_number: u8,
    pub pdu: GenericProvisioningPDU,
}

/// Whether two generic provisioning PDUs carry the same fields and bytes.
pub open spec fn same_pdu(a: GenericProvisioningPDU, b: GenericProvisioningPDU) -> bool {
    match (a, b) {
        (
            GenericProvisioningPDU::TransactionStart { seg_n: n1, total_length: l1, fcs: f1, data: d1 },
            GenericProvisioningPDU::TransactionStart { seg_n: n2, total_length: l2, fcs: f2, data: d2 },
        ) => n1 == n2 && l1 == l2 && f1 == f2 && d1@ == d2@,
        (GenericProvisioningPDU::TransactionAck, GenericProvisioningPDU::TransactionAck) => true,
        (
            GenericProvisioningPDU::TransactionContinuation { segment_index: i1, data: d1 },
            GenericProvisioningPDU::TransactionContinuation { segment_index: i2, data: d2 },
        ) => i1 == i2 && d1@ == d2@,
        (GenericProvisioningPDU::ProvisioningBearerControl(c1), GenericProvisioningPDU::ProvisioningBearerControl(c2)) => c1 == c2,
        _ => false,
    }
}

/// A copy of the bytes.
fn copy_bytes(data: &Vec<u8>) -> (r: Vec<u8>)
    ensures
        r@ == data@,
{
    let mut r: Vec<u8> = Vec::new();
    let mut i: usize = 0;
    while i < data.len()
        invariant
            i <= data@.len(),
            r@ == data@.take(i as int),
        decreases data@.len() - i,
    {
        r.push(data[i]);
        i = i + 1;
        assert(r@ =~= data@.take(i as int));
    }
    assert(data@.take(data@.len() as int) =~= data@);
    r
}

impl GenericProvisioningPDU {
    /// A copy of the PDU.
    pub fn copy(&self) -> (r: GenericProvisioningPDU)
        ensures
            same_pdu(r, *self),
    {
        match self {
            GenericProvisioningPDU::TransactionStart { seg_n, total_length, fcs, data } => GenericProvisioningPDU::TransactionStart {
                seg_n: *seg_n,
                total_length: *total_length,
                fcs: *fcs,
                data: copy_bytes(data),
            },
            GenericProvisioningPDU::TransactionAck => GenericProvisioningPDU::TransactionAck,
            GenericProvisioningPDU::TransactionContinuation { segment_index, data } => GenericProvisioningPDU::TransactionContinuation {
                segment_index: *segment_index,
                data: copy_bytes(data),
            },
            GenericProvisioningPDU::ProvisioningBearerControl(c) => GenericProvisioningPDU::ProvisioningBearerControl(*c),
        }
    }
}

/// Whether `pdus` are the segments as PDUs of the link and transaction, in
/// order.
pub open spec fn carries_segments(pdus: Seq<AdvertisingPDU>, link_id: u32, transaction_number: u8, segments: Seq<GenericProvisioningPDU>) -> bool {
    &&& pdus.len() == segments.len()
    &&& forall|i: int| 0 <= i < pdus.len() ==> (#[trigger] pdus[i]).link_id == link_id && pdus[i].transaction_number == transaction_number
        && same_pdu(pdus[i].pdu, segments[i])
}

/// Whether a PDU carries the acknowledgement `control` on `link_id`.
pub open spec fn is_control(p: AdvertisingPDU, link_id: u32, transaction_number: u8, control: ProvisioningBearerControl) -> bool {
    &&& p.link_id == link_id
    &&& p.transaction_number == transaction_number
    &&& p.pdu matches GenericProvisioningPDU::ProvisioningBearerControl(c) && c == control
}

/// Whether a PDU acknowledges the transaction `transaction_number` on
/// `link_id`.
pub open spec fn is_transaction_ack(p: AdvertisingPDU, link_id: u32, transaction_number: u8) -> bool {
    &&& p.link_id == link_id
    &&& p.transaction_number == transaction_number
    &&& p.pdu is TransactionAck
}

/// Whether two UUIDs are the same.
fn same_uuid(a: &[u8; 16], b: &[u8; 16]) -> (r: bool)
    ensures
        r == (a@ == b@),
{
    let mut i: usize = 0;
    while i < 16
        invariant
            i <= 16,
            forall|j: int| 0 <= j < i ==> a@[j] == b@[j],
        decreases 16 - i,
    {
        if a[i] != b[i] {
            return false;
        }
        i = i + 1;
    }
    assert(a@ =~= b@);
    true
}

/// The link acknowledgement on `link_id`.
fn link_ack(link_id: u32) -> (r: AdvertisingPDU)
    ensures
        is_control(r, link_id, 0, ProvisioningBearerControl::LinkAck),
{
    AdvertisingPDU {
        link_id,
        transaction_number: 0,
        pdu: GenericProvisioningPDU::ProvisioningBearerControl(ProvisioningBearerControl::LinkAck),
    }
}

/// The acknowledgement of a transaction.
fn transaction_ack(link_id: u32, transaction_number: u8) -> (r: AdvertisingPDU)
    ensures
        is_transaction_ack(r, link_id, transaction_number),
{
    AdvertisingPDU { link_id, transaction_number, pdu: GenericProvisioningPDU::TransactionAck }
}

/// What the device does with a PDU it heard on its provisioning link.
#[derive(Clone, Debug)]
pub enum PbAdvDecision {
    /// Nothing to do.
    Ignore,
    /// Transmit this PDU (a link acknowledgement).
    Transmit(AdvertisingPDU),
    /// Hand the segment to the reassembly of the current transaction; when
    /// that completes the transaction, acknowledge it with `ack_transaction`.
    Collect,
    /// An old transaction was heard again: transmit its acknowledgement
    /// again where there is one, then retransmit the pending outbound PDU.
    AckAgainAndRetransmit(Option<AdvertisingPDU>),
}

/// A transaction the device sends: its link, its number and its segments.
#[derive(Clone, Debug)]
pub struct OutboundPDU {
    pub link_id: u32,
    pub transaction_number: u8,
    pub segments: Vec<GenericProvisioningPDU>,
}

impl OutboundPDU {
    /// The segments as PDUs of the link and transaction, one at a time.
    pub fn iter(&self) -> (r: OutboundPDUIter)
        ensures
            r.link_id == self.link_id,
            r.transaction_number == self.transaction_number,
            r.segments@.len() == self.segments@.len(),
            forall|i: int| 0 <= i < r.segments@.len() ==> same_pdu(#[trigger] r.segments@[i], self.segments@[i]),
            r.next_index == 0,
    {
        let mut segments: Vec<GenericProvisioningPDU> = Vec::new();
        let mut i: usize = 0;
        while i < self.segments.len()
            invariant
                i <= self.segments@.len(),
                segments@.len() == i,
                forall|k: int| 0 <= k < i ==> same_pdu(#[trigger] segments@[k], self.segments@[k]),
            decreases self.segments@.len() - i,
        {
            segments.push(self.segments[i].copy());
            i = i + 1;
        }
        OutboundPDUIter { link_id: self.link_id, transaction_number: self.transaction_number, segments, next_index: 0 }
    }

    /// Every segment as a PDU of the link and transaction, in order.
    pub fn pdus(&self) -> (r: Vec<AdvertisingPDU>)
        ensures
            carries_segments(r@, self.link_id, self.transaction_number, self.segments@),
    {
        let mut it = self.iter();
        let mut r: Vec<AdvertisingPDU> = Vec::new();
        while it.next_index < it.segments.len()
            invariant
                it.link_id == self.link_id,
                it.transaction_number == self.transaction_number,
                it.segments@.len() == self.segments@.len(),
                forall|i: int| 0 <= i < it.segments@.len() ==> same_pdu(#[trigger] it.segments@[i], self.segments@[i]),
                it.next_index <= it.segments@.len(),
                r@.len() == it.next_index,
                forall|k: int| 0 <= k < r@.len() ==> (#[trigger] r@[k]).link_id == self.link_id
                    && r@[k].transaction_number == self.transaction_number && same_pdu(r@[k].pdu, self.segments@[k]),
            decreases it.segments@.len() - it.next_index,
        {
            let ghost k = it.next_index as int;
            match it.next() {
                Some(p) => {
                    proof {
                        lemma_same_pdu_trans(p.pdu, it.segments@[k], self.segments@[k]);
                    }
                    r.push(p);
                },
                None => {},
            }
        }
        r
    }
}

/// Carrying the same fields and bytes is transitive.
proof fn lemma_same_pdu_trans(a: GenericProvisioningPDU, b: GenericProvisioningPDU, c: GenericProvisioningPDU)
    requires
        same_pdu(a, b),
        same_pdu(b, c),
    ensures
        same_pdu(a, c),
{
}

/// Hands out the segments of an outbound transaction as PDUs of its link and
/// transaction, in order.
pub struct OutboundPDUIter {
    pub link_id: u32,
    pub transaction_number: u8,
    pub segments: Vec<GenericProvisioningPDU>,
    pub next_index: usize,
}

impl OutboundPDUIter {
    /// The next segment as a PDU, or nothing once all were handed out.
    pub fn next(&mut self) -> (r: Option<AdvertisingPDU>)
        ensures
            final(self).link_id == old(self).link_id,
            final(self).transaction_number == old(self).transaction_number,
            final(self).segments@ == old(self).segments@,
            old(self).next_index < old(self).segments@.len() ==> final(self).next_index == old(self).next_index + 1
                && (r matches Some(p) && p.link_id == old(self).link_id && p.transaction_number == old(self).transaction_number
                && same_pdu(p.pdu, old(self).segments@[old(self).next_index as int])),
            old(self).next_index >= old(self).segments@.len() ==> final(self).next_index == old(self).next_index && r is None,
    {
        if self.next_index < self.segments.len() {
            let pdu = AdvertisingPDU {
                link_id: self.link_id,
                transaction_number: self.transaction_number,
                pdu: self.segments[self.next_index].copy(),
            };
            self.next_index = self.next_index + 1;
            Some(pdu)
        } else {
            None
        }
    }
}

/// The state of the device's end of a provisioning link.
pub struct PbAdvLink {
    pub link_id: Option<u32>,
    pub inbound_transaction_number: Option<u8>,
    pub acked_inbound_transaction_number: Option<u8>,
    pub outbound_pdu: Option<OutboundPDU>,
    pub outbound_transaction_number: u8,
}

/// The link, the transaction being collected, the last one acknowledged, the
/// pending outbound transaction's link, number and segments, and the next
/// outbound transaction number.
pub struct LinkView {
    pub link_id: Option<u32>,
    pub inbound: Option<u8>,
    pub acked: Option<u8>,
    pub outbound: Option<(u32, u8, Seq<GenericProvisioningPDU>)>,
    pub next_outbound: u8,
}

/// Whether a transaction with number `t` is collected, and the transaction
/// being collected afterwards: the current one, or a newer one than the last
/// acknowledged where none is current.
pub open spec fn spec_should_process(inbound: Option<u8>, acked: Option<u8>, t: u8) -> (bool, Option<u8>) {
    match (inbound, acked) {
        (Some(i), _) => if i == t { (true, inbound) } else { (false, inbound) },
        (None, Some(a)) => if a < t { (true, Some(t)) } else { (false, inbound) },
        (None, None) => (false, inbound),
    }
}

impl PbAdvLink {
    pub open spec fn view(&self) -> LinkView {
        LinkView {
            link_id: self.link_id,
            inbound: self.inbound_transaction_number,
            acked: self.acked_inbound_transaction_number,
            outbound: match self.outbound_pdu {
                Some(o) => Some((o.link_id, o.transaction_number, o.segments@)),
                None => None,
            },
            next_outbound: self.outbound_transaction_number,
        }
    }

    /// No link, no transaction, and the first outbound transaction number.
    pub fn new() -> (r: PbAdvLink)
        ensures
            r.view() == (LinkView { link_id: None, inbound: None, acked: None, outbound: None, next_outbound: 0x80 }),
    {
        PbAdvLink {
            link_id: None,
            inbound_transaction_number: None,
            acked_inbound_transaction_number: None,
            outbound_pdu: None,
            outbound_transaction_number: FIRST_OUTBOUND_TRANSACTION,
        }
    }

    /// Whether a transaction with this number is to be collected; a newer
    /// transaction than the last acknowledged one becomes the current one.
    pub fn should_process_transaction(&mut self, transaction_number: u8) -> (r: bool)
        ensures
            r == spec_should_process(old(self).view().inbound, old(self).view().acked, transaction_number).0,
            final(self).view() == (LinkView {
                inbound: spec_should_process(old(self).view().inbound, old(self).view().acked, transaction_number).1,
                ..old(self).view()
            }),
    {
        match (self.inbound_transaction_number, self.acked_inbound_transaction_number) {
            (Some(inbound), _) => inbound == transaction_number,
            (None, Some(acked)) => {
                if acked < transaction_number {
                    self.inbound_transaction_number = Some(transaction_number);
                    true
                } else {
                    false
                }
            },
            (None, None) => false,
        }
    }

    /// Acknowledges the transaction that was just completed, which becomes
    /// the last acknowledged one. Only a current transaction newer than the
    /// last acknowledged one can be acknowledged, and only on an open link.
    pub fn ack_transaction(&mut self) -> (r: Result<AdvertisingPDU, BearerError>)
        ensures
            ({
                let v = old(self).view();
                match (v.inbound, v.acked) {
                    (Some(current), acked) if (acked matches Some(last) ==> current > last) => match v.link_id {
                        Some(link_id) => r matches Ok(p) && is_transaction_ack(p, link_id, current) && final(self).view() == (LinkView {
                            inbound: None,
                            acked: Some(current),
                            ..v
                        }),
                        None => r == Err::<AdvertisingPDU, BearerError>(BearerError::InvalidLink) && final(self).view() == v,
                    },
                    _ => r == Err::<AdvertisingPDU, BearerError>(BearerError::InvalidTransaction) && final(self).view() == v,
                }
            }),
    {
        let current = match (self.inbound_transaction_number, self.acked_inbound_transaction_number) {
            (Some(current), Some(last_ack)) => {
                if current > last_ack {
                    current
                } else {
                    return Err(BearerError::InvalidTransaction);
                }
            },
            (Some(current), None) => current,
            _ => return Err(BearerError::InvalidTransaction),
        };
        match self.link_id {
            Some(link_id) => {
                self.acked_inbound_transaction_number = Some(current);
                self.inbound_transaction_number = None;
                Ok(transaction_ack(link_id, current))
            },
            None => Err(BearerError::InvalidLink),
        }
    }

    /// The acknowledgement to send again for a transaction heard again that
    /// was already acknowledged.
    pub fn try_ack_transaction_again(&self, transaction_number: u8) -> (r: Result<Option<AdvertisingPDU>, BearerError>)
        ensures
            match self.view().acked {
                Some(acked) if acked >= transaction_number => match self.view().link_id {
                    Some(link_id) => r matches Ok(Some(p)) && is_transaction_ack(p, link_id, transaction_number),
                    None => r == Err::<Option<AdvertisingPDU>, BearerError>(BearerError::InvalidLink),
                },
                _ => r matches Ok(None),
            },
    {
        match self.acked_inbound_transaction_number {
            Some(acked) => {
                if acked >= transaction_number {
                    match self.link_id {
                        Some(link_id) => Ok(Some(transaction_ack(link_id, transaction_number))),
                        None => Err(BearerError::InvalidLink),
                    }
                } else {
                    Ok(None)
                }
            },
            None => Ok(None),
        }
    }

    /// The PDUs of the pending outbound transaction, to send again.
    pub fn retransmit(&self) -> (r: Vec<AdvertisingPDU>)
        ensures
            match self.outbound_pdu {
                Some(o) => carries_segments(r@, o.link_id, o.transaction_number, o.segments@),
                None => r@.len() == 0,
            },
    {
        match &self.outbound_pdu {
            Some(o) => o.pdus(),
            None => Vec::new(),
        }
    }

    /// Starts an outbound transaction of these segments under the next
    /// transaction number, which is taken even where no link is open, and
    /// gives its PDUs to transmit.
    pub fn transmit_provisioning_pdu(&mut self, segments: Vec<GenericProvisioningPDU>) -> (r: Result<Vec<AdvertisingPDU>, BearerError>)
        requires
            old(self).outbound_transaction_number < 0xff,
        ensures
            ({
                let v = old(self).view();
                let t = v.next_outbound;
                match v.link_id {
                    Some(link_id) => final(self).view() == (LinkView {
                        outbound: Some((link_id, t, segments@)),
                        next_outbound: (t + 1) as u8,
                        ..v
                    }) && (r matches Ok(pdus) && carries_segments(pdus@, link_id, t, segments@)),
                    None => final(self).view() == (LinkView { next_outbound: (t + 1) as u8, ..v }) && r == Err::<
                        Vec<AdvertisingPDU>,
                        BearerError,
                    >(BearerError::InvalidLink),
                }
            }),
    {
        let transaction_number = self.outbound_transaction_number;
        self.outbound_transaction_number = transaction_number + 1;
        let link_id = match self.link_id {
            Some(l) => l,
            None => return Err(BearerError::InvalidLink),
        };
        let outbound = OutboundPDU { link_id, transaction_number, segments };
        let pdus = outbound.pdus();
        self.outbound_pdu = Some(outbound);
        Ok(pdus)
    }

    /// Decides what to do with a PDU heard on the provisioning bearer by a
    /// device with UUID `device_uuid`:
    /// - a link open for this device opens an idle link and is acknowledged,
    ///   or is acknowledged again on the same link; on another link it is
    ///   refused; one for another device is ignored;
    /// - a link close closes the link and forgets the current transaction;
    /// - a segment of the current or of a newer transaction is collected; one
    ///   of an older transaction is acknowledged again and the pending
    ///   outbound transaction is sent again;
    /// - a transaction acknowledgement of the pending outbound transaction
    ///   ends its retransmission.
    pub fn receive_pb_adv(&mut self, pdu: &AdvertisingPDU, device_uuid: &[u8; 16]) -> (r: Result<PbAdvDecision, BearerError>)
        ensures
            ({
                let v = old(self).view();
                let w = final(self).view();
                match pdu.pdu {
                    GenericProvisioningPDU::ProvisioningBearerControl(ProvisioningBearerControl::LinkOpen(uuid)) => if uuid@ == device_uuid@ {
                        match v.link_id {
                            None => w == (LinkView { link_id: Some(pdu.link_id), inbound: Some(pdu.transaction_number), ..v })
                                && (r matches Ok(PbAdvDecision::Transmit(p)) && is_control(p, pdu.link_id, 0, ProvisioningBearerControl::LinkAck)),
                            Some(l) => w == v && if l == pdu.link_id {
                                r matches Ok(PbAdvDecision::Transmit(p)) && is_control(p, pdu.link_id, 0, ProvisioningBearerControl::LinkAck)
                            } else {
                                r == Err::<PbAdvDecision, BearerError>(BearerError::InvalidLink)
                            },
                        }
                    } else {
                        w == v && r matches Ok(PbAdvDecision::Ignore)
                    },
                    GenericProvisioningPDU::ProvisioningBearerControl(ProvisioningBearerControl::LinkAck) => w == v && r matches Ok(PbAdvDecision::Ignore),
                    GenericProvisioningPDU::ProvisioningBearerControl(ProvisioningBearerControl::LinkClose(_)) => w == (LinkView {
                        link_id: None,
                        inbound: None,
                        ..v
                    }) && r matches Ok(PbAdvDecision::Ignore),
                    GenericProvisioningPDU::TransactionAck => r matches Ok(PbAdvDecision::Ignore) && w == (LinkView {
                        outbound: if v.outbound matches Some((_, t, _)) && t == pdu.transaction_number { None } else { v.outbound },
                        ..v
                    }),
                    _ => {
                        let (process, inbound) = spec_should_process(v.inbound, v.acked, pdu.transaction_number);
                        w == (LinkView { inbound, ..v }) && if process {
                            r matches Ok(PbAdvDecision::Collect)
                        } else {
                            match v.acked {
                                Some(acked) if acked >= pdu.transaction_number => match v.link_id {
                                    Some(link_id) => r matches Ok(PbAdvDecision::AckAgainAndRetransmit(Some(p))) && is_transaction_ack(
                                        p,
                                        link_id,
                                        pdu.transaction_number,
                                    ),
                                    None => r == Err::<PbAdvDecision, BearerError>(BearerError::InvalidLink),
                                },
                                _ => r matches Ok(PbAdvDecision::AckAgainAndRetransmit(None)),
                            }
                        }
                    },
                }
            }),
    {
        match &pdu.pdu {
            GenericProvisioningPDU::ProvisioningBearerControl(pbc) => match pbc {
                ProvisioningBearerControl::LinkOpen(uuid) => {
                    if same_uuid(uuid, device_uuid) {
                        match self.link_id {
                            None => {
                                self.inbound_transaction_number = Some(pdu.transaction_number);
                                self.link_id = Some(pdu.link_id);
                                Ok(PbAdvDecision::Transmit(link_ack(pdu.link_id)))
                            },
                            Some(link_id) => {
                                if link_id == pdu.link_id {
                                    Ok(PbAdvDecision::Transmit(link_ack(pdu.link_id)))
                                } else {
                                    Err(BearerError::InvalidLink)
                                }
                            },
                        }
                    } else {
                        Ok(PbAdvDecision::Ignore)
                    }
                },
                ProvisioningBearerControl::LinkAck => Ok(PbAdvDecision::Ignore),
                ProvisioningBearerControl::LinkClose(_) => {
                    self.link_id = None;
                    self.inbound_transaction_number = None;
                    Ok(PbAdvDecision::Ignore)
                },
            },
            GenericProvisioningPDU::TransactionAck => {
                let hit = match &self.outbound_pdu {
                    Some(outbound) => outbound.transaction_number == pdu.transaction_number,
                    None => false,
                };
                if hit {
                    self.outbound_pdu = None;
                }
                Ok(PbAdvDecision::Ignore)
            },
            _ => {
                if self.should_process_transaction(pdu.transaction_number) {
                    Ok(PbAdvDecision::Collect)
                } else {
                    match self.try_ack_transaction_again(pdu.transaction_number) {
                        Ok(ack) => Ok(PbAdvDecision::AckAgainAndRetransmit(ack)),
                        Err(e) => Err(e),
                    }
                }
            },
        }
    }
}

/// Once a transaction is acknowledged and none is current, a segment of a
/// transaction is collected exactly when its number is newer: an acknowledged
/// transaction is never collected again.
pub proof fn lemma_acked_transaction_not_collected_again(acked: u8, t: u8)
    ensures
        spec_should_process(None, Some(acked), t).0 == (t > acked),
        t <= acked ==> spec_should_process(None, Some(acked), t).1 is None,
        t > acked ==> spec_should_process(None, Some(acked), t).1 == Some(t),
{
}

/// The unprovisioned device beacon of a device with UUID `uuid`, as one
/// advertisement.
pub open spec fn spec_beacon_frame(uuid: Seq<u8>) -> Seq<u8> {
    seq![20u8, MESH_BEACON, 0x00u8] + uuid + seq![0xa0u8, 0x40u8]
}

/// Frames the unprovisioned device beacon.
pub fn beacon_frame(uuid: &[u8; 16]) -> (r: Vec<u8>)
    ensures
        r@ == spec_beacon_frame(uuid@),
        r@.len() == 21,
        r@[0] == r@.len() - 1,
{
    let mut r: Vec<u8> = vec![20u8, MESH_BEACON, 0x00u8];
    let mut i: usize = 0;
    while i < 16
        invariant
            i <= 16,
            r@ == seq![20u8, MESH_BEACON, 0x00u8] + uuid@.take(i as int),
        decreases 16 - i,
    {
        r.push(uuid[i]);
        i = i + 1;
        assert(r@ =~= seq![20u8, MESH_BEACON, 0x00u8] + uuid@.take(i as int));
    }
    r.push(0xa0u8);
    r.push(0x40u8);
    assert(uuid@.take(16) =~= uuid@);
    assert(r@ =~= spec_beacon_frame(uuid@));
    r
}

/// Frames a network PDU as one advertisement: its length, its type, then the
/// PDU, in at most 64 bytes.
pub fn network_frame(pdu: &[u8]) -> (r: Result<Vec<u8>, BearerError>)
    ensures
        pdu@.len() + 2 <= 64 ==> (r matches Ok(f) && f@ == seq![(pdu@.len() + 1) as u8, MESH_MESSAGE] + pdu@),
        pdu@.len() + 2 > 64 ==> r == Err::<Vec<u8>, BearerError>(BearerError::InsufficientResources),
{
    if pdu.len() > NETWORK_FRAME_CAPACITY - 2 {
        return Err(BearerError::InsufficientResources);
    }
    let mut r: Vec<u8> = vec![(pdu.len() + 1) as u8, MESH_MESSAGE];
    let mut i: usize = 0;
    while i < pdu.len()
        invariant
            pdu@.len() <= 62,
            i <= pdu@.len(),
            r@ == seq![(pdu@.len() + 1) as u8, MESH_MESSAGE] + pdu@.take(i as int),
        decreases pdu@.len() - i,
    {
        r.push(pdu[i]);
        i = i + 1;
        assert(r@ =~= seq![(pdu@.len() + 1) as u8, MESH_MESSAGE] + pdu@.take(i as int));
    }
    assert(pdu@.take(pdu@.len() as int) =~= pdu@);
    Ok(r)
}

/// What a heard advertisement is to a device in its state.
#[derive(Copy, Clone, Debug)]
pub enum HeardFrame {
    /// A PDU of the provisioning bearer, heard by an unprovisioned device with
    /// this UUID.
    ProvisioningBearer([u8; 16]),
    /// A network PDU, from the third byte on, heard by a provisioned node.
    Network,
    /// Nothing for this device.
    Ignored,
}

/// An advertisement of at least two bytes is read by its type, the second
/// byte: a provisioning bearer PDU matters to an unprovisioned device, a mesh
/// message to a provisioned node; anything else is ignored.
pub open spec fn spec_heard_frame(data: Seq<u8>, state: DeviceState) -> HeardFrame {
    if data.len() < 2 {
        HeardFrame::Ignored
    } else {
        match state {
            DeviceState::Unprovisioned { uuid, .. } => if data[1] == PB_ADV {
                HeardFrame::ProvisioningBearer(uuid)
            } else {
                HeardFrame::Ignored
            },
            DeviceState::Provisioned => if data[1] == MESH_MESSAGE {
                HeardFrame::Network
            } else {
                HeardFrame::Ignored
            },
        }
    }
}

/// What a heard advertisement is to a device in its state.
pub fn heard_frame(data: &[u8], state: &DeviceState) -> (r: HeardFrame)
    ensures
        r == spec_heard_frame(data@, *state),
{
    if data.len() < 2 {
        return HeardFrame::Ignored;
    }
    match state {
        DeviceState::Unprovisioned { uuid, .. } => if data[1] == PB_ADV {
            HeardFrame::ProvisioningBearer(*uuid)
        } else {
            HeardFrame::Ignored
        },
        DeviceState::Provisioned => if data[1] == MESH_MESSAGE {
            HeardFrame::Network
        } else {
            HeardFrame::Ignored
        },
    }
}

} // verus!
