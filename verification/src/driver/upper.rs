//! The upper transport layer: the label UUIDs that a virtual destination may
//! stand for, and the encryption and decryption of access messages.

use vstd::prelude::*;
use crate::address::{is_virtual, LabelUuid};
use crate::common::{lemma_split_opcode_bytes, opcode_bytes, spec_split_opcode, Opcode};
use crate::crypto::{ccm_decrypt32, ccm_decrypt64, ccm_encrypt32, ccm_open32, ccm_open64, ccm_seal32};
use crate::driver::pdu::{ControlOpcode, UpperAccessPDU, UpperControlPDU, UpperMetadata, UpperPDU};
use crate::driver::secrets::{
    lemma_matching_indexes_valid, matching_indexes, ApplicationKeyHandle, NetworkKeyHandle, Secrets,
};
use crate::driver::sequence::Sequence;
use crate::error::{DriverError, ParseError};
use crate::keys::ApplicationKey;
use crate::models::configuration::NetKeyIndex;

verus! {

/// The key that secures an access message.
#[derive(Copy, Clone, Debug, PartialEq, Eq, Structural)]
pub enum KeyHandle {
    Device,
    Network(NetworkKeyHandle),
    Application(ApplicationKeyHandle),
}

/// What the access layer knows of a message besides its opcode and
/// parameters.
#[derive(Copy, Clone, Debug)]
pub struct AccessMetadata {
    pub iv_index: u32,
    pub nid: u8,
    pub key_handle: KeyHandle,
    pub src: u16,
    pub dst: u16,
    pub ttl: u8,
    pub label_uuid: Option<LabelUuid>,
    pub replay_seq: Option<u32>,
}

/// An access message: an opcode, its parameters and its metadata.
#[derive(Clone, Debug)]
pub struct AccessMessage {
    pub opcode: Opcode,
    pub parameters: Vec<u8>,
    pub meta: AccessMetadata,
}

/// What the control layer knows of a control message besides its opcode and
/// parameters: nothing yet.
#[derive(Copy, Clone, Debug)]
pub struct ControlMetadata {}

impl ControlMetadata {
    /// The metadata of a control message from its upper transport PDU.
    pub fn from_upper_control_pdu(pdu: &UpperControlPDU) -> (r: ControlMetadata) {
        ControlMetadata {}
    }
}

/// A transport control message.
#[derive(Clone, Debug)]
pub struct ControlMessage {
    pub opcode: ControlOpcode,
    pub parameters: Vec<u8>,
    pub meta: ControlMetadata,
}

/// A message handed up from, or down to, the upper transport layer.
#[derive(Clone, Debug)]
pub enum Message {
    Access(AccessMessage),
    Control(ControlMessage),
}

/// The largest upper transport access payload.
pub const MAX_ACCESS_PAYLOAD: usize = 380;

/// The metadata of an access message decrypted from `meta` with the key
/// `key_handle` and, for a virtual destination, the label `label_uuid`.
pub open spec fn spec_access_meta(key_handle: KeyHandle, label_uuid: Option<LabelUuid>, meta: UpperMetadata) -> AccessMetadata {
    AccessMetadata {
        iv_index: meta.iv_index,
        nid: meta.nid,
        key_handle,
        src: meta.src,
        dst: meta.dst,
        ttl: meta.ttl,
        label_uuid,
        replay_seq: Some(
            match meta.replay_seq {
                Some(s) => s,
                None => meta.seq,
            },
        ),
    }
}

impl AccessMetadata {
    /// The IV index.
    pub fn iv_index(&self) -> (r: u32)
        ensures
            r == self.iv_index,
    {
        self.iv_index
    }

    /// The key that secured the message.
    pub fn key_handle(&self) -> (r: KeyHandle)
        ensures
            r == self.key_handle,
    {
        self.key_handle
    }

    /// The source address.
    pub fn src(&self) -> (r: u16)
        ensures
            r == self.src,
    {
        self.src
    }

    /// The destination address.
    pub fn dst(&self) -> (r: u16)
        ensures
            r == self.dst,
    {
        self.dst
    }

    /// The time to live.
    pub fn ttl(&self) -> (r: u8)
        ensures
            r == self.ttl,
    {
        self.ttl
    }

    /// The sequence number that replay protection checks.
    pub fn replay_seq(&self) -> (r: Option<u32>)
        ensures
            r == self.replay_seq,
    {
        self.replay_seq
    }

    /// The metadata of an access message decrypted from `pdu`.
    pub fn from_upper_access_pdu(key_handle: KeyHandle, label_uuid: Option<LabelUuid>, pdu: &UpperAccessPDU) -> (r: AccessMetadata)
        ensures
            r == spec_access_meta(key_handle, label_uuid, pdu.meta),
    {
        AccessMetadata {
            iv_index: pdu.meta.iv_index,
            nid: pdu.meta.nid,
            key_handle,
            src: pdu.meta.src,
            dst: pdu.meta.dst,
            ttl: pdu.meta.ttl,
            label_uuid,
            replay_seq: Some(
                match pdu.meta.replay_seq {
                    Some(s) => s,
                    None => pdu.meta.seq,
                },
            ),
        }
    }
}

impl UpperMetadata {
    /// The metadata of the upper transport PDU that carries `message`, sent
    /// with sequence number `seq`.
    pub fn from_access_message(message: &AccessMessage, seq: u32) -> (r: UpperMetadata)
        ensures
            r.iv_index == message.meta.iv_index,
            r.nid == message.meta.nid,
            r.aid == (match message.meta.key_handle {
                KeyHandle::Application(h) => Some(h.aid),
                _ => None::<u8>,
            }),
            r.seq == seq,
            r.src == message.meta.src,
            r.dst == message.meta.dst,
            r.ttl == message.meta.ttl,
            r.label_uuids@.len() == 0,
            r.seq_auth is None,
            r.replay_seq == Some(seq),
    {
        UpperMetadata {
            iv_index: message.meta.iv_index,
            nid: message.meta.nid,
            aid: match message.meta.key_handle {
                KeyHandle::Application(h) => Some(h.aid),
                _ => None,
            },
            seq,
            src: message.meta.src,
            dst: message.meta.dst,
            ttl: message.meta.ttl,
            label_uuids: Vec::new(),
            seq_auth: None,
            replay_seq: Some(seq),
        }
    }
}

/// The 13-byte nonce of the mesh security functions: its type, the size of the
/// message integrity check, the sequence number, source and destination
/// addresses, and the IV index, each big-endian.
pub open spec fn spec_nonce(kind: u8, aszmic: bool, seq: u32, src: u16, dst: u16, iv_index: u32) -> Seq<u8> {
    seq![
        kind,
        if aszmic { 0x80u8 } else { 0x00u8 },
        (seq >> 16u32) as u8,
        (seq >> 8u32) as u8,
        seq as u8,
        (src >> 8u16) as u8,
        src as u8,
        (dst >> 8u16) as u8,
        dst as u8,
        (iv_index >> 24u32) as u8,
        (iv_index >> 16u32) as u8,
        (iv_index >> 8u32) as u8,
        iv_index as u8,
    ]
}

/// The nonce type of messages secured by an application key.
pub const APPLICATION_NONCE: u8 = 0x01;

/// The nonce type of messages secured by the device key.
pub const DEVICE_NONCE: u8 = 0x02;

/// Builds a nonce of the given type.
pub fn nonce(kind: u8, aszmic: bool, seq: u32, src: u16, dst: u16, iv_index: u32) -> (r: [u8; 13])
    ensures
        r@ == spec_nonce(kind, aszmic, seq, src, dst, iv_index),
{
    let r: [u8; 13] = [
        kind,
        if aszmic { 0x80u8 } else { 0x00u8 },
        (seq >> 16u32) as u8,
        (seq >> 8u32) as u8,
        seq as u8,
        (src >> 8u16) as u8,
        src as u8,
        (dst >> 8u16) as u8,
        dst as u8,
        (iv_index >> 24u32) as u8,
        (iv_index >> 16u32) as u8,
        (iv_index >> 8u32) as u8,
        iv_index as u8,
    ];
    assert(r@ =~= spec_nonce(kind, aszmic, seq, src, dst, iv_index));
    r
}

/// AES-CCM decryption with a tag of four or eight bytes.
pub open spec fn spec_ccm_open(key: Seq<u8>, nonce: Seq<u8>, aad: Seq<u8>, ct: Seq<u8>, tag: Seq<u8>) -> Option<Seq<u8>> {
    if tag.len() == 4 {
        ccm_open32(key, nonce, aad, ct, tag)
    } else {
        ccm_open64(key, nonce, aad, ct, tag)
    }
}

/// Decrypts `ct` and checks its tag of four or eight bytes.
fn ccm_open(key: &[u8; 16], nonce: &[u8; 13], aad: &[u8], ct: &[u8], tag: &[u8]) -> (r: Option<Vec<u8>>)
    requires
        tag@.len() == 4 || tag@.len() == 8,
    ensures
        match r {
            Some(p) => spec_ccm_open(key@, nonce@, aad@, ct@, tag@) == Some(p@),
            None => spec_ccm_open(key@, nonce@, aad@, ct@, tag@) is None,
        },
{
    if tag.len() == 4 {
        let t: [u8; 4] = [tag[0], tag[1], tag[2], tag[3]];
        assert(t@ =~= tag@);
        ccm_decrypt32(key, nonce, aad, ct, &t)
    } else {
        let t: [u8; 8] = [tag[0], tag[1], tag[2], tag[3], tag[4], tag[5], tag[6], tag[7]];
        assert(t@ =~= tag@);
        ccm_decrypt64(key, nonce, aad, ct, &t)
    }
}

/// The labels of the slots among the first `n` whose virtual address is
/// `dst`, in slot order.
pub open spec fn labels_for(slots: Seq<Option<LabelUuid>>, dst: u16, n: int) -> Seq<LabelUuid>
    decreases n,
{
    if n <= 0 {
        Seq::empty()
    } else {
        labels_for(slots, dst, n - 1) + match slots[n - 1] {
            Some(l) => if l.spec_virtual_address().0 == dst {
                seq![l]
            } else {
                Seq::empty()
            },
            None => Seq::empty(),
        }
    }
}

/// The outcome of adding to `labels` the stored labels for the destination
/// `dst`, and the labels then held: a destination that is not virtual adds
/// none; otherwise the labels for it are added in slot order while there is
/// room for three.
pub open spec fn spec_apply_labels(slots: Seq<Option<LabelUuid>>, labels: Seq<LabelUuid>, dst: u16) -> (Result<(), DriverError>, Seq<LabelUuid>) {
    if !is_virtual(dst) {
        (Ok(()), labels)
    } else {
        let all = labels + labels_for(slots, dst, 20);
        if all.len() <= 3 {
            (Ok(()), all)
        } else {
            (Err(DriverError::InsufficientSpace), all.take(3))
        }
    }
}

/// The number of label UUIDs the upper transport layer keeps.
pub const LABEL_SLOTS: usize = 20;

/// The label UUIDs of the virtual addresses that the node knows.
pub struct UpperDriver {
    label_uuids: Vec<Option<LabelUuid>>,
}

impl UpperDriver {
    /// The label slots.
    pub closed spec fn slots(&self) -> Seq<Option<LabelUuid>> {
        self.label_uuids@
    }

    pub open spec fn wf(&self) -> bool {
        self.slots().len() == 20
    }

    /// No label.
    pub fn new() -> (r: UpperDriver)
        ensures
            r.wf(),
            forall|i: int| 0 <= i < 20 ==> (#[trigger] r.slots()[i]) is None,
    {
        let mut label_uuids: Vec<Option<LabelUuid>> = Vec::new();
        let mut i: usize = 0;
        while i < LABEL_SLOTS
            invariant
                i <= 20,
                label_uuids@.len() == i,
                forall|j: int| 0 <= j < i ==> (#[trigger] label_uuids@[j]) is None,
            decreases 20 - i,
        {
            label_uuids.push(None);
            i = i + 1;
        }
        UpperDriver { label_uuids }
    }

    /// Stores a label in the first free slot.
    pub fn add_label_uuid(&mut self, label_uuid: LabelUuid) -> (r: Result<(), DriverError>)
        requires
            old(self).wf(),
        ensures
            final(self).wf(),
            match crate::driver::tables::first_none(old(self).slots()) {
                Some(i) => r is Ok && final(self).slots() == old(self).slots().update(i, Some(label_uuid)),
                None => r == Err::<(), DriverError>(DriverError::InsufficientSpace) && final(self).slots() == old(self).slots(),
            },
    {
        match crate::driver::tables::find_none(&self.label_uuids) {
            Some(i) => {
                self.label_uuids.set(i, Some(label_uuid));
                Ok(())
            },
            None => Err(DriverError::InsufficientSpace),
        }
    }

    /// Empties every slot that holds the label.
    pub fn remove_label_uuid(&mut self, label_uuid: LabelUuid)
        requires
            old(self).wf(),
        ensures
            final(self).wf(),
            final(self).slots() == old(self).slots().map_values(
                |s: Option<LabelUuid>| if s == Some(label_uuid) { None } else { s },
            ),
    {
        let ghost q = self.slots();
        let mut i: usize = 0;
        while i < self.label_uuids.len()
            invariant
                q == old(self).slots(),
                q.len() == 20,
                self.slots().len() == 20,
                i <= 20,
                forall|j: int| 0 <= j < i ==> #[trigger] self.slots()[j] == (if q[j] == Some(label_uuid) { None } else { q[j] }),
                forall|j: int| i <= j < 20 ==> #[trigger] self.slots()[j] == q[j],
            decreases 20 - i,
        {
            let hit = match &self.label_uuids[i] {
                Some(l) => *l == label_uuid,
                None => false,
            };
            proof {
                if let Some(l) = q[i as int] {
                    LabelUuid::lemma_eq(l, label_uuid);
                }
            }
            if hit {
                self.label_uuids.set(i, None);
            }
            i = i + 1;
        }
        assert(self.slots() =~= q.map_values(|s: Option<LabelUuid>| if s == Some(label_uuid) { None } else { s }));
    }

    /// Adds to `meta` the stored labels whose virtual address is its
    /// destination, in slot order, while it has room for three; a destination
    /// that is not virtual leaves it as it is.
    pub fn apply_label_uuids(&self, meta: &mut UpperMetadata) -> (r: Result<(), DriverError>)
        requires
            self.wf(),
            old(meta).label_uuids@.len() <= 3,
        ensures
            final(meta).iv_index == old(meta).iv_index,
            final(meta).nid == old(meta).nid,
            final(meta).aid == old(meta).aid,
            final(meta).seq == old(meta).seq,
            final(meta).src == old(meta).src,
            final(meta).dst == old(meta).dst,
            final(meta).ttl == old(meta).ttl,
            final(meta).seq_auth == old(meta).seq_auth,
            final(meta).replay_seq == old(meta).replay_seq,
            r == spec_apply_labels(self.slots(), old(meta).label_uuids@, old(meta).dst).0,
            final(meta).label_uuids@ == spec_apply_labels(self.slots(), old(meta).label_uuids@, old(meta).dst).1,
    {
        if meta.dst < 0x8000 || meta.dst >= 0xc000 {
            return Ok(());
        }
        let ghost d = meta.dst;
        let ghost start = meta.label_uuids@;
        let mut i: usize = 0;
        while i < self.label_uuids.len()
            invariant
                self.wf(),
                i <= 20,
                meta.dst == d,
                is_virtual(d),
                meta.iv_index == old(meta).iv_index,
                meta.nid == old(meta).nid,
                meta.aid == old(meta).aid,
                meta.seq == old(meta).seq,
                meta.src == old(meta).src,
                meta.dst == old(meta).dst,
                meta.ttl == old(meta).ttl,
                meta.seq_auth == old(meta).seq_auth,
                meta.replay_seq == old(meta).replay_seq,
                start == old(meta).label_uuids@,
                start.len() <= 3,
                meta.label_uuids@ == start + labels_for(self.slots(), d, i as int),
                meta.label_uuids@.len() <= 3,
            decreases 20 - i,
        {
            match &self.label_uuids[i] {
                Some(l) => {
                    if l.virtual_address().0 == meta.dst {
                        if meta.label_uuids.len() >= 3 {
                            proof {
                                let all = start + labels_for(self.slots(), d, 20);
                                lemma_labels_for_prefix(self.slots(), d, i as int + 1, 20);
                                assert(meta.label_uuids@.len() == 3);
                                assert((start + labels_for(self.slots(), d, i as int + 1)).len() == 4);
                                assert(all.take(3) =~= (start + labels_for(self.slots(), d, i as int + 1)).take(3)) by {
                                    assert forall|k: int| 0 <= k < 3 implies #[trigger] all[k] == (start + labels_for(self.slots(), d, i as int + 1))[k] by {
                                        if k >= start.len() {
                                            assert(labels_for(self.slots(), d, 20)[k - start.len()] == labels_for(self.slots(), d, i as int + 1)[k - start.len()]);
                                        }
                                    }
                                }
                                assert(meta.label_uuids@ =~= (start + labels_for(self.slots(), d, i as int + 1)).take(3));
                            }
                            return Err(DriverError::InsufficientSpace);
                        }
                        meta.label_uuids.push(*l);
                    }
                },
                None => {},
            }
            proof {
                assert(meta.label_uuids@ =~= start + labels_for(self.slots(), d, i as int + 1));
            }
            i = i + 1;
        }
        Ok(())
    }
}

/// The labels of the first `n` slots begin the labels of the first `m`.
pub proof fn lemma_labels_for_prefix(slots: Seq<Option<LabelUuid>>, dst: u16, n: int, m: int)
    requires
        0 <= n <= m,
    ensures
        labels_for(slots, dst, n).len() <= labels_for(slots, dst, m).len(),
        forall|k: int| 0 <= k < labels_for(slots, dst, n).len() ==> #[trigger] labels_for(slots, dst, m)[k] == labels_for(slots, dst, n)[k],
    decreases m - n,
{
    if n < m {
        lemma_labels_for_prefix(slots, dst, n, m - 1);
    }
}

impl AccessMessage {
    /// Reads an access message: its opcode, then its parameters.
    pub fn parse(data: &[u8], meta: AccessMetadata) -> (r: Result<AccessMessage, ParseError>)
        ensures
            match spec_split_opcode(data@) {
                Some((op, rest)) => r matches Ok(m) && m.opcode == op && m.parameters@ == rest && m.meta == meta,
                None => r == Err::<AccessMessage, ParseError>(ParseError::InvalidPDUFormat),
            },
    {
        match Opcode::split(data) {
            Some((opcode, parameters)) => Ok(AccessMessage { opcode, parameters, meta }),
            None => Err(ParseError::InvalidPDUFormat),
        }
    }

    /// The bytes of the message: its opcode, then its parameters.
    pub fn emit(&self) -> (r: Vec<u8>)
        ensures
            r@ == opcode_bytes(self.opcode) + self.parameters@,
    {
        let mut r = self.opcode.bytes();
        let mut i: usize = 0;
        while i < self.parameters.len()
            invariant
                i <= self.parameters@.len(),
                r@ == opcode_bytes(self.opcode) + self.parameters@.take(i as int),
            decreases self.parameters@.len() - i,
        {
            r.push(self.parameters[i]);
            i = i + 1;
            assert(r@ =~= opcode_bytes(self.opcode) + self.parameters@.take(i as int));
        }
        assert(self.parameters@.take(i as int) =~= self.parameters@);
        r
    }
}

/// The first label, from position `j` on, whose bytes as additional data
/// decrypt `ct`, and the plaintext.
pub open spec fn open_with_labels(key: Seq<u8>, nonce: Seq<u8>, labels: Seq<LabelUuid>, ct: Seq<u8>, tag: Seq<u8>, j: int) -> Option<(LabelUuid, Seq<u8>)>
    decreases labels.len() - j,
{
    if 0 <= j < labels.len() {
        match spec_ccm_open(key, nonce, labels[j].label(), ct, tag) {
            Some(p) => Some((labels[j], p)),
            None => open_with_labels(key, nonce, labels, ct, tag, j + 1),
        }
    } else {
        None
    }
}

/// Decryption with one key: without additional data where no label is a
/// candidate, else with the first candidate label that fits.
pub open spec fn open_with_key(key: Seq<u8>, nonce: Seq<u8>, labels: Seq<LabelUuid>, ct: Seq<u8>, tag: Seq<u8>) -> Option<(Option<LabelUuid>, Seq<u8>)> {
    if labels.len() == 0 {
        match spec_ccm_open(key, nonce, Seq::empty(), ct, tag) {
            Some(p) => Some((None, p)),
            None => None,
        }
    } else {
        match open_with_labels(key, nonce, labels, ct, tag, 0) {
            Some((l, p)) => Some((Some(l), p)),
            None => None,
        }
    }
}

/// The bytes of the application key in a slot.
pub open spec fn app_key_bytes(slots: Seq<Option<(NetKeyIndex, ApplicationKey)>>, index: u16) -> Seq<u8> {
    match slots[index as int] {
        Some((_, k)) => k.bytes(),
        None => Seq::empty(),
    }
}

/// The first application key, from position `i` of the candidates on, that
/// decrypts `ct`, with the label used and the plaintext.
pub open spec fn open_with_app_keys(
    slots: Seq<Option<(NetKeyIndex, ApplicationKey)>>,
    indexes: Seq<u16>,
    aid: u8,
    nonce: Seq<u8>,
    labels: Seq<LabelUuid>,
    ct: Seq<u8>,
    tag: Seq<u8>,
    i: int,
) -> Option<(ApplicationKeyHandle, Option<LabelUuid>, Seq<u8>)>
    decreases indexes.len() - i,
{
    if 0 <= i < indexes.len() {
        match open_with_key(app_key_bytes(slots, indexes[i]), nonce, labels, ct, tag) {
            Some((l, p)) => Some((ApplicationKeyHandle { index: indexes[i], aid }, l, p)),
            None => open_with_app_keys(slots, indexes, aid, nonce, labels, ct, tag, i + 1),
        }
    } else {
        None
    }
}

/// The application keys whose identifier is `aid`, in slot order.
pub open spec fn app_key_candidates(secrets: Secrets, aid: u8) -> Seq<u16> {
    matching_indexes(secrets.application_keys.slots(), |e: (NetKeyIndex, ApplicationKey)| e.1.spec_aid(), aid, 4)
}

/// What decrypting an upper transport access PDU gives: the key that fits,
/// the label used, and the plaintext. A PDU with an application key
/// identifier is tried with each application key of that identifier and, for
/// a virtual destination, each candidate label; one without is tried with the
/// device key. A MIC of neither four nor eight bytes, and a payload longer
/// than an access payload can be, are refused before any key is tried.
pub open spec fn spec_access_decryption(secrets: Secrets, pdu: UpperAccessPDU) -> Result<(KeyHandle, Option<LabelUuid>, Seq<u8>), DriverError> {
    let meta = pdu.meta;
    let aszmic = pdu.transmic@.len() == 8;
    if !(pdu.transmic@.len() == 4 || pdu.transmic@.len() == 8) {
        Err(DriverError::InvalidPDU)
    } else {
    match meta.aid {
        Some(aid) => {
            let indexes = app_key_candidates(secrets, aid);
            if indexes.len() > 0 && pdu.payload@.len() > 380 {
                Err(DriverError::InsufficientSpace)
            } else {
                let n = spec_nonce(APPLICATION_NONCE, aszmic, meta.seq, meta.src, meta.dst, meta.iv_index);
                match open_with_app_keys(secrets.application_keys.slots(), indexes, aid, n, meta.label_uuids@, pdu.payload@, pdu.transmic@, 0) {
                    Some((h, l, p)) => Ok((KeyHandle::Application(h), l, p)),
                    None => Err(DriverError::InvalidPDU),
                }
            }
        },
        None => {
            if pdu.payload@.len() > 380 {
                Err(DriverError::InsufficientSpace)
            } else {
                let seq = match meta.seq_auth {
                    Some(a) => a,
                    None => meta.seq,
                };
                let n = spec_nonce(DEVICE_NONCE, aszmic, seq, meta.src, meta.dst, meta.iv_index);
                match spec_ccm_open(secrets.device_key.0@, n, Seq::empty(), pdu.payload@, pdu.transmic@) {
                    Some(p) => Ok((KeyHandle::Device, None, p)),
                    None => Err(DriverError::InvalidPDU),
                }
            }
        },
    }
    }
}

/// The nonce of an access message secured with the device key: type 0x02,
/// the MIC-size bit, then the 24-bit sequence number, source, destination and
/// IV index, big-endian.
pub open spec fn device_nonce_bytes(aszmic: bool, seq: u32, src: u16, dst: u16, iv_index: u32) -> Seq<u8> {
    seq![0x02u8, if aszmic { 0x80u8 } else { 0x00u8 }]
        + seq![((seq / 0x10000) % 0x100) as u8, ((seq / 0x100) % 0x100) as u8, (seq % 0x100) as u8]
        + seq![(src / 0x100) as u8, (src % 0x100) as u8, (dst / 0x100) as u8, (dst % 0x100) as u8]
        + seq![(iv_index / 0x1000000) as u8, ((iv_index / 0x10000) % 0x100) as u8, ((iv_index / 0x100) % 0x100) as u8, (iv_index % 0x100) as u8]
}

/// The nonce of an access message secured with an application key: as the
/// device nonce, but of type 0x01.
pub open spec fn application_nonce_bytes(aszmic: bool, seq: u32, src: u16, dst: u16, iv_index: u32) -> Seq<u8> {
    seq![0x01u8] + device_nonce_bytes(aszmic, seq, src, dst, iv_index).drop_first()
}

/// The nonces built by the library are these byte layouts.
proof fn lemma_nonce_layout(aszmic: bool, seq: u32, src: u16, dst: u16, iv_index: u32)
    ensures
        spec_nonce(DEVICE_NONCE, aszmic, seq, src, dst, iv_index) == device_nonce_bytes(aszmic, seq, src, dst, iv_index),
        spec_nonce(APPLICATION_NONCE, aszmic, seq, src, dst, iv_index) == application_nonce_bytes(aszmic, seq, src, dst, iv_index),
{
    assert((seq >> 16u32) as u8 == ((seq / 0x10000) % 0x100) as u8) by (bit_vector);
    assert((seq >> 8u32) as u8 == ((seq / 0x100) % 0x100) as u8) by (bit_vector);
    assert(seq as u8 == (seq % 0x100) as u8) by (bit_vector);
    assert((src >> 8u16) as u8 == (src / 0x100) as u8) by (bit_vector);
    assert(src as u8 == (src % 0x100) as u8) by (bit_vector);
    assert((dst >> 8u16) as u8 == (dst / 0x100) as u8) by (bit_vector);
    assert(dst as u8 == (dst % 0x100) as u8) by (bit_vector);
    assert((iv_index >> 24u32) as u8 == (iv_index / 0x1000000) as u8) by (bit_vector);
    assert((iv_index >> 16u32) as u8 == ((iv_index / 0x10000) % 0x100) as u8) by (bit_vector);
    assert((iv_index >> 8u32) as u8 == ((iv_index / 0x100) % 0x100) as u8) by (bit_vector);
    assert(iv_index as u8 == (iv_index % 0x100) as u8) by (bit_vector);
    assert(spec_nonce(DEVICE_NONCE, aszmic, seq, src, dst, iv_index) =~= device_nonce_bytes(aszmic, seq, src, dst, iv_index));
    assert(spec_nonce(APPLICATION_NONCE, aszmic, seq, src, dst, iv_index) =~= application_nonce_bytes(aszmic, seq, src, dst, iv_index));
}

/// An access PDU without an application key identifier, with a MIC of four
/// or eight bytes and a payload an access message can have, is opened with
/// the device key under the device nonce (of its first sequence number where
/// it was segmented, else of its own) and no additional data: it decrypts to
/// exactly what AES-CCM opens there, under the device key handle and no
/// label, and is refused as invalid where AES-CCM refuses it.
pub proof fn lemma_device_key_decryption(secrets: Secrets, pdu: UpperAccessPDU)
    requires
        pdu.meta.aid is None,
        pdu.transmic@.len() == 4 || pdu.transmic@.len() == 8,
        pdu.payload@.len() <= 380,
    ensures
        spec_access_decryption(secrets, pdu) == match spec_ccm_open(
            secrets.device_key.0@,
            device_nonce_bytes(
                pdu.transmic@.len() == 8,
                match pdu.meta.seq_auth {
                    Some(a) => a,
                    None => pdu.meta.seq,
                },
                pdu.meta.src,
                pdu.meta.dst,
                pdu.meta.iv_index,
            ),
            Seq::empty(),
            pdu.payload@,
            pdu.transmic@,
        ) {
            Some(p) => Ok::<(KeyHandle, Option<LabelUuid>, Seq<u8>), DriverError>((KeyHandle::Device, None, p)),
            None => Err(DriverError::InvalidPDU),
        },
{
    let seq = match pdu.meta.seq_auth {
        Some(a) => a,
        None => pdu.meta.seq,
    };
    lemma_nonce_layout(pdu.transmic@.len() == 8, seq, pdu.meta.src, pdu.meta.dst, pdu.meta.iv_index);
}

/// An access PDU with an application key identifier, with a MIC of four or
/// eight bytes and a payload an access message can have, is opened under the
/// application nonce of its own sequence number: with each application key of
/// that identifier in turn, and each candidate label as additional data.
pub proof fn lemma_application_key_decryption(secrets: Secrets, pdu: UpperAccessPDU)
    requires
        pdu.meta.aid is Some,
        pdu.transmic@.len() == 4 || pdu.transmic@.len() == 8,
        pdu.payload@.len() <= 380,
    ensures
        spec_access_decryption(secrets, pdu) == match open_with_app_keys(
            secrets.application_keys.slots(),
            app_key_candidates(secrets, pdu.meta.aid->0),
            pdu.meta.aid->0,
            application_nonce_bytes(pdu.transmic@.len() == 8, pdu.meta.seq, pdu.meta.src, pdu.meta.dst, pdu.meta.iv_index),
            pdu.meta.label_uuids@,
            pdu.payload@,
            pdu.transmic@,
            0,
        ) {
            Some((h, l, p)) => Ok::<(KeyHandle, Option<LabelUuid>, Seq<u8>), DriverError>((KeyHandle::Application(h), l, p)),
            None => Err(DriverError::InvalidPDU),
        },
{
    lemma_nonce_layout(pdu.transmic@.len() == 8, pdu.meta.seq, pdu.meta.src, pdu.meta.dst, pdu.meta.iv_index);
}

/// An access message encrypted under sequence number `seq` is sealed with
/// AES-CCM and a four-byte MIC: under the device key with the device nonce and
/// no additional data, or under its application key with the application
/// nonce and its label, if any, as additional data.
pub proof fn lemma_encryption_nonce(secrets: Secrets, seq: u32, message: AccessMessage, pdu: UpperAccessPDU)
    requires
        encrypted_as(secrets, seq, message, Ok(pdu)),
    ensures
        ({
            let bytes = opcode_bytes(message.opcode) + message.parameters@;
            let m = message.meta;
            match m.key_handle {
                KeyHandle::Application(h) => secrets.application_keys.slots()[h.index as int] matches Some((_, k))
                    && (pdu.payload@, pdu.transmic@) == ccm_seal32(
                    k.bytes(),
                    application_nonce_bytes(false, seq, m.src, m.dst, m.iv_index),
                    label_aad(m.label_uuid),
                    bytes,
                ),
                _ => (pdu.payload@, pdu.transmic@) == ccm_seal32(
                    secrets.device_key.0@,
                    device_nonce_bytes(false, seq, m.src, m.dst, m.iv_index),
                    Seq::empty(),
                    bytes,
                ),
            }
        }),
{
    lemma_nonce_layout(false, seq, message.meta.src, message.meta.dst, message.meta.iv_index);
}

/// A label found by `open_with_labels` is one of the labels tried.
proof fn lemma_open_with_labels_member(key: Seq<u8>, nonce: Seq<u8>, labels: Seq<LabelUuid>, ct: Seq<u8>, tag: Seq<u8>, j: int)
    requires
        0 <= j,
    ensures
        open_with_labels(key, nonce, labels, ct, tag, j) matches Some((l, _)) ==> labels.contains(l),
    decreases labels.len() - j,
{
    if 0 <= j < labels.len() {
        if spec_ccm_open(key, nonce, labels[j].label(), ct, tag) is None {
            lemma_open_with_labels_member(key, nonce, labels, ct, tag, j + 1);
        }
    }
}

/// A key found by `open_with_app_keys` is one of the candidates, carries
/// their identifier, and opens the payload with the label it gives.
proof fn lemma_open_with_app_keys_member(
    slots: Seq<Option<(NetKeyIndex, ApplicationKey)>>,
    indexes: Seq<u16>,
    aid: u8,
    nonce: Seq<u8>,
    labels: Seq<LabelUuid>,
    ct: Seq<u8>,
    tag: Seq<u8>,
    i: int,
)
    requires
        0 <= i,
    ensures
        open_with_app_keys(slots, indexes, aid, nonce, labels, ct, tag, i) matches Some((h, l, p)) ==> {
            &&& h.aid == aid
            &&& indexes.contains(h.index)
            &&& open_with_key(app_key_bytes(slots, h.index), nonce, labels, ct, tag) == Some((l, p))
        },
    decreases indexes.len() - i,
{
    if 0 <= i < indexes.len() {
        if open_with_key(app_key_bytes(slots, indexes[i]), nonce, labels, ct, tag) is None {
            lemma_open_with_app_keys_member(slots, indexes, aid, nonce, labels, ct, tag, i + 1);
        }
    }
}

/// The key that decrypts an access PDU is one the PDU calls for: with an
/// application key identifier, an application key with that identifier; with
/// none, the device key. The label used is one of the PDU's candidate labels,
/// and there is one exactly when the PDU has candidate labels and an
/// application key identifier.
pub proof fn lemma_access_decryption_key_is_candidate(secrets: Secrets, pdu: UpperAccessPDU)
    ensures
        spec_access_decryption(secrets, pdu) matches Ok((h, l, _)) ==> match pdu.meta.aid {
            Some(aid) => {
                &&& h matches KeyHandle::Application(a) && a.aid == aid && app_key_candidates(secrets, aid).contains(a.index)
                &&& pdu.meta.label_uuids@.len() == 0 ==> l is None
                &&& pdu.meta.label_uuids@.len() > 0 ==> (l matches Some(x) && pdu.meta.label_uuids@.contains(x))
            },
            None => h == KeyHandle::Device && l is None,
        },
{
    let meta = pdu.meta;
    let aszmic = pdu.transmic@.len() == 8;
    if let Some(aid) = meta.aid {
        let indexes = app_key_candidates(secrets, aid);
        let n = spec_nonce(APPLICATION_NONCE, aszmic, meta.seq, meta.src, meta.dst, meta.iv_index);
        let slots = secrets.application_keys.slots();
        lemma_open_with_app_keys_member(slots, indexes, aid, n, meta.label_uuids@, pdu.payload@, pdu.transmic@, 0);
        if let Some((h, l, p)) = open_with_app_keys(slots, indexes, aid, n, meta.label_uuids@, pdu.payload@, pdu.transmic@, 0) {
            lemma_open_with_labels_member(app_key_bytes(slots, h.index), n, meta.label_uuids@, pdu.payload@, pdu.transmic@, 0);
        }
    }
}

/// Decrypts with one key, trying the candidate labels in order.
fn open_with_key_exec(key: &[u8; 16], nonce: &[u8; 13], labels: &Vec<LabelUuid>, ct: &[u8], tag: &[u8]) -> (r: Option<(Option<LabelUuid>, Vec<u8>)>)
    requires
        tag@.len() == 4 || tag@.len() == 8,
    ensures
        match open_with_key(key@, nonce@, labels@, ct@, tag@) {
            Some((l, p)) => r matches Some((l2, p2)) && l2 == l && p2@ == p,
            None => r is None,
        },
{
    if labels.len() == 0 {
        let empty: [u8; 0] = [];
        assert(empty@ =~= Seq::<u8>::empty());
        return match ccm_open(key, nonce, &empty, ct, tag) {
            Some(p) => Some((None, p)),
            None => None,
        };
    }
    let mut j: usize = 0;
    while j < labels.len()
        invariant
            tag@.len() == 4 || tag@.len() == 8,
            j <= labels@.len(),
            labels@.len() > 0,
            open_with_labels(key@, nonce@, labels@, ct@, tag@, 0) == open_with_labels(key@, nonce@, labels@, ct@, tag@, j as int),
        decreases labels@.len() - j,
    {
        let label = labels[j];
        let aad = label.label_uuid();
        match ccm_open(key, nonce, aad, ct, tag) {
            Some(p) => {
                return Some((Some(label), p));
            },
            None => {},
        }
        j = j + 1;
    }
    None
}

/// The access message in a decrypted payload.
fn finish_access(key_handle: KeyHandle, label_uuid: Option<LabelUuid>, plaintext: &Vec<u8>, pdu: &UpperAccessPDU) -> (r: Result<AccessMessage, DriverError>)
    ensures
        match spec_split_opcode(plaintext@) {
            Some((op, params)) => r matches Ok(m) && m.opcode == op && m.parameters@ == params && m.meta == spec_access_meta(
                key_handle,
                label_uuid,
                pdu.meta,
            ),
            None => r == Err::<AccessMessage, DriverError>(DriverError::Parse(ParseError::InvalidPDUFormat)),
        },
{
    let meta = AccessMetadata::from_upper_access_pdu(key_handle, label_uuid, pdu);
    match AccessMessage::parse(plaintext.as_slice(), meta) {
        Ok(m) => Ok(m),
        Err(e) => Err(DriverError::Parse(e)),
    }
}

/// Decrypts an upper transport access PDU and reads the access message in it.
pub fn decrypt_access(secrets: &Secrets, pdu: &UpperAccessPDU) -> (r: Result<AccessMessage, DriverError>)
    requires
        secrets.wf(),
    ensures
        match spec_access_decryption(*secrets, *pdu) {
            Ok((key_handle, label_uuid, plaintext)) => match spec_split_opcode(plaintext) {
                Some((op, params)) => r matches Ok(m) && m.opcode == op && m.parameters@ == params && m.meta == spec_access_meta(
                    key_handle,
                    label_uuid,
                    pdu.meta,
                ),
                None => r == Err::<AccessMessage, DriverError>(DriverError::Parse(ParseError::InvalidPDUFormat)),
            },
            Err(e) => r == Err::<AccessMessage, DriverError>(e),
        },
{
    if pdu.transmic.len() != 4 && pdu.transmic.len() != 8 {
        return Err(DriverError::InvalidPDU);
    }
    let aszmic = pdu.transmic.len() == 8;
    match pdu.meta.aid {
        Some(aid) => {
            let n = nonce(APPLICATION_NONCE, aszmic, pdu.meta.seq, pdu.meta.src, pdu.meta.dst, pdu.meta.iv_index);
            let handles = secrets.application_keys_by_aid(aid);
            let ghost slots = secrets.application_keys.slots();
            let ghost indexes = app_key_candidates(*secrets, aid);
            let ghost labels = pdu.meta.label_uuids@;
            proof {
                lemma_matching_indexes_valid(slots, |e: (NetKeyIndex, ApplicationKey)| e.1.spec_aid(), aid, 4);
                assert(handles@.len() == indexes.len());
            }
            let mut i: usize = 0;
            while i < handles.len()
                invariant
                    secrets.wf(),
                    pdu.transmic@.len() == 4 || pdu.transmic@.len() == 8,
                    slots == secrets.application_keys.slots(),
                    pdu.meta.aid == Some(aid),
                    n@ == spec_nonce(
                        APPLICATION_NONCE,
                        pdu.transmic@.len() == 8,
                        pdu.meta.seq,
                        pdu.meta.src,
                        pdu.meta.dst,
                        pdu.meta.iv_index,
                    ),
                    indexes == app_key_candidates(*secrets, aid),
                    labels == pdu.meta.label_uuids@,
                    handles@.map_values(|h: ApplicationKeyHandle| h.index) == indexes,
                    handles@.len() == indexes.len(),
                    forall|k: int| 0 <= k < handles@.len() ==> (#[trigger] handles@[k]).aid == aid,
                    forall|k: int| 0 <= k < indexes.len() ==> {
                        let x = #[trigger] indexes[k];
                        &&& x < 4
                        &&& slots[x as int] is Some
                    },
                    i <= handles@.len(),
                    i > 0 ==> pdu.payload@.len() <= 380,
                    open_with_app_keys(slots, indexes, aid, n@, labels, pdu.payload@, pdu.transmic@, 0) == open_with_app_keys(
                        slots,
                        indexes,
                        aid,
                        n@,
                        labels,
                        pdu.payload@,
                        pdu.transmic@,
                        i as int,
                    ),
                decreases handles@.len() - i,
            {
                let h = handles[i];
                proof {
                    assert(handles@.map_values(|h: ApplicationKeyHandle| h.index)[i as int] == h.index);
                    assert(h == ApplicationKeyHandle { index: indexes[i as int], aid });
                }
                let key = match secrets.application_key(h) {
                    Ok(k) => k,
                    Err(e) => return Err(e),
                };
                if pdu.payload.len() > MAX_ACCESS_PAYLOAD {
                    return Err(DriverError::InsufficientSpace);
                }
                let kb = key.key();
                match open_with_key_exec(&kb, &n, &pdu.meta.label_uuids, pdu.payload.as_slice(), pdu.transmic.as_slice()) {
                    Some((l, p)) => {
                        return finish_access(KeyHandle::Application(h), l, &p, pdu);
                    },
                    None => {},
                }
                i = i + 1;
            }
            Err(DriverError::InvalidPDU)
        },
        None => {
            if pdu.payload.len() > MAX_ACCESS_PAYLOAD {
                return Err(DriverError::InsufficientSpace);
            }
            let seq = match pdu.meta.seq_auth {
                Some(a) => a,
                None => pdu.meta.seq,
            };
            let n = nonce(DEVICE_NONCE, aszmic, seq, pdu.meta.src, pdu.meta.dst, pdu.meta.iv_index);
            let device_key = secrets.device_key();
            let empty: [u8; 0] = [];
            assert(empty@ =~= Seq::<u8>::empty());
            match ccm_open(&device_key.0, &n, &empty, pdu.payload.as_slice(), pdu.transmic.as_slice()) {
                Some(p) => finish_access(KeyHandle::Device, None, &p, pdu),
                None => Err(DriverError::InvalidPDU),
            }
        },
    }
}

/// The upper transport metadata of an access message sent with sequence
/// number `seq`.
pub open spec fn is_upper_meta_of(u: UpperMetadata, meta: AccessMetadata, seq: u32) -> bool {
    &&& u.iv_index == meta.iv_index
    &&& u.nid == meta.nid
    &&& u.aid == (match meta.key_handle {
        KeyHandle::Application(h) => Some(h.aid),
        _ => None::<u8>,
    })
    &&& u.seq == seq
    &&& u.src == meta.src
    &&& u.dst == meta.dst
    &&& u.ttl == meta.ttl
    &&& u.label_uuids@.len() == 0
    &&& u.seq_auth is None
    &&& u.replay_seq == Some(seq)
}

/// The additional data of an access message: the bytes of its label, if it
/// is sent to a virtual address.
pub open spec fn label_aad(label_uuid: Option<LabelUuid>) -> Seq<u8> {
    match label_uuid {
        Some(l) => l.label(),
        None => Seq::empty(),
    }
}

/// The longest access message, opcode and parameters, that the upper
/// transport layer sends.
pub const MAX_ACCESS_MESSAGE: usize = 379;

/// The key bytes and nonce type with which an access message is encrypted,
/// or the error where its application key slot is empty.
pub open spec fn spec_encryption_key(secrets: Secrets, key_handle: KeyHandle) -> Result<(Seq<u8>, u8), DriverError> {
    match key_handle {
        KeyHandle::Application(h) => match secrets.application_keys.slots()[h.index as int] {
            Some((_, k)) => Ok((k.bytes(), APPLICATION_NONCE)),
            None => Err(DriverError::InvalidKeyHandle),
        },
        _ => Ok((secrets.device_key.0@, DEVICE_NONCE)),
    }
}

/// `r` is what encrypting `message` under sequence number `seq` gives: an
/// error where the message is too long or its application key slot is
/// empty, else the payload and tag that AES-CCM gives under the message's key
/// and nonce, with the label of a message under an application key as
/// additional data.
pub open spec fn encrypted_as(secrets: Secrets, seq: u32, message: AccessMessage, r: Result<UpperAccessPDU, DriverError>) -> bool {
    let bytes = opcode_bytes(message.opcode) + message.parameters@;
    let meta = message.meta;
    if bytes.len() > 379 {
        r == Err::<UpperAccessPDU, DriverError>(DriverError::InsufficientSpace)
    } else {
        match spec_encryption_key(secrets, meta.key_handle) {
            Ok((key, kind)) => r matches Ok(pdu) && (pdu.payload@, pdu.transmic@) == ccm_seal32(
                key,
                spec_nonce(kind, false, seq, meta.src, meta.dst, meta.iv_index),
                if meta.key_handle is Application { label_aad(meta.label_uuid) } else { Seq::empty() },
                bytes,
            ) && ccm_open32(
                key,
                spec_nonce(kind, false, seq, meta.src, meta.dst, meta.iv_index),
                if meta.key_handle is Application { label_aad(meta.label_uuid) } else { Seq::empty() },
                pdu.payload@,
                pdu.transmic@,
            ) == Some(bytes) && pdu.payload@.len() == bytes.len() && pdu.transmic@.len() == 4 && is_upper_meta_of(
                pdu.meta,
                meta,
                seq,
            ),
            Err(e) => r == Err::<UpperAccessPDU, DriverError>(e),
        }
    }
}

/// Encrypts an access message with a four-byte tag under the next sequence
/// number, which is taken whatever the outcome.
pub fn encrypt_access(secrets: &Secrets, sequence: &mut Sequence, message: &AccessMessage) -> (r: Result<UpperAccessPDU, DriverError>)
    requires
        secrets.wf(),
        !(message.meta.key_handle is Network),
        message.meta.key_handle matches KeyHandle::Application(h) ==> h.index < 4,
    ensures
        final(sequence)@ == (if old(sequence)@ == u32::MAX { 0 } else { (old(sequence)@ + 1) as u32 }),
        encrypted_as(*secrets, old(sequence)@, *message, r),
{
    let seq = sequence.next();
    let payload = message.emit();
    if payload.len() > MAX_ACCESS_MESSAGE {
        return Err(DriverError::InsufficientSpace);
    }
    let (key, kind) = match message.meta.key_handle {
        KeyHandle::Application(h) => match secrets.application_key(h) {
            Ok(k) => (k.key(), APPLICATION_NONCE),
            Err(e) => return Err(e),
        },
        _ => (secrets.device_key().0, DEVICE_NONCE),
    };
    let n = nonce(kind, false, seq, message.meta.src, message.meta.dst, message.meta.iv_index);
    let empty: [u8; 0] = [];
    let aad: &[u8] = match (&message.meta.key_handle, &message.meta.label_uuid) {
        (KeyHandle::Application(_), Some(l)) => l.label_uuid(),
        _ => &empty,
    };
    assert(aad@ == (if message.meta.key_handle is Application { label_aad(message.meta.label_uuid) } else { Seq::<u8>::empty() }));
    match ccm_encrypt32(&key, &n, aad, payload.as_slice()) {
        Some((ct, tag)) => {
            let transmic = vec![tag[0], tag[1], tag[2], tag[3]];
            assert(transmic@ =~= tag@);
            Ok(UpperAccessPDU { payload: ct, transmic, meta: UpperMetadata::from_access_message(message, seq) })
        },
        None => Err(DriverError::CryptoError),
    }
}

/// What a node holding the same keys reads of an access message that was
/// encrypted: a message secured with the device key, or with an application
/// key that is the first of its identifier and not sent to a label, decrypts
/// to the same key and bytes, which read back as the same opcode and
/// parameters (for an opcode whose bytes read back as itself).
pub proof fn lemma_access_roundtrip(secrets: Secrets, seq: u32, message: AccessMessage, pdu: UpperAccessPDU)
    requires
        encrypted_as(secrets, seq, message, Ok(pdu)),
        spec_split_opcode(opcode_bytes(message.opcode)) == Some((message.opcode, Seq::<u8>::empty())),
        match message.meta.key_handle {
            KeyHandle::Device => true,
            KeyHandle::Application(h) => message.meta.label_uuid is None && app_key_candidates(secrets, h.aid).len() > 0
                && app_key_candidates(secrets, h.aid)[0] == h.index,
            KeyHandle::Network(_) => false,
        },
    ensures
        spec_access_decryption(secrets, pdu) == Ok::<(KeyHandle, Option<LabelUuid>, Seq<u8>), DriverError>(
            (message.meta.key_handle, None, opcode_bytes(message.opcode) + message.parameters@),
        ),
        spec_split_opcode(opcode_bytes(message.opcode) + message.parameters@) == Some((message.opcode, message.parameters@)),
{
    let bytes = opcode_bytes(message.opcode) + message.parameters@;
    lemma_split_opcode_bytes(message.opcode, message.parameters@);
    match message.meta.key_handle {
        KeyHandle::Application(h) => {
            let slots = secrets.application_keys.slots();
            let indexes = app_key_candidates(secrets, h.aid);
            assert(label_aad(message.meta.label_uuid) == Seq::<u8>::empty());
            assert(pdu.meta.label_uuids@ =~= Seq::<LabelUuid>::empty());
            let n = spec_nonce(APPLICATION_NONCE, false, seq, message.meta.src, message.meta.dst, message.meta.iv_index);
            assert(open_with_key(app_key_bytes(slots, indexes[0]), n, pdu.meta.label_uuids@, pdu.payload@, pdu.transmic@)
                == Some((None::<LabelUuid>, bytes)));
        },
        _ => {},
    }
}

/// The metadata of an upper transport PDU.
pub open spec fn upper_pdu_meta(pdu: UpperPDU) -> UpperMetadata {
    match pdu {
        UpperPDU::Access(a) => a.meta,
        UpperPDU::Control(c) => c.meta,
    }
}

/// `m1` is `m0` with the labels `labels`.
pub open spec fn same_meta_but_labels(m0: UpperMetadata, m1: UpperMetadata, labels: Seq<LabelUuid>) -> bool {
    &&& m1.iv_index == m0.iv_index
    &&& m1.nid == m0.nid
    &&& m1.aid == m0.aid
    &&& m1.seq == m0.seq
    &&& m1.src == m0.src
    &&& m1.dst == m0.dst
    &&& m1.ttl == m0.ttl
    &&& m1.seq_auth == m0.seq_auth
    &&& m1.replay_seq == m0.replay_seq
    &&& m1.label_uuids@ =~= labels
}

/// What processing an inbound upper transport PDU gives, `pdu0` and `pdu1`
/// being the PDU before and after its candidate labels were added: an error
/// where the labels overflow; else, for an access PDU, its decryption; for a
/// control PDU, its opcode and parameters.
pub open spec fn inbound_upper_outcome(
    slots: Seq<Option<LabelUuid>>,
    secrets: Secrets,
    pdu0: UpperPDU,
    pdu1: UpperPDU,
    r: Result<Message, DriverError>,
) -> bool {
    let m0 = upper_pdu_meta(pdu0);
    let (applied, labels) = spec_apply_labels(slots, m0.label_uuids@, m0.dst);
    &&& same_meta_but_labels(m0, upper_pdu_meta(pdu1), labels)
    &&& match (pdu0, pdu1) {
        (UpperPDU::Access(a0), UpperPDU::Access(a1)) => {
            &&& a1.payload@ =~= a0.payload@
            &&& a1.transmic@ =~= a0.transmic@
            &&& match applied {
                Err(e) => r == Err::<Message, DriverError>(e),
                Ok(_) => match spec_access_decryption(secrets, a1) {
                    Ok((key_handle, label_uuid, plaintext)) => match spec_split_opcode(plaintext) {
                        Some((op, params)) => r matches Ok(Message::Access(m)) && m.opcode == op && m.parameters@ =~= params
                            && m.meta == spec_access_meta(key_handle, label_uuid, a1.meta),
                        None => r == Err::<Message, DriverError>(DriverError::Parse(ParseError::InvalidPDUFormat)),
                    },
                    Err(e) => r == Err::<Message, DriverError>(e),
                },
            }
        },
        (UpperPDU::Control(c0), UpperPDU::Control(c1)) => {
            &&& c1.opcode == c0.opcode
            &&& c1.parameters@ =~= c0.parameters@
            &&& match applied {
                Err(e) => r == Err::<Message, DriverError>(e),
                Ok(_) => r matches Ok(Message::Control(c)) && c.opcode == c0.opcode && c.parameters@ =~= c0.parameters@,
            }
        },
        _ => false,
    }
}

impl UpperDriver {
    /// Adds the candidate labels to an inbound upper transport PDU, then
    /// decrypts an access PDU, or hands a control PDU on as it is.
    pub fn process_inbound_upper_pdu(&self, secrets: &Secrets, pdu: &mut UpperPDU) -> (r: Result<Message, DriverError>)
        requires
            self.wf(),
            secrets.wf(),
            upper_pdu_meta(*old(pdu)).label_uuids@.len() <= 3,
        ensures
            inbound_upper_outcome(self.slots(), *secrets, *old(pdu), *final(pdu), r),
    {
        match pdu {
            UpperPDU::Access(access) => {
                let applied = self.apply_label_uuids(&mut access.meta);
                match applied {
                    Err(e) => Err(e),
                    Ok(_) => match decrypt_access(secrets, access) {
                        Ok(m) => Ok(Message::Access(m)),
                        Err(e) => Err(e),
                    },
                }
            },
            UpperPDU::Control(control) => {
                let applied = self.apply_label_uuids(&mut control.meta);
                match applied {
                    Err(e) => Err(e),
                    Ok(_) => {
                        let mut parameters: Vec<u8> = Vec::new();
                        parameters.extend_from_slice(control.parameters.as_slice());
                        let meta = ControlMetadata::from_upper_control_pdu(control);
                        Ok(Message::Control(ControlMessage { opcode: control.opcode, parameters, meta }))
                    },
                }
            },
        }
    }
}

/// Encrypts an outbound access message into an upper transport PDU.
pub fn process_outbound_message(secrets: &Secrets, sequence: &mut Sequence, message: &Message) -> (r: Result<UpperPDU, DriverError>)
    requires
        secrets.wf(),
        *message matches Message::Access(m) && !(m.meta.key_handle is Network) && (m.meta.key_handle matches KeyHandle::Application(h) ==> h.index < 4),
    ensures
        final(sequence)@ == (if old(sequence)@ == u32::MAX { 0 } else { (old(sequence)@ + 1) as u32 }),
        *message matches Message::Access(m) && match r {
            Ok(UpperPDU::Access(a)) => encrypted_as(*secrets, old(sequence)@, m, Ok(a)),
            Ok(UpperPDU::Control(_)) => false,
            Err(e) => encrypted_as(*secrets, old(sequence)@, m, Err(e)),
        },
{
    match message {
        Message::Access(m) => match encrypt_access(secrets, sequence, m) {
            Ok(a) => Ok(UpperPDU::Access(a)),
            Err(e) => Err(e),
        },
        Message::Control(_) => Err(DriverError::InvalidState),
    }
}

} // verus!
