//! Metadata derived from lower transport PDUs.

use vstd::prelude::*;
use crate::driver::pdu::{LowerMetadata, SegmentedLowerPDU, UpperMetadata};
use crate::driver::lower::{LowerPDU, UnsegmentedLowerPDU};
use crate::address::LabelUuid;

verus! {

/// The sequence number of the first segment of a segmented message, from the
/// sequence number `seq` of any of its segments and the low thirteen bits
/// `seq_zero` of the first one: the latest number not above `seq` whose low
/// thirteen bits are `seq_zero`, computed modulo 2^32.
pub open spec fn spec_first_seq_number(seq: u32, seq_zero: u16) -> u32 {
    let low = seq % 8192;
    if low < seq_zero {
        ((seq - low + seq_zero - 8192) % 0x1_0000_0000) as u32
    } else {
        (seq - low + seq_zero) as u32
    }
}

/// The authentication sequence: the low byte of the IV index above the 24-bit
/// first sequence number, computed modulo 2^32.
pub open spec fn spec_seq_auth(iv_index: u32, first_seq: u32) -> u32 {
    (((iv_index % 256) * 0x100_0000 + first_seq) % 0x1_0000_0000) as u32
}

/// The sequence number of the first segment of a segmented message.
pub fn first_seq_number(seq: u32, seq_zero: u16) -> (r: u32)
    ensures
        r == spec_first_seq_number(seq, seq_zero),
{
    let low = seq & 8191u32;
    assert(seq & 8191u32 == seq % 8192) by (bit_vector);
    if low < seq_zero as u32 {
        seq.wrapping_sub(low.wrapping_sub(seq_zero as u32)).wrapping_sub(8191 + 1)
    } else {
        seq - (low - seq_zero as u32)
    }
}

/// The authentication sequence of a segmented message.
pub fn calculate_seq_auth(iv_index: u32, seq: u32, seq_zero: u16) -> (r: u32)
    ensures
        r == spec_seq_auth(iv_index, spec_first_seq_number(seq, seq_zero)),
{
    let first = first_seq_number(seq, seq_zero);
    let high = iv_index << 24u32;
    assert(iv_index << 24u32 == ((iv_index % 256) * 0x100_0000) as u32) by (bit_vector);
    high.wrapping_add(first)
}

/// The upper metadata of a segmented message: that of its segment, with the
/// authentication sequence and the first sequence number as replay sequence.
pub open spec fn spec_upper_metadata_of_segment(pdu: SegmentedLowerPDU) -> (UpperMetadataFields, Option<u8>) {
    let m = pdu.spec_meta();
    (
        UpperMetadataFields {
            iv_index: m.iv_index,
            nid: m.nid,
            seq: m.seq,
            src: m.src,
            dst: m.dst,
            ttl: m.ttl,
            seq_auth: Some(spec_seq_auth(m.iv_index, spec_first_seq_number(m.seq, pdu.spec_seq_zero()))),
            replay_seq: Some(spec_first_seq_number(m.seq, pdu.spec_seq_zero())),
        },
        match pdu {
            SegmentedLowerPDU::Access(a) => a.aid,
            SegmentedLowerPDU::Control(_) => None,
        },
    )
}

/// The plain fields of upper metadata, besides its identifier and labels.
pub struct UpperMetadataFields {
    pub iv_index: u32,
    pub nid: u8,
    pub seq: u32,
    pub src: u16,
    pub dst: u16,
    pub ttl: u8,
    pub seq_auth: Option<u32>,
    pub replay_seq: Option<u32>,
}

impl UpperMetadata {
    /// The plain fields of the metadata.
    pub open spec fn fields(&self) -> UpperMetadataFields {
        UpperMetadataFields {
            iv_index: self.iv_index,
            nid: self.nid,
            seq: self.seq,
            src: self.src,
            dst: self.dst,
            ttl: self.ttl,
            seq_auth: self.seq_auth,
            replay_seq: self.replay_seq,
        }
    }

    /// The metadata of a segmented message, from one of its segments.
    pub fn from_segmented_lower_pdu(pdu: &SegmentedLowerPDU) -> (r: UpperMetadata)
        ensures
            (r.fields(), r.aid) == spec_upper_metadata_of_segment(*pdu),
            r.label_uuids@.len() == 0,
    {
        let meta = pdu.meta();
        let seq_zero = pdu.seq_zero();
        let seq_auth = calculate_seq_auth(meta.iv_index, meta.seq, seq_zero);
        let aid = match pdu {
            SegmentedLowerPDU::Access(inner) => inner.aid,
            SegmentedLowerPDU::Control(_) => None,
        };
        UpperMetadata {
            iv_index: meta.iv_index,
            nid: meta.nid,
            aid,
            seq: meta.seq,
            src: meta.src,
            dst: meta.dst,
            ttl: meta.ttl,
            label_uuids: Vec::new(),
            seq_auth: Some(seq_auth),
            replay_seq: Some(first_seq_number(meta.seq, seq_zero)),
        }
    }

    /// The metadata of an unsegmented message: its own sequence number is
    /// the replay sequence.
    pub fn from_unsegmented(meta: LowerMetadata, aid: Option<u8>) -> (r: UpperMetadata)
        ensures
            r.iv_index == meta.iv_index && r.nid == meta.nid && r.seq == meta.seq && r.src == meta.src
                && r.dst == meta.dst && r.ttl == meta.ttl && r.aid == aid,
            r.label_uuids@.len() == 0,
            r.seq_auth is None,
            r.replay_seq == Some(meta.seq),
    {
        UpperMetadata {
            iv_index: meta.iv_index,
            nid: meta.nid,
            aid,
            seq: meta.seq,
            src: meta.src,
            dst: meta.dst,
            ttl: meta.ttl,
            label_uuids: Vec::new(),
            seq_auth: None,
            replay_seq: Some(meta.seq),
        }
    }
}

/// The metadata of an unsegmented message: its lower metadata, the key
/// identifier of an access message, its own sequence number as replay
/// sequence, and no authentication sequence or labels.
pub open spec fn spec_upper_metadata_of_unsegmented(pdu: UnsegmentedLowerPDU, r: UpperMetadata) -> bool {
    let (meta, aid) = match pdu {
        UnsegmentedLowerPDU::Access(a) => (a.meta, a.aid),
        UnsegmentedLowerPDU::Control(c) => (c.meta, None),
    };
    &&& r.iv_index == meta.iv_index && r.nid == meta.nid && r.seq == meta.seq && r.src == meta.src
    &&& r.dst == meta.dst && r.ttl == meta.ttl && r.aid == aid
    &&& r.label_uuids@.len() == 0
    &&& r.seq_auth is None
    &&& r.replay_seq == Some(meta.seq)
}

impl UpperMetadata {
    /// The metadata of an unsegmented message.
    pub fn from_unsegmented_lower_pdu(pdu: &UnsegmentedLowerPDU) -> (r: UpperMetadata)
        ensures
            spec_upper_metadata_of_unsegmented(*pdu, r),
    {
        match pdu {
            UnsegmentedLowerPDU::Access(inner) => UpperMetadata::from_unsegmented(inner.meta, inner.aid),
            UnsegmentedLowerPDU::Control(inner) => UpperMetadata::from_unsegmented(inner.meta, None),
        }
    }

    /// The metadata of a lower transport PDU.
    pub fn from_lower_pdu(pdu: &LowerPDU) -> (r: UpperMetadata)
        ensures
            match *pdu {
                LowerPDU::Unsegmented(u) => spec_upper_metadata_of_unsegmented(u, r),
                LowerPDU::Segmented(s) => (r.fields(), r.aid) == spec_upper_metadata_of_segment(s) && r.label_uuids@.len() == 0,
            },
    {
        match pdu {
            LowerPDU::Unsegmented(inner) => UpperMetadata::from_unsegmented_lower_pdu(inner),
            LowerPDU::Segmented(inner) => UpperMetadata::from_segmented_lower_pdu(inner),
        }
    }

    /// The IV index.
    pub fn iv_index(&self) -> (r: u32)
        ensures
            r == self.iv_index,
    {
        self.iv_index
    }

    /// The sequence number.
    pub fn seq(&self) -> (r: u32)
        ensures
            r == self.seq,
    {
        self.seq
    }

    /// The authentication sequence of a segmented message.
    pub fn seq_auth(&self) -> (r: Option<u32>)
        ensures
            r == self.seq_auth,
    {
        self.seq_auth
    }

    /// The sequence number that replay protection checks.
    pub fn replay_seq(&self) -> (r: Option<u32>)
        ensures
            r == self.replay_seq,
    {
        self.replay_seq
    }

    /// The source address.
    pub fn src(&self) -> (r: u16)
        ensures
            r == self.src,
    {
        self.src
    }

    /// The destination address.
    pub fn dst(&self) -> (r: u16)
        ensures
            r == self.dst,
    {
        self.dst
    }

    /// The time to live.
    pub fn ttl(&self) -> (r: u8)
        ensures
            r == self.ttl,
    {
        self.ttl
    }

    /// The label UUIDs of a virtual destination.
    pub fn label_uuids(&self) -> (r: &[LabelUuid])
        ensures
            r@ == self.label_uuids@,
    {
        self.label_uuids.as_slice()
    }
}

/// The first sequence number is the latest one not above `seq` with the low
/// bits `seq_zero`, when no wrap below zero happens: it agrees with `seq` in
/// the bits above the low thirteen (or is one block of 8192 earlier), and its
/// low thirteen bits are `seq_zero`.
pub proof fn lemma_first_seq_number(seq: u32, seq_zero: u16)
    requires
        seq_zero < 8192,
        seq >= 8192,
    ensures
        spec_first_seq_number(seq, seq_zero) <= seq,
        seq - spec_first_seq_number(seq, seq_zero) < 8192,
        spec_first_seq_number(seq, seq_zero) % 8192 == seq_zero,
{
}

} // verus!
