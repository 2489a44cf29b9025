//! Tracking which segments of a segmented message have been received.

use vstd::prelude::*;
use crate::error::DriverError;

verus! {

/// Whether bit `i` of `bits` is set.
pub open spec fn bit_set(bits: u32, i: int) -> bool {
    0 <= i < 32 && (bits >> (i as u32)) & 1u32 == 1u32
}

/// Setting bit `k` sets it and leaves the others.
pub proof fn lemma_set_bit(bits: u32, k: u32, i: u32)
    requires
        k < 32,
        i < 32,
    ensures
        ((bits | (1u32 << k)) >> i) & 1u32 == (if i == k { 1u32 } else { (bits >> i) & 1u32 }),
{
    assert(((bits | (1u32 << k)) >> i) & 1u32 == (if i == k { 1u32 } else { (bits >> i) & 1u32 })) by (bit_vector)
        requires
            k < 32,
            i < 32,
    ;
}

/// No bit of zero is set.
pub proof fn lemma_zero_bits(i: u32)
    requires
        i < 32,
    ensures
        (0u32 >> i) & 1u32 == 0u32,
{
    assert((0u32 >> i) & 1u32 == 0u32) by (bit_vector);
}

/// The acknowledgement of the segments of the message whose first sequence
/// number ends in `seq_zero`: bit `n` is set once segment `n` arrived.
#[derive(Copy, Clone, Debug, PartialEq, Eq, Structural)]
pub struct BlockAck {
    bits: u32,
    seq_zero: u16,
}

impl BlockAck {
    /// The acknowledgement bits.
    pub closed spec fn spec_bits(&self) -> u32 {
        self.bits
    }

    /// The low thirteen bits of the first sequence number.
    pub closed spec fn spec_seq_zero(&self) -> u16 {
        self.seq_zero
    }

    /// Whether segment `i` is acknowledged.
    pub open spec fn acked(&self, i: int) -> bool {
        bit_set(self.spec_bits(), i)
    }

    /// The acknowledgement with the given bits.
    pub closed spec fn spec_new(bits: u32, seq_zero: u16) -> BlockAck {
        BlockAck { bits, seq_zero }
    }

    pub proof fn lemma_spec_new(bits: u32, seq_zero: u16)
        ensures
            BlockAck::spec_new(bits, seq_zero).spec_bits() == bits,
            BlockAck::spec_new(bits, seq_zero).spec_seq_zero() == seq_zero,
    {
    }

    /// Acknowledgements are equal exactly when their bits and first sequence
    /// numbers are.
    pub proof fn lemma_view_eq(a: BlockAck, b: BlockAck)
        ensures
            a == b <==> (a.spec_bits() == b.spec_bits() && a.spec_seq_zero() == b.spec_seq_zero()),
    {
    }

    /// An acknowledgement of no segment.
    pub fn new(seq_zero: u16) -> (r: BlockAck)
        ensures
            r == BlockAck::spec_new(0, seq_zero),
            r.spec_bits() == 0,
            r.spec_seq_zero() == seq_zero,
            forall|i: int| !r.acked(i),
    {
        proof {
            assert forall|i: int| !bit_set(0u32, i) by {
                if 0 <= i < 32 {
                    lemma_zero_bits(i as u32);
                }
            }
        }
        BlockAck { bits: 0, seq_zero }
    }

    /// An acknowledgement holding the given bits.
    pub fn from_bits(bits: u32, seq_zero: u16) -> (r: BlockAck)
        ensures
            r == BlockAck::spec_new(bits, seq_zero),
    {
        BlockAck { bits, seq_zero }
    }

    /// Acknowledges segment `seg_o`; offsets beyond 31 cannot be recorded.
    pub fn ack(&mut self, seg_o: u8) -> (r: Result<(), DriverError>)
        ensures
            seg_o < 32 ==> r is Ok && *final(self) == BlockAck::spec_new(
                old(self).spec_bits() | (1u32 << seg_o),
                old(self).spec_seq_zero(),
            ),
            seg_o < 32 ==> final(self).spec_seq_zero() == old(self).spec_seq_zero()
                && forall|i: int| #[trigger] final(self).acked(i) == (old(self).acked(i) || i == seg_o),
            seg_o >= 32 ==> r == Err::<(), DriverError>(DriverError::InvalidState) && *final(self) == *old(self),
    {
        if seg_o >= 32 {
            return Err(DriverError::InvalidState);
        }
        let ghost before = self.bits;
        self.bits = self.bits | (1u32 << seg_o);
        proof {
            assert forall|i: int| #[trigger] bit_set(self.bits, i) == (bit_set(before, i) || i == seg_o) by {
                if 0 <= i < 32 {
                    lemma_set_bit(before, seg_o as u32, i as u32);
                }
            }
        }
        Ok(())
    }

    /// Whether segment `seg_o` is acknowledged; offsets beyond 31 are refused.
    pub fn is_acked(&self, seg_o: u8) -> (r: Result<bool, DriverError>)
        ensures
            seg_o < 32 ==> r == Ok::<bool, DriverError>(self.acked(seg_o as int)),
            seg_o >= 32 ==> r == Err::<bool, DriverError>(DriverError::InvalidState),
    {
        if seg_o >= 32 {
            return Err(DriverError::InvalidState);
        }
        Ok((self.bits >> (seg_o as u32)) & 1u32 == 1u32)
    }

    /// The acknowledgement bits.
    pub fn value(&self) -> (r: u32)
        ensures
            r == self.spec_bits(),
    {
        self.bits
    }

    /// The low thirteen bits of the first sequence number.
    pub fn seq_zero(&self) -> (r: u16)
        ensures
            r == self.spec_seq_zero(),
    {
        self.seq_zero
    }
}

/// Whether every segment up to `seg_n` is acknowledged.
pub open spec fn all_acked(block_ack: BlockAck, seg_n: u8) -> bool {
    forall|i: int| 0 <= i <= seg_n ==> #[trigger] block_ack.acked(i)
}

/// The outcome of checking completion: done when every segment up to `seg_n`
/// is acknowledged; an offset beyond 31 is reached (and refused) only when all
/// the lower ones are acknowledged.
pub open spec fn spec_is_complete(block_ack: BlockAck, seg_n: u8) -> Result<bool, DriverError> {
    if exists|i: int| 0 <= i <= seg_n && i < 32 && !#[trigger] block_ack.acked(i) {
        Ok(false)
    } else if seg_n >= 32 {
        Err(DriverError::InvalidState)
    } else {
        Ok(true)
    }
}

/// The segments expected of a message and those processed so far.
#[derive(Copy, Clone, Debug, PartialEq, Eq, Structural)]
pub struct Blocks {
    pub seg_n: u8,
    pub block_ack: BlockAck,
}

impl Blocks {
    /// Tracks `seg_n + 1` segments, none processed yet.
    pub fn new(seq_zero: u16, seg_n: u8) -> (r: Blocks)
        ensures
            r.seg_n == seg_n,
            r.block_ack == BlockAck::spec_new(0, seq_zero),
            r.block_ack.spec_seq_zero() == seq_zero,
            forall|i: int| !r.block_ack.acked(i),
    {
        Blocks { seg_n, block_ack: BlockAck::new(seq_zero) }
    }

    /// Records that segment `seg_o` was processed; offsets beyond the last
    /// segment are refused.
    pub fn ack(&mut self, seg_o: u8) -> (r: Result<(), DriverError>)
        ensures
            final(self).seg_n == old(self).seg_n,
            seg_o > old(self).seg_n ==> r == Err::<(), DriverError>(DriverError::InvalidState)
                && *final(self) == *old(self),
            seg_o <= old(self).seg_n && seg_o >= 32 ==> r == Err::<(), DriverError>(DriverError::InvalidState)
                && *final(self) == *old(self),
            seg_o <= old(self).seg_n && seg_o < 32 ==> r is Ok && final(self).block_ack == BlockAck::spec_new(
                old(self).block_ack.spec_bits() | (1u32 << seg_o),
                old(self).block_ack.spec_seq_zero(),
            ),
            seg_o <= old(self).seg_n && seg_o < 32 ==> final(self).block_ack.spec_seq_zero() == old(self).block_ack.spec_seq_zero()
                && forall|i: int| #[trigger] final(self).block_ack.acked(i) == (old(self).block_ack.acked(i) || i == seg_o),
    {
        if seg_o > self.seg_n {
            return Err(DriverError::InvalidState);
        }
        self.block_ack.ack(seg_o)
    }

    /// Whether segment `seg_o` was already processed.
    pub fn already_seen(&self, seg_o: u8) -> (r: Result<bool, DriverError>)
        ensures
            seg_o < 32 ==> r == Ok::<bool, DriverError>(self.block_ack.acked(seg_o as int)),
            seg_o >= 32 ==> r == Err::<bool, DriverError>(DriverError::InvalidState),
    {
        self.block_ack.is_acked(seg_o)
    }

    /// Whether every expected segment was processed.
    pub fn is_complete(&self) -> (r: Result<bool, DriverError>)
        ensures
            r == spec_is_complete(self.block_ack, self.seg_n),
    {
        let mut seg_o: u8 = 0;
        loop
            invariant
                seg_o <= self.seg_n + 1,
                seg_o <= 32,
                forall|i: int| 0 <= i < seg_o ==> #[trigger] self.block_ack.acked(i),
            decreases self.seg_n + 1 - seg_o,
        {
            if seg_o > self.seg_n {
                assert(!exists|i: int| 0 <= i <= self.seg_n && i < 32 && !#[trigger] self.block_ack.acked(i));
                return Ok(true);
            }
            match self.block_ack.is_acked(seg_o) {
                Err(e) => {
                    assert(!exists|i: int| 0 <= i <= self.seg_n && i < 32 && !#[trigger] self.block_ack.acked(i));
                    return Err(e);
                },
                Ok(false) => {
                    assert(!self.block_ack.acked(seg_o as int));
                    return Ok(false);
                },
                Ok(true) => {},
            }
            seg_o = seg_o + 1;
        }
    }
}

/// Acknowledging a segment acknowledges it and keeps every other.
pub proof fn lemma_ack_bits(b: BlockAck, seg_o: u8)
    requires
        seg_o < 32,
    ensures
        forall|i: int| #[trigger] BlockAck::spec_new(b.spec_bits() | (1u32 << seg_o), b.spec_seq_zero()).acked(i)
            == (b.acked(i) || i == seg_o),
{
    BlockAck::lemma_spec_new(b.spec_bits() | (1u32 << seg_o), b.spec_seq_zero());
    assert forall|i: int| #[trigger] BlockAck::spec_new(b.spec_bits() | (1u32 << seg_o), b.spec_seq_zero()).acked(i)
        == (b.acked(i) || i == seg_o) by {
        if 0 <= i < 32 {
            lemma_set_bit(b.spec_bits(), seg_o as u32, i as u32);
        }
    }
}

/// Once every segment up to the last has been acknowledged, the message is
/// complete.
pub proof fn lemma_complete_when_all_acked(blocks: Blocks)
    requires
        blocks.seg_n < 32,
        all_acked(blocks.block_ack, blocks.seg_n),
    ensures
        spec_is_complete(blocks.block_ack, blocks.seg_n) == Ok::<bool, DriverError>(true),
{
}

} // verus!
