//! The node's outbound sequence number.

use vstd::prelude::*;

verus! {

/// The next sequence number to use for an outbound PDU.
pub struct Sequence {
    seq: u32,
}

impl View for Sequence {
    type V = u32;

    closed spec fn view(&self) -> u32 {
        self.seq
    }
}

/// The sequence number after `v`, wrapping from the largest back to zero.
pub open spec fn after(v: u32) -> u32 {
    if v == u32::MAX { 0 } else { (v + 1) as u32 }
}

/// The sequence number `k` steps after `v`.
pub open spec fn steps(v: u32, k: nat) -> u32
    decreases k,
{
    if k == 0 { v } else { after(steps(v, (k - 1) as nat)) }
}

/// Successive calls of `next` on a sequence at `n`: the `i`-th (from zero)
/// hands out `steps(n, i)`, and after `k` calls the sequence is at
/// `steps(n, k)`; that is `n + i` and `n + k` modulo 2^32, so up to 2^32
/// calls hand out distinct numbers.
pub proof fn lemma_successive_next(n: u32, k: nat)
    ensures
        steps(n, k) as int == (n + k) % 0x1_0000_0000,
        k <= 0x1_0000_0000 ==> forall|i: nat, j: nat| i < j < k ==> steps(n, i) != steps(n, j),
    decreases k,
{
    if k > 0 {
        lemma_successive_next(n, (k - 1) as nat);
        let p = steps(n, (k - 1) as nat);
        assert(p as int == (n + k - 1) % 0x1_0000_0000);
        assert(after(p) as int == (n + k) % 0x1_0000_0000) by {
            if p == u32::MAX {
                assert((n + k - 1) % 0x1_0000_0000 == 0xffff_ffff);
                assert((n + k) % 0x1_0000_0000 == 0) by (nonlinear_arith)
                    requires (n + k - 1) % 0x1_0000_0000 == 0xffff_ffff, n + k >= 1;
            } else {
                assert((n + k) % 0x1_0000_0000 == (n + k - 1) % 0x1_0000_0000 + 1) by (nonlinear_arith)
                    requires (n + k - 1) % 0x1_0000_0000 < 0xffff_ffff, n + k >= 1;
            }
        }
    }
    if k <= 0x1_0000_0000 {
        assert forall|i: nat, j: nat| i < j < k implies steps(n, i) != steps(n, j) by {
            lemma_successive_next(n, i);
            lemma_successive_next(n, j);
            assert((n + i) % 0x1_0000_0000 != (n + j) % 0x1_0000_0000) by (nonlinear_arith)
                requires i < j, j < 0x1_0000_0000 + i, i >= 0, n >= 0;
        }
    }
}

impl Sequence {
    /// A sequence starting at `initial_seq`.
    pub fn new(initial_seq: u32) -> (s: Sequence)
        ensures
            s@ == initial_seq,
    {
        Sequence { seq: initial_seq }
    }

    /// Takes the current sequence number and advances by one, wrapping from
    /// the largest value back to zero.
    pub fn next(&mut self) -> (r: u32)
        ensures
            r == old(self)@,
            final(self)@ == after(old(self)@),
    {
        let r = self.seq;
        self.seq = self.seq.wrapping_add(1);
        r
    }

    /// The next sequence number that will be handed out.
    pub fn current(&self) -> (r: u32)
        ensures
            r == self@,
    {
        self.seq
    }
}

} // verus!
