//! The 64-bit Fowler-Noll-Vo (FNV-1a) hash.

use vstd::prelude::*;

verus! {

/// The FNV-1a 64-bit offset basis.
pub const FNV_BASIS: u64 = 0xcbf29ce484222325;

/// The FNV-1a 64-bit prime.
pub const FNV_PRIME: u64 = 0x100000001b3;

/// One FNV-1a step: xor the byte in, then multiply by the prime modulo 2^64.
pub open spec fn fnv_step(state: u64, byte: u8) -> u64 {
    (((state ^ (byte as u64)) as nat * FNV_PRIME as nat) % 0x1_0000_0000_0000_0000) as u64
}

/// The state after feeding `bytes` into a hasher in state `state`.
pub open spec fn fnv_fold(state: u64, bytes: Seq<u8>) -> u64
    decreases bytes.len(),
{
    if bytes.len() == 0 {
        state
    } else {
        fnv_step(fnv_fold(state, bytes.drop_last()), bytes.last())
    }
}

/// The FNV-1a hash of `bytes`.
pub open spec fn fnv(bytes: Seq<u8>) -> u64 {
    fnv_fold(FNV_BASIS, bytes)
}

/// A 64-bit FNV-1a hasher.
pub struct FnvHasher {
    state: u64,
}

impl View for FnvHasher {
    type V = u64;

    closed spec fn view(&self) -> u64 {
        self.state
    }
}

impl FnvHasher {
    /// A hasher that has been fed nothing.
    pub fn new() -> (h: FnvHasher)
        ensures
            h@ == FNV_BASIS,
    {
        FnvHasher { state: FNV_BASIS }
    }

    /// The hash of what has been fed so far.
    pub fn finish(&self) -> (r: u64)
        ensures
            r == self@,
    {
        self.state
    }

    /// Feeds `bytes`, one at a time.
    pub fn write(&mut self, bytes: &[u8])
        ensures
            final(self)@ == fnv_fold(old(self)@, bytes@),
    {
        let ghost start = self.state;
        let mut i: usize = 0;
        while i < bytes.len()
            invariant
                i <= bytes@.len(),
                self.state == fnv_fold(start, bytes@.subrange(0, i as int)),
            decreases bytes@.len() - i,
        {
            let prefix = Ghost(bytes@.subrange(0, i + 1));
            assert(prefix@.drop_last() =~= bytes@.subrange(0, i as int));
            self.state = (self.state ^ (bytes[i] as u64)).wrapping_mul(FNV_PRIME);
            i = i + 1;
        }
        assert(bytes@.subrange(0, bytes@.len() as int) =~= bytes@);
    }
}

impl Default for FnvHasher {
    fn default() -> (h: FnvHasher)
        ensures
            h@ == FNV_BASIS,
    {
        FnvHasher::new()
    }
}

/// The FNV-1a hash of `bytes`.
pub fn hash_of(bytes: &[u8]) -> (r: u64)
    ensures
        r == fnv(bytes@),
{
    let mut hasher = FnvHasher::new();
    hasher.write(bytes);
    hasher.finish()
}

/// Feeding bytes in two parts gives the hash of the whole.
pub proof fn lemma_fnv_fold_append(state: u64, a: Seq<u8>, b: Seq<u8>)
    ensures
        fnv_fold(fnv_fold(state, a), b) == fnv_fold(state, a + b),
    decreases b.len(),
{
    if b.len() == 0 {
        assert(a + b =~= a);
    } else {
        lemma_fnv_fold_append(state, a, b.drop_last());
        assert((a + b).drop_last() =~= a + b.drop_last());
        assert((a + b).last() == b.last());
    }
}

} // verus!
