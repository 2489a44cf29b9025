//! Replay protection of network and upper transport PDUs, and the relay
//! message cache.

use vstd::prelude::*;
use uluru::LRUCache;
use crate::driver::lru::{
    network_entries, upper_entries, message_entries, lru_insert, lru_touch, first_with_src,
    new_network_cache, network_find, network_set_front, network_insert, new_upper_cache, upper_find,
    upper_set_front, upper_insert, new_message_cache, message_find, message_insert,
};
use crate::driver::block_ack::BlockAck;
use crate::driver::hash::{hash_of, fnv};

verus! {

/// The low 16 bits of an IV index, as the caches keep it.
pub open spec fn iv16(iv_index: u32) -> u16 {
    (iv_index % 0x10000) as u16
}

/// Checking a network PDU from `src` with sequence `seq` under `iv_index`:
/// whether it is a replay, and the network cache after. A source not in the
/// cache is recorded; a known source's entry moves to the front and is
/// refreshed when the PDU is newer (a higher IV index, or the same IV index
/// and a higher sequence); older or repeated PDUs are replays.
pub open spec fn spec_check_network(s: Seq<(u16, u32, u16)>, src: u16, seq: u32, iv_index: u32) -> (Seq<(u16, u32, u16)>, bool) {
    let iv = iv16(iv_index);
    match first_with_src(s, |e: (u16, u32, u16)| e.0, src) {
        Some(i) => {
            let e = s[i];
            let moved = lru_touch(s, i);
            if iv < e.2 {
                (moved, true)
            } else if iv == e.2 {
                if seq <= e.1 {
                    (moved, true)
                } else {
                    (moved.update(0, (e.0, seq, e.2)), false)
                }
            } else {
                (moved.update(0, (e.0, seq, iv)), false)
            }
        },
        None => (lru_insert(s, (src, seq, iv)), false),
    }
}

/// The network replay law. Let entry `i` be the first cache entry from the
/// PDU's source, if there is one. The PDU is a replay exactly when its IV
/// index (low 16 bits) is below the recorded one, or equal with a sequence
/// number no higher than the recorded one. A replay leaves the recorded entry
/// as it was (it becomes the most recent); an accepted PDU is recorded with
/// its own sequence number and IV index as the most recent entry, in place of
/// the old one. A source not in the cache is never a replay, and is recorded.
pub proof fn lemma_network_replay(s: Seq<(u16, u32, u16)>, src: u16, seq: u32, iv_index: u32, i: int)
    requires
        0 <= i,
        i < s.len() ==> s[i].0 == src && forall|j: int| 0 <= j < i ==> (#[trigger] s[j]).0 != src,
        i >= s.len() ==> forall|j: int| 0 <= j < s.len() ==> (#[trigger] s[j]).0 != src,
    ensures
        ({
            let (s2, replay) = spec_check_network(s, src, seq, iv_index);
            let iv = (iv_index % 0x10000) as u16;
            if 0 <= i < s.len() {
                &&& replay == (iv < s[i].2 || (iv == s[i].2 && seq <= s[i].1))
                &&& s2.len() == s.len()
                &&& replay ==> s2[0] == s[i]
                &&& !replay ==> s2[0] == (src, seq, iv)
                &&& s2.drop_first() == s.remove(i)
            } else {
                &&& !replay
                &&& s2[0] == (src, seq, iv)
                &&& s2.drop_first() == (if s.len() >= 32 { s.drop_last() } else { s })
            }
        }),
{
    let key = |e: (u16, u32, u16)| e.0;
    if 0 <= i < s.len() {
        let c = choose|k: int| 0 <= k < s.len() && key(#[trigger] s[k]) == src && forall|j: int| 0 <= j < k ==> key(s[j]) != src;
        assert(key(s[i]) == src);
        assert(0 <= c < s.len() && key(s[c]) == src && forall|j: int| 0 <= j < c ==> key(s[j]) != src);
        if c < i {
            assert(s[c].0 != src);
        } else if c > i {
            assert(key(s[i]) != src);
        }
        assert(first_with_src(s, key, src) == Some(i));
        let moved = lru_touch(s, i);
        assert(moved.drop_first() =~= s.remove(i));
        assert(moved.update(0, (s[i].0, seq, s[i].2)).drop_first() =~= s.remove(i));
        assert(moved.update(0, (s[i].0, seq, iv16(iv_index))).drop_first() =~= s.remove(i));
    } else {
        assert forall|k: int| 0 <= k < s.len() implies key(#[trigger] s[k]) != src by {
            assert(s[k].0 != src);
        }
        assert(first_with_src(s, key, src) is None);
        assert((seq![(src, seq, iv16(iv_index))] + s.drop_last()).drop_first() =~= s.drop_last());
        assert((seq![(src, seq, iv16(iv_index))] + s).drop_first() =~= s);
    }
}

/// Checking a (possibly partial) upper PDU: a known source under the same IV
/// index whose recorded sequence is the PDU's replay sequence gets the
/// recorded acknowledgement back; under a higher IV index a complete PDU with
/// a replay sequence refreshes the entry; an unknown source's complete PDU
/// with a replay sequence is recorded.
pub open spec fn spec_check_upper(
    s: Seq<(u16, u32, u16, u32, u16)>,
    src: u16,
    iv_index: u32,
    replay_seq: Option<u32>,
    ack: (u32, u16),
    is_complete: bool,
) -> (Seq<(u16, u32, u16, u32, u16)>, Option<(u32, u16)>) {
    let iv = iv16(iv_index);
    match first_with_src(s, |e: (u16, u32, u16, u32, u16)| e.0, src) {
        Some(i) => {
            let e = s[i];
            let moved = lru_touch(s, i);
            if iv < e.2 {
                (moved, None)
            } else if iv == e.2 {
                if replay_seq == Some(e.1) {
                    (moved, Some((e.3, e.4)))
                } else {
                    (moved, None)
                }
            } else {
                if is_complete && replay_seq is Some {
                    (moved.update(0, (e.0, replay_seq->0, iv, ack.0, ack.1)), None)
                } else {
                    (moved, None)
                }
            }
        },
        None => if is_complete && replay_seq is Some {
            (lru_insert(s, (src, replay_seq->0, iv, ack.0, ack.1)), None)
        } else {
            (s, None)
        },
    }
}

/// The upper transport replay law. Let entry `i` be the first cache entry
/// from the PDU's source, if there is one. The recorded acknowledgement is
/// given back exactly when the PDU is under the recorded IV index (low 16
/// bits) with the recorded sequence; nothing else is ever given back. A
/// known source's entry becomes the most recent, and is replaced by the
/// PDU's sequence, IV index and acknowledgement only for a complete PDU with
/// a replay sequence under a higher IV index. An unknown source is recorded
/// only for a complete PDU with a replay sequence.
pub proof fn lemma_upper_replay(
    s: Seq<(u16, u32, u16, u32, u16)>,
    src: u16,
    iv_index: u32,
    replay_seq: Option<u32>,
    ack: (u32, u16),
    is_complete: bool,
    i: int,
)
    requires
        0 <= i,
        i < s.len() ==> s[i].0 == src && forall|j: int| 0 <= j < i ==> (#[trigger] s[j]).0 != src,
        i >= s.len() ==> forall|j: int| 0 <= j < s.len() ==> (#[trigger] s[j]).0 != src,
    ensures
        ({
            let (s2, answer) = spec_check_upper(s, src, iv_index, replay_seq, ack, is_complete);
            let iv = (iv_index % 0x10000) as u16;
            if i < s.len() {
                let e = s[i];
                let refresh = iv > e.2 && is_complete && replay_seq is Some;
                &&& (answer is Some) == (iv == e.2 && replay_seq == Some(e.1))
                &&& answer is Some ==> answer == Some((e.3, e.4))
                &&& s2.len() == s.len()
                &&& s2.drop_first() == s.remove(i)
                &&& s2[0] == (if refresh { (src, replay_seq->0, iv, ack.0, ack.1) } else { e })
            } else {
                &&& answer is None
                &&& (is_complete && replay_seq is Some) ==> s2[0] == (src, replay_seq->0, iv, ack.0, ack.1)
                    && s2.drop_first() == (if s.len() >= 32 { s.drop_last() } else { s })
                &&& !(is_complete && replay_seq is Some) ==> s2 == s
            }
        }),
{
    let key = |e: (u16, u32, u16, u32, u16)| e.0;
    if i < s.len() {
        let c = choose|k: int| 0 <= k < s.len() && key(#[trigger] s[k]) == src && forall|j: int| 0 <= j < k ==> key(s[j]) != src;
        assert(key(s[i]) == src);
        assert(0 <= c < s.len() && key(s[c]) == src && forall|j: int| 0 <= j < c ==> key(s[j]) != src);
        if c < i {
            assert(s[c].0 != src);
        } else if c > i {
            assert(key(s[i]) != src);
        }
        assert(first_with_src(s, key, src) == Some(i));
        let moved = lru_touch(s, i);
        assert(moved.drop_first() =~= s.remove(i));
        if is_complete && replay_seq is Some {
            assert(moved.update(0, (s[i].0, replay_seq->0, iv16(iv_index), ack.0, ack.1)).drop_first() =~= s.remove(i));
        }
    } else {
        assert forall|k: int| 0 <= k < s.len() implies key(#[trigger] s[k]) != src by {
            assert(s[k].0 != src);
        }
        assert(first_with_src(s, key, src) is None);
        if is_complete && replay_seq is Some {
            let v = (src, replay_seq->0, iv16(iv_index), ack.0, ack.1);
            assert((seq![v] + s.drop_last()).drop_first() =~= s.drop_last());
            assert((seq![v] + s).drop_first() =~= s);
        }
    }
}

/// Replay protection: the last accepted network sequence of each recent
/// source, and the last completed upper PDU of each recent source.
pub struct ReplayProtection {
    network: LRUCache<(u16, u32, u16), 32>,
    upper: LRUCache<(u16, u32, u16, u32, u16), 32>,
}

impl ReplayProtection {
    /// The network cache, most recently used first.
    pub closed spec fn network_view(&self) -> Seq<(u16, u32, u16)> {
        network_entries(self.network)
    }

    /// The upper cache, most recently used first.
    pub closed spec fn upper_view(&self) -> Seq<(u16, u32, u16, u32, u16)> {
        upper_entries(self.upper)
    }

    /// Both caches hold at most 32 entries.
    pub open spec fn wf(&self) -> bool {
        self.network_view().len() <= 32 && self.upper_view().len() <= 32
    }

    /// Empty caches.
    pub fn new() -> (r: ReplayProtection)
        ensures
            r.wf(),
            r.network_view() == Seq::<(u16, u32, u16)>::empty(),
            r.upper_view() == Seq::<(u16, u32, u16, u32, u16)>::empty(),
    {
        ReplayProtection { network: new_network_cache(), upper: new_upper_cache() }
    }

    /// Checks a network PDU and records it unless it is a replay; returns
    /// whether it is a replay.
    pub fn check_network_pdu(&mut self, src: u16, seq: u32, iv_index: u32) -> (replay_protected: bool)
        requires
            old(self).wf(),
        ensures
            final(self).wf(),
            final(self).upper_view() == old(self).upper_view(),
            (final(self).network_view(), replay_protected) == spec_check_network(old(self).network_view(), src, seq, iv_index),
    {
        let iv = (iv_index & 0xFFFF) as u16;
        assert(iv == iv16(iv_index)) by {
            assert((iv_index & 0xFFFF) as u16 == (iv_index % 0x10000) as u16) by (bit_vector);
        };
        match network_find(&mut self.network, src) {
            Some(entry) => {
                if iv < entry.2 {
                    true
                } else if iv == entry.2 {
                    if seq <= entry.1 {
                        true
                    } else {
                        network_set_front(&mut self.network, (entry.0, seq, entry.2));
                        false
                    }
                } else {
                    network_set_front(&mut self.network, (entry.0, seq, iv));
                    false
                }
            },
            None => {
                network_insert(&mut self.network, (src, seq, iv));
                false
            },
        }
    }
}

impl ReplayProtection {
    /// Checks an upper PDU of a segmented or unsegmented message: returns the
    /// acknowledgement recorded for it when the message was already completed
    /// under the same IV index, and records a completed message of a new
    /// source or a newer IV index.
    pub fn check_upper_pdu(
        &mut self,
        src: u16,
        iv_index: u32,
        replay_seq: Option<u32>,
        block_ack: &BlockAck,
        is_complete: bool,
    ) -> (r: Option<BlockAck>)
        requires
            old(self).wf(),
        ensures
            final(self).wf(),
            final(self).network_view() == old(self).network_view(),
            final(self).upper_view() == spec_check_upper(
                old(self).upper_view(),
                src,
                iv_index,
                replay_seq,
                (block_ack.spec_bits(), block_ack.spec_seq_zero()),
                is_complete,
            ).0,
            match spec_check_upper(
                old(self).upper_view(),
                src,
                iv_index,
                replay_seq,
                (block_ack.spec_bits(), block_ack.spec_seq_zero()),
                is_complete,
            ).1 {
                Some((bits, sz)) => r == Some(BlockAck::spec_new(bits, sz)),
                None => r is None,
            },
    {
        let iv = (iv_index & 0xFFFF) as u16;
        assert(iv == iv16(iv_index)) by {
            assert((iv_index & 0xFFFF) as u16 == (iv_index % 0x10000) as u16) by (bit_vector);
        };
        match upper_find(&mut self.upper, src) {
            Some(entry) => {
                if iv < entry.2 {
                    None
                } else if iv == entry.2 {
                    match replay_seq {
                        Some(seq) => {
                            if seq == entry.1 {
                                Some(BlockAck::from_bits(entry.3, entry.4))
                            } else {
                                None
                            }
                        },
                        None => None,
                    }
                } else {
                    if is_complete {
                        if let Some(seq) = replay_seq {
                            upper_set_front(
                                &mut self.upper,
                                (entry.0, seq, iv, block_ack.value(), block_ack.seq_zero()),
                            );
                        }
                    }
                    None
                }
            },
            None => {
                if is_complete {
                    if let Some(seq) = replay_seq {
                        upper_insert(&mut self.upper, (src, seq, iv, block_ack.value(), block_ack.seq_zero()));
                    }
                }
                None
            },
        }
    }
}

/// Once a network PDU is accepted, the same PDU, and any PDU from the same
/// source under the same IV index with a sequence number not above it, is a
/// replay.
pub proof fn lemma_network_replay_rejected(s: Seq<(u16, u32, u16)>, src: u16, seq: u32, iv_index: u32, later_seq: u32)
    requires
        s.len() <= 32,
        !spec_check_network(s, src, seq, iv_index).1,
        later_seq <= seq,
    ensures
        spec_check_network(spec_check_network(s, src, seq, iv_index).0, src, later_seq, iv_index).1,
{
    let s1 = spec_check_network(s, src, seq, iv_index).0;
    assert(s1[0].0 == src);
    assert(s1[0].1 == seq);
    assert(s1[0].2 == iv16(iv_index));
    let f = |e: (u16, u32, u16)| e.0;
    assert(f(s1[0]) == src);
    let i = choose|i: int| 0 <= i < s1.len() && f(#[trigger] s1[i]) == src && forall|j: int| 0 <= j < i ==> f(s1[j]) != src;
    assert(i == 0);
}

/// Once a network PDU is accepted, a later PDU from the same source under the
/// same IV index with a higher sequence number is accepted.
pub proof fn lemma_network_newer_accepted(s: Seq<(u16, u32, u16)>, src: u16, seq: u32, iv_index: u32, later_seq: u32)
    requires
        s.len() <= 32,
        !spec_check_network(s, src, seq, iv_index).1,
        later_seq > seq,
    ensures
        !spec_check_network(spec_check_network(s, src, seq, iv_index).0, src, later_seq, iv_index).1,
{
    let s1 = spec_check_network(s, src, seq, iv_index).0;
    assert(s1[0].0 == src && s1[0].1 == seq && s1[0].2 == iv16(iv_index));
    let f = |e: (u16, u32, u16)| e.0;
    assert(f(s1[0]) == src);
    let i = choose|i: int| 0 <= i < s1.len() && f(#[trigger] s1[i]) == src && forall|j: int| 0 <= j < i ==> f(s1[j]) != src;
    assert(i == 0);
}

/// Once a complete upper PDU of a source not in the cache is recorded, the
/// same PDU again is answered with the recorded acknowledgement.
pub proof fn lemma_upper_replay_acknowledged(
    s: Seq<(u16, u32, u16, u32, u16)>,
    src: u16,
    iv_index: u32,
    replay_seq: u32,
    ack: (u32, u16),
    later_ack: (u32, u16),
    later_complete: bool,
)
    requires
        s.len() <= 32,
        first_with_src(s, |e: (u16, u32, u16, u32, u16)| e.0, src) is None,
    ensures
        spec_check_upper(
            spec_check_upper(s, src, iv_index, Some(replay_seq), ack, true).0,
            src,
            iv_index,
            Some(replay_seq),
            later_ack,
            later_complete,
        ).1 == Some(ack),
{
    let s1 = spec_check_upper(s, src, iv_index, Some(replay_seq), ack, true).0;
    assert(s1[0] == (src, replay_seq, iv16(iv_index), ack.0, ack.1));
    let f = |e: (u16, u32, u16, u32, u16)| e.0;
    assert(f(s1[0]) == src);
    let i = choose|i: int| 0 <= i < s1.len() && f(#[trigger] s1[i]) == src && forall|j: int| 0 <= j < i ==> f(s1[j]) != src;
    assert(i == 0);
}

/// Whether a network PDU should be relayed, and the message cache after:
/// transport PDUs over sixteen bytes are not relayed and not recorded; a
/// source and content already cached is not relayed again (its entry moves to
/// the front); anything else is recorded and relayed.
pub open spec fn spec_check_message(s: Seq<(u16, u64)>, src: u16, transport_pdu: Seq<u8>) -> (Seq<(u16, u64)>, bool) {
    if transport_pdu.len() > 16 {
        (s, false)
    } else {
        let h = fnv(transport_pdu);
        if exists|i: int| 0 <= i < s.len() && #[trigger] s[i] == (src, h) {
            (
                lru_touch(s, choose|i: int| 0 <= i < s.len() && #[trigger] s[i] == (src, h) && forall|j: int| 0 <= j < i ==> s[j] != (src, h)),
                false,
            )
        } else {
            (lru_insert(s, (src, h)), true)
        }
    }
}

/// A network PDU is relayed exactly when it carries at most sixteen bytes
/// and no PDU from its source with the same content hash is cached.
pub proof fn lemma_relay_decision(s: Seq<(u16, u64)>, src: u16, transport_pdu: Seq<u8>)
    ensures
        spec_check_message(s, src, transport_pdu).1 == (transport_pdu.len() <= 16 && !s.contains((src, fnv(transport_pdu)))),
{
    let h = fnv(transport_pdu);
    if transport_pdu.len() <= 16 && s.contains((src, h)) {
        let k = choose|k: int| 0 <= k < s.len() && s[k] == (src, h);
        assert(s[k] == (src, h));
    }
}

/// The recent network PDUs that were relayed, by source and content hash.
pub struct NetworkMessageCache {
    cache: LRUCache<(u16, u64), 32>,
}

impl NetworkMessageCache {
    /// The cache, most recently used first.
    pub closed spec fn view_entries(&self) -> Seq<(u16, u64)> {
        message_entries(self.cache)
    }

    pub open spec fn wf(&self) -> bool {
        self.view_entries().len() <= 32
    }

    /// An empty cache.
    pub fn new() -> (r: NetworkMessageCache)
        ensures
            r.wf(),
            r.view_entries() == Seq::<(u16, u64)>::empty(),
    {
        NetworkMessageCache { cache: new_message_cache() }
    }

    /// Decides whether a network PDU from `src` carrying `transport_pdu`
    /// should be relayed, recording it when it is.
    pub fn check(&mut self, src: u16, transport_pdu: &[u8]) -> (should_relay: bool)
        requires
            old(self).wf(),
        ensures
            final(self).wf(),
            (final(self).view_entries(), should_relay) == spec_check_message(old(self).view_entries(), src, transport_pdu@),
    {
        if transport_pdu.len() > 16 {
            return false;
        }
        let hash = hash_of(transport_pdu);
        if message_find(&mut self.cache, src, hash) {
            false
        } else {
            message_insert(&mut self.cache, (src, hash));
            true
        }
    }
}

/// A relayed PDU is not relayed a second time.
pub proof fn lemma_relay_once(s: Seq<(u16, u64)>, src: u16, transport_pdu: Seq<u8>)
    requires
        s.len() <= 32,
        spec_check_message(s, src, transport_pdu).1,
    ensures
        !spec_check_message(spec_check_message(s, src, transport_pdu).0, src, transport_pdu).1,
{
    let s1 = spec_check_message(s, src, transport_pdu).0;
    assert(s1[0] == (src, fnv(transport_pdu)));
}

} // verus!
