//! Bounded output buffers.

use vstd::prelude::*;
use crate::error::InsufficientBuffer;

verus! {

/// Appends `chunk` to `buf` when the result still fits in `cap` bytes.
pub open spec fn put(buf: Seq<u8>, cap: nat, chunk: Seq<u8>) -> Option<Seq<u8>> {
    if buf.len() + chunk.len() <= cap {
        Some(buf + chunk)
    } else {
        None
    }
}

/// Writes `chunks` one after the other into a buffer of capacity `cap`
/// holding `buf`, stopping at the first chunk that does not fit.
/// Returns the final buffer content and whether every chunk was written.
pub open spec fn put_all(buf: Seq<u8>, cap: nat, chunks: Seq<Seq<u8>>) -> (Seq<u8>, bool)
    decreases chunks.len(),
{
    if chunks.len() == 0 {
        (buf, true)
    } else {
        match put(buf, cap, chunks[0]) {
            Some(next) => put_all(next, cap, chunks.drop_first()),
            None => (buf, false),
        }
    }
}

/// The bytes of `chunks` laid end to end.
pub open spec fn flatten(chunks: Seq<Seq<u8>>) -> Seq<u8>
    decreases chunks.len(),
{
    if chunks.len() == 0 {
        Seq::empty()
    } else {
        chunks[0] + flatten(chunks.drop_first())
    }
}

/// Writing chunks succeeds exactly when all of them fit, and then the buffer
/// holds the old content followed by every chunk.
pub proof fn lemma_put_all_fits(buf: Seq<u8>, cap: nat, chunks: Seq<Seq<u8>>)
    requires
        buf.len() <= cap,
    ensures
        put_all(buf, cap, chunks).1 <==> buf.len() + flatten(chunks).len() <= cap,
        put_all(buf, cap, chunks).1 ==> put_all(buf, cap, chunks).0 == buf + flatten(chunks),
    decreases chunks.len(),
{
    if chunks.len() > 0 {
        let c0 = chunks[0];
        assert(flatten(chunks) == c0 + flatten(chunks.drop_first()));
        assert(flatten(chunks).len() == c0.len() + flatten(chunks.drop_first()).len());
        if buf.len() + c0.len() <= cap {
            lemma_put_all_fits(buf + c0, cap, chunks.drop_first());
            assert(buf + c0 + flatten(chunks.drop_first()) == buf + flatten(chunks));
        }
    } else {
        assert(buf + flatten(chunks) == buf);
    }
}

/// Flattening distributes over concatenation of chunk lists.
pub proof fn lemma_flatten_append(a: Seq<Seq<u8>>, b: Seq<Seq<u8>>)
    ensures
        flatten(a + b) == flatten(a) + flatten(b),
    decreases a.len(),
{
    if a.len() == 0 {
        assert(a + b =~= b);
        assert(flatten(a) + flatten(b) =~= flatten(b));
    } else {
        assert((a + b).drop_first() =~= a.drop_first() + b);
        lemma_flatten_append(a.drop_first(), b);
        assert((a + b)[0] == a[0]);
        assert(flatten(a + b) =~= a[0] + flatten(a.drop_first() + b));
        assert(flatten(a) + flatten(b) =~= a[0] + (flatten(a.drop_first()) + flatten(b)));
    }
}

/// A single chunk flattens to itself.
pub proof fn lemma_flatten_one(c: Seq<u8>)
    ensures
        flatten(seq![c]) == c,
{
    let cs = seq![c];
    assert(cs.drop_first() =~= Seq::<Seq<u8>>::empty());
    assert(flatten(cs.drop_first()) == Seq::<u8>::empty());
    assert(cs[0] == c);
    assert(flatten(cs) =~= c);
}

/// Writing a single chunk is `put`.
pub proof fn lemma_put_all_one(buf: Seq<u8>, cap: nat, chunk: Seq<u8>)
    ensures
        put_all(buf, cap, seq![chunk]) == (match put(buf, cap, chunk) {
            Some(b) => (b, true),
            None => (buf, false),
        }),
{
    let cs = seq![chunk];
    assert(cs.drop_first() =~= Seq::<Seq<u8>>::empty());
    assert(cs[0] == chunk);
    match put(buf, cap, chunk) {
        Some(b) => {
            assert(put_all(b, cap, cs.drop_first()) == (b, true));
        },
        None => {},
    }
}

/// A bounded byte buffer into which messages are emitted. Like a fixed-capacity
/// vector, it refuses any write that would exceed its capacity.
pub struct Xmit {
    bytes: Vec<u8>,
    capacity: usize,
}

impl View for Xmit {
    type V = Seq<u8>;

    closed spec fn view(&self) -> Seq<u8> {
        self.bytes@
    }
}

impl Xmit {
    /// The number of bytes the buffer can hold.
    pub closed spec fn cap(&self) -> nat {
        self.capacity as nat
    }

    /// The buffer never holds more than its capacity.
    pub closed spec fn wf(&self) -> bool {
        self.bytes@.len() <= self.capacity
    }

    /// An empty buffer of the given capacity.
    pub fn new(capacity: usize) -> (x: Xmit)
        ensures
            x@ == Seq::<u8>::empty(),
            x.cap() == capacity,
            x.wf(),
    {
        Xmit { bytes: Vec::new(), capacity }
    }

    /// The bytes written so far.
    pub fn as_slice(&self) -> (s: &[u8])
        ensures
            s@ == self@,
    {
        self.bytes.as_slice()
    }

    /// The number of bytes written so far.
    pub fn len(&self) -> (n: usize)
        ensures
            n == self@.len(),
    {
        self.bytes.len()
    }

    /// The capacity of the buffer.
    pub fn capacity(&self) -> (n: usize)
        ensures
            n == self.cap(),
    {
        self.capacity
    }

    /// Appends one byte, or fails without change when the buffer is full.
    pub fn push(&mut self, byte: u8) -> (r: Result<(), InsufficientBuffer>)
        requires
            old(self).wf(),
        ensures
            final(self).wf(),
            final(self).cap() == old(self).cap(),
            put(old(self)@, old(self).cap(), seq![byte]) matches Some(b)
                ==> r is Ok && final(self)@ == b,
            put(old(self)@, old(self).cap(), seq![byte]) is None
                ==> r is Err && final(self)@ == old(self)@,
            (final(self)@, r is Ok) == put_all(old(self)@, old(self).cap(), seq![seq![byte]]),
    {
        proof { lemma_put_all_one(self@, self.cap(), seq![byte]); }
        if self.bytes.len() < self.capacity {
            self.bytes.push(byte);
            Ok(())
        } else {
            Err(InsufficientBuffer)
        }
    }

    /// Appends all of `bytes`, or fails without change when they do not all fit.
    pub fn extend_from_slice(&mut self, bytes: &[u8]) -> (r: Result<(), InsufficientBuffer>)
        requires
            old(self).wf(),
        ensures
            final(self).wf(),
            final(self).cap() == old(self).cap(),
            put(old(self)@, old(self).cap(), bytes@) matches Some(b)
                ==> r is Ok && final(self)@ == b,
            put(old(self)@, old(self).cap(), bytes@) is None
                ==> r is Err && final(self)@ == old(self)@,
            (final(self)@, r is Ok) == put_all(old(self)@, old(self).cap(), seq![bytes@]),
    {
        proof { lemma_put_all_one(self@, self.cap(), bytes@); }
        if bytes.len() <= self.capacity - self.bytes.len() {
            let ghost before = self.bytes@;
            let mut i: usize = 0;
            while i < bytes.len()
                invariant
                    i <= bytes@.len(),
                    self.bytes@ == before + bytes@.subrange(0, i as int),
                    self.capacity == old(self).capacity,
                    before.len() + bytes@.len() <= self.capacity,
                decreases bytes@.len() - i,
            {
                self.bytes.push(bytes[i]);
                assert(bytes@.subrange(0, i + 1) == bytes@.subrange(0, i as int).push(bytes@[i as int]));
                i = i + 1;
            }
            assert(bytes@.subrange(0, bytes@.len() as int) == bytes@);
            Ok(())
        } else {
            Err(InsufficientBuffer)
        }
    }

    /// Writes each chunk in turn, stopping at the first one that does not fit.
    pub fn put_chunks(&mut self, chunks: &Vec<Vec<u8>>) -> (r: Result<(), InsufficientBuffer>)
        requires
            old(self).wf(),
        ensures
            final(self).wf(),
            final(self).cap() == old(self).cap(),
            (final(self)@, r is Ok) == put_all(old(self)@, old(self).cap(), chunks@.map_values(|c: Vec<u8>| c@)),
    {
        let ghost all = chunks@.map_values(|c: Vec<u8>| c@);
        let ghost start = self.bytes@;
        let mut i: usize = 0;
        assert(all.subrange(0, all.len() as int) == all);
        while i < chunks.len()
            invariant
                self.wf(),
                self.capacity == old(self).capacity,
                start == old(self)@,
                all == chunks@.map_values(|c: Vec<u8>| c@),
                i <= chunks@.len(),
                put_all(start, self.cap(), all) == put_all(self@, self.cap(), all.subrange(i as int, all.len() as int)),
            decreases chunks@.len() - i,
        {
            let ghost rest = all.subrange(i as int, all.len() as int);
            assert(rest[0] == chunks@[i as int]@);
            assert(rest.drop_first() == all.subrange(i + 1, all.len() as int));
            let r = self.extend_from_slice(chunks[i].as_slice());
            if r.is_err() {
                return r;
            }
            i = i + 1;
        }
        assert(all.subrange(i as int, all.len() as int).len() == 0);
        Ok(())
    }
}

} // verus!
