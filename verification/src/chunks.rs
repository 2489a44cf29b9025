//! Building messages from chunks of bytes.

use vstd::prelude::*;

verus! {

/// The byte content of a list of chunks.
pub open spec fn views(chunks: Seq<Vec<u8>>) -> Seq<Seq<u8>> {
    chunks.map_values(|c: Vec<u8>| c@)
}

/// Appends `more` to `chunks`.
pub fn append_chunks(chunks: &mut Vec<Vec<u8>>, more: Vec<Vec<u8>>)
    ensures
        views(final(chunks)@) == views(old(chunks)@) + views(more@),
{
    let mut more = more;
    let ghost m = more@;
    chunks.append(&mut more);
    assert(views(old(chunks)@ + m) =~= views(old(chunks)@) + views(m));
}

/// Appends one chunk to `chunks`.
pub fn push_chunk(chunks: &mut Vec<Vec<u8>>, chunk: Vec<u8>)
    ensures
        views(final(chunks)@) == views(old(chunks)@).push(chunk@),
{
    let ghost c = chunk@;
    chunks.push(chunk);
    assert(views(final(chunks)@) =~= views(old(chunks)@).push(c));
}

/// A chunk of one byte.
pub fn byte_chunk(b: u8) -> (r: Vec<u8>)
    ensures
        r@ == seq![b],
{
    let mut v = Vec::new();
    v.push(b);
    assert(v@ =~= seq![b]);
    v
}

/// A chunk of two bytes.
pub fn pair_chunk(a: u8, b: u8) -> (r: Vec<u8>)
    ensures
        r@ == seq![a, b],
{
    let mut v = Vec::new();
    v.push(a);
    v.push(b);
    assert(v@ =~= seq![a, b]);
    v
}

/// A chunk holding a copy of `bytes`.
pub fn slice_chunk(bytes: &[u8]) -> (r: Vec<u8>)
    ensures
        r@ == bytes@,
{
    let mut v = Vec::new();
    v.extend_from_slice(bytes);
    assert(v@ =~= bytes@);
    v
}

/// No chunks.
pub fn no_chunks() -> (r: Vec<Vec<u8>>)
    ensures
        views(r@) == Seq::<Seq<u8>>::empty(),
{
    let r: Vec<Vec<u8>> = Vec::new();
    assert(views(r@) =~= Seq::<Seq<u8>>::empty());
    r
}

} // verus!
