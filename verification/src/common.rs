//! Values common to mesh messages: model identifiers, TTLs and opcodes.

use vstd::prelude::*;
use crate::error::{InsufficientBuffer, ParseError};
use crate::buffer::{put_all, Xmit};
use crate::chunks::{views, no_chunks, push_chunk, pair_chunk};

verus! {

/// The little-endian reading of two bytes.
pub open spec fn le16(lo: u8, hi: u8) -> u16 {
    (lo as nat + hi as nat * 256) as u16
}

/// A sixteen-byte array holding `bytes`.
pub open spec fn array16_of(bytes: Seq<u8>) -> [u8; 16]
    recommends
        bytes.len() == 16,
{
    [bytes[0], bytes[1], bytes[2], bytes[3], bytes[4], bytes[5], bytes[6], bytes[7], bytes[8],
     bytes[9], bytes[10], bytes[11], bytes[12], bytes[13], bytes[14], bytes[15]]
}

/// Copies exactly sixteen bytes into an array.
pub fn to_array16(s: &[u8]) -> (r: [u8; 16])
    requires
        s@.len() == 16,
    ensures
        r@ == s@,
{
    let mut a = [0u8; 16];
    let mut i: usize = 0;
    while i < 16
        invariant
            s@.len() == 16,
            0 <= i <= 16,
            forall|j: int| 0 <= j < i ==> a@[j] == s@[j],
        decreases 16 - i,
    {
        a[i] = s[i];
        i = i + 1;
    }
    assert(a@ =~= s@);
    a
}

/// A company identifier assigned by the Bluetooth SIG.
#[derive(Copy, Clone, Debug, PartialEq, Eq, Structural, Hash)]
pub struct CompanyIdentifier(pub u16);

/// Identifies a model: either a SIG-defined model, or a vendor model of a company.
#[derive(Copy, Clone, Debug, PartialEq, Eq, Structural, Hash)]
pub enum ModelIdentifier {
    SIG(u16),
    Vendor(CompanyIdentifier, u16),
}

/// Decoding a model identifier: two little-endian bytes for a SIG model, four for a
/// vendor model (company identifier first).
pub open spec fn spec_parse_model_identifier(data: Seq<u8>) -> Result<ModelIdentifier, ParseError> {
    if data.len() == 2 {
        Ok(ModelIdentifier::SIG(le16(data[0], data[1])))
    } else if data.len() == 4 {
        Ok(ModelIdentifier::Vendor(CompanyIdentifier(le16(data[0], data[1])), le16(data[2], data[3])))
    } else {
        Err(ParseError::InvalidLength)
    }
}

/// The little-endian bytes of a 16-bit value.
pub open spec fn le_bytes(v: u16) -> Seq<u8> {
    seq![(v % 256) as u8, (v / 256) as u8]
}

/// The chunks a model identifier is written as.
pub open spec fn model_identifier_chunks(id: ModelIdentifier) -> Seq<Seq<u8>> {
    match id {
        ModelIdentifier::SIG(m) => seq![le_bytes(m)],
        ModelIdentifier::Vendor(c, m) => seq![le_bytes(c.0), le_bytes(m)],
    }
}

/// The little-endian bytes of a 16-bit value, as a chunk.
pub fn le_chunk(v: u16) -> (r: Vec<u8>)
    ensures
        r@ == le_bytes(v),
{
    pair_chunk((v % 256) as u8, (v / 256) as u8)
}

/// Reads two bytes as a little-endian 16-bit value.
pub fn u16_from_le(lo: u8, hi: u8) -> (r: u16)
    ensures
        r == le16(lo, hi),
{
    (lo as u16) + (hi as u16) * 256
}

pub proof fn lemma_le16_roundtrip(v: u16)
    ensures
        le16(le_bytes(v)[0], le_bytes(v)[1]) == v,
{
}

/// Decoding the bytes an identifier is written as gives the identifier back.
pub proof fn lemma_model_identifier_roundtrip(id: ModelIdentifier)
    ensures
        spec_parse_model_identifier(crate::buffer::flatten(model_identifier_chunks(id)))
            == Ok::<ModelIdentifier, ParseError>(id),
{
    match id {
        ModelIdentifier::SIG(m) => {
            crate::buffer::lemma_flatten_one(le_bytes(m));
        },
        ModelIdentifier::Vendor(c, m) => {
            crate::buffer::lemma_flatten_one(le_bytes(m));
            crate::buffer::lemma_flatten_append(seq![le_bytes(c.0)], seq![le_bytes(m)]);
            crate::buffer::lemma_flatten_one(le_bytes(c.0));
            assert(seq![le_bytes(c.0)] + seq![le_bytes(m)] =~= model_identifier_chunks(id));
        },
    }
}

impl ModelIdentifier {
    /// Decodes a model identifier from two or four bytes.
    pub fn parse(data: &[u8]) -> (r: Result<ModelIdentifier, ParseError>)
        ensures
            r == spec_parse_model_identifier(data@),
    {
        if data.len() == 2 {
            Ok(ModelIdentifier::SIG(u16_from_le(data[0], data[1])))
        } else if data.len() == 4 {
            Ok(ModelIdentifier::Vendor(
                CompanyIdentifier(u16_from_le(data[0], data[1])),
                u16_from_le(data[2], data[3]),
            ))
        } else {
            Err(ParseError::InvalidLength)
        }
    }

    /// The chunks this identifier is written as.
    pub fn chunks(&self) -> (r: Vec<Vec<u8>>)
        ensures
            views(r@) == model_identifier_chunks(*self),
    {
        let mut r = no_chunks();
        match self {
            ModelIdentifier::SIG(m) => {
                push_chunk(&mut r, le_chunk(*m));
            },
            ModelIdentifier::Vendor(c, m) => {
                push_chunk(&mut r, le_chunk(c.0));
                push_chunk(&mut r, le_chunk(*m));
            },
        }
        assert(views(r@) =~= model_identifier_chunks(*self));
        r
    }

    /// Appends the identifier's little-endian bytes to `xmit`.
    pub fn emit(&self, xmit: &mut Xmit) -> (r: Result<(), InsufficientBuffer>)
        requires
            old(xmit).wf(),
        ensures
            final(xmit).wf(),
            final(xmit).cap() == old(xmit).cap(),
            (final(xmit)@, r is Ok) == put_all(old(xmit)@, old(xmit).cap(), model_identifier_chunks(*self)),
    {
        xmit.put_chunks(&self.chunks())
    }
}

/// The time-to-live of a message: a 7-bit hop count.
#[derive(Copy, Clone, Debug, PartialEq, Eq, Structural, Hash)]
pub struct Ttl(u8);

impl View for Ttl {
    type V = u8;

    closed spec fn view(&self) -> u8 {
        self.0
    }
}

/// Decoding a TTL: values above 127 are refused.
pub open spec fn spec_parse_ttl(v: u8) -> Result<Ttl, ParseError> {
    if v <= 127 {
        Ok(Ttl::spec_new(v))
    } else {
        Err(ParseError::InvalidValue)
    }
}

impl Ttl {
    pub closed spec fn spec_new(v: u8) -> Ttl {
        Ttl(v)
    }

    pub proof fn lemma_spec_new(v: u8)
        ensures
            Ttl::spec_new(v)@ == v,
    {
    }

    /// A TTL is determined by its hop count.
    pub proof fn lemma_view_determines(t: Ttl)
        ensures
            Ttl::spec_new(t@) == t,
    {
    }

    /// A TTL holding `v`.
    pub fn new(v: u8) -> (r: Ttl)
        ensures
            r == Ttl::spec_new(v),
            r@ == v,
    {
        Ttl(v)
    }

    /// Decodes a TTL.
    pub fn parse(v: u8) -> (r: Result<Ttl, ParseError>)
        ensures
            r == spec_parse_ttl(v),
    {
        if v <= 127 {
            Ok(Ttl(v))
        } else {
            Err(ParseError::InvalidValue)
        }
    }

    /// The hop count.
    pub fn value(&self) -> (v: u8)
        ensures
            v == self@,
    {
        self.0
    }
}

/// A message opcode of one, two or three bytes.
#[derive(Copy, Clone, Debug, PartialEq, Eq, Structural, Hash)]
pub enum Opcode {
    OneOctet(u8),
    TwoOctet(u8, u8),
    ThreeOctet(u8, u8, u8),
}


/// The bytes of an opcode as it stands at the head of an access message.
pub open spec fn opcode_bytes(op: Opcode) -> Seq<u8> {
    match op {
        Opcode::OneOctet(a) => seq![a],
        Opcode::TwoOctet(a, b) => seq![a, b],
        Opcode::ThreeOctet(a, b, c) => seq![a, b, c],
    }
}

/// The opcode at the head of an access message and the parameters after it:
/// a first byte below 0x80 (but 0x7F, which is reserved) is a one-octet
/// opcode, one of the form `10xxxxxx` starts a two-octet opcode and one of the
/// form `11xxxxxx` a three-octet opcode.
pub open spec fn spec_split_opcode(data: Seq<u8>) -> Option<(Opcode, Seq<u8>)> {
    if data.len() == 0 {
        None
    } else if data[0] < 0x80 {
        if data[0] == 0x7f {
            None
        } else {
            Some((Opcode::OneOctet(data[0]), data.skip(1)))
        }
    } else if data[0] < 0xc0 {
        if data.len() >= 2 {
            Some((Opcode::TwoOctet(data[0], data[1]), data.skip(2)))
        } else {
            None
        }
    } else if data.len() >= 3 {
        Some((Opcode::ThreeOctet(data[0], data[1], data[2]), data.skip(3)))
    } else {
        None
    }
}

impl Opcode {
    /// Splits an access message into its opcode and its parameters.
    pub fn split(data: &[u8]) -> (r: Option<(Opcode, Vec<u8>)>)
        ensures
            match spec_split_opcode(data@) {
                Some((op, rest)) => r matches Some((o, p)) && o == op && p@ == rest,
                None => r is None,
            },
    {
        let n: usize = if data.len() == 0 {
            return None;
        } else if data[0] < 0x80 {
            if data[0] == 0x7f {
                return None;
            }
            1
        } else if data[0] < 0xc0 {
            if data.len() < 2 {
                return None;
            }
            2
        } else {
            if data.len() < 3 {
                return None;
            }
            3
        };
        let op = if n == 1 {
            Opcode::OneOctet(data[0])
        } else if n == 2 {
            Opcode::TwoOctet(data[0], data[1])
        } else {
            Opcode::ThreeOctet(data[0], data[1], data[2])
        };
        let mut rest: Vec<u8> = Vec::new();
        let mut i: usize = n;
        while i < data.len()
            invariant
                n <= i <= data@.len(),
                rest@ == data@.subrange(n as int, i as int),
            decreases data@.len() - i,
        {
            rest.push(data[i]);
            i = i + 1;
            assert(rest@ =~= data@.subrange(n as int, i as int));
        }
        assert(rest@ =~= data@.skip(n as int));
        Some((op, rest))
    }

    /// The bytes of the opcode.
    pub fn bytes(&self) -> (r: Vec<u8>)
        ensures
            r@ == opcode_bytes(*self),
    {
        match *self {
            Opcode::OneOctet(a) => vec![a],
            Opcode::TwoOctet(a, b) => vec![a, b],
            Opcode::ThreeOctet(a, b, c) => vec![a, b, c],
        }
    }
}

/// Splitting the bytes of an opcode followed by parameters gives them back,
/// for every opcode whose own bytes split into itself.
pub proof fn lemma_split_opcode_bytes(op: Opcode, parameters: Seq<u8>)
    requires
        spec_split_opcode(opcode_bytes(op)) == Some((op, Seq::<u8>::empty())),
    ensures
        spec_split_opcode(opcode_bytes(op) + parameters) == Some((op, parameters)),
{
    let b = opcode_bytes(op);
    assert((b + parameters).skip(b.len() as int) =~= parameters);
    assert((b + parameters)[0] == b[0]);
    if b.len() >= 2 {
        assert((b + parameters)[1] == b[1]);
    }
    if b.len() >= 3 {
        assert((b + parameters)[2] == b[2]);
    }
}

} // verus!
