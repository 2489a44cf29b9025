//! The Config Model App messages.

use vstd::prelude::*;
use crate::error::{InsufficientBuffer, ParseError};
use crate::buffer::{put_all, Xmit};
use crate::chunks::{views, no_chunks, push_chunk, byte_chunk, append_chunks};
use crate::common::{Opcode, ModelIdentifier, model_identifier_chunks, spec_parse_model_identifier};
use crate::address::{UnicastAddress, spec_parse_unicast, hi8, lo8};
use crate::models::{Status, status_code, spec_parse_status};
use crate::models::configuration::{AppKeyIndex, KeyIndex, key_index_chunks, spec_parse_one};

verus! {

/// Opcode of Config Model App Bind.
#[verifier::allow_in_spec]
pub fn config_model_app_bind() -> Opcode
    returns
        Opcode::TwoOctet(0x80, 0x3D),
{
    Opcode::TwoOctet(0x80, 0x3D)
}

/// Opcode of Config Model App Status.
#[verifier::allow_in_spec]
pub fn config_model_app_status() -> Opcode
    returns
        Opcode::TwoOctet(0x80, 0x3E),
{
    Opcode::TwoOctet(0x80, 0x3E)
}

/// Opcode of Config Model App Unbind.
#[verifier::allow_in_spec]
pub fn config_model_app_unbind() -> Opcode
    returns
        Opcode::TwoOctet(0x80, 0x3F),
{
    Opcode::TwoOctet(0x80, 0x3F)
}

/// The chunks a unicast address is written as in little-endian order.
pub open spec fn unicast_le_chunks(a: UnicastAddress) -> Seq<Seq<u8>> {
    seq![seq![lo8(a@)], seq![hi8(a@)]]
}

/// The chunks of a unicast address, low byte first.
pub fn unicast_le(a: &UnicastAddress) -> (r: Vec<Vec<u8>>)
    ensures
        views(r@) == unicast_le_chunks(*a),
{
    let bytes = a.as_bytes();
    let mut r = no_chunks();
    push_chunk(&mut r, byte_chunk(bytes[1]));
    push_chunk(&mut r, byte_chunk(bytes[0]));
    assert(views(r@) =~= unicast_le_chunks(*a));
    r
}

/// Binds or unbinds an application key to a model of an element.
#[derive(Copy, Clone, Debug, PartialEq, Eq, Structural)]
pub struct ModelAppPayload {
    pub element_address: UnicastAddress,
    pub app_key_index: AppKeyIndex,
    pub model_identifier: ModelIdentifier,
}

/// Decoding a model-app payload: the element address (little-endian), the
/// application key index, then a two- or four-byte model identifier.
pub open spec fn spec_parse_model_app_payload(p: Seq<u8>) -> Result<ModelAppPayload, ParseError> {
    if p.len() >= 6 {
        match spec_parse_unicast(p[1], p[0]) {
            Ok(element_address) => match spec_parse_one(p.subrange(2, 4)) {
                Ok(k) => match spec_parse_model_identifier(p.subrange(4, p.len() as int)) {
                    Ok(model_identifier) => Ok(
                        ModelAppPayload { element_address, app_key_index: AppKeyIndex(k), model_identifier },
                    ),
                    Err(e) => Err(e),
                },
                Err(e) => Err(e),
            },
            Err(_) => Err(ParseError::InvalidValue),
        }
    } else {
        Err(ParseError::InvalidLength)
    }
}

impl ModelAppPayload {
    pub open spec fn spec_chunks(&self) -> Seq<Seq<u8>> {
        unicast_le_chunks(self.element_address) + key_index_chunks(self.app_key_index.0)
            + model_identifier_chunks(self.model_identifier)
    }

    /// Decodes a model-app payload.
    pub fn parse(parameters: &[u8]) -> (r: Result<ModelAppPayload, ParseError>)
        ensures
            r == spec_parse_model_app_payload(parameters@),
    {
        if parameters.len() >= 6 {
            let element_address = match UnicastAddress::parse([parameters[1], parameters[0]]) {
                Ok(a) => a,
                Err(_) => return Err(ParseError::InvalidValue),
            };
            let app_key_index = AppKeyIndex(KeyIndex::parse_one(vstd::slice::slice_subrange(parameters, 2, 4))?);
            let model_identifier = ModelIdentifier::parse(vstd::slice::slice_subrange(parameters, 4, parameters.len()))?;
            Ok(ModelAppPayload { element_address, app_key_index, model_identifier })
        } else {
            Err(ParseError::InvalidLength)
        }
    }

    /// The chunks of the payload.
    pub fn chunks(&self) -> (r: Vec<Vec<u8>>)
        ensures
            views(r@) == self.spec_chunks(),
    {
        let mut r = unicast_le(&self.element_address);
        append_chunks(&mut r, KeyIndex::one_chunks(&self.app_key_index.0));
        append_chunks(&mut r, self.model_identifier.chunks());
        r
    }

    /// Writes the payload.
    pub fn emit_parameters(&self, xmit: &mut Xmit) -> (r: Result<(), InsufficientBuffer>)
        requires
            old(xmit).wf(),
        ensures
            final(xmit).wf(),
            final(xmit).cap() == old(xmit).cap(),
            (final(xmit)@, r is Ok) == put_all(old(xmit)@, old(xmit).cap(), self.spec_chunks()),
    {
        xmit.put_chunks(&self.chunks())
    }
}

/// Reading back a written model-app payload gives it back, for a unicast
/// element address and an application key index below 256 (see
/// `lemma_key_index_roundtrip`).
pub proof fn lemma_model_app_payload_roundtrip(p: ModelAppPayload)
    requires
        crate::address::is_unicast(p.element_address@),
        p.app_key_index.0.0 < 256,
    ensures
        spec_parse_model_app_payload(crate::buffer::flatten(p.spec_chunks())) == Ok::<ModelAppPayload, ParseError>(p),
{
    let a = unicast_le_chunks(p.element_address);
    let k = key_index_chunks(p.app_key_index.0);
    let m = model_identifier_chunks(p.model_identifier);
    crate::buffer::lemma_flatten_append(a + k, m);
    crate::buffer::lemma_flatten_append(a, k);
    assert(p.spec_chunks() =~= a + k + m);
    crate::buffer::lemma_flatten_append(seq![seq![lo8(p.element_address@)]], seq![seq![hi8(p.element_address@)]]);
    crate::buffer::lemma_flatten_one(seq![lo8(p.element_address@)]);
    crate::buffer::lemma_flatten_one(seq![hi8(p.element_address@)]);
    assert(seq![seq![lo8(p.element_address@)]] + seq![seq![hi8(p.element_address@)]] =~= a);
    crate::models::configuration::lemma_key_index_roundtrip(p.app_key_index.0);
    crate::common::lemma_model_identifier_roundtrip(p.model_identifier);
    crate::address::lemma_be16_split(p.element_address@);
    UnicastAddress::lemma_view_determines(p.element_address);
    let fa = crate::buffer::flatten(a);
    let fk = crate::buffer::flatten(k);
    let fm = crate::buffer::flatten(m);
    let b = crate::buffer::flatten(p.spec_chunks());
    assert(fa.len() == 2);
    assert(fk.len() == 2);
    assert(fm.len() == 2 || fm.len() == 4) by {
        match p.model_identifier {
            ModelIdentifier::SIG(x) => {
                crate::buffer::lemma_flatten_one(crate::common::le_bytes(x));
            },
            ModelIdentifier::Vendor(c, x) => {
                crate::buffer::lemma_flatten_one(crate::common::le_bytes(x));
                crate::buffer::lemma_flatten_one(crate::common::le_bytes(c.0));
                crate::buffer::lemma_flatten_append(seq![crate::common::le_bytes(c.0)], seq![crate::common::le_bytes(x)]);
                assert(seq![crate::common::le_bytes(c.0)] + seq![crate::common::le_bytes(x)] =~= m);
            },
        }
    }
    assert(b =~= fa + fk + fm);
    assert(b.subrange(2, 4) =~= fk);
    assert(b.subrange(4, b.len() as int) =~= fm);
    assert(b[0] == lo8(p.element_address@));
    assert(b[1] == hi8(p.element_address@));
}

/// Reports the outcome of a bind or unbind.
#[derive(Copy, Clone, Debug, PartialEq, Eq, Structural)]
pub struct ModelAppStatusMessage {
    pub status: Status,
    pub payload: ModelAppPayload,
}

/// Decoding a Model App Status: a status code, then a payload.
pub open spec fn spec_parse_model_app_status(p: Seq<u8>) -> Result<ModelAppStatusMessage, ParseError>
    recommends
        p.len() >= 1,
{
    match spec_parse_status(p[0]) {
        Ok(status) => match spec_parse_model_app_payload(p.subrange(1, p.len() as int)) {
            Ok(payload) => Ok(ModelAppStatusMessage { status, payload }),
            Err(e) => Err(e),
        },
        Err(e) => Err(e),
    }
}

impl ModelAppStatusMessage {
    pub open spec fn spec_chunks(&self) -> Seq<Seq<u8>> {
        seq![seq![status_code(self.status)]] + self.payload.spec_chunks()
    }

    /// The chunks of the parameters.
    pub fn chunks(&self) -> (r: Vec<Vec<u8>>)
        ensures
            views(r@) == self.spec_chunks(),
    {
        let mut r = no_chunks();
        push_chunk(&mut r, byte_chunk(self.status.code()));
        append_chunks(&mut r, self.payload.chunks());
        assert(views(r@) =~= self.spec_chunks());
        r
    }

    /// Decodes a Model App Status. The first byte is read unchecked, so an
    /// empty input is outside its domain.
    pub fn parse(parameters: &[u8]) -> (r: Result<ModelAppStatusMessage, ParseError>)
        requires
            parameters@.len() >= 1,
        ensures
            r == spec_parse_model_app_status(parameters@),
    {
        let status = Status::parse(parameters[0])?;
        let payload = ModelAppPayload::parse(vstd::slice::slice_subrange(parameters, 1, parameters.len()))?;
        Ok(ModelAppStatusMessage { status, payload })
    }
}

/// Model-to-application-key binding messages.
#[derive(Copy, Clone, Debug, PartialEq, Eq, Structural)]
pub enum ModelAppMessage {
    Bind(ModelAppPayload),
    Status(ModelAppStatusMessage),
    Unbind(ModelAppPayload),
}

impl ModelAppMessage {
    /// Decodes a Model App Bind.
    pub fn parse_bind(parameters: &[u8]) -> (r: Result<ModelAppMessage, ParseError>)
        ensures
            r == (match spec_parse_model_app_payload(parameters@) {
                Ok(p) => Ok(ModelAppMessage::Bind(p)),
                Err(e) => Err(e),
            }),
    {
        Ok(ModelAppMessage::Bind(ModelAppPayload::parse(parameters)?))
    }

    /// Decodes a Model App Unbind.
    pub fn parse_unbind(parameters: &[u8]) -> (r: Result<ModelAppMessage, ParseError>)
        ensures
            r == (match spec_parse_model_app_payload(parameters@) {
                Ok(p) => Ok(ModelAppMessage::Unbind(p)),
                Err(e) => Err(e),
            }),
    {
        Ok(ModelAppMessage::Unbind(ModelAppPayload::parse(parameters)?))
    }

    /// Decodes a Model App Status.
    pub fn parse_status(parameters: &[u8]) -> (r: Result<ModelAppMessage, ParseError>)
        requires
            parameters@.len() >= 1,
        ensures
            r == (match spec_parse_model_app_status(parameters@) {
                Ok(m) => Ok(ModelAppMessage::Status(m)),
                Err(e) => Err(e),
            }),
    {
        Ok(ModelAppMessage::Status(ModelAppStatusMessage::parse(parameters)?))
    }

    pub open spec fn spec_opcode(&self) -> Opcode {
        match *self {
            ModelAppMessage::Bind(_) => config_model_app_bind(),
            ModelAppMessage::Status(_) => config_model_app_status(),
            ModelAppMessage::Unbind(_) => config_model_app_unbind(),
        }
    }

    /// The opcode of the message.
    pub fn opcode(&self) -> (r: Opcode)
        ensures
            r == self.spec_opcode(),
    {
        match self {
            ModelAppMessage::Bind(_) => config_model_app_bind(),
            ModelAppMessage::Status(_) => config_model_app_status(),
            ModelAppMessage::Unbind(_) => config_model_app_unbind(),
        }
    }

    pub open spec fn spec_chunks(&self) -> Seq<Seq<u8>> {
        match *self {
            ModelAppMessage::Bind(p) => p.spec_chunks(),
            ModelAppMessage::Status(m) => m.spec_chunks(),
            ModelAppMessage::Unbind(p) => p.spec_chunks(),
        }
    }

    /// Writes the parameters.
    pub fn emit_parameters(&self, xmit: &mut Xmit) -> (r: Result<(), InsufficientBuffer>)
        requires
            old(xmit).wf(),
        ensures
            final(xmit).wf(),
            final(xmit).cap() == old(xmit).cap(),
            (final(xmit)@, r is Ok) == put_all(old(xmit)@, old(xmit).cap(), self.spec_chunks()),
    {
        match self {
            ModelAppMessage::Bind(inner) => inner.emit_parameters(xmit),
            ModelAppMessage::Status(inner) => xmit.put_chunks(&inner.chunks()),
            ModelAppMessage::Unbind(inner) => inner.emit_parameters(xmit),
        }
    }
}

} // verus!
