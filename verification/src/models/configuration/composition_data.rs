//! The Config Composition Data messages.

use vstd::prelude::*;
use crate::error::{InsufficientBuffer, ParseError};
use crate::buffer::{put_all, Xmit};
use crate::chunks::{views, no_chunks, push_chunk, byte_chunk, slice_chunk};
use crate::common::Opcode;

verus! {

/// Opcode of Config Composition Data Get.
#[verifier::allow_in_spec]
pub fn config_composition_data_get() -> Opcode
    returns
        Opcode::TwoOctet(0x80, 0x08),
{
    Opcode::TwoOctet(0x80, 0x08)
}

/// Opcode of Config Composition Data Status.
#[verifier::allow_in_spec]
pub fn config_composition_data_status() -> Opcode
    returns
        Opcode::OneOctet(0x02),
{
    Opcode::OneOctet(0x02)
}

/// Composition data messages: a request for one page, and the page sent back.
#[derive(Clone, Debug)]
pub enum CompositionDataMessage {
    Get(u8),
    Status { page: u8, data: Vec<u8> },
}

/// Decoding a Composition Data Get: exactly one byte, the page number.
pub open spec fn spec_parse_composition_data_get(p: Seq<u8>) -> Result<CompositionDataMessage, ParseError> {
    if p.len() == 1 {
        Ok(CompositionDataMessage::Get(p[0]))
    } else {
        Err(ParseError::InvalidLength)
    }
}

impl CompositionDataMessage {
    /// The opcode of the message.
    pub fn opcode(&self) -> (r: Opcode)
        ensures
            r == self.spec_opcode(),
    {
        match self {
            CompositionDataMessage::Get(_) => config_composition_data_get(),
            CompositionDataMessage::Status { .. } => config_composition_data_status(),
        }
    }

    pub open spec fn spec_opcode(&self) -> Opcode {
        match self {
            CompositionDataMessage::Get(_) => config_composition_data_get(),
            CompositionDataMessage::Status { .. } => config_composition_data_status(),
        }
    }

    /// The chunks of the parameters: the page, then for a status the data.
    pub open spec fn spec_chunks(&self) -> Seq<Seq<u8>> {
        match *self {
            CompositionDataMessage::Get(page) => seq![seq![page]],
            CompositionDataMessage::Status { page, data } => seq![seq![page], data@],
        }
    }

    /// Writes the parameters.
    pub fn emit_parameters(&self, xmit: &mut Xmit) -> (r: Result<(), InsufficientBuffer>)
        requires
            old(xmit).wf(),
        ensures
            final(xmit).wf(),
            final(xmit).cap() == old(xmit).cap(),
            (final(xmit)@, r is Ok) == put_all(old(xmit)@, old(xmit).cap(), self.spec_chunks()),
    {
        let mut chunks = no_chunks();
        match self {
            CompositionDataMessage::Get(page) => {
                push_chunk(&mut chunks, byte_chunk(*page));
            },
            CompositionDataMessage::Status { page, data } => {
                push_chunk(&mut chunks, byte_chunk(*page));
                push_chunk(&mut chunks, slice_chunk(data.as_slice()));
            },
        }
        assert(views(chunks@) =~= self.spec_chunks());
        xmit.put_chunks(&chunks)
    }

    /// Decodes a Composition Data Get.
    pub fn parse_get(parameters: &[u8]) -> (r: Result<CompositionDataMessage, ParseError>)
        ensures
            r == spec_parse_composition_data_get(parameters@),
    {
        if parameters.len() == 1 {
            Ok(CompositionDataMessage::Get(parameters[0]))
        } else {
            Err(ParseError::InvalidLength)
        }
    }
}

} // verus!
