//! The Config Default TTL messages.

use vstd::prelude::*;
use crate::error::{InsufficientBuffer, ParseError};
use crate::buffer::{put_all, Xmit};
use crate::common::{Opcode, Ttl, spec_parse_ttl};

verus! {

/// Opcode of Config Default TTL Get.
#[verifier::allow_in_spec]
pub fn config_default_ttl_get() -> Opcode
    returns
        Opcode::TwoOctet(0x80, 0x0C),
{
    Opcode::TwoOctet(0x80, 0x0C)
}

/// Opcode of Config Default TTL Set.
#[verifier::allow_in_spec]
pub fn config_default_ttl_set() -> Opcode
    returns
        Opcode::TwoOctet(0x80, 0x0D),
{
    Opcode::TwoOctet(0x80, 0x0D)
}

/// Opcode of Config Default TTL Status.
#[verifier::allow_in_spec]
pub fn config_default_ttl_status() -> Opcode
    returns
        Opcode::TwoOctet(0x80, 0x0E),
{
    Opcode::TwoOctet(0x80, 0x0E)
}

/// Default TTL state messages.
#[derive(Copy, Clone, Debug, PartialEq, Eq, Structural)]
pub enum DefaultTTLMessage {
    Get,
    SetState(Ttl),
    Status(Ttl),
}

/// Decoding a Default TTL Get: no parameters.
pub open spec fn spec_parse_default_ttl_get(p: Seq<u8>) -> Result<DefaultTTLMessage, ParseError> {
    if p.len() == 0 {
        Ok(DefaultTTLMessage::Get)
    } else {
        Err(ParseError::InvalidLength)
    }
}

/// Decoding a Default TTL Set: one byte holding a valid TTL.
pub open spec fn spec_parse_default_ttl_set(p: Seq<u8>) -> Result<DefaultTTLMessage, ParseError> {
    if p.len() == 1 {
        match spec_parse_ttl(p[0]) {
            Ok(t) => Ok(DefaultTTLMessage::SetState(t)),
            Err(e) => Err(e),
        }
    } else {
        Err(ParseError::InvalidLength)
    }
}

impl DefaultTTLMessage {
    pub open spec fn spec_opcode(&self) -> Opcode {
        match *self {
            DefaultTTLMessage::Get => config_default_ttl_get(),
            DefaultTTLMessage::SetState(_) => config_default_ttl_set(),
            DefaultTTLMessage::Status(_) => config_default_ttl_status(),
        }
    }

    /// The opcode of the message.
    pub fn opcode(&self) -> (r: Opcode)
        ensures
            r == self.spec_opcode(),
    {
        match self {
            DefaultTTLMessage::Get => config_default_ttl_get(),
            DefaultTTLMessage::SetState(_) => config_default_ttl_set(),
            DefaultTTLMessage::Status(_) => config_default_ttl_status(),
        }
    }

    /// The chunks of the parameters: nothing for Get, the TTL byte otherwise.
    pub open spec fn spec_chunks(&self) -> Seq<Seq<u8>> {
        match *self {
            DefaultTTLMessage::Get => seq![],
            DefaultTTLMessage::SetState(t) => seq![seq![t@]],
            DefaultTTLMessage::Status(t) => seq![seq![t@]],
        }
    }

    /// Writes the parameters.
    pub fn emit_parameters(&self, xmit: &mut Xmit) -> (r: Result<(), InsufficientBuffer>)
        requires
            old(xmit).wf(),
        ensures
            final(xmit).wf(),
            final(xmit).cap() == old(xmit).cap(),
            (final(xmit)@, r is Ok) == put_all(old(xmit)@, old(xmit).cap(), self.spec_chunks()),
    {
        match self {
            DefaultTTLMessage::Get => {},
            DefaultTTLMessage::SetState(ttl) => {
                xmit.push(ttl.value())?;
            },
            DefaultTTLMessage::Status(ttl) => {
                xmit.push(ttl.value())?;
            },
        }
        Ok(())
    }

    /// Decodes a Default TTL Get.
    pub fn parse_get(parameters: &[u8]) -> (r: Result<DefaultTTLMessage, ParseError>)
        ensures
            r == spec_parse_default_ttl_get(parameters@),
    {
        if parameters.len() == 0 {
            Ok(DefaultTTLMessage::Get)
        } else {
            Err(ParseError::InvalidLength)
        }
    }

    /// Decodes a Default TTL Set.
    pub fn parse_set(parameters: &[u8]) -> (r: Result<DefaultTTLMessage, ParseError>)
        ensures
            r == spec_parse_default_ttl_set(parameters@),
    {
        if parameters.len() == 1 {
            Ok(DefaultTTLMessage::SetState(Ttl::parse(parameters[0])?))
        } else {
            Err(ParseError::InvalidLength)
        }
    }
}

} // verus!
