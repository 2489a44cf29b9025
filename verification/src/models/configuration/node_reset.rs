//! The Config Node Reset messages.

use vstd::prelude::*;
use crate::error::{InsufficientBuffer, ParseError};
use crate::buffer::{put_all, Xmit};
use crate::common::Opcode;

verus! {

/// Opcode of Config Node Reset.
#[verifier::allow_in_spec]
pub fn config_node_reset() -> Opcode
    returns
        Opcode::TwoOctet(0x80, 0x49),
{
    Opcode::TwoOctet(0x80, 0x49)
}

/// Opcode of Config Node Reset Status.
#[verifier::allow_in_spec]
pub fn config_node_reset_status() -> Opcode
    returns
        Opcode::TwoOctet(0x80, 0x4A),
{
    Opcode::TwoOctet(0x80, 0x4A)
}

/// Node reset messages.
#[derive(Copy, Clone, Debug, PartialEq, Eq, Structural)]
pub enum NodeResetMessage {
    Reset,
    Status,
}

/// Decoding a message that carries no parameters.
pub open spec fn spec_parse_empty(p: Seq<u8>, m: NodeResetMessage) -> Result<NodeResetMessage, ParseError> {
    if p.len() == 0 {
        Ok(m)
    } else {
        Err(ParseError::InvalidLength)
    }
}

impl NodeResetMessage {
    /// Decodes a Node Reset: no parameters.
    pub fn parse_reset(parameters: &[u8]) -> (r: Result<NodeResetMessage, ParseError>)
        ensures
            r == spec_parse_empty(parameters@, NodeResetMessage::Reset),
    {
        if parameters.len() == 0 {
            Ok(NodeResetMessage::Reset)
        } else {
            Err(ParseError::InvalidLength)
        }
    }

    /// Decodes a Node Reset Status: no parameters.
    pub fn parse_status(parameters: &[u8]) -> (r: Result<NodeResetMessage, ParseError>)
        ensures
            r == spec_parse_empty(parameters@, NodeResetMessage::Status),
    {
        if parameters.len() == 0 {
            Ok(NodeResetMessage::Status)
        } else {
            Err(ParseError::InvalidLength)
        }
    }

    pub open spec fn spec_opcode(&self) -> Opcode {
        match *self {
            NodeResetMessage::Reset => config_node_reset(),
            NodeResetMessage::Status => config_node_reset_status(),
        }
    }

    /// The opcode of the message.
    pub fn opcode(&self) -> (r: Opcode)
        ensures
            r == self.spec_opcode(),
    {
        match self {
            NodeResetMessage::Reset => config_node_reset(),
            NodeResetMessage::Status => config_node_reset_status(),
        }
    }

    /// Writes the parameters: there are none.
    pub fn emit_parameters(&self, xmit: &mut Xmit) -> (r: Result<(), InsufficientBuffer>)
        requires
            old(xmit).wf(),
        ensures
            final(xmit).wf(),
            final(xmit).cap() == old(xmit).cap(),
            final(xmit)@ == old(xmit)@,
            r is Ok,
            (final(xmit)@, r is Ok) == put_all(old(xmit)@, old(xmit).cap(), seq![]),
    {
        Ok(())
    }
}

} // verus!
