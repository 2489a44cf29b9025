//! The Config Beacon messages.

use vstd::prelude::*;
use crate::error::{InsufficientBuffer, ParseError};
use crate::buffer::{put_all, Xmit};
use crate::common::Opcode;

verus! {

/// Opcode of Config Beacon Get.
#[verifier::allow_in_spec]
pub fn config_beacon_get() -> Opcode
    returns
        Opcode::TwoOctet(0x80, 0x09),
{
    Opcode::TwoOctet(0x80, 0x09)
}

/// Opcode of Config Beacon Set.
#[verifier::allow_in_spec]
pub fn config_beacon_set() -> Opcode
    returns
        Opcode::TwoOctet(0x80, 0x0A),
{
    Opcode::TwoOctet(0x80, 0x0A)
}

/// Opcode of Config Beacon Status.
#[verifier::allow_in_spec]
pub fn config_beacon_status() -> Opcode
    returns
        Opcode::TwoOctet(0x80, 0x0B),
{
    Opcode::TwoOctet(0x80, 0x0B)
}

/// Secure network beacon state messages.
#[derive(Copy, Clone, Debug, PartialEq, Eq, Structural)]
pub enum BeaconMessage {
    Get,
    SetState(bool),
    Status(bool),
}

/// Decoding a Beacon Get: no parameters.
pub open spec fn spec_parse_beacon_get(p: Seq<u8>) -> Result<BeaconMessage, ParseError> {
    if p.len() == 0 {
        Ok(BeaconMessage::Get)
    } else {
        Err(ParseError::InvalidLength)
    }
}

/// Decoding a Beacon Set: one byte, 0 or 1.
pub open spec fn spec_parse_beacon_set(p: Seq<u8>) -> Result<BeaconMessage, ParseError> {
    if p.len() == 1 {
        if p[0] == 0 {
            Ok(BeaconMessage::SetState(false))
        } else if p[0] == 1 {
            Ok(BeaconMessage::SetState(true))
        } else {
            Err(ParseError::InvalidValue)
        }
    } else {
        Err(ParseError::InvalidLength)
    }
}

impl BeaconMessage {
    /// The opcode of the message.
    pub fn opcode(&self) -> (r: Opcode)
        ensures
            r == self.spec_opcode(),
    {
        match self {
            BeaconMessage::Get => config_beacon_get(),
            BeaconMessage::SetState(_) => config_beacon_set(),
            BeaconMessage::Status(_) => config_beacon_status(),
        }
    }

    pub open spec fn spec_opcode(&self) -> Opcode {
        match self {
            BeaconMessage::Get => config_beacon_get(),
            BeaconMessage::SetState(_) => config_beacon_set(),
            BeaconMessage::Status(_) => config_beacon_status(),
        }
    }

    /// The chunks of the parameters: nothing for Get, one 0/1 byte otherwise.
    pub open spec fn spec_chunks(&self) -> Seq<Seq<u8>> {
        match *self {
            BeaconMessage::Get => seq![],
            BeaconMessage::SetState(v) => seq![seq![if v { 1u8 } else { 0u8 }]],
            BeaconMessage::Status(v) => seq![seq![if v { 1u8 } else { 0u8 }]],
        }
    }

    /// Writes the parameters.
    pub fn emit_parameters(&self, xmit: &mut Xmit) -> (r: Result<(), InsufficientBuffer>)
        requires
            old(xmit).wf(),
        ensures
            final(xmit).wf(),
            final(xmit).cap() == old(xmit).cap(),
            (final(xmit)@, r is Ok) == put_all(old(xmit)@, old(xmit).cap(), self.spec_chunks()),
    {
        match self {
            BeaconMessage::Get => {},
            BeaconMessage::SetState(val) => {
                xmit.push(if *val { 1 } else { 0 })?;
            },
            BeaconMessage::Status(val) => {
                xmit.push(if *val { 1 } else { 0 })?;
            },
        }
        Ok(())
    }

    /// Decodes a Beacon Get.
    pub fn parse_get(parameters: &[u8]) -> (r: Result<BeaconMessage, ParseError>)
        ensures
            r == spec_parse_beacon_get(parameters@),
    {
        if parameters.len() == 0 {
            Ok(BeaconMessage::Get)
        } else {
            Err(ParseError::InvalidLength)
        }
    }

    /// Decodes a Beacon Set.
    pub fn parse_set(parameters: &[u8]) -> (r: Result<BeaconMessage, ParseError>)
        ensures
            r == spec_parse_beacon_set(parameters@),
    {
        if parameters.len() == 1 {
            if parameters[0] == 0x00 {
                Ok(BeaconMessage::SetState(false))
            } else if parameters[0] == 0x01 {
                Ok(BeaconMessage::SetState(true))
            } else {
                Err(ParseError::InvalidValue)
            }
        } else {
            Err(ParseError::InvalidLength)
        }
    }
}

} // verus!
