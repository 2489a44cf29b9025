//! The Config Network Transmit messages.

use vstd::prelude::*;
use crate::error::{InsufficientBuffer, ParseError};
use crate::buffer::{put_all, Xmit};
use crate::common::Opcode;

verus! {

/// Opcode of Config Network Transmit Get.
#[verifier::allow_in_spec]
pub fn config_network_transmit_get() -> Opcode
    returns
        Opcode::TwoOctet(0x80, 0x23),
{
    Opcode::TwoOctet(0x80, 0x23)
}

/// Opcode of Config Network Transmit Set.
#[verifier::allow_in_spec]
pub fn config_network_transmit_set() -> Opcode
    returns
        Opcode::TwoOctet(0x80, 0x24),
{
    Opcode::TwoOctet(0x80, 0x24)
}

/// Opcode of Config Network Transmit Status.
#[verifier::allow_in_spec]
pub fn config_network_transmit_status() -> Opcode
    returns
        Opcode::TwoOctet(0x80, 0x25),
{
    Opcode::TwoOctet(0x80, 0x25)
}

/// The number and spacing of transmissions of network PDUs originating from
/// the node: a 3-bit transmission count and a 5-bit number of 10 ms interval
/// steps.
#[derive(Copy, Clone, Debug, PartialEq, Eq, Structural, Hash)]
pub struct NetworkTransmitConfig {
    pub network_retransmit_count: u8,
    pub network_retransmit_interval_steps: u8,
}

/// Decoding a network transmit configuration from its byte: the count in the
/// upper three bits, the interval steps in the lower five.
pub open spec fn spec_parse_network_transmit(p: Seq<u8>) -> Result<NetworkTransmitConfig, ParseError> {
    if p.len() < 1 {
        Err(ParseError::InvalidLength)
    } else {
        Ok(NetworkTransmitConfig {
            network_retransmit_count: p[0] >> 5u8,
            network_retransmit_interval_steps: p[0] & 0x1F,
        })
    }
}

/// The byte of a network transmit configuration: the count's three low bits
/// above the interval steps' five low bits.
pub open spec fn network_transmit_byte(count: u8, steps: u8) -> u8 {
    ((count & 0x07) << 5u8) | (steps & 0x1F)
}

/// Reading back the byte written for a configuration whose count fits in
/// three bits and whose steps fit in five gives it back.
pub proof fn lemma_network_transmit_roundtrip(c: NetworkTransmitConfig)
    requires
        c.network_retransmit_count < 8,
        c.network_retransmit_interval_steps < 32,
    ensures
        spec_parse_network_transmit(crate::buffer::flatten(c.spec_chunks())) == Ok::<NetworkTransmitConfig, ParseError>(c),
{
    let n = c.network_retransmit_count;
    let s = c.network_retransmit_interval_steps;
    let b = network_transmit_byte(n, s);
    crate::buffer::lemma_flatten_one(seq![b]);
    assert((((n & 0x07) << 5u8) | (s & 0x1F)) >> 5u8 == n && (((n & 0x07) << 5u8) | (s & 0x1F)) & 0x1F == s) by (bit_vector)
        requires
            n < 8,
            s < 32,
    ;
}

impl NetworkTransmitConfig {
    /// Two transmissions, ten interval steps.
    pub fn default() -> (r: NetworkTransmitConfig)
        ensures
            r == (NetworkTransmitConfig { network_retransmit_count: 2, network_retransmit_interval_steps: 10 }),
    {
        NetworkTransmitConfig { network_retransmit_count: 2, network_retransmit_interval_steps: 10 }
    }

    /// Decodes a network transmit configuration from its byte.
    pub fn parse(parameters: &[u8]) -> (r: Result<NetworkTransmitConfig, ParseError>)
        ensures
            r == spec_parse_network_transmit(parameters@),
    {
        if parameters.len() < 1 {
            Err(ParseError::InvalidLength)
        } else {
            Ok(NetworkTransmitConfig {
                network_retransmit_count: parameters[0] >> 5u8,
                network_retransmit_interval_steps: parameters[0] & 0x1F,
            })
        }
    }

    pub open spec fn spec_chunks(&self) -> Seq<Seq<u8>> {
        seq![seq![network_transmit_byte(self.network_retransmit_count, self.network_retransmit_interval_steps)]]
    }

    /// Writes the configuration byte.
    pub fn emit(&self, xmit: &mut Xmit) -> (r: Result<(), InsufficientBuffer>)
        requires
            old(xmit).wf(),
        ensures
            final(xmit).wf(),
            final(xmit).cap() == old(xmit).cap(),
            (final(xmit)@, r is Ok) == put_all(old(xmit)@, old(xmit).cap(), self.spec_chunks()),
    {
        xmit.push(((self.network_retransmit_count & 0x07) << 5u8) | (self.network_retransmit_interval_steps & 0x1F))
    }
}

/// Network transmit state messages.
#[derive(Copy, Clone, Debug, PartialEq, Eq, Structural)]
pub enum NetworkTransmitMessage {
    Get,
    SetState(NetworkTransmitConfig),
    Status(NetworkTransmitConfig),
}

/// Decoding a Network Transmit Set.
pub open spec fn spec_parse_network_transmit_set(p: Seq<u8>) -> Result<NetworkTransmitMessage, ParseError> {
    match spec_parse_network_transmit(p) {
        Ok(c) => Ok(NetworkTransmitMessage::SetState(c)),
        Err(e) => Err(e),
    }
}

/// Decoding a Network Transmit Status.
pub open spec fn spec_parse_network_transmit_status(p: Seq<u8>) -> Result<NetworkTransmitMessage, ParseError> {
    match spec_parse_network_transmit(p) {
        Ok(c) => Ok(NetworkTransmitMessage::Status(c)),
        Err(e) => Err(e),
    }
}

impl NetworkTransmitMessage {
    pub open spec fn spec_opcode(&self) -> Opcode {
        match *self {
            NetworkTransmitMessage::Get => config_network_transmit_get(),
            NetworkTransmitMessage::SetState(_) => config_network_transmit_set(),
            NetworkTransmitMessage::Status(_) => config_network_transmit_status(),
        }
    }

    /// The opcode of the message.
    pub fn opcode(&self) -> (r: Opcode)
        ensures
            r == self.spec_opcode(),
    {
        match self {
            NetworkTransmitMessage::Get => config_network_transmit_get(),
            NetworkTransmitMessage::SetState(_) => config_network_transmit_set(),
            NetworkTransmitMessage::Status(_) => config_network_transmit_status(),
        }
    }

    pub open spec fn spec_chunks(&self) -> Seq<Seq<u8>> {
        match *self {
            NetworkTransmitMessage::Get => seq![],
            NetworkTransmitMessage::SetState(c) => c.spec_chunks(),
            NetworkTransmitMessage::Status(c) => c.spec_chunks(),
        }
    }

    /// Writes the parameters.
    pub fn emit_parameters(&self, xmit: &mut Xmit) -> (r: Result<(), InsufficientBuffer>)
        requires
            old(xmit).wf(),
        ensures
            final(xmit).wf(),
            final(xmit).cap() == old(xmit).cap(),
            (final(xmit)@, r is Ok) == put_all(old(xmit)@, old(xmit).cap(), self.spec_chunks()),
    {
        match self {
            NetworkTransmitMessage::Get => {},
            NetworkTransmitMessage::SetState(inner) => inner.emit(xmit)?,
            NetworkTransmitMessage::Status(inner) => inner.emit(xmit)?,
        }
        Ok(())
    }

    /// Decodes a Network Transmit Get: no parameters.
    pub fn parse_get(parameters: &[u8]) -> (r: Result<NetworkTransmitMessage, ParseError>)
        ensures
            parameters@.len() == 0 ==> r == Ok::<NetworkTransmitMessage, ParseError>(NetworkTransmitMessage::Get),
            parameters@.len() != 0 ==> r == Err::<NetworkTransmitMessage, ParseError>(ParseError::InvalidLength),
    {
        if parameters.len() == 0 {
            Ok(NetworkTransmitMessage::Get)
        } else {
            Err(ParseError::InvalidLength)
        }
    }

    /// Decodes a Network Transmit Set.
    pub fn parse_set(parameters: &[u8]) -> (r: Result<NetworkTransmitMessage, ParseError>)
        ensures
            r == spec_parse_network_transmit_set(parameters@),
    {
        Ok(NetworkTransmitMessage::SetState(NetworkTransmitConfig::parse(parameters)?))
    }

    /// Decodes a Network Transmit Status.
    pub fn parse_status(parameters: &[u8]) -> (r: Result<NetworkTransmitMessage, ParseError>)
        ensures
            r == spec_parse_network_transmit_status(parameters@),
    {
        Ok(NetworkTransmitMessage::Status(NetworkTransmitConfig::parse(parameters)?))
    }
}

} // verus!
