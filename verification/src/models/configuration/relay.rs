//! The Config Relay messages.

use vstd::prelude::*;
use crate::error::{InsufficientBuffer, ParseError};
use crate::buffer::{put_all, Xmit};
use crate::common::Opcode;

verus! {

/// Opcode of Config Relay Get.
#[verifier::allow_in_spec]
pub fn config_relay_get() -> Opcode
    returns
        Opcode::TwoOctet(0x80, 0x26),
{
    Opcode::TwoOctet(0x80, 0x26)
}

/// Opcode of Config Relay Set.
#[verifier::allow_in_spec]
pub fn config_relay_set() -> Opcode
    returns
        Opcode::TwoOctet(0x80, 0x27),
{
    Opcode::TwoOctet(0x80, 0x27)
}

/// Opcode of Config Relay Status.
#[verifier::allow_in_spec]
pub fn config_relay_status() -> Opcode
    returns
        Opcode::TwoOctet(0x80, 0x28),
{
    Opcode::TwoOctet(0x80, 0x28)
}

/// The relay feature state.
#[derive(Copy, Clone, Debug, PartialEq, Eq, Structural, Hash)]
pub enum Relay {
    SupportedDisabled,
    SupportedEnabled,
    NotSupported,
}

/// The wire code of a relay state.
pub open spec fn relay_code(r: Relay) -> u8 {
    match r {
        Relay::SupportedDisabled => 0x00,
        Relay::SupportedEnabled => 0x01,
        Relay::NotSupported => 0x02,
    }
}

/// Decoding a relay state: codes 0, 1 and 2.
pub open spec fn spec_parse_relay(v: u8) -> Result<Relay, ParseError> {
    if v == 0 {
        Ok(Relay::SupportedDisabled)
    } else if v == 1 {
        Ok(Relay::SupportedEnabled)
    } else if v == 2 {
        Ok(Relay::NotSupported)
    } else {
        Err(ParseError::InvalidValue)
    }
}

impl Relay {
    /// Decodes a relay state.
    pub fn parse(data: u8) -> (r: Result<Relay, ParseError>)
        ensures
            r == spec_parse_relay(data),
    {
        match data {
            0x00 => Ok(Relay::SupportedDisabled),
            0x01 => Ok(Relay::SupportedEnabled),
            0x02 => Ok(Relay::NotSupported),
            _ => Err(ParseError::InvalidValue),
        }
    }

    /// The wire code.
    pub fn code(&self) -> (r: u8)
        ensures
            r == relay_code(*self),
    {
        match self {
            Relay::SupportedDisabled => 0x00,
            Relay::SupportedEnabled => 0x01,
            Relay::NotSupported => 0x02,
        }
    }

    /// Writes the relay state code.
    pub fn emit(&self, xmit: &mut Xmit) -> (r: Result<(), InsufficientBuffer>)
        requires
            old(xmit).wf(),
        ensures
            final(xmit).wf(),
            final(xmit).cap() == old(xmit).cap(),
            (final(xmit)@, r is Ok) == put_all(old(xmit)@, old(xmit).cap(), seq![seq![relay_code(*self)]]),
    {
        xmit.push(self.code())
    }
}

/// The relay state together with its retransmission parameters.
#[derive(Copy, Clone, Debug, PartialEq, Eq, Structural, Hash)]
pub struct RelayConfig {
    pub relay: Relay,
    pub relay_retransmit_count: u8,
    pub relay_retransmit_interval_steps: u8,
}

/// Decoding a relay configuration. At least two bytes are required; the relay
/// state, the count (low three bits) and the interval steps (low five bits) are
/// all read from the first byte.
pub open spec fn spec_parse_relay_config(p: Seq<u8>) -> Result<RelayConfig, ParseError> {
    if p.len() < 2 {
        Err(ParseError::InvalidLength)
    } else {
        match spec_parse_relay(p[0]) {
            Ok(relay) => Ok(RelayConfig {
                relay,
                relay_retransmit_count: p[0] & 0x07,
                relay_retransmit_interval_steps: p[0] & 0x1F,
            }),
            Err(e) => Err(e),
        }
    }
}

/// The byte carrying the retransmission parameters: the count masked with
/// `0b111 << 5` or'ed with the interval steps masked to five bits.
pub open spec fn retransmit_byte(count: u8, steps: u8) -> u8 {
    (count & 0xE0) | (steps & 0x1F)
}

impl RelayConfig {
    /// Relay enabled, one retransmission, 20 interval steps.
    pub fn default() -> (r: RelayConfig)
        ensures
            r == (RelayConfig {
                relay: Relay::SupportedEnabled,
                relay_retransmit_count: 1,
                relay_retransmit_interval_steps: 20,
            }),
    {
        RelayConfig { relay: Relay::SupportedEnabled, relay_retransmit_count: 1, relay_retransmit_interval_steps: 20 }
    }

    /// The configuration of a node without the relay feature.
    pub fn not_supported() -> (r: RelayConfig)
        ensures
            r == (RelayConfig {
                relay: Relay::NotSupported,
                relay_retransmit_count: 0,
                relay_retransmit_interval_steps: 0,
            }),
    {
        RelayConfig { relay: Relay::NotSupported, relay_retransmit_count: 0, relay_retransmit_interval_steps: 0 }
    }

    /// Decodes a relay configuration.
    pub fn parse(parameters: &[u8]) -> (r: Result<RelayConfig, ParseError>)
        ensures
            r == spec_parse_relay_config(parameters@),
    {
        if parameters.len() < 2 {
            Err(ParseError::InvalidLength)
        } else {
            let relay = Relay::parse(parameters[0])?;
            let relay_retransmit_count = parameters[0] & 0x07;
            let relay_retransmit_interval_steps = parameters[0] & 0x1F;
            Ok(RelayConfig { relay, relay_retransmit_count, relay_retransmit_interval_steps })
        }
    }

    /// The chunks of the configuration: the relay code, then the retransmit byte.
    pub open spec fn spec_chunks(&self) -> Seq<Seq<u8>> {
        seq![seq![relay_code(self.relay)], seq![retransmit_byte(self.relay_retransmit_count, self.relay_retransmit_interval_steps)]]
    }

    /// Writes the configuration.
    pub fn emit(&self, xmit: &mut Xmit) -> (r: Result<(), InsufficientBuffer>)
        requires
            old(xmit).wf(),
        ensures
            final(xmit).wf(),
            final(xmit).cap() == old(xmit).cap(),
            (final(xmit)@, r is Ok) == put_all(old(xmit)@, old(xmit).cap(), self.spec_chunks()),
    {
        let ghost start = xmit@;
        let ghost cap = xmit.cap();
        let r1 = self.relay.emit(xmit);
        let b = (self.relay_retransmit_count & 0xE0) | (self.relay_retransmit_interval_steps & 0x1F);
        proof {
            crate::buffer::lemma_put_all_one(start, cap, seq![relay_code(self.relay)]);
            let rest = self.spec_chunks().drop_first();
            assert(rest =~= seq![seq![b]]);
        }
        if r1.is_err() {
            return r1;
        }
        xmit.push(b)
    }

    /// The relay state.
    pub fn relay(&self) -> (r: Relay)
        ensures
            r == self.relay,
    {
        self.relay
    }

    /// The retransmission count.
    pub fn retransmit_count(&self) -> (r: u8)
        ensures
            r == self.relay_retransmit_count,
    {
        self.relay_retransmit_count
    }

    /// The retransmission interval steps.
    pub fn retransmit_interval_steps(&self) -> (r: u8)
        ensures
            r == self.relay_retransmit_interval_steps,
    {
        self.relay_retransmit_interval_steps
    }
}

/// Relay state messages.
#[derive(Copy, Clone, Debug, PartialEq, Eq, Structural)]
pub enum RelayMessage {
    Get,
    SetState(RelayConfig),
    Status(RelayConfig),
}

/// Decoding a Relay Get: no parameters.
pub open spec fn spec_parse_relay_get(p: Seq<u8>) -> Result<RelayMessage, ParseError> {
    if p.len() == 0 {
        Ok(RelayMessage::Get)
    } else {
        Err(ParseError::InvalidLength)
    }
}

/// Decoding a Relay Set or Relay Status: both decode into a Set message.
pub open spec fn spec_parse_relay_set(p: Seq<u8>) -> Result<RelayMessage, ParseError> {
    match spec_parse_relay_config(p) {
        Ok(c) => Ok(RelayMessage::SetState(c)),
        Err(e) => Err(e),
    }
}

impl RelayMessage {
    pub open spec fn spec_opcode(&self) -> Opcode {
        match *self {
            RelayMessage::Get => config_relay_get(),
            RelayMessage::SetState(_) => config_relay_set(),
            RelayMessage::Status(_) => config_relay_status(),
        }
    }

    /// The opcode of the message.
    pub fn opcode(&self) -> (r: Opcode)
        ensures
            r == self.spec_opcode(),
    {
        match self {
            RelayMessage::Get => config_relay_get(),
            RelayMessage::SetState(_) => config_relay_set(),
            RelayMessage::Status(_) => config_relay_status(),
        }
    }

    pub open spec fn spec_chunks(&self) -> Seq<Seq<u8>> {
        match *self {
            RelayMessage::Get => seq![],
            RelayMessage::SetState(c) => c.spec_chunks(),
            RelayMessage::Status(c) => c.spec_chunks(),
        }
    }

    /// Writes the parameters.
    pub fn emit_parameters(&self, xmit: &mut Xmit) -> (r: Result<(), InsufficientBuffer>)
        requires
            old(xmit).wf(),
        ensures
            final(xmit).wf(),
            final(xmit).cap() == old(xmit).cap(),
            (final(xmit)@, r is Ok) == put_all(old(xmit)@, old(xmit).cap(), self.spec_chunks()),
    {
        match self {
            RelayMessage::Get => {},
            RelayMessage::SetState(inner) => inner.emit(xmit)?,
            RelayMessage::Status(inner) => inner.emit(xmit)?,
        }
        Ok(())
    }

    /// Decodes a Relay Get.
    pub fn parse_get(parameters: &[u8]) -> (r: Result<RelayMessage, ParseError>)
        ensures
            r == spec_parse_relay_get(parameters@),
    {
        if parameters.len() == 0 {
            Ok(RelayMessage::Get)
        } else {
            Err(ParseError::InvalidLength)
        }
    }

    /// Decodes a Relay Set.
    pub fn parse_set(parameters: &[u8]) -> (r: Result<RelayMessage, ParseError>)
        ensures
            r == spec_parse_relay_set(parameters@),
    {
        Ok(RelayMessage::SetState(RelayConfig::parse(parameters)?))
    }

    /// Decodes a Relay Status, into a Set message.
    pub fn parse_status(parameters: &[u8]) -> (r: Result<RelayMessage, ParseError>)
        ensures
            r == spec_parse_relay_set(parameters@),
    {
        Ok(RelayMessage::SetState(RelayConfig::parse(parameters)?))
    }
}

} // verus!
