//! The Generic Battery model.

use vstd::prelude::*;
use crate::error::{InsufficientBuffer, ParseError};
use crate::buffer::{put_all, flatten, Xmit, lemma_put_all_fits};
use crate::chunks::{views, no_chunks, push_chunk, byte_chunk};
use crate::common::{Opcode, ModelIdentifier};

verus! {

/// The model identifier of the generic battery server.
#[verifier::allow_in_spec]
pub fn generic_battery_server() -> ModelIdentifier
    returns
        ModelIdentifier::SIG(0x100C),
{
    ModelIdentifier::SIG(0x100C)
}

/// The model identifier of the generic battery client.
#[verifier::allow_in_spec]
pub fn generic_battery_client() -> ModelIdentifier
    returns
        ModelIdentifier::SIG(0x100D),
{
    ModelIdentifier::SIG(0x100D)
}

/// Opcode of Generic Battery Get.
#[verifier::allow_in_spec]
pub fn generic_battery_get() -> Opcode
    returns
        Opcode::TwoOctet(0x82, 0x23),
{
    Opcode::TwoOctet(0x82, 0x23)
}

/// Opcode of Generic Battery Status.
#[verifier::allow_in_spec]
pub fn generic_battery_status() -> Opcode
    returns
        Opcode::TwoOctet(0x82, 0x24),
{
    Opcode::TwoOctet(0x82, 0x24)
}

/// Whether a battery is present.
#[derive(Copy, Clone, Debug, PartialEq, Eq, Structural)]
pub enum GenericBatteryFlagsPresence {
    NotPresent,
    PresentRemovable,
    PresentNotRemovable,
    Unknown,
}

/// The charge level of a battery.
#[derive(Copy, Clone, Debug, PartialEq, Eq, Structural)]
pub enum GenericBatteryFlagsIndicator {
    LowCritical,
    Low,
    Good,
    Unknown,
}

/// Whether a battery is charging.
#[derive(Copy, Clone, Debug, PartialEq, Eq, Structural)]
pub enum GenericBatteryFlagsCharging {
    NotChargeable,
    ChargeableNotCharging,
    ChargeableCharging,
    Unknown,
}

pub open spec fn presence_code(p: GenericBatteryFlagsPresence) -> u8 {
    match p {
        GenericBatteryFlagsPresence::NotPresent => 0,
        GenericBatteryFlagsPresence::PresentRemovable => 1,
        GenericBatteryFlagsPresence::PresentNotRemovable => 2,
        GenericBatteryFlagsPresence::Unknown => 3,
    }
}

pub open spec fn presence_of(c: u8) -> GenericBatteryFlagsPresence {
    if c == 0 {
        GenericBatteryFlagsPresence::NotPresent
    } else if c == 1 {
        GenericBatteryFlagsPresence::PresentRemovable
    } else if c == 2 {
        GenericBatteryFlagsPresence::PresentNotRemovable
    } else {
        GenericBatteryFlagsPresence::Unknown
    }
}

pub open spec fn indicator_code(i: GenericBatteryFlagsIndicator) -> u8 {
    match i {
        GenericBatteryFlagsIndicator::LowCritical => 0,
        GenericBatteryFlagsIndicator::Low => 1,
        GenericBatteryFlagsIndicator::Good => 2,
        GenericBatteryFlagsIndicator::Unknown => 3,
    }
}

pub open spec fn indicator_of(c: u8) -> GenericBatteryFlagsIndicator {
    if c == 0 {
        GenericBatteryFlagsIndicator::LowCritical
    } else if c == 1 {
        GenericBatteryFlagsIndicator::Low
    } else if c == 2 {
        GenericBatteryFlagsIndicator::Good
    } else {
        GenericBatteryFlagsIndicator::Unknown
    }
}

pub open spec fn charging_code(c: GenericBatteryFlagsCharging) -> u8 {
    match c {
        GenericBatteryFlagsCharging::NotChargeable => 0,
        GenericBatteryFlagsCharging::ChargeableNotCharging => 1,
        GenericBatteryFlagsCharging::ChargeableCharging => 2,
        GenericBatteryFlagsCharging::Unknown => 3,
    }
}

pub open spec fn charging_of(c: u8) -> GenericBatteryFlagsCharging {
    if c == 0 {
        GenericBatteryFlagsCharging::NotChargeable
    } else if c == 1 {
        GenericBatteryFlagsCharging::ChargeableNotCharging
    } else if c == 2 {
        GenericBatteryFlagsCharging::ChargeableCharging
    } else {
        GenericBatteryFlagsCharging::Unknown
    }
}

/// The battery flags: three two-bit fields.
#[derive(Copy, Clone, Debug, PartialEq, Eq, Structural)]
pub struct GenericBatteryFlags {
    pub presence: GenericBatteryFlagsPresence,
    pub indicator: GenericBatteryFlagsIndicator,
    pub charging: GenericBatteryFlagsCharging,
}

/// The flags byte: presence in bits 4 and 5, indicator in bits 2 and 3,
/// charging in bits 0 and 1.
pub open spec fn flags_byte(f: GenericBatteryFlags) -> u8 {
    (presence_code(f.presence) * 16 + indicator_code(f.indicator) * 4 + charging_code(f.charging)) as u8
}

/// Reading the flags byte; bits 6 and 7 are ignored.
pub open spec fn flags_of(v: u8) -> GenericBatteryFlags {
    GenericBatteryFlags {
        presence: presence_of(((v / 16) % 4) as u8),
        indicator: indicator_of(((v / 4) % 4) as u8),
        charging: charging_of(v % 4),
    }
}

impl GenericBatteryFlags {
    /// The flags byte.
    pub fn byte(&self) -> (r: u8)
        ensures
            r == flags_byte(*self),
    {
        let p: u8 = match self.presence {
            GenericBatteryFlagsPresence::NotPresent => 0b00,
            GenericBatteryFlagsPresence::PresentRemovable => 0b01,
            GenericBatteryFlagsPresence::PresentNotRemovable => 0b10,
            GenericBatteryFlagsPresence::Unknown => 0b11,
        };
        let i: u8 = match self.indicator {
            GenericBatteryFlagsIndicator::LowCritical => 0b00,
            GenericBatteryFlagsIndicator::Low => 0b01,
            GenericBatteryFlagsIndicator::Good => 0b10,
            GenericBatteryFlagsIndicator::Unknown => 0b11,
        };
        let c: u8 = match self.charging {
            GenericBatteryFlagsCharging::NotChargeable => 0b00,
            GenericBatteryFlagsCharging::ChargeableNotCharging => 0b01,
            GenericBatteryFlagsCharging::ChargeableCharging => 0b10,
            GenericBatteryFlagsCharging::Unknown => 0b11,
        };
        p * 16 + i * 4 + c
    }

    /// Writes the flags byte.
    pub fn emit_parameters(&self, xmit: &mut Xmit) -> (r: Result<(), InsufficientBuffer>)
        requires
            old(xmit).wf(),
        ensures
            final(xmit).wf(),
            final(xmit).cap() == old(xmit).cap(),
            (final(xmit)@, r is Ok) == put_all(old(xmit)@, old(xmit).cap(), seq![seq![flags_byte(*self)]]),
    {
        xmit.push(self.byte())
    }

    /// Reads the flags from a byte.
    pub fn parse(v: u8) -> (r: GenericBatteryFlags)
        ensures
            r == flags_of(v),
    {
        let charging = match v % 4 {
            0 => GenericBatteryFlagsCharging::NotChargeable,
            1 => GenericBatteryFlagsCharging::ChargeableNotCharging,
            2 => GenericBatteryFlagsCharging::ChargeableCharging,
            _ => GenericBatteryFlagsCharging::Unknown,
        };
        let indicator = match (v / 4) % 4 {
            0 => GenericBatteryFlagsIndicator::LowCritical,
            1 => GenericBatteryFlagsIndicator::Low,
            2 => GenericBatteryFlagsIndicator::Good,
            _ => GenericBatteryFlagsIndicator::Unknown,
        };
        let presence = match (v / 16) % 4 {
            0 => GenericBatteryFlagsPresence::NotPresent,
            1 => GenericBatteryFlagsPresence::PresentRemovable,
            2 => GenericBatteryFlagsPresence::PresentNotRemovable,
            _ => GenericBatteryFlagsPresence::Unknown,
        };
        GenericBatteryFlags { charging, indicator, presence }
    }
}

/// The low three bytes of a 32-bit value, most significant first.
pub open spec fn be24_bytes(v: u32) -> Seq<u8> {
    seq![((v / 0x10000) % 0x100) as u8, ((v / 0x100) % 0x100) as u8, (v % 0x100) as u8]
}

/// The value of three big-endian bytes.
pub open spec fn be24(b0: u8, b1: u8, b2: u8) -> u32 {
    (b0 as nat * 0x10000 + b1 as nat * 0x100 + b2 as nat) as u32
}

/// The battery state of an element.
#[derive(Copy, Clone, Debug, PartialEq, Eq, Structural)]
pub struct GenericBatteryStatus {
    pub battery_level: u8,
    pub time_to_discharge: u32,
    pub time_to_charge: u32,
    pub flags: GenericBatteryFlags,
}

/// Decoding a Battery Status: the level, two three-byte big-endian times,
/// then the flags byte.
pub open spec fn spec_parse_battery_status(p: Seq<u8>) -> Result<GenericBatteryStatus, ParseError> {
    if p.len() >= 8 {
        Ok(
            GenericBatteryStatus {
                battery_level: p[0],
                time_to_discharge: be24(p[1], p[2], p[3]),
                time_to_charge: be24(p[4], p[5], p[6]),
                flags: flags_of(p[7]),
            },
        )
    } else {
        Err(ParseError::InvalidLength)
    }
}

/// The low three bytes of `v`, most significant first, as a chunk.
fn be24_chunk(v: u32) -> (r: Vec<u8>)
    ensures
        r@ == be24_bytes(v),
{
    let mut c = Vec::new();
    c.push(((v / 0x10000) % 0x100) as u8);
    c.push(((v / 0x100) % 0x100) as u8);
    c.push((v % 0x100) as u8);
    assert(c@ =~= be24_bytes(v));
    c
}

impl GenericBatteryStatus {
    /// A battery status.
    pub fn new(
        battery_level: u8,
        time_to_discharge: u32,
        time_to_charge: u32,
        flags: GenericBatteryFlags,
    ) -> (r: GenericBatteryStatus)
        ensures
            r == (GenericBatteryStatus { battery_level, time_to_discharge, time_to_charge, flags }),
    {
        GenericBatteryStatus { battery_level, time_to_discharge, time_to_charge, flags }
    }

    /// The chunks of the parameters: the level, each time's low three bytes
    /// (written at once), then the flags byte.
    pub open spec fn spec_chunks(&self) -> Seq<Seq<u8>> {
        seq![
            seq![self.battery_level],
            be24_bytes(self.time_to_discharge),
            be24_bytes(self.time_to_charge),
            seq![flags_byte(self.flags)],
        ]
    }

    /// Writes the parameters.
    pub fn emit_parameters(&self, xmit: &mut Xmit) -> (r: Result<(), InsufficientBuffer>)
        requires
            old(xmit).wf(),
        ensures
            final(xmit).wf(),
            final(xmit).cap() == old(xmit).cap(),
            (final(xmit)@, r is Ok) == put_all(old(xmit)@, old(xmit).cap(), self.spec_chunks()),
    {
        let mut c = no_chunks();
        push_chunk(&mut c, byte_chunk(self.battery_level));
        push_chunk(&mut c, be24_chunk(self.time_to_discharge));
        push_chunk(&mut c, be24_chunk(self.time_to_charge));
        push_chunk(&mut c, byte_chunk(self.flags.byte()));
        assert(views(c@) =~= self.spec_chunks());
        xmit.put_chunks(&c)
    }

    /// Decodes a Battery Status.
    pub fn parse(parameters: &[u8]) -> (r: Result<GenericBatteryStatus, ParseError>)
        ensures
            r == spec_parse_battery_status(parameters@),
    {
        if parameters.len() >= 8 {
            let battery_level = parameters[0];
            let time_to_discharge = (parameters[1] as u32) * 0x10000 + (parameters[2] as u32) * 0x100
                + parameters[3] as u32;
            let time_to_charge = (parameters[4] as u32) * 0x10000 + (parameters[5] as u32) * 0x100
                + parameters[6] as u32;
            let flags = GenericBatteryFlags::parse(parameters[7]);
            Ok(GenericBatteryStatus { battery_level, time_to_discharge, time_to_charge, flags })
        } else {
            Err(ParseError::InvalidLength)
        }
    }
}

/// Generic battery messages.
#[derive(Copy, Clone, Debug, PartialEq, Eq, Structural)]
pub enum GenericBatteryMessage {
    Get,
    Status(GenericBatteryStatus),
}

impl GenericBatteryMessage {
    pub open spec fn spec_opcode(&self) -> Opcode {
        match *self {
            GenericBatteryMessage::Get => generic_battery_get(),
            GenericBatteryMessage::Status(_) => generic_battery_status(),
        }
    }

    /// The opcode of the message.
    pub fn opcode(&self) -> (r: Opcode)
        ensures
            r == self.spec_opcode(),
    {
        match self {
            GenericBatteryMessage::Get => generic_battery_get(),
            GenericBatteryMessage::Status(_) => generic_battery_status(),
        }
    }

    pub open spec fn spec_chunks(&self) -> Seq<Seq<u8>> {
        match *self {
            GenericBatteryMessage::Get => seq![],
            GenericBatteryMessage::Status(m) => m.spec_chunks(),
        }
    }

    /// Writes the parameters.
    pub fn emit_parameters(&self, xmit: &mut Xmit) -> (r: Result<(), InsufficientBuffer>)
        requires
            old(xmit).wf(),
        ensures
            final(xmit).wf(),
            final(xmit).cap() == old(xmit).cap(),
            (final(xmit)@, r is Ok) == put_all(old(xmit)@, old(xmit).cap(), self.spec_chunks()),
    {
        match self {
            GenericBatteryMessage::Get => Ok(()),
            GenericBatteryMessage::Status(inner) => inner.emit_parameters(xmit),
        }
    }
}

/// The generic battery client model.
#[derive(Copy, Clone, Debug, PartialEq, Eq, Structural)]
pub struct GenericBatteryClient;

impl GenericBatteryClient {
    /// The model identifier.
    pub fn identifier() -> (r: ModelIdentifier)
        ensures
            r == generic_battery_client(),
    {
        generic_battery_client()
    }

    /// Decodes a Battery Status; other opcodes give nothing.
    pub fn parse(opcode: &Opcode, parameters: &[u8]) -> (r: Result<Option<GenericBatteryMessage>, ParseError>)
        ensures
            *opcode == generic_battery_status() ==> r == (match spec_parse_battery_status(parameters@) {
                Ok(m) => Ok(Some(GenericBatteryMessage::Status(m))),
                Err(e) => Err(e),
            }),
            *opcode != generic_battery_status() ==> r == Ok::<Option<GenericBatteryMessage>, ParseError>(None),
    {
        if *opcode == generic_battery_status() {
            Ok(Some(GenericBatteryMessage::Status(GenericBatteryStatus::parse(parameters)?)))
        } else {
            Ok(None)
        }
    }
}

/// The generic battery server model.
#[derive(Copy, Clone, Debug, PartialEq, Eq, Structural)]
pub struct GenericBatteryServer;

impl GenericBatteryServer {
    /// The model identifier.
    pub fn identifier() -> (r: ModelIdentifier)
        ensures
            r == generic_battery_server(),
    {
        generic_battery_server()
    }

    /// Decodes a Battery Get, whatever its parameters; other opcodes give nothing.
    pub fn parse(opcode: &Opcode, parameters: &[u8]) -> (r: Result<Option<GenericBatteryMessage>, ParseError>)
        ensures
            *opcode == generic_battery_get() ==> r == Ok::<Option<GenericBatteryMessage>, ParseError>(
                Some(GenericBatteryMessage::Get),
            ),
            *opcode != generic_battery_get() ==> r == Ok::<Option<GenericBatteryMessage>, ParseError>(None),
    {
        if *opcode == generic_battery_get() {
            Ok(Some(GenericBatteryMessage::Get))
        } else {
            Ok(None)
        }
    }
}

/// A Battery Status written into a buffer with room for it reads back as the
/// same status, provided both times fit in three bytes (their high byte is
/// not written).
pub proof fn lemma_battery_status_roundtrip(m: GenericBatteryStatus, cap: nat)
    requires
        m.time_to_discharge < 0x1000000,
        m.time_to_charge < 0x1000000,
        cap >= 8,
    ensures
        flatten(m.spec_chunks()).len() == 8,
        put_all(Seq::empty(), cap, m.spec_chunks()) == (flatten(m.spec_chunks()), true),
        spec_parse_battery_status(flatten(m.spec_chunks())) == Ok::<GenericBatteryStatus, ParseError>(m),
{
    reveal_with_fuel(flatten, 5);
    let d = be24_bytes(m.time_to_discharge);
    let c = be24_bytes(m.time_to_charge);
    let b = flatten(m.spec_chunks());
    assert(b =~= seq![m.battery_level, d[0], d[1], d[2], c[0], c[1], c[2], flags_byte(m.flags)]);
    lemma_put_all_fits(Seq::empty(), cap, m.spec_chunks());
    assert(Seq::<u8>::empty() + b =~= b);
    let t = m.time_to_discharge;
    assert(be24(((t / 0x10000) % 0x100) as u8, ((t / 0x100) % 0x100) as u8, (t % 0x100) as u8) == t);
    let t = m.time_to_charge;
    assert(be24(((t / 0x10000) % 0x100) as u8, ((t / 0x100) % 0x100) as u8, (t % 0x100) as u8) == t);
    assert(flags_of(flags_byte(m.flags)) == m.flags);
}

} // verus!
