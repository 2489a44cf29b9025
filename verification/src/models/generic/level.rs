//! The Generic Level model.

use vstd::prelude::*;
use crate::error::{InsufficientBuffer, ParseError};
use crate::buffer::{put_all, flatten, Xmit, lemma_put_all_fits};
use crate::chunks::{views, no_chunks, push_chunk, byte_chunk, pair_chunk};
use crate::common::{Opcode, ModelIdentifier, le16, le_bytes, u16_from_le};
use crate::models::generic::onoff::{transition_chunks, optional_at, push_transition};

verus! {

/// The model identifier of the generic level server.
#[verifier::allow_in_spec]
pub fn generic_level_server() -> ModelIdentifier
    returns
        ModelIdentifier::SIG(0x1002),
{
    ModelIdentifier::SIG(0x1002)
}

/// The model identifier of the generic level client.
#[verifier::allow_in_spec]
pub fn generic_level_client() -> ModelIdentifier
    returns
        ModelIdentifier::SIG(0x1003),
{
    ModelIdentifier::SIG(0x1003)
}

/// Opcode of Generic Level Get.
#[verifier::allow_in_spec]
pub fn generic_level_get() -> Opcode
    returns
        Opcode::TwoOctet(0x82, 0x05),
{
    Opcode::TwoOctet(0x82, 0x05)
}

/// Opcode of Generic Level Set.
#[verifier::allow_in_spec]
pub fn generic_level_set() -> Opcode
    returns
        Opcode::TwoOctet(0x82, 0x06),
{
    Opcode::TwoOctet(0x82, 0x06)
}

/// Opcode of Generic Level Set Unacknowledged.
#[verifier::allow_in_spec]
pub fn generic_level_set_unacknowledged() -> Opcode
    returns
        Opcode::TwoOctet(0x82, 0x07),
{
    Opcode::TwoOctet(0x82, 0x07)
}

/// Opcode of Generic Level Status.
#[verifier::allow_in_spec]
pub fn generic_level_status() -> Opcode
    returns
        Opcode::TwoOctet(0x82, 0x08),
{
    Opcode::TwoOctet(0x82, 0x08)
}

/// Opcode of Generic Delta Set.
#[verifier::allow_in_spec]
pub fn generic_level_delta_set() -> Opcode
    returns
        Opcode::TwoOctet(0x82, 0x09),
{
    Opcode::TwoOctet(0x82, 0x09)
}

/// Opcode of Generic Delta Set Unacknowledged.
#[verifier::allow_in_spec]
pub fn generic_level_delta_set_unacknowledged() -> Opcode
    returns
        Opcode::TwoOctet(0x82, 0x0A),
{
    Opcode::TwoOctet(0x82, 0x0A)
}

/// Opcode of Generic Move Set.
#[verifier::allow_in_spec]
pub fn generic_level_move_set() -> Opcode
    returns
        Opcode::TwoOctet(0x82, 0x0B),
{
    Opcode::TwoOctet(0x82, 0x0B)
}

/// Opcode of Generic Move Set Unacknowledged.
#[verifier::allow_in_spec]
pub fn generic_level_move_set_unacknowledged() -> Opcode
    returns
        Opcode::TwoOctet(0x82, 0x0C),
{
    Opcode::TwoOctet(0x82, 0x0C)
}

/// The signed 16-bit value of two little-endian bytes (two's complement).
pub open spec fn i16_le(lo: u8, hi: u8) -> i16 {
    le16(lo, hi) as i16
}

/// The little-endian two's complement bytes of a signed 16-bit value.
pub open spec fn i16_le_bytes(v: i16) -> Seq<u8> {
    le_bytes(v as u16)
}

/// The unsigned value of four little-endian bytes.
pub open spec fn u32_le(b0: u8, b1: u8, b2: u8, b3: u8) -> u32 {
    (b0 as nat + b1 as nat * 0x100 + b2 as nat * 0x10000 + b3 as nat * 0x1000000) as u32
}

/// The signed 32-bit value of four little-endian bytes (two's complement).
pub open spec fn i32_le(b0: u8, b1: u8, b2: u8, b3: u8) -> i32 {
    u32_le(b0, b1, b2, b3) as i32
}

/// The little-endian bytes of an unsigned 32-bit value.
pub open spec fn u32_le_bytes(u: u32) -> Seq<u8> {
    seq![(u % 0x100) as u8, ((u / 0x100) % 0x100) as u8, ((u / 0x10000) % 0x100) as u8, (u / 0x1000000) as u8]
}

/// The little-endian two's complement bytes of a signed 32-bit value.
pub open spec fn i32_le_bytes(v: i32) -> Seq<u8> {
    u32_le_bytes(v as u32)
}

/// Reads a signed 16-bit value from two little-endian bytes.
pub fn i16_from_le(lo: u8, hi: u8) -> (r: i16)
    ensures
        r == i16_le(lo, hi),
{
    u16_from_le(lo, hi) as i16
}

/// The little-endian bytes of a signed 16-bit value, as a chunk.
pub fn i16_chunk(v: i16) -> (r: Vec<u8>)
    ensures
        r@ == i16_le_bytes(v),
{
    let u = v as u16;
    pair_chunk((u % 256) as u8, (u / 256) as u8)
}

/// The little-endian bytes of a signed 32-bit value, as a chunk.
pub fn i32_chunk(v: i32) -> (r: Vec<u8>)
    ensures
        r@ == i32_le_bytes(v),
{
    let u = v as u32;
    let mut c = Vec::new();
    c.push((u % 0x100) as u8);
    c.push(((u / 0x100) % 0x100) as u8);
    c.push(((u / 0x10000) % 0x100) as u8);
    c.push((u / 0x1000000) as u8);
    assert(c@ =~= i32_le_bytes(v));
    c
}

/// Reads a signed 32-bit value from four little-endian bytes.
pub fn i32_from_le(b0: u8, b1: u8, b2: u8, b3: u8) -> (r: i32)
    ensures
        r == i32_le(b0, b1, b2, b3),
{
    let u: u32 = (b0 as u32) + (b1 as u32) * 0x100 + (b2 as u32) * 0x10000 + (b3 as u32) * 0x1000000;
    u as i32
}

/// Decoding the bytes of a signed 16-bit value gives it back.
pub proof fn lemma_i16_roundtrip(v: i16)
    ensures
        i16_le(i16_le_bytes(v)[0], i16_le_bytes(v)[1]) == v,
{
    let u = v as u16;
    assert(le16((u % 256) as u8, (u / 256) as u8) == u);
    assert((v as u16) as i16 == v) by (bit_vector);
}

/// Decoding the bytes of a signed 32-bit value gives it back.
pub proof fn lemma_i32_roundtrip(v: i32)
    ensures
        i32_le(i32_le_bytes(v)[0], i32_le_bytes(v)[1], i32_le_bytes(v)[2], i32_le_bytes(v)[3]) == v,
{
    let u = v as u32;
    assert(u32_le((u % 0x100) as u8, ((u / 0x100) % 0x100) as u8, ((u / 0x10000) % 0x100) as u8, (u / 0x1000000) as u8) == u) by (nonlinear_arith);
    assert((v as u32) as i32 == v) by (bit_vector);
}

/// Sets the level.
#[derive(Copy, Clone, Debug, PartialEq, Eq, Structural)]
pub struct GenericLevelSet {
    pub level: i16,
    pub tid: u8,
    pub transition_time: Option<u8>,
    pub delay: Option<u8>,
}

/// Decoding a Level Set: the level, the transaction identifier, then an
/// optional transition time and an optional delay.
pub open spec fn spec_parse_level_set(p: Seq<u8>) -> Result<GenericLevelSet, ParseError> {
    if p.len() >= 3 {
        Ok(
            GenericLevelSet {
                level: i16_le(p[0], p[1]),
                tid: p[2],
                transition_time: optional_at(p, 3),
                delay: optional_at(p, 4),
            },
        )
    } else {
        Err(ParseError::InvalidLength)
    }
}

impl GenericLevelSet {
    pub open spec fn spec_chunks(&self) -> Seq<Seq<u8>> {
        seq![i16_le_bytes(self.level), seq![self.tid]] + transition_chunks(self.transition_time, self.delay)
    }

    /// Decodes a Level Set.
    pub fn parse(parameters: &[u8]) -> (r: Result<GenericLevelSet, ParseError>)
        ensures
            r == spec_parse_level_set(parameters@),
    {
        if parameters.len() >= 3 {
            let level = i16_from_le(parameters[0], parameters[1]);
            let tid = parameters[2];
            let transition_time = if parameters.len() >= 4 {
                Some(parameters[3])
            } else {
                None
            };
            let delay = if parameters.len() >= 5 {
                Some(parameters[4])
            } else {
                None
            };
            Ok(GenericLevelSet { level, tid, transition_time, delay })
        } else {
            Err(ParseError::InvalidLength)
        }
    }

    /// Writes the parameters.
    pub fn emit_parameters(&self, xmit: &mut Xmit) -> (r: Result<(), InsufficientBuffer>)
        requires
            old(xmit).wf(),
        ensures
            final(xmit).wf(),
            final(xmit).cap() == old(xmit).cap(),
            (final(xmit)@, r is Ok) == put_all(old(xmit)@, old(xmit).cap(), self.spec_chunks()),
    {
        let mut c = no_chunks();
        push_chunk(&mut c, i16_chunk(self.level));
        push_chunk(&mut c, byte_chunk(self.tid));
        push_transition(&mut c, self.transition_time, self.delay);
        assert(views(c@) =~= self.spec_chunks());
        xmit.put_chunks(&c)
    }
}

/// Changes the level by a delta.
#[derive(Copy, Clone, Debug, PartialEq, Eq, Structural)]
pub struct GenericDeltaSet {
    pub delta_level: i32,
    pub tid: u8,
    pub transition_time: Option<u8>,
    pub delay: Option<u8>,
}

/// Decoding a Delta Set: a four-byte delta, the transaction identifier, then
/// an optional transition time and an optional delay.
pub open spec fn spec_parse_delta_set(p: Seq<u8>) -> Result<GenericDeltaSet, ParseError> {
    if p.len() >= 5 {
        Ok(
            GenericDeltaSet {
                delta_level: i32_le(p[0], p[1], p[2], p[3]),
                tid: p[4],
                transition_time: optional_at(p, 5),
                delay: optional_at(p, 6),
            },
        )
    } else {
        Err(ParseError::InvalidLength)
    }
}

impl GenericDeltaSet {
    pub open spec fn spec_chunks(&self) -> Seq<Seq<u8>> {
        seq![i32_le_bytes(self.delta_level), seq![self.tid]] + transition_chunks(self.transition_time, self.delay)
    }

    /// Decodes a Delta Set.
    pub fn parse(parameters: &[u8]) -> (r: Result<GenericDeltaSet, ParseError>)
        ensures
            r == spec_parse_delta_set(parameters@),
    {
        if parameters.len() >= 5 {
            let delta_level = i32_from_le(parameters[0], parameters[1], parameters[2], parameters[3]);
            let tid = parameters[4];
            let transition_time = if parameters.len() >= 6 {
                Some(parameters[5])
            } else {
                None
            };
            let delay = if parameters.len() >= 7 {
                Some(parameters[6])
            } else {
                None
            };
            Ok(GenericDeltaSet { delta_level, tid, transition_time, delay })
        } else {
            Err(ParseError::InvalidLength)
        }
    }

    /// Writes the parameters.
    pub fn emit_parameters(&self, xmit: &mut Xmit) -> (r: Result<(), InsufficientBuffer>)
        requires
            old(xmit).wf(),
        ensures
            final(xmit).wf(),
            final(xmit).cap() == old(xmit).cap(),
            (final(xmit)@, r is Ok) == put_all(old(xmit)@, old(xmit).cap(), self.spec_chunks()),
    {
        let mut c = no_chunks();
        push_chunk(&mut c, i32_chunk(self.delta_level));
        push_chunk(&mut c, byte_chunk(self.tid));
        push_transition(&mut c, self.transition_time, self.delay);
        assert(views(c@) =~= self.spec_chunks());
        xmit.put_chunks(&c)
    }
}

/// Moves the level at a given speed.
#[derive(Copy, Clone, Debug, PartialEq, Eq, Structural)]
pub struct GenericMoveSet {
    pub delta_level: i16,
    pub tid: u8,
    pub transition_time: Option<u8>,
    pub delay: Option<u8>,
}

/// Decoding a Move Set: a two-byte delta, the transaction identifier, then
/// an optional transition time and an optional delay.
pub open spec fn spec_parse_move_set(p: Seq<u8>) -> Result<GenericMoveSet, ParseError> {
    if p.len() >= 3 {
        Ok(
            GenericMoveSet {
                delta_level: i16_le(p[0], p[1]),
                tid: p[2],
                transition_time: optional_at(p, 3),
                delay: optional_at(p, 4),
            },
        )
    } else {
        Err(ParseError::InvalidLength)
    }
}

impl GenericMoveSet {
    pub open spec fn spec_chunks(&self) -> Seq<Seq<u8>> {
        seq![i16_le_bytes(self.delta_level), seq![self.tid]] + transition_chunks(self.transition_time, self.delay)
    }

    /// Decodes a Move Set.
    pub fn parse(parameters: &[u8]) -> (r: Result<GenericMoveSet, ParseError>)
        ensures
            r == spec_parse_move_set(parameters@),
    {
        if parameters.len() >= 3 {
            let delta_level = i16_from_le(parameters[0], parameters[1]);
            let tid = parameters[2];
            let transition_time = if parameters.len() >= 4 {
                Some(parameters[3])
            } else {
                None
            };
            let delay = if parameters.len() >= 5 {
                Some(parameters[4])
            } else {
                None
            };
            Ok(GenericMoveSet { delta_level, tid, transition_time, delay })
        } else {
            Err(ParseError::InvalidLength)
        }
    }

    /// Writes the parameters.
    pub fn emit_parameters(&self, xmit: &mut Xmit) -> (r: Result<(), InsufficientBuffer>)
        requires
            old(xmit).wf(),
        ensures
            final(xmit).wf(),
            final(xmit).cap() == old(xmit).cap(),
            (final(xmit)@, r is Ok) == put_all(old(xmit)@, old(xmit).cap(), self.spec_chunks()),
    {
        let mut c = no_chunks();
        push_chunk(&mut c, i16_chunk(self.delta_level));
        push_chunk(&mut c, byte_chunk(self.tid));
        push_transition(&mut c, self.transition_time, self.delay);
        assert(views(c@) =~= self.spec_chunks());
        xmit.put_chunks(&c)
    }
}

/// Reports the level.
#[derive(Copy, Clone, Debug, PartialEq, Eq, Structural)]
pub struct GenericLevelStatus {
    pub present_level: i16,
    pub target_level: Option<i16>,
    pub remaining_time: Option<u8>,
}

/// Decoding a Level Status: the present level, an optional target level in
/// the next two bytes, then an optional remaining time.
pub open spec fn spec_parse_level_status(p: Seq<u8>) -> Result<GenericLevelStatus, ParseError> {
    if p.len() >= 2 {
        Ok(
            GenericLevelStatus {
                present_level: i16_le(p[0], p[1]),
                target_level: if p.len() >= 4 {
                    Some(i16_le(p[2], p[3]))
                } else {
                    None
                },
                remaining_time: optional_at(p, 4),
            },
        )
    } else {
        Err(ParseError::InvalidLength)
    }
}

impl GenericLevelStatus {
    pub open spec fn spec_chunks(&self) -> Seq<Seq<u8>> {
        seq![i16_le_bytes(self.present_level)] + match self.target_level {
            Some(t) => seq![i16_le_bytes(t)],
            None => seq![],
        } + match self.remaining_time {
            Some(t) => seq![seq![t]],
            None => seq![],
        }
    }

    /// Writes the parameters.
    pub fn emit_parameters(&self, xmit: &mut Xmit) -> (r: Result<(), InsufficientBuffer>)
        requires
            old(xmit).wf(),
        ensures
            final(xmit).wf(),
            final(xmit).cap() == old(xmit).cap(),
            (final(xmit)@, r is Ok) == put_all(old(xmit)@, old(xmit).cap(), self.spec_chunks()),
    {
        let mut c = no_chunks();
        push_chunk(&mut c, i16_chunk(self.present_level));
        if let Some(target_level) = self.target_level {
            push_chunk(&mut c, i16_chunk(target_level));
        }
        if let Some(remaining_time) = self.remaining_time {
            push_chunk(&mut c, byte_chunk(remaining_time));
        }
        assert(views(c@) =~= self.spec_chunks());
        xmit.put_chunks(&c)
    }

    /// Decodes a Level Status.
    pub fn parse(parameters: &[u8]) -> (r: Result<GenericLevelStatus, ParseError>)
        ensures
            r == spec_parse_level_status(parameters@),
    {
        if parameters.len() >= 2 {
            let present_level = i16_from_le(parameters[0], parameters[1]);
            let target_level = if parameters.len() >= 4 {
                Some(i16_from_le(parameters[2], parameters[3]))
            } else {
                None
            };
            let remaining_time = if parameters.len() >= 5 {
                Some(parameters[4])
            } else {
                None
            };
            Ok(GenericLevelStatus { present_level, target_level, remaining_time })
        } else {
            Err(ParseError::InvalidLength)
        }
    }
}

/// Generic level messages.
#[derive(Copy, Clone, Debug, PartialEq, Eq, Structural)]
pub enum GenericLevelMessage {
    Get,
    SetState(GenericLevelSet),
    SetUnacknowledged(GenericLevelSet),
    DeltaSet(GenericDeltaSet),
    DeltaSetUnacknowledged(GenericDeltaSet),
    MoveSet(GenericMoveSet),
    MoveSetUnacknowledged(GenericMoveSet),
    Status(GenericLevelStatus),
}

/// A decoded level message wrapped by `f`, or the decoding error.
pub open spec fn lift_level<T>(
    r: Result<T, ParseError>,
    f: spec_fn(T) -> GenericLevelMessage,
) -> Result<Option<GenericLevelMessage>, ParseError> {
    match r {
        Ok(m) => Ok(Some(f(m))),
        Err(e) => Err(e),
    }
}

/// What a level server or client decodes for an opcode.
pub open spec fn spec_level_parse(op: Opcode, p: Seq<u8>) -> Result<Option<GenericLevelMessage>, ParseError> {
    if op == generic_level_get() {
        Ok(Some(GenericLevelMessage::Get))
    } else if op == generic_level_set() {
        lift_level(spec_parse_level_set(p), |m: GenericLevelSet| GenericLevelMessage::SetState(m))
    } else if op == generic_level_set_unacknowledged() {
        lift_level(spec_parse_level_set(p), |m: GenericLevelSet| GenericLevelMessage::SetUnacknowledged(m))
    } else if op == generic_level_delta_set() {
        lift_level(spec_parse_delta_set(p), |m: GenericDeltaSet| GenericLevelMessage::DeltaSet(m))
    } else if op == generic_level_delta_set_unacknowledged() {
        lift_level(spec_parse_delta_set(p), |m: GenericDeltaSet| GenericLevelMessage::DeltaSetUnacknowledged(m))
    } else if op == generic_level_move_set() {
        lift_level(spec_parse_move_set(p), |m: GenericMoveSet| GenericLevelMessage::MoveSet(m))
    } else if op == generic_level_move_set_unacknowledged() {
        lift_level(spec_parse_move_set(p), |m: GenericMoveSet| GenericLevelMessage::MoveSetUnacknowledged(m))
    } else if op == generic_level_status() {
        lift_level(spec_parse_level_status(p), |m: GenericLevelStatus| GenericLevelMessage::Status(m))
    } else {
        Ok(None)
    }
}

impl GenericLevelMessage {
    pub open spec fn spec_opcode(&self) -> Opcode {
        match *self {
            GenericLevelMessage::Get => generic_level_get(),
            GenericLevelMessage::SetState(_) => generic_level_set(),
            GenericLevelMessage::SetUnacknowledged(_) => generic_level_set_unacknowledged(),
            GenericLevelMessage::DeltaSet(_) => generic_level_delta_set(),
            GenericLevelMessage::DeltaSetUnacknowledged(_) => generic_level_delta_set_unacknowledged(),
            GenericLevelMessage::MoveSet(_) => generic_level_move_set(),
            GenericLevelMessage::MoveSetUnacknowledged(_) => generic_level_move_set_unacknowledged(),
            GenericLevelMessage::Status(_) => generic_level_status(),
        }
    }

    /// The opcode of the message.
    pub fn opcode(&self) -> (r: Opcode)
        ensures
            r == self.spec_opcode(),
    {
        match self {
            GenericLevelMessage::Get => generic_level_get(),
            GenericLevelMessage::SetState(_) => generic_level_set(),
            GenericLevelMessage::SetUnacknowledged(_) => generic_level_set_unacknowledged(),
            GenericLevelMessage::DeltaSet(_) => generic_level_delta_set(),
            GenericLevelMessage::DeltaSetUnacknowledged(_) => generic_level_delta_set_unacknowledged(),
            GenericLevelMessage::MoveSet(_) => generic_level_move_set(),
            GenericLevelMessage::MoveSetUnacknowledged(_) => generic_level_move_set_unacknowledged(),
            GenericLevelMessage::Status(_) => generic_level_status(),
        }
    }

    pub open spec fn spec_chunks(&self) -> Seq<Seq<u8>> {
        match *self {
            GenericLevelMessage::Get => seq![],
            GenericLevelMessage::SetState(m) => m.spec_chunks(),
            GenericLevelMessage::SetUnacknowledged(m) => m.spec_chunks(),
            GenericLevelMessage::DeltaSet(m) => m.spec_chunks(),
            GenericLevelMessage::DeltaSetUnacknowledged(m) => m.spec_chunks(),
            GenericLevelMessage::MoveSet(m) => m.spec_chunks(),
            GenericLevelMessage::MoveSetUnacknowledged(m) => m.spec_chunks(),
            GenericLevelMessage::Status(m) => m.spec_chunks(),
        }
    }

    /// Writes the parameters.
    pub fn emit_parameters(&self, xmit: &mut Xmit) -> (r: Result<(), InsufficientBuffer>)
        requires
            old(xmit).wf(),
        ensures
            final(xmit).wf(),
            final(xmit).cap() == old(xmit).cap(),
            (final(xmit)@, r is Ok) == put_all(old(xmit)@, old(xmit).cap(), self.spec_chunks()),
    {
        match self {
            GenericLevelMessage::Get => Ok(()),
            GenericLevelMessage::SetState(inner) => inner.emit_parameters(xmit),
            GenericLevelMessage::SetUnacknowledged(inner) => inner.emit_parameters(xmit),
            GenericLevelMessage::DeltaSet(inner) => inner.emit_parameters(xmit),
            GenericLevelMessage::DeltaSetUnacknowledged(inner) => inner.emit_parameters(xmit),
            GenericLevelMessage::MoveSet(inner) => inner.emit_parameters(xmit),
            GenericLevelMessage::MoveSetUnacknowledged(inner) => inner.emit_parameters(xmit),
            GenericLevelMessage::Status(inner) => inner.emit_parameters(xmit),
        }
    }

    /// Decodes a level message.
    pub fn parse(opcode: &Opcode, parameters: &[u8]) -> (r: Result<Option<GenericLevelMessage>, ParseError>)
        ensures
            r == spec_level_parse(*opcode, parameters@),
    {
        if *opcode == generic_level_get() {
            Ok(Some(GenericLevelMessage::Get))
        } else if *opcode == generic_level_set() {
            Ok(Some(GenericLevelMessage::SetState(GenericLevelSet::parse(parameters)?)))
        } else if *opcode == generic_level_set_unacknowledged() {
            Ok(Some(GenericLevelMessage::SetUnacknowledged(GenericLevelSet::parse(parameters)?)))
        } else if *opcode == generic_level_delta_set() {
            Ok(Some(GenericLevelMessage::DeltaSet(GenericDeltaSet::parse(parameters)?)))
        } else if *opcode == generic_level_delta_set_unacknowledged() {
            Ok(Some(GenericLevelMessage::DeltaSetUnacknowledged(GenericDeltaSet::parse(parameters)?)))
        } else if *opcode == generic_level_move_set() {
            Ok(Some(GenericLevelMessage::MoveSet(GenericMoveSet::parse(parameters)?)))
        } else if *opcode == generic_level_move_set_unacknowledged() {
            Ok(Some(GenericLevelMessage::MoveSetUnacknowledged(GenericMoveSet::parse(parameters)?)))
        } else if *opcode == generic_level_status() {
            Ok(Some(GenericLevelMessage::Status(GenericLevelStatus::parse(parameters)?)))
        } else {
            Ok(None)
        }
    }
}

impl From<GenericLevelStatus> for GenericLevelMessage {
    fn from(inner: GenericLevelStatus) -> (r: GenericLevelMessage) {
        GenericLevelMessage::Status(inner)
    }
}

impl vstd::std_specs::convert::FromSpecImpl<GenericLevelStatus> for GenericLevelMessage {
    open spec fn obeys_from_spec() -> bool {
        true
    }

    open spec fn from_spec(v: GenericLevelStatus) -> GenericLevelMessage {
        GenericLevelMessage::Status(v)
    }
}

/// The generic level server model.
#[derive(Copy, Clone, Debug, PartialEq, Eq, Structural)]
pub struct GenericLevelServer;

impl GenericLevelServer {
    /// The model identifier.
    pub fn identifier() -> (r: ModelIdentifier)
        ensures
            r == generic_level_server(),
    {
        generic_level_server()
    }

    /// Decodes a level message.
    pub fn parse(opcode: &Opcode, parameters: &[u8]) -> (r: Result<Option<GenericLevelMessage>, ParseError>)
        ensures
            r == spec_level_parse(*opcode, parameters@),
    {
        GenericLevelMessage::parse(opcode, parameters)
    }
}

/// The generic level client model.
#[derive(Copy, Clone, Debug, PartialEq, Eq, Structural)]
pub struct GenericLevelClient;

impl GenericLevelClient {
    /// The model identifier.
    pub fn identifier() -> (r: ModelIdentifier)
        ensures
            r == generic_level_client(),
    {
        generic_level_client()
    }

    /// Decodes a level message.
    pub fn parse(opcode: &Opcode, parameters: &[u8]) -> (r: Result<Option<GenericLevelMessage>, ParseError>)
        ensures
            r == spec_level_parse(*opcode, parameters@),
    {
        GenericLevelMessage::parse(opcode, parameters)
    }
}

/// A Level Set written into a buffer with room for it reads back as the same
/// Set, provided a delay is only given together with a transition time.
pub proof fn lemma_level_set_roundtrip(m: GenericLevelSet, cap: nat)
    requires
        m.transition_time is None ==> m.delay is None,
        cap >= flatten(m.spec_chunks()).len(),
    ensures
        put_all(Seq::empty(), cap, m.spec_chunks()) == (flatten(m.spec_chunks()), true),
        spec_parse_level_set(flatten(m.spec_chunks())) == Ok::<GenericLevelSet, ParseError>(m),
{
    lemma_put_all_fits(Seq::empty(), cap, m.spec_chunks());
    assert(Seq::<u8>::empty() + flatten(m.spec_chunks()) =~= flatten(m.spec_chunks()));
    reveal_with_fuel(flatten, 5);
    lemma_i16_roundtrip(m.level);
    let b = flatten(m.spec_chunks());
    let l = i16_le_bytes(m.level);
    match m.transition_time {
        Some(t) => match m.delay {
            Some(d) => assert(b =~= seq![l[0], l[1], m.tid, t, d]),
            None => assert(b =~= seq![l[0], l[1], m.tid, t]),
        },
        None => assert(b =~= seq![l[0], l[1], m.tid]),
    }
}

/// A Delta Set written into a buffer with room for it reads back as the same
/// Delta Set, provided a delay is only given together with a transition time.
pub proof fn lemma_delta_set_roundtrip(m: GenericDeltaSet, cap: nat)
    requires
        m.transition_time is None ==> m.delay is None,
        cap >= flatten(m.spec_chunks()).len(),
    ensures
        put_all(Seq::empty(), cap, m.spec_chunks()) == (flatten(m.spec_chunks()), true),
        spec_parse_delta_set(flatten(m.spec_chunks())) == Ok::<GenericDeltaSet, ParseError>(m),
{
    lemma_put_all_fits(Seq::empty(), cap, m.spec_chunks());
    assert(Seq::<u8>::empty() + flatten(m.spec_chunks()) =~= flatten(m.spec_chunks()));
    reveal_with_fuel(flatten, 5);
    lemma_i32_roundtrip(m.delta_level);
    let b = flatten(m.spec_chunks());
    let l = i32_le_bytes(m.delta_level);
    match m.transition_time {
        Some(t) => match m.delay {
            Some(d) => assert(b =~= seq![l[0], l[1], l[2], l[3], m.tid, t, d]),
            None => assert(b =~= seq![l[0], l[1], l[2], l[3], m.tid, t]),
        },
        None => assert(b =~= seq![l[0], l[1], l[2], l[3], m.tid]),
    }
}

/// A Move Set written into a buffer with room for it reads back as the same
/// Move Set, provided a delay is only given together with a transition time.
pub proof fn lemma_move_set_roundtrip(m: GenericMoveSet, cap: nat)
    requires
        m.transition_time is None ==> m.delay is None,
        cap >= flatten(m.spec_chunks()).len(),
    ensures
        put_all(Seq::empty(), cap, m.spec_chunks()) == (flatten(m.spec_chunks()), true),
        spec_parse_move_set(flatten(m.spec_chunks())) == Ok::<GenericMoveSet, ParseError>(m),
{
    lemma_put_all_fits(Seq::empty(), cap, m.spec_chunks());
    assert(Seq::<u8>::empty() + flatten(m.spec_chunks()) =~= flatten(m.spec_chunks()));
    reveal_with_fuel(flatten, 5);
    lemma_i16_roundtrip(m.delta_level);
    let b = flatten(m.spec_chunks());
    let l = i16_le_bytes(m.delta_level);
    match m.transition_time {
        Some(t) => match m.delay {
            Some(d) => assert(b =~= seq![l[0], l[1], m.tid, t, d]),
            None => assert(b =~= seq![l[0], l[1], m.tid, t]),
        },
        None => assert(b =~= seq![l[0], l[1], m.tid]),
    }
}

/// A Level Status written into a buffer with room for it reads back as the
/// same Status, provided a remaining time is only given together with a
/// target level.
pub proof fn lemma_level_status_roundtrip(m: GenericLevelStatus, cap: nat)
    requires
        m.target_level is None ==> m.remaining_time is None,
        cap >= flatten(m.spec_chunks()).len(),
    ensures
        put_all(Seq::empty(), cap, m.spec_chunks()) == (flatten(m.spec_chunks()), true),
        spec_parse_level_status(flatten(m.spec_chunks())) == Ok::<GenericLevelStatus, ParseError>(m),
{
    lemma_put_all_fits(Seq::empty(), cap, m.spec_chunks());
    assert(Seq::<u8>::empty() + flatten(m.spec_chunks()) =~= flatten(m.spec_chunks()));
    reveal_with_fuel(flatten, 4);
    lemma_i16_roundtrip(m.present_level);
    let b = flatten(m.spec_chunks());
    let l = i16_le_bytes(m.present_level);
    match m.target_level {
        Some(t) => {
            lemma_i16_roundtrip(t);
            let tl = i16_le_bytes(t);
            match m.remaining_time {
                Some(r) => assert(b =~= seq![l[0], l[1], tl[0], tl[1], r]),
                None => assert(b =~= seq![l[0], l[1], tl[0], tl[1]]),
            }
        },
        None => assert(b =~= seq![l[0], l[1]]),
    }
}


/// Every message a level server or client decodes is the message of the
/// opcode it came with.
pub proof fn lemma_level_parse_keeps_opcode(op: Opcode, p: Seq<u8>)
    ensures
        spec_level_parse(op, p) matches Ok(Some(m)) ==> m.spec_opcode() == op,
{
}

/// A Delta Set (acknowledged or not) decodes from any parameters of at least
/// five bytes as the delta in the first four, little-endian and two's
/// complement, with the transaction identifier in the fifth; shorter
/// parameters are refused.
pub proof fn lemma_delta_set_decodes(p: Seq<u8>)
    ensures
        p.len() >= 5 ==> (spec_level_parse(generic_level_delta_set(), p) matches Ok(Some(GenericLevelMessage::DeltaSet(d)))
            && d.delta_level as int == (if p[3] < 0x80 {
                p[0] + p[1] * 0x100 + p[2] * 0x10000 + p[3] * 0x1000000
            } else {
                p[0] + p[1] * 0x100 + p[2] * 0x10000 + p[3] * 0x1000000 - 0x1_0000_0000
            }) && d.tid == p[4]),
        p.len() >= 5 ==> (spec_level_parse(generic_level_delta_set_unacknowledged(), p) matches Ok(
            Some(GenericLevelMessage::DeltaSetUnacknowledged(d)),
        ) && d.tid == p[4]),
        p.len() < 5 ==> spec_level_parse(generic_level_delta_set(), p) == Err::<Option<GenericLevelMessage>, ParseError>(
            ParseError::InvalidLength,
        ),
{
    if p.len() >= 5 {
        let u = (p[0] as nat + p[1] as nat * 0x100 + p[2] as nat * 0x10000 + p[3] as nat * 0x1000000);
        assert(u < 0x1_0000_0000) by (nonlinear_arith)
            requires u == (p[0] as nat + p[1] as nat * 0x100 + p[2] as nat * 0x10000 + p[3] as nat * 0x1000000),
                p[0] < 256, p[1] < 256, p[2] < 256, p[3] < 256;
        let w = u as u32;
        assert(w == u);
        assert((p[3] < 0x80) == (u < 0x8000_0000)) by (nonlinear_arith)
            requires u == (p[0] as nat + p[1] as nat * 0x100 + p[2] as nat * 0x10000 + p[3] as nat * 0x1000000),
                p[0] < 256, p[1] < 256, p[2] < 256, p[3] < 256;
        assert((w as i32) as int == (if w < 0x8000_0000 { w as int } else { w as int - 0x1_0000_0000 })) by (bit_vector);
    }
}

/// A level message written by `emit_parameters` reads back, under its own
/// opcode, as the same message, provided a delay is only given together with
/// a transition time.
pub proof fn lemma_delta_set_message_roundtrip(m: GenericDeltaSet)
    requires
        m.transition_time is None ==> m.delay is None,
    ensures
        spec_level_parse(GenericLevelMessage::DeltaSet(m).spec_opcode(), flatten(GenericLevelMessage::DeltaSet(m).spec_chunks()))
            == Ok::<Option<GenericLevelMessage>, ParseError>(Some(GenericLevelMessage::DeltaSet(m))),
{
    lemma_delta_set_roundtrip(m, flatten(m.spec_chunks()).len());
}

} // verus!
