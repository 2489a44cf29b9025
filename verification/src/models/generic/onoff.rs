//! The Generic OnOff model.

use vstd::prelude::*;
use crate::error::{InsufficientBuffer, ParseError};
use crate::buffer::{put_all, flatten, Xmit, lemma_put_all_fits};
use crate::chunks::{views, no_chunks, push_chunk, byte_chunk};
use crate::common::{Opcode, ModelIdentifier};

verus! {

/// The model identifier of the generic on/off server.
#[verifier::allow_in_spec]
pub fn generic_onoff_server() -> ModelIdentifier
    returns
        ModelIdentifier::SIG(0x1000),
{
    ModelIdentifier::SIG(0x1000)
}

/// The model identifier of the generic on/off client.
#[verifier::allow_in_spec]
pub fn generic_onoff_client() -> ModelIdentifier
    returns
        ModelIdentifier::SIG(0x1001),
{
    ModelIdentifier::SIG(0x1001)
}

/// Opcode of Generic OnOff Get.
#[verifier::allow_in_spec]
pub fn generic_on_off_get() -> Opcode
    returns
        Opcode::TwoOctet(0x82, 0x01),
{
    Opcode::TwoOctet(0x82, 0x01)
}

/// Opcode of Generic OnOff Set.
#[verifier::allow_in_spec]
pub fn generic_on_off_set() -> Opcode
    returns
        Opcode::TwoOctet(0x82, 0x02),
{
    Opcode::TwoOctet(0x82, 0x02)
}

/// Opcode of Generic OnOff Set Unacknowledged.
#[verifier::allow_in_spec]
pub fn generic_on_off_set_unacknowledge() -> Opcode
    returns
        Opcode::TwoOctet(0x82, 0x03),
{
    Opcode::TwoOctet(0x82, 0x03)
}

/// Opcode of Generic OnOff Status.
#[verifier::allow_in_spec]
pub fn generic_on_off_status() -> Opcode
    returns
        Opcode::TwoOctet(0x82, 0x04),
{
    Opcode::TwoOctet(0x82, 0x04)
}

/// The chunks of the optional transition time and delay: the delay is only
/// written after a transition time.
pub open spec fn transition_chunks(transition_time: Option<u8>, delay: Option<u8>) -> Seq<Seq<u8>> {
    match transition_time {
        Some(t) => match delay {
            Some(d) => seq![seq![t], seq![d]],
            None => seq![seq![t]],
        },
        None => seq![],
    }
}

/// Decoding the optional transition time and delay found at `at` and `at + 1`.
pub open spec fn optional_at(p: Seq<u8>, at: int) -> Option<u8> {
    if p.len() > at {
        Some(p[at])
    } else {
        None
    }
}

/// Appends the transition time and delay chunks.
pub fn push_transition(r: &mut Vec<Vec<u8>>, transition_time: Option<u8>, delay: Option<u8>)
    ensures
        views(final(r)@) == views(old(r)@) + transition_chunks(transition_time, delay),
{
    let ghost start = views(r@);
    if let Some(t) = transition_time {
        push_chunk(r, byte_chunk(t));
        if let Some(d) = delay {
            push_chunk(r, byte_chunk(d));
        }
    }
    assert(views(r@) =~= start + transition_chunks(transition_time, delay));
}

/// Sets the on/off state.
#[derive(Copy, Clone, Debug, PartialEq, Eq, Structural)]
pub struct OnOffSet {
    pub on_off: u8,
    pub tid: u8,
    pub transition_time: Option<u8>,
    pub delay: Option<u8>,
}

/// Decoding an on/off Set: the state and transaction identifier, then an
/// optional transition time and an optional delay.
pub open spec fn spec_parse_onoff_set(p: Seq<u8>) -> Result<OnOffSet, ParseError> {
    if p.len() >= 2 {
        Ok(OnOffSet { on_off: p[0], tid: p[1], transition_time: optional_at(p, 2), delay: optional_at(p, 3) })
    } else {
        Err(ParseError::InvalidLength)
    }
}

impl OnOffSet {
    pub open spec fn spec_chunks(&self) -> Seq<Seq<u8>> {
        seq![seq![self.on_off], seq![self.tid]] + transition_chunks(self.transition_time, self.delay)
    }

    /// Decodes an on/off Set.
    pub fn parse(parameters: &[u8]) -> (r: Result<OnOffSet, ParseError>)
        ensures
            r == spec_parse_onoff_set(parameters@),
    {
        if parameters.len() >= 2 {
            let on_off = parameters[0];
            let tid = parameters[1];
            let transition_time = if parameters.len() >= 3 {
                Some(parameters[2])
            } else {
                None
            };
            let delay = if parameters.len() >= 4 {
                Some(parameters[3])
            } else {
                None
            };
            Ok(OnOffSet { on_off, tid, transition_time, delay })
        } else {
            Err(ParseError::InvalidLength)
        }
    }

    /// Writes the parameters.
    pub fn emit_parameters(&self, xmit: &mut Xmit) -> (r: Result<(), InsufficientBuffer>)
        requires
            old(xmit).wf(),
        ensures
            final(xmit).wf(),
            final(xmit).cap() == old(xmit).cap(),
            (final(xmit)@, r is Ok) == put_all(old(xmit)@, old(xmit).cap(), self.spec_chunks()),
    {
        let mut c = no_chunks();
        push_chunk(&mut c, byte_chunk(self.on_off));
        push_chunk(&mut c, byte_chunk(self.tid));
        push_transition(&mut c, self.transition_time, self.delay);
        assert(views(c@) =~= self.spec_chunks());
        xmit.put_chunks(&c)
    }
}

/// Reports the on/off state.
#[derive(Copy, Clone, Debug, PartialEq, Eq, Structural)]
pub struct Status {
    pub present_on_off: u8,
    pub target_on_off: u8,
    pub remaining_time: u8,
}

/// Decoding an on/off Status: at least three bytes.
pub open spec fn spec_parse_onoff_status(p: Seq<u8>) -> Result<Status, ParseError> {
    if p.len() >= 3 {
        Ok(Status { present_on_off: p[0], target_on_off: p[1], remaining_time: p[2] })
    } else {
        Err(ParseError::InvalidLength)
    }
}

impl Status {
    pub open spec fn spec_chunks(&self) -> Seq<Seq<u8>> {
        seq![seq![self.present_on_off], seq![self.target_on_off], seq![self.remaining_time]]
    }

    /// Writes the parameters.
    pub fn emit_parameters(&self, xmit: &mut Xmit) -> (r: Result<(), InsufficientBuffer>)
        requires
            old(xmit).wf(),
        ensures
            final(xmit).wf(),
            final(xmit).cap() == old(xmit).cap(),
            (final(xmit)@, r is Ok) == put_all(old(xmit)@, old(xmit).cap(), self.spec_chunks()),
    {
        let mut c = no_chunks();
        push_chunk(&mut c, byte_chunk(self.present_on_off));
        push_chunk(&mut c, byte_chunk(self.target_on_off));
        push_chunk(&mut c, byte_chunk(self.remaining_time));
        assert(views(c@) =~= self.spec_chunks());
        xmit.put_chunks(&c)
    }

    /// Decodes an on/off Status.
    pub fn parse(parameters: &[u8]) -> (r: Result<Status, ParseError>)
        ensures
            r == spec_parse_onoff_status(parameters@),
    {
        if parameters.len() >= 3 {
            Ok(Status { present_on_off: parameters[0], target_on_off: parameters[1], remaining_time: parameters[2] })
        } else {
            Err(ParseError::InvalidLength)
        }
    }
}

/// Generic on/off messages.
#[derive(Copy, Clone, Debug, PartialEq, Eq, Structural)]
pub enum GenericOnOffMessage {
    Get,
    SetState(OnOffSet),
    SetUnacknowledged(OnOffSet),
    Status(Status),
}

impl GenericOnOffMessage {
    pub open spec fn spec_opcode(&self) -> Opcode {
        match *self {
            GenericOnOffMessage::Get => generic_on_off_get(),
            GenericOnOffMessage::SetState(_) => generic_on_off_set(),
            GenericOnOffMessage::SetUnacknowledged(_) => generic_on_off_set_unacknowledge(),
            GenericOnOffMessage::Status(_) => generic_on_off_status(),
        }
    }

    /// The opcode of the message.
    pub fn opcode(&self) -> (r: Opcode)
        ensures
            r == self.spec_opcode(),
    {
        match self {
            GenericOnOffMessage::Get => generic_on_off_get(),
            GenericOnOffMessage::SetState(_) => generic_on_off_set(),
            GenericOnOffMessage::SetUnacknowledged(_) => generic_on_off_set_unacknowledge(),
            GenericOnOffMessage::Status(_) => generic_on_off_status(),
        }
    }

    pub open spec fn spec_chunks(&self) -> Seq<Seq<u8>> {
        match *self {
            GenericOnOffMessage::Get => seq![],
            GenericOnOffMessage::SetState(m) => m.spec_chunks(),
            GenericOnOffMessage::SetUnacknowledged(m) => m.spec_chunks(),
            GenericOnOffMessage::Status(m) => m.spec_chunks(),
        }
    }

    /// Writes the parameters.
    pub fn emit_parameters(&self, xmit: &mut Xmit) -> (r: Result<(), InsufficientBuffer>)
        requires
            old(xmit).wf(),
        ensures
            final(xmit).wf(),
            final(xmit).cap() == old(xmit).cap(),
            (final(xmit)@, r is Ok) == put_all(old(xmit)@, old(xmit).cap(), self.spec_chunks()),
    {
        match self {
            GenericOnOffMessage::Get => Ok(()),
            GenericOnOffMessage::SetState(inner) => inner.emit_parameters(xmit),
            GenericOnOffMessage::SetUnacknowledged(inner) => inner.emit_parameters(xmit),
            GenericOnOffMessage::Status(inner) => inner.emit_parameters(xmit),
        }
    }
}

impl From<Status> for GenericOnOffMessage {
    fn from(inner: Status) -> (r: GenericOnOffMessage) {
        GenericOnOffMessage::Status(inner)
    }
}

impl vstd::std_specs::convert::FromSpecImpl<Status> for GenericOnOffMessage {
    open spec fn obeys_from_spec() -> bool {
        true
    }

    open spec fn from_spec(v: Status) -> GenericOnOffMessage {
        GenericOnOffMessage::Status(v)
    }
}

/// What the on/off server decodes: Set and Set Unacknowledged both give a Set
/// message; a Get, and every other opcode, gives nothing.
pub open spec fn spec_onoff_server_parse(op: Opcode, p: Seq<u8>) -> Result<Option<GenericOnOffMessage>, ParseError> {
    if op == generic_on_off_set() || op == generic_on_off_set_unacknowledge() {
        match spec_parse_onoff_set(p) {
            Ok(m) => Ok(Some(GenericOnOffMessage::SetState(m))),
            Err(e) => Err(e),
        }
    } else {
        Ok(None)
    }
}

/// What the on/off client decodes: a Status, or nothing.
pub open spec fn spec_onoff_client_parse(op: Opcode, p: Seq<u8>) -> Result<Option<GenericOnOffMessage>, ParseError> {
    if op == generic_on_off_status() {
        match spec_parse_onoff_status(p) {
            Ok(m) => Ok(Some(GenericOnOffMessage::Status(m))),
            Err(e) => Err(e),
        }
    } else {
        Ok(None)
    }
}

/// The generic on/off server model.
#[derive(Copy, Clone, Debug, PartialEq, Eq, Structural)]
pub struct GenericOnOffServer;

impl GenericOnOffServer {
    /// The model identifier.
    pub fn identifier() -> (r: ModelIdentifier)
        ensures
            r == generic_onoff_server(),
    {
        generic_onoff_server()
    }

    /// Decodes a message addressed to the server.
    pub fn parse(opcode: &Opcode, parameters: &[u8]) -> (r: Result<Option<GenericOnOffMessage>, ParseError>)
        ensures
            r == spec_onoff_server_parse(*opcode, parameters@),
    {
        if *opcode == generic_on_off_get() {
            Ok(None)
        } else if *opcode == generic_on_off_set() {
            Ok(Some(GenericOnOffMessage::SetState(OnOffSet::parse(parameters)?)))
        } else if *opcode == generic_on_off_set_unacknowledge() {
            Ok(Some(GenericOnOffMessage::SetState(OnOffSet::parse(parameters)?)))
        } else {
            Ok(None)
        }
    }
}

/// The generic on/off client model.
#[derive(Copy, Clone, Debug, PartialEq, Eq, Structural)]
pub struct GenericOnOffClient;

impl GenericOnOffClient {
    /// The model identifier.
    pub fn identifier() -> (r: ModelIdentifier)
        ensures
            r == generic_onoff_client(),
    {
        generic_onoff_client()
    }

    /// Decodes a message addressed to the client.
    pub fn parse(opcode: &Opcode, parameters: &[u8]) -> (r: Result<Option<GenericOnOffMessage>, ParseError>)
        ensures
            r == spec_onoff_client_parse(*opcode, parameters@),
    {
        if *opcode == generic_on_off_status() {
            Ok(Some(GenericOnOffMessage::Status(Status::parse(parameters)?)))
        } else {
            Ok(None)
        }
    }
}

/// An on/off Set written into a buffer with room for it reads back as the
/// same Set, provided a delay is only given together with a transition time
/// (a delay alone is not written).
pub proof fn lemma_onoff_set_roundtrip(m: OnOffSet, cap: nat)
    requires
        m.transition_time is None ==> m.delay is None,
        cap >= flatten(m.spec_chunks()).len(),
    ensures
        put_all(Seq::empty(), cap, m.spec_chunks()) == (flatten(m.spec_chunks()), true),
        spec_parse_onoff_set(flatten(m.spec_chunks())) == Ok::<OnOffSet, ParseError>(m),
{
    lemma_put_all_fits(Seq::empty(), cap, m.spec_chunks());
    assert(Seq::<u8>::empty() + flatten(m.spec_chunks()) =~= flatten(m.spec_chunks()));
    reveal_with_fuel(flatten, 5);
    let b = flatten(m.spec_chunks());
    match m.transition_time {
        Some(t) => match m.delay {
            Some(d) => assert(b =~= seq![m.on_off, m.tid, t, d]),
            None => assert(b =~= seq![m.on_off, m.tid, t]),
        },
        None => assert(b =~= seq![m.on_off, m.tid]),
    }
}

/// An on/off Status written into a buffer with room for it reads back as
/// the same Status.
pub proof fn lemma_onoff_status_roundtrip(m: Status, cap: nat)
    requires
        cap >= 3,
    ensures
        put_all(Seq::empty(), cap, m.spec_chunks()) == (seq![m.present_on_off, m.target_on_off, m.remaining_time], true),
        spec_parse_onoff_status(seq![m.present_on_off, m.target_on_off, m.remaining_time])
            == Ok::<Status, ParseError>(m),
{
    reveal_with_fuel(flatten, 4);
    assert(flatten(m.spec_chunks()) =~= seq![m.present_on_off, m.target_on_off, m.remaining_time]);
    lemma_put_all_fits(Seq::empty(), cap, m.spec_chunks());
    assert(Seq::<u8>::empty() + flatten(m.spec_chunks()) =~= flatten(m.spec_chunks()));
}

/// The on/off server decodes a Set or Set Unacknowledged, and only those, as
/// a Set with the state in the first byte and the transaction identifier in
/// the second; the client decodes a Status, and only that, as a Status.
pub proof fn lemma_onoff_parse_by_opcode(op: Opcode, p: Seq<u8>)
    ensures
        spec_onoff_server_parse(op, p) matches Ok(Some(m)) ==> m is SetState
            && (op == generic_on_off_set() || op == generic_on_off_set_unacknowledge()),
        spec_onoff_client_parse(op, p) matches Ok(Some(m)) ==> m.spec_opcode() == op,
        (op == generic_on_off_set() || op == generic_on_off_set_unacknowledge()) && p.len() >= 2
            ==> (spec_onoff_server_parse(op, p) matches Ok(Some(GenericOnOffMessage::SetState(x))) && x.on_off == p[0]
            && x.tid == p[1]),
{
}

} // verus!
