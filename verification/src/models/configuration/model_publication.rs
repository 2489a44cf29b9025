//! The Config Model Publication messages.

use vstd::prelude::*;
use crate::error::{InsufficientBuffer, ParseError};
use crate::buffer::{put_all, flatten, Xmit, lemma_flatten_append, lemma_flatten_one};
use crate::chunks::{views, no_chunks, push_chunk, byte_chunk, append_chunks, slice_chunk};
use crate::common::{
    Opcode, ModelIdentifier, Ttl, model_identifier_chunks, spec_parse_model_identifier,
    lemma_model_identifier_roundtrip,
};
use crate::address::{
    Address, UnicastAddress, GroupAddress, VirtualAddress, LabelUuid, spec_parse_unicast,
    spec_address_of, be16, hi8, lo8,
};
use crate::models::{Status, status_code, spec_parse_status};
use crate::models::configuration::{AppKeyIndex, KeyIndex};
use crate::models::configuration::model_app::{unicast_le, unicast_le_chunks};
use vstd::std_specs::convert::FromSpecImpl;

verus! {

/// Opcode of Config Model Publication Set.
#[verifier::allow_in_spec]
pub fn config_model_publication_set() -> Opcode
    returns
        Opcode::OneOctet(0x03),
{
    Opcode::OneOctet(0x03)
}

/// Opcode of Config Model Publication Get.
#[verifier::allow_in_spec]
pub fn config_model_publication_get() -> Opcode
    returns
        Opcode::TwoOctet(0x80, 0x18),
{
    Opcode::TwoOctet(0x80, 0x18)
}

/// Opcode of Config Model Publication Status.
#[verifier::allow_in_spec]
pub fn config_model_publication_status() -> Opcode
    returns
        Opcode::TwoOctet(0x80, 0x19),
{
    Opcode::TwoOctet(0x80, 0x19)
}

/// Opcode of Config Model Publication Virtual Address Set.
#[verifier::allow_in_spec]
pub fn config_model_publication_virtual_address_set() -> Opcode
    returns
        Opcode::TwoOctet(0x80, 0x1A),
{
    Opcode::TwoOctet(0x80, 0x1A)
}

/// The step resolution of a publish period.
#[derive(Copy, Clone, Debug, PartialEq, Eq, Structural, Hash)]
pub enum Resolution {
    Milliseconds100,
    Seconds1,
    Seconds10,
    Minutes10,
}

/// The two-bit code of a resolution.
pub open spec fn resolution_bits(r: Resolution) -> u8 {
    match r {
        Resolution::Milliseconds100 => 0,
        Resolution::Seconds1 => 1,
        Resolution::Seconds10 => 2,
        Resolution::Minutes10 => 3,
    }
}

/// The resolution with a two-bit code.
pub open spec fn resolution_of_bits(b: u8) -> Resolution
    recommends
        b < 4,
{
    if b == 0 {
        Resolution::Milliseconds100
    } else if b == 1 {
        Resolution::Seconds1
    } else if b == 2 {
        Resolution::Seconds10
    } else {
        Resolution::Minutes10
    }
}

impl Resolution {
    /// The resolution with the two-bit code `value`.
    pub fn from_u8(value: u8) -> (r: Resolution)
        requires
            value < 4,
        ensures
            r == resolution_of_bits(value),
            resolution_bits(r) == value,
    {
        match value {
            0 => Resolution::Milliseconds100,
            1 => Resolution::Seconds1,
            2 => Resolution::Seconds10,
            _ => Resolution::Minutes10,
        }
    }

    /// The two-bit code of the resolution.
    pub fn bits(&self) -> (r: u8)
        ensures
            r == resolution_bits(*self),
    {
        match self {
            Resolution::Milliseconds100 => 0,
            Resolution::Seconds1 => 1,
            Resolution::Seconds10 => 2,
            Resolution::Minutes10 => 3,
        }
    }
}

/// The publish period byte: a step count in bits 0 to 5 and a resolution in
/// bits 6 and 7.
#[derive(Copy, Clone, Debug, PartialEq, Eq, Structural, Hash)]
pub struct PublishPeriod {
    period: u8,
}

impl View for PublishPeriod {
    type V = u8;

    closed spec fn view(&self) -> u8 {
        self.period
    }
}

impl PublishPeriod {
    /// The period with byte `v`.
    pub closed spec fn spec_from(v: u8) -> PublishPeriod {
        PublishPeriod { period: v }
    }

    pub proof fn lemma_spec_from(v: u8)
        ensures
            PublishPeriod::spec_from(v)@ == v,
    {
    }

    /// A period is determined by its byte.
    pub proof fn lemma_view_determines(p: PublishPeriod)
        ensures
            PublishPeriod::spec_from(p@) == p,
    {
    }

    /// A period of `steps` at `resolution`: the resolution code shifted into the
    /// top two bits, or'ed with `steps`.
    pub fn new(steps: u8, resolution: Resolution) -> (r: PublishPeriod)
        ensures
            r@ == ((resolution_bits(resolution) * 64) as u8 | steps),
    {
        PublishPeriod { period: (resolution.bits() * 64) | steps }
    }

    /// The resolution, from bits 6 and 7.
    pub fn resolution(&self) -> (r: Resolution)
        ensures
            r == resolution_of_bits(self@ / 64),
    {
        Resolution::from_u8(self.period / 64)
    }

    /// The number of steps, from bits 0 to 5.
    pub fn steps(&self) -> (r: u8)
        ensures
            r == self@ % 64,
    {
        self.period % 64
    }
}

impl From<u8> for PublishPeriod {
    fn from(period: u8) -> (r: PublishPeriod) {
        PublishPeriod { period }
    }
}

impl FromSpecImpl<u8> for PublishPeriod {
    open spec fn obeys_from_spec() -> bool {
        true
    }

    open spec fn from_spec(v: u8) -> PublishPeriod {
        PublishPeriod::spec_from(v)
    }
}

impl From<PublishPeriod> for u8 {
    fn from(val: PublishPeriod) -> (r: u8) {
        val.period
    }
}

impl FromSpecImpl<PublishPeriod> for u8 {
    open spec fn obeys_from_spec() -> bool {
        true
    }

    open spec fn from_spec(v: PublishPeriod) -> u8 {
        v@
    }
}

/// The publish retransmit byte: a count in the top three bits and interval
/// steps in the low five bits.
#[derive(Copy, Clone, Debug, PartialEq, Eq, Structural, Hash)]
pub struct PublishRetransmit {
    retransmit: u8,
}

impl View for PublishRetransmit {
    type V = u8;

    closed spec fn view(&self) -> u8 {
        self.retransmit
    }
}

impl PublishRetransmit {
    /// The retransmit configuration with byte `v`.
    pub closed spec fn spec_from(v: u8) -> PublishRetransmit {
        PublishRetransmit { retransmit: v }
    }

    pub proof fn lemma_spec_from(v: u8)
        ensures
            PublishRetransmit::spec_from(v)@ == v,
    {
    }

    /// A retransmit configuration is determined by its byte.
    pub proof fn lemma_view_determines(p: PublishRetransmit)
        ensures
            PublishRetransmit::spec_from(p@) == p,
    {
    }

    /// `count` shifted into the top three bits (its higher bits are lost) and
    /// the low five bits of `interval_steps`.
    pub fn new(count: u8, interval_steps: u8) -> (r: PublishRetransmit)
        ensures
            r@ == (count % 8) * 32 + interval_steps % 32,
    {
        let v = (count << 5) | (interval_steps & 0b00011111);
        assert((count << 5) | (interval_steps & 0x1f) == (count % 8) * 32 + interval_steps % 32)
            by (bit_vector);
        PublishRetransmit { retransmit: v }
    }

    /// The configuration with byte `retransmit`.
    pub fn from_u8(retransmit: u8) -> (r: PublishRetransmit)
        ensures
            r@ == retransmit,
    {
        PublishRetransmit { retransmit }
    }

    /// The retransmission count, from the top three bits.
    pub fn count(&self) -> (r: u8)
        ensures
            r == self@ / 32,
    {
        let r = self.retransmit >> 5;
        let v = self.retransmit;
        assert(v >> 5 == v / 32) by (bit_vector);
        r
    }

    /// The interval steps, from the low five bits.
    pub fn interval_steps(&self) -> (r: u8)
        ensures
            r == self@ % 32,
    {
        let v = self.retransmit;
        assert(v & 0x1f == v % 32) by (bit_vector);
        self.retransmit & 0b00011111
    }
}

impl From<u8> for PublishRetransmit {
    fn from(retransmit: u8) -> (r: PublishRetransmit) {
        PublishRetransmit::from_u8(retransmit)
    }
}

impl FromSpecImpl<u8> for PublishRetransmit {
    open spec fn obeys_from_spec() -> bool {
        true
    }

    open spec fn from_spec(v: u8) -> PublishRetransmit {
        PublishRetransmit::spec_from(v)
    }
}

impl From<PublishRetransmit> for u8 {
    fn from(val: PublishRetransmit) -> (r: u8) {
        val.retransmit
    }
}

impl FromSpecImpl<PublishRetransmit> for u8 {
    open spec fn obeys_from_spec() -> bool {
        true
    }

    open spec fn from_spec(v: PublishRetransmit) -> u8 {
        v@
    }
}

/// A period built from a step count below 64 gives back that count and
/// resolution.
pub proof fn lemma_publish_period_fields(steps: u8, resolution: Resolution)
    requires
        steps < 64,
    ensures
        ((resolution_bits(resolution) * 64) as u8 | steps) % 64 == steps,
        resolution_of_bits(((resolution_bits(resolution) * 64) as u8 | steps) / 64) == resolution,
{
    let b = resolution_bits(resolution);
    assert(b < 4);
    assert(((b * 64) as u8 | steps) % 64 == steps && ((b * 64) as u8 | steps) / 64 == b) by (bit_vector)
        requires
            b < 4,
            steps < 64,
    ;
}

/// A retransmit configuration built from a count below 8 and interval steps
/// below 32 gives back that count and those steps.
pub proof fn lemma_publish_retransmit_fields(count: u8, interval_steps: u8)
    requires
        count < 8,
        interval_steps < 32,
    ensures
        ((count % 8) * 32 + interval_steps % 32) / 32 == count,
        ((count % 8) * 32 + interval_steps % 32) % 32 == interval_steps,
{
}

/// The destination of the messages a model publishes.
#[derive(Copy, Clone, Debug, Hash)]
pub enum PublishAddress {
    Unicast(UnicastAddress),
    Group(GroupAddress),
    Label(LabelUuid),
    Virtual(VirtualAddress),
    Unassigned,
}

impl PartialEq for PublishAddress {
    fn eq(&self, other: &PublishAddress) -> (r: bool) {
        match (self, other) {
            (PublishAddress::Unicast(a), PublishAddress::Unicast(b)) => a == b,
            (PublishAddress::Group(a), PublishAddress::Group(b)) => a == b,
            (PublishAddress::Label(a), PublishAddress::Label(b)) => {
                let r = a == b;
                proof {
                    LabelUuid::lemma_eq(*a, *b);
                }
                r
            },
            (PublishAddress::Virtual(a), PublishAddress::Virtual(b)) => a == b,
            (PublishAddress::Unassigned, PublishAddress::Unassigned) => true,
            _ => false,
        }
    }
}

impl vstd::std_specs::cmp::PartialEqSpecImpl for PublishAddress {
    open spec fn obeys_eq_spec() -> bool {
        true
    }

    open spec fn eq_spec(&self, other: &PublishAddress) -> bool {
        *self == *other
    }
}

impl Eq for PublishAddress {
}

/// The publish address standing for a mesh address.
pub open spec fn publish_address_from(a: Address) -> PublishAddress {
    match a {
        Address::Unicast(u) => PublishAddress::Unicast(u),
        Address::Virtual(v) => PublishAddress::Virtual(v),
        Address::Group(g) => PublishAddress::Group(g),
        Address::Unassigned => PublishAddress::Unassigned,
    }
}

impl From<Address> for PublishAddress {
    fn from(address: Address) -> (r: PublishAddress) {
        match address {
            Address::Unicast(addr) => PublishAddress::Unicast(addr),
            Address::Virtual(addr) => PublishAddress::Virtual(addr),
            Address::Group(addr) => PublishAddress::Group(addr),
            Address::Unassigned => PublishAddress::Unassigned,
        }
    }
}

impl FromSpecImpl<Address> for PublishAddress {
    open spec fn obeys_from_spec() -> bool {
        true
    }

    open spec fn from_spec(v: Address) -> PublishAddress {
        publish_address_from(v)
    }
}

/// The chunks a publish address is written as: a 16-bit address low byte first,
/// a label as its sixteen bytes. Group addresses are not written.
pub open spec fn publish_address_chunks(a: PublishAddress) -> Seq<Seq<u8>> {
    match a {
        PublishAddress::Unicast(u) => unicast_le_chunks(u),
        PublishAddress::Group(_) => seq![],
        PublishAddress::Label(l) => seq![l.label()],
        PublishAddress::Virtual(v) => seq![seq![lo8(v.0)], seq![hi8(v.0)]],
        PublishAddress::Unassigned => seq![seq![0u8], seq![0u8]],
    }
}

/// The TTL field: the hop count, or 0xFF for "use the default TTL".
pub open spec fn ttl_byte(t: Option<Ttl>) -> u8 {
    match t {
        Some(t) => t@,
        None => 0xFF,
    }
}

/// Reading the TTL field: 0xFF means none.
pub open spec fn ttl_of_byte(b: u8) -> Option<Ttl> {
    if b == 0xFF {
        None
    } else {
        Some(Ttl::spec_new(b))
    }
}

/// The second byte of a key index as written, with the credential flag set
/// in bit 3 when `flag` holds.
pub open spec fn flagged_key_byte(k: KeyIndex, flag: bool) -> u8 {
    let b = ((hi8(k.0) as nat * 16) % 256) as u8;
    if flag {
        b | 0x08
    } else {
        b
    }
}

/// The publication state of a model.
#[derive(Copy, Clone, Debug, Hash)]
pub struct PublicationDetails {
    pub element_address: UnicastAddress,
    pub publish_address: PublishAddress,
    pub app_key_index: AppKeyIndex,
    pub credential_flag: bool,
    pub publish_ttl: Option<Ttl>,
    pub publish_period: PublishPeriod,
    pub publish_retransmit: PublishRetransmit,
    pub model_identifier: ModelIdentifier,
}

impl PartialEq for PublicationDetails {
    fn eq(&self, other: &PublicationDetails) -> (r: bool) {
        let ttl_eq = match (self.publish_ttl, other.publish_ttl) {
            (Some(a), Some(b)) => a == b,
            (None, None) => true,
            _ => false,
        };
        self.element_address == other.element_address && self.publish_address == other.publish_address
            && self.app_key_index == other.app_key_index && self.credential_flag == other.credential_flag
            && ttl_eq && self.publish_period == other.publish_period
            && self.publish_retransmit == other.publish_retransmit
            && self.model_identifier == other.model_identifier
    }
}

impl vstd::std_specs::cmp::PartialEqSpecImpl for PublicationDetails {
    open spec fn obeys_eq_spec() -> bool {
        true
    }

    open spec fn eq_spec(&self, other: &PublicationDetails) -> bool {
        *self == *other
    }
}

impl Eq for PublicationDetails {
}

/// The fields after the publish address, read at `off` bytes past their
/// position in a Model Publication Set with a 16-bit publish address.
pub open spec fn details_from(
    p: Seq<u8>,
    off: int,
    element_address: UnicastAddress,
    publish_address: PublishAddress,
    model_identifier: ModelIdentifier,
) -> PublicationDetails {
    PublicationDetails {
        element_address,
        publish_address,
        app_key_index: AppKeyIndex(KeyIndex(((p[5 + off] % 16) as nat * 256 + p[4 + off] as nat) as u16)),
        credential_flag: p[5 + off] & 0x08 != 0,
        publish_ttl: ttl_of_byte(p[6 + off]),
        publish_period: PublishPeriod::spec_from(p[7 + off]),
        publish_retransmit: PublishRetransmit::spec_from(p[8 + off]),
        model_identifier,
    }
}

/// Decoding publication details with a 16-bit publish address: at least
/// eleven bytes, the element address and publish address low byte first, the
/// application key index with the credential flag in bit 3 of its second byte,
/// the TTL, period and retransmit bytes, then a two- or four-byte model
/// identifier.
pub open spec fn spec_parse_details(p: Seq<u8>) -> Result<PublicationDetails, ParseError> {
    if p.len() >= 11 {
        match spec_parse_unicast(p[1], p[0]) {
            Ok(element_address) => match spec_parse_model_identifier(p.subrange(9, p.len() as int)) {
                Ok(model_identifier) => Ok(
                    details_from(
                        p,
                        0,
                        element_address,
                        publish_address_from(spec_address_of(be16(p[3], p[2]))),
                        model_identifier,
                    ),
                ),
                Err(e) => Err(e),
            },
            Err(e) => Err(e),
        }
    } else {
        Err(ParseError::InvalidLength)
    }
}

/// Decoding publication details with a label publish address: at least 25
/// bytes, the element address, the sixteen label bytes, then the fields of
/// [`spec_parse_details`] fourteen bytes further on.
pub open spec fn spec_parse_virtual_details(p: Seq<u8>) -> Result<PublicationDetails, ParseError> {
    if p.len() >= 25 {
        match spec_parse_unicast(p[1], p[0]) {
            Ok(element_address) => match spec_parse_model_identifier(p.subrange(23, p.len() as int)) {
                Ok(model_identifier) => Ok(
                    details_from(
                        p,
                        14,
                        element_address,
                        PublishAddress::Label(LabelUuid::spec_from_label(p.subrange(2, 18))),
                        model_identifier,
                    ),
                ),
                Err(e) => Err(e),
            },
            Err(e) => Err(e),
        }
    } else {
        Err(ParseError::InvalidLength)
    }
}

impl PublicationDetails {
    /// The chunks the details are written as.
    pub open spec fn spec_chunks(&self) -> Seq<Seq<u8>> {
        unicast_le_chunks(self.element_address) + publish_address_chunks(self.publish_address)
            + seq![
            seq![lo8(self.app_key_index.0.0)],
            seq![flagged_key_byte(self.app_key_index.0, self.credential_flag)],
            seq![ttl_byte(self.publish_ttl)],
            seq![self.publish_period@],
            seq![self.publish_retransmit@],
        ] + model_identifier_chunks(self.model_identifier)
    }

    /// Group publish addresses cannot be written.
    pub open spec fn can_emit(&self) -> bool {
        !(self.publish_address is Group)
    }

    /// The chunks of the details.
    pub fn chunks(&self) -> (r: Vec<Vec<u8>>)
        requires
            self.can_emit(),
        ensures
            views(r@) == self.spec_chunks(),
    {
        let mut r = unicast_le(&self.element_address);
        let ghost head = views(r@);
        match &self.publish_address {
            PublishAddress::Unicast(addr) => {
                append_chunks(&mut r, unicast_le(addr));
            },
            PublishAddress::Group(_) => {},
            PublishAddress::Label(addr) => {
                push_chunk(&mut r, slice_chunk(addr.label_uuid()));
            },
            PublishAddress::Unassigned => {
                push_chunk(&mut r, byte_chunk(0));
                push_chunk(&mut r, byte_chunk(0));
            },
            PublishAddress::Virtual(addr) => {
                let bytes = addr.as_bytes();
                push_chunk(&mut r, byte_chunk(bytes[1]));
                push_chunk(&mut r, byte_chunk(bytes[0]));
            },
        }
        assert(views(r@) =~= head + publish_address_chunks(self.publish_address));
        let ghost mid = views(r@);
        let k = self.app_key_index.0.0;
        push_chunk(&mut r, byte_chunk((k % 256) as u8));
        let b = (((k / 256) as u16 * 16) % 256) as u8;
        if self.credential_flag {
            push_chunk(&mut r, byte_chunk(b | 0b00001000));
        } else {
            push_chunk(&mut r, byte_chunk(b));
        }
        match self.publish_ttl {
            Some(ttl) => push_chunk(&mut r, byte_chunk(ttl.value())),
            None => push_chunk(&mut r, byte_chunk(0xFF)),
        }
        push_chunk(&mut r, byte_chunk(u8::from(self.publish_period)));
        push_chunk(&mut r, byte_chunk(u8::from(self.publish_retransmit)));
        let ghost tail = views(r@);
        append_chunks(&mut r, self.model_identifier.chunks());
        assert(tail =~= mid + seq![
            seq![lo8(self.app_key_index.0.0)],
            seq![flagged_key_byte(self.app_key_index.0, self.credential_flag)],
            seq![ttl_byte(self.publish_ttl)],
            seq![self.publish_period@],
            seq![self.publish_retransmit@],
        ]);
        assert(views(r@) =~= self.spec_chunks());
        r
    }

    /// Writes the details.
    pub fn emit_parameters(&self, xmit: &mut Xmit) -> (r: Result<(), InsufficientBuffer>)
        requires
            old(xmit).wf(),
            self.can_emit(),
        ensures
            final(xmit).wf(),
            final(xmit).cap() == old(xmit).cap(),
            (final(xmit)@, r is Ok) == put_all(old(xmit)@, old(xmit).cap(), self.spec_chunks()),
    {
        xmit.put_chunks(&self.chunks())
    }

    /// Decodes details with a 16-bit publish address.
    pub fn parse(parameters: &[u8]) -> (r: Result<PublicationDetails, ParseError>)
        ensures
            r == spec_parse_details(parameters@),
    {
        if parameters.len() >= 11 {
            let element_address = UnicastAddress::parse([parameters[1], parameters[0]])?;
            let publish_address = PublishAddress::from(Address::parse([parameters[3], parameters[2]]));
            let app_key_index = AppKeyIndex(KeyIndex::parse_one(vstd::slice::slice_subrange(parameters, 4, 6))?);
            let credential_flag = (parameters[5] & 0b0001000) != 0;
            let publish_ttl = parameters[6];
            let publish_ttl = if publish_ttl == 0xFF {
                None
            } else {
                Some(Ttl::new(publish_ttl))
            };
            let publish_period = PublishPeriod::from(parameters[7]);
            let publish_retransmit = PublishRetransmit::from(parameters[8]);
            let model_identifier = ModelIdentifier::parse(vstd::slice::slice_subrange(parameters, 9, parameters.len()))?;
            Ok(PublicationDetails {
                element_address,
                publish_address,
                app_key_index,
                credential_flag,
                publish_ttl,
                publish_period,
                publish_retransmit,
                model_identifier,
            })
        } else {
            Err(ParseError::InvalidLength)
        }
    }

    /// Decodes details with a label publish address.
    pub fn parse_virtual_address(parameters: &[u8]) -> (r: Result<PublicationDetails, ParseError>)
        ensures
            r == spec_parse_virtual_details(parameters@),
    {
        if parameters.len() >= 25 {
            let element_address = UnicastAddress::parse([parameters[1], parameters[0]])?;
            let label = LabelUuid::parse(vstd::slice::slice_subrange(parameters, 2, 18))?;
            let publish_address = PublishAddress::Label(label);
            let app_key_index = AppKeyIndex(KeyIndex::parse_one(vstd::slice::slice_subrange(parameters, 18, 20))?);
            let credential_flag = (parameters[19] & 0b0001000) != 0;
            let publish_ttl = parameters[20];
            let publish_ttl = if publish_ttl == 0xFF {
                None
            } else {
                Some(Ttl::new(publish_ttl))
            };
            let publish_period = PublishPeriod::from(parameters[21]);
            let publish_retransmit = PublishRetransmit::from(parameters[22]);
            let model_identifier = ModelIdentifier::parse(vstd::slice::slice_subrange(parameters, 23, parameters.len()))?;
            let d = PublicationDetails {
                element_address,
                publish_address,
                app_key_index,
                credential_flag,
                publish_ttl,
                publish_period,
                publish_retransmit,
                model_identifier,
            };
            assert(parameters@.subrange(18, 20)[1] == parameters@[19]);
            assert(d == details_from(parameters@, 14, element_address, publish_address, model_identifier));
            Ok(d)
        } else {
            Err(ParseError::InvalidLength)
        }
    }
}

/// Asks for the publication state of a model.
#[derive(Copy, Clone, Debug, PartialEq, Eq, Structural)]
pub struct ModelPublicationGetMessage {
    pub element_address: UnicastAddress,
    pub model_identifier: ModelIdentifier,
}

/// Decoding a Model Publication Get: the element address low byte first, then
/// a two- or four-byte model identifier.
pub open spec fn spec_parse_publication_get(p: Seq<u8>) -> Result<ModelPublicationGetMessage, ParseError> {
    if p.len() >= 4 {
        match spec_parse_unicast(p[1], p[0]) {
            Ok(element_address) => match spec_parse_model_identifier(p.subrange(2, p.len() as int)) {
                Ok(model_identifier) => Ok(ModelPublicationGetMessage { element_address, model_identifier }),
                Err(e) => Err(e),
            },
            Err(e) => Err(e),
        }
    } else {
        Err(ParseError::InvalidLength)
    }
}

impl ModelPublicationGetMessage {
    /// Decodes a Model Publication Get.
    pub fn parse(parameters: &[u8]) -> (r: Result<ModelPublicationGetMessage, ParseError>)
        ensures
            r == spec_parse_publication_get(parameters@),
    {
        if parameters.len() >= 4 {
            let element_address = UnicastAddress::parse([parameters[1], parameters[0]])?;
            let model_identifier = ModelIdentifier::parse(vstd::slice::slice_subrange(parameters, 2, parameters.len()))?;
            Ok(ModelPublicationGetMessage { element_address, model_identifier })
        } else {
            Err(ParseError::InvalidLength)
        }
    }
}

/// Sets the publication state of a model.
#[derive(Copy, Clone, Debug, PartialEq, Eq)]
pub struct ModelPublicationSetMessage {
    pub details: PublicationDetails,
}

impl ModelPublicationSetMessage {
    /// Writes the parameters.
    pub fn emit_parameters(&self, xmit: &mut Xmit) -> (r: Result<(), InsufficientBuffer>)
        requires
            old(xmit).wf(),
            self.details.can_emit(),
        ensures
            final(xmit).wf(),
            final(xmit).cap() == old(xmit).cap(),
            (final(xmit)@, r is Ok) == put_all(old(xmit)@, old(xmit).cap(), self.details.spec_chunks()),
    {
        self.details.emit_parameters(xmit)
    }

    /// Decodes a Model Publication Set.
    pub fn parse(parameters: &[u8]) -> (r: Result<ModelPublicationSetMessage, ParseError>)
        ensures
            r == (match spec_parse_details(parameters@) {
                Ok(details) => Ok(ModelPublicationSetMessage { details }),
                Err(e) => Err(e),
            }),
    {
        Ok(ModelPublicationSetMessage { details: PublicationDetails::parse(parameters)? })
    }

    /// Decodes a Model Publication Virtual Address Set.
    pub fn parse_virtual_address(parameters: &[u8]) -> (r: Result<ModelPublicationSetMessage, ParseError>)
        ensures
            r == (match spec_parse_virtual_details(parameters@) {
                Ok(details) => Ok(ModelPublicationSetMessage { details }),
                Err(e) => Err(e),
            }),
    {
        Ok(ModelPublicationSetMessage { details: PublicationDetails::parse_virtual_address(parameters)? })
    }
}

/// Reports the publication state of a model.
#[derive(Copy, Clone, Debug, PartialEq, Eq)]
pub struct ModelPublicationStatusMessage {
    pub status: Status,
    pub details: PublicationDetails,
}

/// Decoding a Model Publication Status: a status code, then details.
pub open spec fn spec_parse_publication_status(p: Seq<u8>) -> Result<ModelPublicationStatusMessage, ParseError>
    recommends
        p.len() >= 1,
{
    match spec_parse_status(p[0]) {
        Ok(status) => match spec_parse_details(p.subrange(1, p.len() as int)) {
            Ok(details) => Ok(ModelPublicationStatusMessage { status, details }),
            Err(e) => Err(e),
        },
        Err(e) => Err(e),
    }
}

impl ModelPublicationStatusMessage {
    pub open spec fn spec_chunks(&self) -> Seq<Seq<u8>> {
        seq![seq![status_code(self.status)]] + self.details.spec_chunks()
    }

    /// Writes the parameters.
    pub fn emit_parameters(&self, xmit: &mut Xmit) -> (r: Result<(), InsufficientBuffer>)
        requires
            old(xmit).wf(),
            self.details.can_emit(),
        ensures
            final(xmit).wf(),
            final(xmit).cap() == old(xmit).cap(),
            (final(xmit)@, r is Ok) == put_all(old(xmit)@, old(xmit).cap(), self.spec_chunks()),
    {
        let mut c = no_chunks();
        push_chunk(&mut c, byte_chunk(self.status.code()));
        append_chunks(&mut c, self.details.chunks());
        assert(views(c@) =~= self.spec_chunks());
        xmit.put_chunks(&c)
    }

    /// Decodes a Model Publication Status. The first byte is read unchecked,
    /// so an empty input is outside its domain.
    pub fn parse(parameters: &[u8]) -> (r: Result<ModelPublicationStatusMessage, ParseError>)
        requires
            parameters@.len() >= 1,
        ensures
            r == spec_parse_publication_status(parameters@),
    {
        let status = Status::parse(parameters[0])?;
        let details = PublicationDetails::parse(vstd::slice::slice_subrange(parameters, 1, parameters.len()))?;
        Ok(ModelPublicationStatusMessage { status, details })
    }
}

/// Model publication messages.
#[derive(Copy, Clone, Debug)]
pub enum ModelPublicationMessage {
    Get(ModelPublicationGetMessage),
    SetState(ModelPublicationSetMessage),
    VirtualAddressSet(ModelPublicationSetMessage),
    Status(ModelPublicationStatusMessage),
}

impl ModelPublicationMessage {
    pub open spec fn spec_opcode(&self) -> Opcode {
        match *self {
            ModelPublicationMessage::Get(_) => config_model_publication_get(),
            ModelPublicationMessage::SetState(_) => config_model_publication_set(),
            ModelPublicationMessage::VirtualAddressSet(_) => config_model_publication_virtual_address_set(),
            ModelPublicationMessage::Status(_) => config_model_publication_status(),
        }
    }

    /// The opcode of the message.
    pub fn opcode(&self) -> (r: Opcode)
        ensures
            r == self.spec_opcode(),
    {
        match self {
            ModelPublicationMessage::Get(_) => config_model_publication_get(),
            ModelPublicationMessage::SetState(_) => config_model_publication_set(),
            ModelPublicationMessage::VirtualAddressSet(_) => config_model_publication_virtual_address_set(),
            ModelPublicationMessage::Status(_) => config_model_publication_status(),
        }
    }

    /// Get messages cannot be written, nor details with a group address.
    pub open spec fn can_emit(&self) -> bool {
        match *self {
            ModelPublicationMessage::Get(_) => false,
            ModelPublicationMessage::SetState(m) => m.details.can_emit(),
            ModelPublicationMessage::VirtualAddressSet(m) => m.details.can_emit(),
            ModelPublicationMessage::Status(m) => m.details.can_emit(),
        }
    }

    pub open spec fn spec_chunks(&self) -> Seq<Seq<u8>> {
        match *self {
            ModelPublicationMessage::Get(_) => seq![],
            ModelPublicationMessage::SetState(m) => m.details.spec_chunks(),
            ModelPublicationMessage::VirtualAddressSet(m) => m.details.spec_chunks(),
            ModelPublicationMessage::Status(m) => m.spec_chunks(),
        }
    }

    /// Writes the parameters.
    pub fn emit_parameters(&self, xmit: &mut Xmit) -> (r: Result<(), InsufficientBuffer>)
        requires
            old(xmit).wf(),
            self.can_emit(),
        ensures
            final(xmit).wf(),
            final(xmit).cap() == old(xmit).cap(),
            (final(xmit)@, r is Ok) == put_all(old(xmit)@, old(xmit).cap(), self.spec_chunks()),
    {
        match self {
            ModelPublicationMessage::Get(_) => Ok(()),
            ModelPublicationMessage::SetState(inner) => inner.emit_parameters(xmit),
            ModelPublicationMessage::VirtualAddressSet(inner) => inner.emit_parameters(xmit),
            ModelPublicationMessage::Status(inner) => inner.emit_parameters(xmit),
        }
    }

    /// Decodes a Model Publication Set.
    pub fn parse_set(parameters: &[u8]) -> (r: Result<ModelPublicationMessage, ParseError>)
        ensures
            r == (match spec_parse_details(parameters@) {
                Ok(details) => Ok(ModelPublicationMessage::SetState(ModelPublicationSetMessage { details })),
                Err(e) => Err(e),
            }),
    {
        Ok(ModelPublicationMessage::SetState(ModelPublicationSetMessage::parse(parameters)?))
    }

    /// Decodes a Model Publication Virtual Address Set.
    pub fn parse_virtual_address_set(parameters: &[u8]) -> (r: Result<ModelPublicationMessage, ParseError>)
        ensures
            r == (match spec_parse_virtual_details(parameters@) {
                Ok(details) => Ok(ModelPublicationMessage::VirtualAddressSet(ModelPublicationSetMessage { details })),
                Err(e) => Err(e),
            }),
    {
        Ok(ModelPublicationMessage::VirtualAddressSet(ModelPublicationSetMessage::parse_virtual_address(parameters)?))
    }

    /// Decodes a Model Publication Get.
    pub fn parse_get(parameters: &[u8]) -> (r: Result<ModelPublicationMessage, ParseError>)
        ensures
            r == (match spec_parse_publication_get(parameters@) {
                Ok(m) => Ok(ModelPublicationMessage::Get(m)),
                Err(e) => Err(e),
            }),
    {
        Ok(ModelPublicationMessage::Get(ModelPublicationGetMessage::parse(parameters)?))
    }

    /// Decodes a Model Publication Status.
    pub fn parse_status(parameters: &[u8]) -> (r: Result<ModelPublicationMessage, ParseError>)
        requires
            parameters@.len() >= 1,
        ensures
            r == (match spec_parse_publication_status(parameters@) {
                Ok(m) => Ok(ModelPublicationMessage::Status(m)),
                Err(e) => Err(e),
            }),
    {
        Ok(ModelPublicationMessage::Status(ModelPublicationStatusMessage::parse(parameters)?))
    }
}

/// The bytes of publication details with a label publish address.
proof fn lemma_label_details_bytes(d: PublicationDetails, l: LabelUuid)
    requires
        d.publish_address == PublishAddress::Label(l),
    ensures
        flatten(d.spec_chunks()) == seq![lo8(d.element_address@), hi8(d.element_address@)] + l.label()
            + seq![
            lo8(d.app_key_index.0.0),
            flagged_key_byte(d.app_key_index.0, d.credential_flag),
            ttl_byte(d.publish_ttl),
            d.publish_period@,
            d.publish_retransmit@,
        ] + flatten(model_identifier_chunks(d.model_identifier)),
{
    let a = unicast_le_chunks(d.element_address);
    let b = publish_address_chunks(d.publish_address);
    let c = seq![
        seq![lo8(d.app_key_index.0.0)],
        seq![flagged_key_byte(d.app_key_index.0, d.credential_flag)],
        seq![ttl_byte(d.publish_ttl)],
        seq![d.publish_period@],
        seq![d.publish_retransmit@],
    ];
    let m = model_identifier_chunks(d.model_identifier);
    lemma_flatten_append(a + b + c, m);
    lemma_flatten_append(a + b, c);
    lemma_flatten_append(a, b);
    lemma_flatten_one(l.label());
    reveal_with_fuel(flatten, 6);
    assert(flatten(a) =~= seq![lo8(d.element_address@), hi8(d.element_address@)]);
    assert(flatten(c) =~= seq![
        lo8(d.app_key_index.0.0),
        flagged_key_byte(d.app_key_index.0, d.credential_flag),
        ttl_byte(d.publish_ttl),
        d.publish_period@,
        d.publish_retransmit@,
    ]);
}

/// Publication details with a label publish address, written into a buffer
/// with room for them and read back as a Virtual Address Set, are the details
/// that were written. This holds when the credential flag is clear (a set flag
/// lands in the bits read back as the key index), the application key index is
/// below 256 (only its low byte survives the key index encoding), the TTL is
/// not 0xFF (read back as no TTL), the element address is a unicast address and
/// the label carries its own virtual address.
pub proof fn lemma_virtual_details_roundtrip(d: PublicationDetails, cap: nat)
    requires
        d.publish_address matches PublishAddress::Label(l) && l.wf(),
        crate::address::is_unicast(d.element_address@),
        !d.credential_flag,
        d.app_key_index.0.0 < 256,
        d.publish_ttl matches Some(t) ==> t@ != 0xFF,
        cap >= flatten(d.spec_chunks()).len(),
    ensures
        put_all(Seq::empty(), cap, d.spec_chunks()) == (flatten(d.spec_chunks()), true),
        spec_parse_virtual_details(flatten(d.spec_chunks())) == Ok::<PublicationDetails, ParseError>(d),
{
    let l = d.publish_address->Label_0;
    let bytes = flatten(d.spec_chunks());
    crate::buffer::lemma_put_all_fits(Seq::empty(), cap, d.spec_chunks());
    assert(Seq::<u8>::empty() + bytes =~= bytes);
    lemma_label_details_bytes(d, l);
    LabelUuid::lemma_label_len(l);
    lemma_model_identifier_roundtrip(d.model_identifier);
    let mb = flatten(model_identifier_chunks(d.model_identifier));
    let ea = d.element_address;
    let k = d.app_key_index.0.0;
    assert(mb.len() == 2 || mb.len() == 4);
    assert(bytes.len() >= 25);
    assert(bytes[0] == lo8(ea@) && bytes[1] == hi8(ea@));
    crate::address::lemma_be16_split(ea@);
    UnicastAddress::lemma_view_determines(ea);
    assert(spec_parse_unicast(bytes[1], bytes[0]) == Ok::<UnicastAddress, ParseError>(ea));
    assert(bytes.subrange(23, bytes.len() as int) =~= mb);
    assert(bytes.subrange(2, 18) =~= l.label());
    LabelUuid::lemma_spec_from_label(l.label());
    LabelUuid::lemma_wf_label_unique(l, LabelUuid::spec_from_label(l.label()));
    assert(hi8(k) == 0);
    assert(flagged_key_byte(d.app_key_index.0, false) == 0);
    assert(0u8 & 0x08u8 == 0u8) by (bit_vector);
    assert(bytes[18] == lo8(k) && bytes[19] == 0);
    assert(bytes[20] == ttl_byte(d.publish_ttl));
    match d.publish_ttl {
        Some(t) => {
            Ttl::lemma_view_determines(t);
        },
        None => {},
    }
    PublishPeriod::lemma_view_determines(d.publish_period);
    PublishRetransmit::lemma_view_determines(d.publish_retransmit);
    let dd = details_from(bytes, 14, ea, PublishAddress::Label(l), d.model_identifier);
    assert(dd.app_key_index == d.app_key_index);
    assert(dd == d);
}

} // verus!
