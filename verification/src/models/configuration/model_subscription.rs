//! The Config Model Subscription messages.

use vstd::prelude::*;
use crate::error::{InsufficientBuffer, ParseError};
use crate::buffer::{put_all, Xmit};
use crate::chunks::{views, no_chunks, push_chunk, byte_chunk, append_chunks};
use crate::common::{Opcode, ModelIdentifier, model_identifier_chunks, spec_parse_model_identifier};
use crate::address::{
    Address, UnicastAddress, GroupAddress, LabelUuid, spec_parse_unicast, spec_address_of, be16,
    hi8, lo8,
};
use crate::models::{Status, status_code, spec_parse_status};
use crate::models::configuration::model_app::{unicast_le, unicast_le_chunks};

verus! {

/// Opcode of Config Model Subscription Add.
#[verifier::allow_in_spec]
pub fn config_model_subscription_add() -> Opcode
    returns
        Opcode::TwoOctet(0x80, 0x1B),
{
    Opcode::TwoOctet(0x80, 0x1B)
}

/// Opcode of Config Model Subscription Delete.
#[verifier::allow_in_spec]
pub fn config_model_subscription_delete() -> Opcode
    returns
        Opcode::TwoOctet(0x80, 0x1C),
{
    Opcode::TwoOctet(0x80, 0x1C)
}

/// Opcode of Config Model Subscription Delete All.
#[verifier::allow_in_spec]
pub fn config_model_subscription_delete_all() -> Opcode
    returns
        Opcode::TwoOctet(0x80, 0x1D),
{
    Opcode::TwoOctet(0x80, 0x1D)
}

/// Opcode of Config Model Subscription Overwrite.
#[verifier::allow_in_spec]
pub fn config_model_subscription_overwrite() -> Opcode
    returns
        Opcode::TwoOctet(0x80, 0x1E),
{
    Opcode::TwoOctet(0x80, 0x1E)
}

/// Opcode of Config Model Subscription Status.
#[verifier::allow_in_spec]
pub fn config_model_subscription_status() -> Opcode
    returns
        Opcode::TwoOctet(0x80, 0x1F),
{
    Opcode::TwoOctet(0x80, 0x1F)
}

/// Opcode of Config Model Subscription Virtual Address Add.
#[verifier::allow_in_spec]
pub fn config_model_subscription_virtual_address_add() -> Opcode
    returns
        Opcode::TwoOctet(0x80, 0x20),
{
    Opcode::TwoOctet(0x80, 0x20)
}

/// Opcode of Config Model Subscription Virtual Address Delete.
#[verifier::allow_in_spec]
pub fn config_model_subscription_virtual_address_delete() -> Opcode
    returns
        Opcode::TwoOctet(0x80, 0x21),
{
    Opcode::TwoOctet(0x80, 0x21)
}

/// Opcode of Config Model Subscription Virtual Address Overwrite.
#[verifier::allow_in_spec]
pub fn config_model_subscription_virtual_address_overwrite() -> Opcode
    returns
        Opcode::TwoOctet(0x80, 0x22),
{
    Opcode::TwoOctet(0x80, 0x22)
}

/// Opcode of Config SIG Model Subscription Get.
#[verifier::allow_in_spec]
pub fn config_sig_model_subscription_get() -> Opcode
    returns
        Opcode::TwoOctet(0x80, 0x29),
{
    Opcode::TwoOctet(0x80, 0x29)
}

/// Opcode of Config SIG Model Subscription List.
#[verifier::allow_in_spec]
pub fn config_sig_model_subscription_list() -> Opcode
    returns
        Opcode::TwoOctet(0x80, 0x2A),
{
    Opcode::TwoOctet(0x80, 0x2A)
}

/// Opcode of Config Vendor Model Subscription Get.
#[verifier::allow_in_spec]
pub fn config_vendor_model_subscription_get() -> Opcode
    returns
        Opcode::TwoOctet(0x80, 0x2B),
{
    Opcode::TwoOctet(0x80, 0x2B)
}

/// Opcode of Config Vendor Model Subscription List.
#[verifier::allow_in_spec]
pub fn config_vendor_model_subscription_list() -> Opcode
    returns
        Opcode::TwoOctet(0x80, 0x2C),
{
    Opcode::TwoOctet(0x80, 0x2C)
}

/// An address a model subscribes to.
#[derive(Copy, Clone, Debug, Hash)]
pub enum SubscriptionAddress {
    Unicast(UnicastAddress),
    Group(GroupAddress),
    Label(LabelUuid),
    Unassigned,
}

impl PartialEq for SubscriptionAddress {
    fn eq(&self, other: &SubscriptionAddress) -> (r: bool) {
        match (self, other) {
            (SubscriptionAddress::Unicast(a), SubscriptionAddress::Unicast(b)) => a == b,
            (SubscriptionAddress::Group(a), SubscriptionAddress::Group(b)) => a == b,
            (SubscriptionAddress::Label(a), SubscriptionAddress::Label(b)) => {
                let r = a == b;
                proof {
                    LabelUuid::lemma_eq(*a, *b);
                }
                r
            },
            (SubscriptionAddress::Unassigned, SubscriptionAddress::Unassigned) => true,
            _ => false,
        }
    }
}

impl vstd::std_specs::cmp::PartialEqSpecImpl for SubscriptionAddress {
    open spec fn obeys_eq_spec() -> bool {
        true
    }

    open spec fn eq_spec(&self, other: &SubscriptionAddress) -> bool {
        *self == *other
    }
}

impl Eq for SubscriptionAddress {
}

/// The subscription address standing for a mesh address: unicast and group
/// addresses are kept, unassigned and virtual addresses refused.
pub open spec fn subscription_address_from(a: Address) -> Result<SubscriptionAddress, ()> {
    match a {
        Address::Unicast(u) => Ok(SubscriptionAddress::Unicast(u)),
        Address::Group(g) => Ok(SubscriptionAddress::Group(g)),
        _ => Err(()),
    }
}

/// The chunks a subscription address is written as in a status: its 16-bit
/// address (the virtual address of a label) low byte first, zero for an
/// unassigned address.
pub open spec fn subscription_address_chunks(a: SubscriptionAddress) -> Seq<Seq<u8>> {
    match a {
        SubscriptionAddress::Unicast(u) => unicast_le_chunks(u),
        SubscriptionAddress::Group(g) => seq![seq![lo8(g.0)], seq![hi8(g.0)]],
        SubscriptionAddress::Label(l) => seq![
            seq![lo8(l.spec_virtual_address().0)],
            seq![hi8(l.spec_virtual_address().0)],
        ],
        SubscriptionAddress::Unassigned => seq![seq![0u8], seq![0u8]],
    }
}

/// The chunks an entry of a subscription list is written as: unassigned
/// entries are skipped, and group entries cannot be written.
pub open spec fn list_entry_chunks(a: SubscriptionAddress) -> Seq<Seq<u8>> {
    match a {
        SubscriptionAddress::Unicast(u) => unicast_le_chunks(u),
        SubscriptionAddress::Label(l) => seq![
            seq![lo8(l.spec_virtual_address().0)],
            seq![hi8(l.spec_virtual_address().0)],
        ],
        _ => seq![],
    }
}

/// The chunks of a list of subscription addresses, one entry after the other.
pub open spec fn list_chunks(s: Seq<SubscriptionAddress>) -> Seq<Seq<u8>>
    decreases s.len(),
{
    if s.len() == 0 {
        seq![]
    } else {
        list_chunks(s.drop_last()) + list_entry_chunks(s.last())
    }
}

/// The chunks of a 16-bit address, low byte first.
fn address_le(v: u16) -> (r: Vec<Vec<u8>>)
    ensures
        views(r@) == seq![seq![lo8(v)], seq![hi8(v)]],
{
    let mut r = no_chunks();
    push_chunk(&mut r, byte_chunk((v % 256) as u8));
    push_chunk(&mut r, byte_chunk((v / 256) as u8));
    assert(views(r@) =~= seq![seq![lo8(v)], seq![hi8(v)]]);
    r
}

impl SubscriptionAddress {
    /// The subscription address standing for `address`, if there is one.
    pub fn try_from_address(address: Address) -> (r: Result<SubscriptionAddress, ()>)
        ensures
            r == subscription_address_from(address),
    {
        match address {
            Address::Unassigned => Err(()),
            Address::Unicast(inner) => Ok(SubscriptionAddress::Unicast(inner)),
            Address::Virtual(_) => Err(()),
            Address::Group(inner) => Ok(SubscriptionAddress::Group(inner)),
        }
    }

    /// The chunks of the address in a status message.
    pub fn chunks(&self) -> (r: Vec<Vec<u8>>)
        ensures
            views(r@) == subscription_address_chunks(*self),
    {
        match self {
            SubscriptionAddress::Unicast(addr) => unicast_le(addr),
            SubscriptionAddress::Group(addr) => address_le(addr.0),
            SubscriptionAddress::Label(addr) => address_le(addr.virtual_address().0),
            SubscriptionAddress::Unassigned => address_le(0),
        }
    }
}

/// Names a subscription address of a model.
#[derive(Copy, Clone, Debug)]
pub struct ModelSubscriptionPayload {
    pub element_address: UnicastAddress,
    pub subscription_address: SubscriptionAddress,
    pub model_identifier: ModelIdentifier,
}

/// Decoding a subscription payload with a 16-bit address: the element and
/// subscription addresses low byte first, then a two- or four-byte model
/// identifier. Unassigned and virtual subscription addresses are refused.
pub open spec fn spec_parse_subscription_payload(p: Seq<u8>) -> Result<ModelSubscriptionPayload, ParseError> {
    if p.len() >= 6 {
        match spec_parse_unicast(p[1], p[0]) {
            Ok(element_address) => match subscription_address_from(spec_address_of(be16(p[3], p[2]))) {
                Ok(subscription_address) => match spec_parse_model_identifier(p.subrange(4, p.len() as int)) {
                    Ok(model_identifier) => Ok(
                        ModelSubscriptionPayload { element_address, subscription_address, model_identifier },
                    ),
                    Err(e) => Err(e),
                },
                Err(_) => Err(ParseError::InvalidValue),
            },
            Err(e) => Err(e),
        }
    } else {
        Err(ParseError::InvalidLength)
    }
}

/// Decoding a subscription payload with a label: at least 19 bytes, the
/// element address, the sixteen label bytes, then the model identifier.
pub open spec fn spec_parse_virtual_payload(p: Seq<u8>) -> Result<ModelSubscriptionPayload, ParseError> {
    if p.len() >= 19 {
        match spec_parse_unicast(p[1], p[0]) {
            Ok(element_address) => match spec_parse_model_identifier(p.subrange(18, p.len() as int)) {
                Ok(model_identifier) => Ok(
                    ModelSubscriptionPayload {
                        element_address,
                        subscription_address: SubscriptionAddress::Label(
                            LabelUuid::spec_from_label(p.subrange(2, 18)),
                        ),
                        model_identifier,
                    },
                ),
                Err(e) => Err(e),
            },
            Err(e) => Err(e),
        }
    } else {
        Err(ParseError::InvalidLength)
    }
}

impl ModelSubscriptionPayload {
    /// Decodes a payload with a 16-bit subscription address.
    pub fn parse(parameters: &[u8]) -> (r: Result<ModelSubscriptionPayload, ParseError>)
        ensures
            r == spec_parse_subscription_payload(parameters@),
    {
        if parameters.len() >= 6 {
            let element_address = UnicastAddress::parse([parameters[1], parameters[0]])?;
            let subscription_address = match SubscriptionAddress::try_from_address(
                Address::parse([parameters[3], parameters[2]]),
            ) {
                Ok(a) => a,
                Err(_) => return Err(ParseError::InvalidValue),
            };
            let model_identifier = ModelIdentifier::parse(vstd::slice::slice_subrange(parameters, 4, parameters.len()))?;
            Ok(ModelSubscriptionPayload { element_address, subscription_address, model_identifier })
        } else {
            Err(ParseError::InvalidLength)
        }
    }

    /// Decodes a payload with a label.
    pub fn parse_virtual_address(parameters: &[u8]) -> (r: Result<ModelSubscriptionPayload, ParseError>)
        ensures
            r == spec_parse_virtual_payload(parameters@),
    {
        if parameters.len() >= 19 {
            let element_address = UnicastAddress::parse([parameters[1], parameters[0]])?;
            let subscription_address = SubscriptionAddress::Label(
                LabelUuid::parse(vstd::slice::slice_subrange(parameters, 2, 18))?,
            );
            let model_identifier = ModelIdentifier::parse(vstd::slice::slice_subrange(parameters, 18, parameters.len()))?;
            Ok(ModelSubscriptionPayload { element_address, subscription_address, model_identifier })
        } else {
            Err(ParseError::InvalidLength)
        }
    }
}

/// Removes every subscription of a model.
#[derive(Copy, Clone, Debug, PartialEq, Eq, Structural)]
pub struct ModelSubscriptionDeleteAllMessage {
    pub element_address: UnicastAddress,
    pub model_identifier: ModelIdentifier,
}

/// Decoding an element address and a model identifier: at least four bytes.
pub open spec fn spec_parse_element_model(p: Seq<u8>) -> Result<(UnicastAddress, ModelIdentifier), ParseError> {
    if p.len() >= 4 {
        match spec_parse_unicast(p[1], p[0]) {
            Ok(element_address) => match spec_parse_model_identifier(p.subrange(2, p.len() as int)) {
                Ok(model_identifier) => Ok((element_address, model_identifier)),
                Err(e) => Err(e),
            },
            Err(e) => Err(e),
        }
    } else {
        Err(ParseError::InvalidLength)
    }
}

/// Decodes an element address and a model identifier.
fn parse_element_model(parameters: &[u8]) -> (r: Result<(UnicastAddress, ModelIdentifier), ParseError>)
    ensures
        r == spec_parse_element_model(parameters@),
{
    if parameters.len() >= 4 {
        let element_address = UnicastAddress::parse([parameters[1], parameters[0]])?;
        let model_identifier = ModelIdentifier::parse(vstd::slice::slice_subrange(parameters, 2, parameters.len()))?;
        Ok((element_address, model_identifier))
    } else {
        Err(ParseError::InvalidLength)
    }
}

impl ModelSubscriptionDeleteAllMessage {
    /// Decodes a Model Subscription Delete All.
    pub fn parse(parameters: &[u8]) -> (r: Result<ModelSubscriptionDeleteAllMessage, ParseError>)
        ensures
            r == (match spec_parse_element_model(parameters@) {
                Ok((element_address, model_identifier)) => Ok(
                    ModelSubscriptionDeleteAllMessage { element_address, model_identifier },
                ),
                Err(e) => Err(e),
            }),
    {
        let (element_address, model_identifier) = parse_element_model(parameters)?;
        Ok(ModelSubscriptionDeleteAllMessage { element_address, model_identifier })
    }
}

/// Replaces the subscriptions of a model with one address.
#[derive(Copy, Clone, Debug)]
pub struct ModelSubscriptionOverwriteMessage {
    pub element_address: UnicastAddress,
    pub subscription_address: SubscriptionAddress,
    pub model_identifier: ModelIdentifier,
}

impl ModelSubscriptionOverwriteMessage {
    /// Decodes an overwrite with a unicast address. The model identifier is
    /// read from the tenth byte on, so inputs of six to eight bytes whose two
    /// addresses decode are outside the domain (the slice would be out of range).
    pub fn parse(parameters: &[u8]) -> (r: Result<ModelSubscriptionOverwriteMessage, ParseError>)
        requires
            parameters@.len() < 6 || parameters@.len() >= 9
                || spec_parse_unicast(parameters@[1], parameters@[0]) is Err
                || spec_parse_unicast(parameters@[3], parameters@[2]) is Err,
        ensures
            parameters@.len() < 6 ==> r == Err::<ModelSubscriptionOverwriteMessage, ParseError>(
                ParseError::InvalidLength,
            ),
            parameters@.len() >= 6 ==> match spec_parse_unicast(parameters@[1], parameters@[0]) {
                Err(e) => r == Err::<ModelSubscriptionOverwriteMessage, ParseError>(e),
                Ok(element_address) => match spec_parse_unicast(parameters@[3], parameters@[2]) {
                    Err(e) => r == Err::<ModelSubscriptionOverwriteMessage, ParseError>(e),
                    Ok(a) => match spec_parse_model_identifier(parameters@.subrange(9, parameters@.len() as int)) {
                        Err(e) => r == Err::<ModelSubscriptionOverwriteMessage, ParseError>(e),
                        Ok(model_identifier) => r == Ok::<ModelSubscriptionOverwriteMessage, ParseError>(
                            ModelSubscriptionOverwriteMessage {
                                element_address,
                                subscription_address: SubscriptionAddress::Unicast(a),
                                model_identifier,
                            },
                        ),
                    },
                },
            },
    {
        if parameters.len() >= 6 {
            let element_address = UnicastAddress::parse([parameters[1], parameters[0]])?;
            let subscription_address = SubscriptionAddress::Unicast(
                UnicastAddress::parse([parameters[3], parameters[2]])?,
            );
            let model_identifier = ModelIdentifier::parse(vstd::slice::slice_subrange(parameters, 9, parameters.len()))?;
            Ok(ModelSubscriptionOverwriteMessage { element_address, subscription_address, model_identifier })
        } else {
            Err(ParseError::InvalidLength)
        }
    }

    /// Decodes an overwrite with a label.
    pub fn parse_virtual_address(parameters: &[u8]) -> (r: Result<ModelSubscriptionOverwriteMessage, ParseError>)
        ensures
            r == (match spec_parse_virtual_payload(parameters@) {
                Ok(p) => Ok(ModelSubscriptionOverwriteMessage {
                    element_address: p.element_address,
                    subscription_address: p.subscription_address,
                    model_identifier: p.model_identifier,
                }),
                Err(e) => Err(e),
            }),
    {
        let p = ModelSubscriptionPayload::parse_virtual_address(parameters)?;
        Ok(ModelSubscriptionOverwriteMessage {
            element_address: p.element_address,
            subscription_address: p.subscription_address,
            model_identifier: p.model_identifier,
        })
    }
}

/// Reports the outcome of a subscription change.
#[derive(Copy, Clone, Debug)]
pub struct ModelSubscriptionStatusMessage {
    pub status: Status,
    pub element_address: UnicastAddress,
    pub subscription_address: SubscriptionAddress,
    pub model_identifier: ModelIdentifier,
}

/// Decoding a Model Subscription Status: a status code, the element and
/// subscription addresses low byte first, then the model identifier. An
/// unassigned or virtual subscription address is refused as an invalid value.
pub open spec fn spec_parse_subscription_status(p: Seq<u8>) -> Result<ModelSubscriptionStatusMessage, ParseError>
    recommends
        p.len() >= 5,
{
    match spec_parse_status(p[0]) {
        Ok(status) => match spec_parse_unicast(p[2], p[1]) {
            Ok(element_address) => match spec_parse_model_identifier(p.subrange(5, p.len() as int)) {
                Ok(model_identifier) => match subscription_address_from(spec_address_of(be16(p[4], p[3]))) {
                    Ok(subscription_address) => Ok(
                        ModelSubscriptionStatusMessage {
                            status,
                            element_address,
                            subscription_address,
                            model_identifier,
                        },
                    ),
                    Err(_) => Err(ParseError::InvalidValue),
                },
                Err(e) => Err(e),
            },
            Err(e) => Err(e),
        },
        Err(e) => Err(e),
    }
}

impl ModelSubscriptionStatusMessage {
    pub open spec fn spec_chunks(&self) -> Seq<Seq<u8>> {
        seq![seq![status_code(self.status)]] + unicast_le_chunks(self.element_address)
            + subscription_address_chunks(self.subscription_address) + model_identifier_chunks(
            self.model_identifier,
        )
    }

    /// The chunks of the parameters.
    pub fn chunks(&self) -> (r: Vec<Vec<u8>>)
        ensures
            views(r@) == self.spec_chunks(),
    {
        let mut r = no_chunks();
        push_chunk(&mut r, byte_chunk(self.status.code()));
        append_chunks(&mut r, unicast_le(&self.element_address));
        append_chunks(&mut r, self.subscription_address.chunks());
        append_chunks(&mut r, self.model_identifier.chunks());
        assert(views(r@) =~= self.spec_chunks());
        r
    }

    /// Writes the parameters.
    pub fn emit_parameters(&self, xmit: &mut Xmit) -> (r: Result<(), InsufficientBuffer>)
        requires
            old(xmit).wf(),
        ensures
            final(xmit).wf(),
            final(xmit).cap() == old(xmit).cap(),
            (final(xmit)@, r is Ok) == put_all(old(xmit)@, old(xmit).cap(), self.spec_chunks()),
    {
        xmit.put_chunks(&self.chunks())
    }

    /// Decodes a Model Subscription Status. The first five bytes are read
    /// unchecked, so shorter inputs are outside its domain.
    pub fn parse(parameters: &[u8]) -> (r: Result<ModelSubscriptionStatusMessage, ParseError>)
        requires
            parameters@.len() >= 5,
        ensures
            r == spec_parse_subscription_status(parameters@),
    {
        let status = Status::parse(parameters[0])?;
        let element_address = UnicastAddress::parse([parameters[2], parameters[1]])?;
        let subscription_address = Address::parse([parameters[4], parameters[3]]);
        let model_identifier = ModelIdentifier::parse(vstd::slice::slice_subrange(parameters, 5, parameters.len()))?;
        let subscription_address = match SubscriptionAddress::try_from_address(subscription_address) {
            Ok(a) => a,
            Err(_) => return Err(ParseError::InvalidValue),
        };
        Ok(ModelSubscriptionStatusMessage { status, element_address, subscription_address, model_identifier })
    }
}

/// Asks for the subscription list of a model.
#[derive(Copy, Clone, Debug, PartialEq, Eq, Structural)]
pub struct ModelSubscriptionGetMessage {
    pub element_address: UnicastAddress,
    pub model_identifier: ModelIdentifier,
}

impl ModelSubscriptionGetMessage {
    /// Decodes a SIG or vendor Model Subscription Get.
    pub fn parse(parameters: &[u8]) -> (r: Result<ModelSubscriptionGetMessage, ParseError>)
        ensures
            r == (match spec_parse_element_model(parameters@) {
                Ok((element_address, model_identifier)) => Ok(
                    ModelSubscriptionGetMessage { element_address, model_identifier },
                ),
                Err(e) => Err(e),
            }),
    {
        let (element_address, model_identifier) = parse_element_model(parameters)?;
        Ok(ModelSubscriptionGetMessage { element_address, model_identifier })
    }
}

/// Lists the subscription addresses of a model.
#[derive(Clone, Debug)]
pub struct ModelSubscriptionListMessage {
    pub status: Status,
    pub element_address: UnicastAddress,
    pub model_identifier: ModelIdentifier,
    pub addresses: Vec<SubscriptionAddress>,
}

impl ModelSubscriptionListMessage {
    pub open spec fn spec_chunks(&self) -> Seq<Seq<u8>> {
        seq![seq![status_code(self.status)]] + unicast_le_chunks(self.element_address)
            + model_identifier_chunks(self.model_identifier) + list_chunks(self.addresses@)
    }

    /// Group addresses cannot be written in a list.
    pub open spec fn can_emit(&self) -> bool {
        forall|i: int| 0 <= i < self.addresses@.len() ==> !(#[trigger] self.addresses@[i] is Group)
    }

    /// The chunks of the parameters.
    pub fn chunks(&self) -> (r: Vec<Vec<u8>>)
        requires
            self.can_emit(),
        ensures
            views(r@) == self.spec_chunks(),
    {
        let mut r = no_chunks();
        push_chunk(&mut r, byte_chunk(self.status.code()));
        append_chunks(&mut r, unicast_le(&self.element_address));
        append_chunks(&mut r, self.model_identifier.chunks());
        let ghost head = views(r@);
        let ghost s = self.addresses@;
        let mut i: usize = 0;
        assert(s.subrange(0, 0) =~= Seq::<SubscriptionAddress>::empty());
        while i < self.addresses.len()
            invariant
                s == self.addresses@,
                i <= s.len(),
                views(r@) == head + list_chunks(s.subrange(0, i as int)),
            decreases s.len() - i,
        {
            assert(s.subrange(0, i + 1).drop_last() =~= s.subrange(0, i as int));
            match &self.addresses[i] {
                SubscriptionAddress::Unicast(addr) => {
                    append_chunks(&mut r, unicast_le(addr));
                },
                SubscriptionAddress::Group(_) => {},
                SubscriptionAddress::Label(addr) => {
                    append_chunks(&mut r, address_le(addr.virtual_address().0));
                },
                SubscriptionAddress::Unassigned => {},
            }
            assert(views(r@) =~= head + list_chunks(s.subrange(0, i + 1)));
            i = i + 1;
        }
        assert(s.subrange(0, s.len() as int) =~= s);
        assert(views(r@) =~= self.spec_chunks());
        r
    }

    /// Writes the parameters.
    pub fn emit_parameters(&self, xmit: &mut Xmit) -> (r: Result<(), InsufficientBuffer>)
        requires
            old(xmit).wf(),
            self.can_emit(),
        ensures
            final(xmit).wf(),
            final(xmit).cap() == old(xmit).cap(),
            (final(xmit)@, r is Ok) == put_all(old(xmit)@, old(xmit).cap(), self.spec_chunks()),
    {
        xmit.put_chunks(&self.chunks())
    }
}

/// Model subscription messages.
#[derive(Clone, Debug)]
pub enum ModelSubscriptionMessage {
    Add(ModelSubscriptionPayload),
    Delete(ModelSubscriptionPayload),
    DeleteAll(ModelSubscriptionDeleteAllMessage),
    Overwrite(ModelSubscriptionPayload),
    Status(ModelSubscriptionStatusMessage),
    VirtualAddressAdd(ModelSubscriptionPayload),
    VirtualAddressDelete(ModelSubscriptionPayload),
    VirtualAddressOverwrite(ModelSubscriptionPayload),
    VendorGet(ModelSubscriptionGetMessage),
    VendorList(ModelSubscriptionListMessage),
    SigGet(ModelSubscriptionGetMessage),
    SigList(ModelSubscriptionListMessage),
}

impl ModelSubscriptionMessage {
    pub open spec fn spec_opcode(&self) -> Opcode {
        match *self {
            ModelSubscriptionMessage::Add(_) => config_model_subscription_add(),
            ModelSubscriptionMessage::Delete(_) => config_model_subscription_delete(),
            ModelSubscriptionMessage::DeleteAll(_) => config_model_subscription_delete_all(),
            ModelSubscriptionMessage::Overwrite(_) => config_model_subscription_overwrite(),
            ModelSubscriptionMessage::Status(_) => config_model_subscription_status(),
            ModelSubscriptionMessage::VirtualAddressAdd(_) => config_model_subscription_virtual_address_add(),
            ModelSubscriptionMessage::VirtualAddressDelete(_) => config_model_subscription_virtual_address_delete(),
            ModelSubscriptionMessage::VirtualAddressOverwrite(_) => config_model_subscription_virtual_address_overwrite(),
            ModelSubscriptionMessage::VendorGet(_) => config_vendor_model_subscription_get(),
            ModelSubscriptionMessage::VendorList(_) => config_vendor_model_subscription_list(),
            ModelSubscriptionMessage::SigGet(_) => config_sig_model_subscription_get(),
            ModelSubscriptionMessage::SigList(_) => config_sig_model_subscription_list(),
        }
    }

    /// The opcode of the message.
    pub fn opcode(&self) -> (r: Opcode)
        ensures
            r == self.spec_opcode(),
    {
        match self {
            ModelSubscriptionMessage::Add(_) => config_model_subscription_add(),
            ModelSubscriptionMessage::Delete(_) => config_model_subscription_delete(),
            ModelSubscriptionMessage::DeleteAll(_) => config_model_subscription_delete_all(),
            ModelSubscriptionMessage::Overwrite(_) => config_model_subscription_overwrite(),
            ModelSubscriptionMessage::Status(_) => config_model_subscription_status(),
            ModelSubscriptionMessage::VirtualAddressAdd(_) => config_model_subscription_virtual_address_add(),
            ModelSubscriptionMessage::VirtualAddressDelete(_) => config_model_subscription_virtual_address_delete(),
            ModelSubscriptionMessage::VirtualAddressOverwrite(_) => config_model_subscription_virtual_address_overwrite(),
            ModelSubscriptionMessage::VendorGet(_) => config_vendor_model_subscription_get(),
            ModelSubscriptionMessage::VendorList(_) => config_vendor_model_subscription_list(),
            ModelSubscriptionMessage::SigGet(_) => config_sig_model_subscription_get(),
            ModelSubscriptionMessage::SigList(_) => config_sig_model_subscription_list(),
        }
    }

    /// Only status and list messages can be written, and lists without group
    /// addresses.
    pub open spec fn can_emit(&self) -> bool {
        match *self {
            ModelSubscriptionMessage::Status(_) => true,
            ModelSubscriptionMessage::VendorList(m) => m.can_emit(),
            ModelSubscriptionMessage::SigList(m) => m.can_emit(),
            _ => false,
        }
    }

    pub open spec fn spec_chunks(&self) -> Seq<Seq<u8>> {
        match *self {
            ModelSubscriptionMessage::Status(m) => m.spec_chunks(),
            ModelSubscriptionMessage::VendorList(m) => m.spec_chunks(),
            ModelSubscriptionMessage::SigList(m) => m.spec_chunks(),
            _ => seq![],
        }
    }

    /// Writes the parameters of a status or list message.
    pub fn emit_parameters(&self, xmit: &mut Xmit) -> (r: Result<(), InsufficientBuffer>)
        requires
            old(xmit).wf(),
            self.can_emit(),
        ensures
            final(xmit).wf(),
            final(xmit).cap() == old(xmit).cap(),
            (final(xmit)@, r is Ok) == put_all(old(xmit)@, old(xmit).cap(), self.spec_chunks()),
    {
        match self {
            ModelSubscriptionMessage::Status(inner) => inner.emit_parameters(xmit),
            ModelSubscriptionMessage::VendorList(inner) => inner.emit_parameters(xmit),
            ModelSubscriptionMessage::SigList(inner) => inner.emit_parameters(xmit),
            _ => Ok(()),
        }
    }

    /// Decodes a Model Subscription Add.
    pub fn parse_add(parameters: &[u8]) -> (r: Result<ModelSubscriptionMessage, ParseError>)
        ensures
            r == (match spec_parse_subscription_payload(parameters@) {
                Ok(p) => Ok(ModelSubscriptionMessage::Add(p)),
                Err(e) => Err(e),
            }),
    {
        Ok(ModelSubscriptionMessage::Add(ModelSubscriptionPayload::parse(parameters)?))
    }

    /// Decodes a Model Subscription Virtual Address Add, into an Add message.
    pub fn parse_virtual_address_add(parameters: &[u8]) -> (r: Result<ModelSubscriptionMessage, ParseError>)
        ensures
            r == (match spec_parse_virtual_payload(parameters@) {
                Ok(p) => Ok(ModelSubscriptionMessage::Add(p)),
                Err(e) => Err(e),
            }),
    {
        Ok(ModelSubscriptionMessage::Add(ModelSubscriptionPayload::parse_virtual_address(parameters)?))
    }

    /// Decodes a Model Subscription Delete.
    pub fn parse_delete(parameters: &[u8]) -> (r: Result<ModelSubscriptionMessage, ParseError>)
        ensures
            r == (match spec_parse_subscription_payload(parameters@) {
                Ok(p) => Ok(ModelSubscriptionMessage::Delete(p)),
                Err(e) => Err(e),
            }),
    {
        Ok(ModelSubscriptionMessage::Delete(ModelSubscriptionPayload::parse(parameters)?))
    }

    /// Decodes a Model Subscription Virtual Address Delete, into a Delete message.
    pub fn parse_virtual_address_delete(parameters: &[u8]) -> (r: Result<ModelSubscriptionMessage, ParseError>)
        ensures
            r == (match spec_parse_virtual_payload(parameters@) {
                Ok(p) => Ok(ModelSubscriptionMessage::Delete(p)),
                Err(e) => Err(e),
            }),
    {
        Ok(ModelSubscriptionMessage::Delete(ModelSubscriptionPayload::parse_virtual_address(parameters)?))
    }

    /// Decodes a Model Subscription Overwrite.
    pub fn parse_overwrite(parameters: &[u8]) -> (r: Result<ModelSubscriptionMessage, ParseError>)
        ensures
            r == (match spec_parse_subscription_payload(parameters@) {
                Ok(p) => Ok(ModelSubscriptionMessage::Overwrite(p)),
                Err(e) => Err(e),
            }),
    {
        Ok(ModelSubscriptionMessage::Overwrite(ModelSubscriptionPayload::parse(parameters)?))
    }

    /// Decodes a Model Subscription Virtual Address Overwrite, into an
    /// Overwrite message.
    pub fn parse_virtual_address_overwrite(parameters: &[u8]) -> (r: Result<ModelSubscriptionMessage, ParseError>)
        ensures
            r == (match spec_parse_virtual_payload(parameters@) {
                Ok(p) => Ok(ModelSubscriptionMessage::Overwrite(p)),
                Err(e) => Err(e),
            }),
    {
        Ok(ModelSubscriptionMessage::Overwrite(ModelSubscriptionPayload::parse_virtual_address(parameters)?))
    }

    /// Decodes a Model Subscription Delete All.
    pub fn parse_delete_all(parameters: &[u8]) -> (r: Result<ModelSubscriptionMessage, ParseError>)
        ensures
            r == (match spec_parse_element_model(parameters@) {
                Ok((element_address, model_identifier)) => Ok(
                    ModelSubscriptionMessage::DeleteAll(
                        ModelSubscriptionDeleteAllMessage { element_address, model_identifier },
                    ),
                ),
                Err(e) => Err(e),
            }),
    {
        Ok(ModelSubscriptionMessage::DeleteAll(ModelSubscriptionDeleteAllMessage::parse(parameters)?))
    }

    /// Decodes a Vendor Model Subscription Get.
    pub fn parse_vendor_get(parameters: &[u8]) -> (r: Result<ModelSubscriptionMessage, ParseError>)
        ensures
            r == (match spec_parse_element_model(parameters@) {
                Ok((element_address, model_identifier)) => Ok(
                    ModelSubscriptionMessage::VendorGet(
                        ModelSubscriptionGetMessage { element_address, model_identifier },
                    ),
                ),
                Err(e) => Err(e),
            }),
    {
        Ok(ModelSubscriptionMessage::VendorGet(ModelSubscriptionGetMessage::parse(parameters)?))
    }

    /// Decodes a SIG Model Subscription Get.
    pub fn parse_sig_get(parameters: &[u8]) -> (r: Result<ModelSubscriptionMessage, ParseError>)
        ensures
            r == (match spec_parse_element_model(parameters@) {
                Ok((element_address, model_identifier)) => Ok(
                    ModelSubscriptionMessage::SigGet(
                        ModelSubscriptionGetMessage { element_address, model_identifier },
                    ),
                ),
                Err(e) => Err(e),
            }),
    {
        Ok(ModelSubscriptionMessage::SigGet(ModelSubscriptionGetMessage::parse(parameters)?))
    }

    /// Decodes a Model Subscription Status.
    pub fn parse_status(parameters: &[u8]) -> (r: Result<ModelSubscriptionMessage, ParseError>)
        requires
            parameters@.len() >= 5,
        ensures
            r == (match spec_parse_subscription_status(parameters@) {
                Ok(m) => Ok(ModelSubscriptionMessage::Status(m)),
                Err(e) => Err(e),
            }),
    {
        Ok(ModelSubscriptionMessage::Status(ModelSubscriptionStatusMessage::parse(parameters)?))
    }
}

} // verus!
