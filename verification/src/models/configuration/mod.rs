//! Foundation configuration model messages.

use vstd::prelude::*;
use crate::error::{InsufficientBuffer, ParseError};
use crate::buffer::{put_all, Xmit};
use crate::chunks::{views, no_chunks, push_chunk, byte_chunk};
use crate::address::{hi8, lo8, UnicastAddress};
use crate::common::{ModelIdentifier, Opcode};
use crate::models::configuration::beacon::{
    BeaconMessage, config_beacon_get, config_beacon_set, spec_parse_beacon_get, spec_parse_beacon_set,
};
use crate::models::configuration::default_ttl::{
    DefaultTTLMessage, config_default_ttl_get, config_default_ttl_set, spec_parse_default_ttl_get,
    spec_parse_default_ttl_set,
};
use crate::models::configuration::node_reset::{
    NodeResetMessage, config_node_reset, config_node_reset_status, spec_parse_empty,
};
use crate::models::configuration::composition_data::{
    CompositionDataMessage, config_composition_data_get, spec_parse_composition_data_get,
};
use crate::models::configuration::app_key::{
    AppKeyMessage, AppKeyStatusMessage, config_appkey_add, config_appkey_delete, config_appkey_get,
    config_appkey_status, spec_parse_appkey_add, spec_parse_appkey_delete, spec_parse_appkey_get,
    spec_parse_appkey_status,
};
use crate::models::configuration::model_app::{
    ModelAppMessage, ModelAppPayload, ModelAppStatusMessage, config_model_app_bind,
    config_model_app_status, config_model_app_unbind, spec_parse_model_app_payload,
    spec_parse_model_app_status,
};
use crate::models::configuration::model_publication::{
    ModelPublicationMessage, ModelPublicationGetMessage, ModelPublicationSetMessage,
    ModelPublicationStatusMessage, PublicationDetails, config_model_publication_get,
    config_model_publication_set, config_model_publication_status,
    config_model_publication_virtual_address_set, spec_parse_details, spec_parse_publication_get,
    spec_parse_publication_status, spec_parse_virtual_details,
};
use crate::models::configuration::model_subscription::{
    ModelSubscriptionMessage, ModelSubscriptionPayload, ModelSubscriptionDeleteAllMessage,
    ModelSubscriptionGetMessage, ModelSubscriptionStatusMessage, config_model_subscription_add,
    config_model_subscription_delete, config_model_subscription_delete_all,
    config_model_subscription_overwrite, config_model_subscription_status,
    config_model_subscription_virtual_address_add, config_model_subscription_virtual_address_delete,
    config_model_subscription_virtual_address_overwrite, config_sig_model_subscription_get,
    config_vendor_model_subscription_get, spec_parse_subscription_payload, spec_parse_virtual_payload,
    spec_parse_element_model, spec_parse_subscription_status,
};
use crate::models::configuration::relay::{
    RelayMessage, config_relay_get, config_relay_set, config_relay_status, spec_parse_relay_get,
    spec_parse_relay_set,
};

verus! {

/// A 12-bit index of a network or application key.
#[derive(Copy, Clone, Debug, PartialEq, Eq, Structural, Hash)]
pub struct KeyIndex(pub u16);

/// Decoding a single key index from the first two of `p`: the low byte first,
/// then the high nibble in the low half of the second byte.
pub open spec fn spec_parse_one(p: Seq<u8>) -> Result<KeyIndex, ParseError> {
    if p.len() >= 2 {
        Ok(KeyIndex(((p[1] % 16) as nat * 256 + p[0] as nat) as u16))
    } else {
        Err(ParseError::InvalidLength)
    }
}

/// The chunks a single key index is written as: its low byte, then its high
/// byte shifted into the upper nibble (bits shifted out are lost).
pub open spec fn key_index_chunks(k: KeyIndex) -> Seq<Seq<u8>> {
    seq![seq![lo8(k.0)], seq![((hi8(k.0) as nat * 16) % 256) as u8]]
}

/// Decoding a pair of key indexes packed into the first three of `p`.
/// The result is (network key index, application key index).
pub open spec fn spec_parse_two(p: Seq<u8>) -> Result<(KeyIndex, KeyIndex), ParseError> {
    if p.len() >= 3 {
        Ok((
            KeyIndex(((p[1] % 16) as nat * 256 + p[2] as nat) as u16),
            KeyIndex((p[0] as nat * 256 + (p[1] / 16) as nat) as u16),
        ))
    } else {
        Err(ParseError::InvalidLength)
    }
}

/// The middle byte of a packed pair: the application key's low byte shifted
/// into the upper nibble, or'ed with the network key's high byte.
pub open spec fn packed_middle(net: KeyIndex, app: KeyIndex) -> u8 {
    (((lo8(app.0) as nat * 16) % 256) as u8) | hi8(net.0)
}

/// The chunks a pair of key indexes is written as.
pub open spec fn key_pair_chunks(net: KeyIndex, app: KeyIndex) -> Seq<Seq<u8>> {
    seq![seq![hi8(app.0)], seq![packed_middle(net, app)], seq![lo8(net.0)]]
}

/// Reading back a written key index gives it back for an index below 256;
/// the high byte is written into the upper half of the second byte but read
/// from its lower half, so a larger index comes back without it.
pub proof fn lemma_key_index_roundtrip(k: KeyIndex)
    requires
        k.0 < 256,
    ensures
        crate::buffer::flatten(key_index_chunks(k)).len() == 2,
        spec_parse_one(crate::buffer::flatten(key_index_chunks(k))) == Ok::<KeyIndex, ParseError>(k),
{
    let cs = key_index_chunks(k);
    crate::buffer::lemma_flatten_one(seq![((hi8(k.0) as nat * 16) % 256) as u8]);
    crate::buffer::lemma_flatten_append(seq![seq![lo8(k.0)]], seq![seq![((hi8(k.0) as nat * 16) % 256) as u8]]);
    crate::buffer::lemma_flatten_one(seq![lo8(k.0)]);
    assert(seq![seq![lo8(k.0)]] + seq![seq![((hi8(k.0) as nat * 16) % 256) as u8]] =~= cs);
    assert(crate::buffer::flatten(cs) =~= seq![lo8(k.0), 0u8]);
}

/// Reading back a written pair of key indexes gives it back when the network
/// key index fits in twelve bits and the application key index's low byte
/// fits in four; otherwise the pair comes back changed.
pub proof fn lemma_key_pair_roundtrip(net: KeyIndex, app: KeyIndex)
    requires
        net.0 < 4096,
        app.0 % 256 < 16,
    ensures
        spec_parse_two(crate::buffer::flatten(key_pair_chunks(net, app))) == Ok::<(KeyIndex, KeyIndex), ParseError>((net, app)),
{
    let cs = key_pair_chunks(net, app);
    let m = packed_middle(net, app);
    crate::buffer::lemma_flatten_one(seq![lo8(net.0)]);
    crate::buffer::lemma_flatten_one(seq![m]);
    crate::buffer::lemma_flatten_one(seq![hi8(app.0)]);
    crate::buffer::lemma_flatten_append(seq![seq![m]], seq![seq![lo8(net.0)]]);
    crate::buffer::lemma_flatten_append(seq![seq![hi8(app.0)]], seq![seq![m], seq![lo8(net.0)]]);
    assert(seq![seq![m]] + seq![seq![lo8(net.0)]] =~= seq![seq![m], seq![lo8(net.0)]]);
    assert(seq![seq![hi8(app.0)]] + seq![seq![m], seq![lo8(net.0)]] =~= cs);
    let b = crate::buffer::flatten(cs);
    assert(b =~= seq![hi8(app.0), m, lo8(net.0)]);
    let la = lo8(app.0);
    let hn = hi8(net.0);
    assert(la < 16);
    assert(hn < 16);
    assert((((la as nat * 16) % 256) as u8 | hn) % 16 == hn && (((la as nat * 16) % 256) as u8 | hn) / 16 == la) by (bit_vector)
        requires
            la < 16,
            hn < 16,
    ;
}

impl KeyIndex {
    /// A key index holding `index`.
    pub fn new(index: u16) -> (r: KeyIndex)
        ensures
            r.0 == index,
    {
        KeyIndex(index)
    }

    /// Decodes one key index from the first two bytes of `parameters`.
    pub fn parse_one(parameters: &[u8]) -> (r: Result<KeyIndex, ParseError>)
        ensures
            r == spec_parse_one(parameters@),
    {
        if parameters.len() >= 2 {
            let byte1 = parameters[0];
            let byte2 = parameters[1] % 16;
            Ok(KeyIndex((byte2 as u16) * 256 + byte1 as u16))
        } else {
            Err(ParseError::InvalidLength)
        }
    }

    /// The chunks of one key index.
    pub fn one_chunks(index: &KeyIndex) -> (r: Vec<Vec<u8>>)
        ensures
            views(r@) == key_index_chunks(*index),
    {
        let mut r = no_chunks();
        push_chunk(&mut r, byte_chunk((index.0 % 256) as u8));
        push_chunk(&mut r, byte_chunk((((index.0 / 256) as u16 * 16) % 256) as u8));
        assert(views(r@) =~= key_index_chunks(*index));
        r
    }

    /// Writes one key index.
    pub fn emit_one(index: &KeyIndex, xmit: &mut Xmit) -> (r: Result<(), InsufficientBuffer>)
        requires
            old(xmit).wf(),
        ensures
            final(xmit).wf(),
            final(xmit).cap() == old(xmit).cap(),
            (final(xmit)@, r is Ok) == put_all(old(xmit)@, old(xmit).cap(), key_index_chunks(*index)),
    {
        xmit.put_chunks(&KeyIndex::one_chunks(index))
    }

    /// Decodes a (network, application) pair of key indexes from three bytes.
    pub fn parse_two(parameters: &[u8]) -> (r: Result<(KeyIndex, KeyIndex), ParseError>)
        ensures
            r == spec_parse_two(parameters@),
    {
        if parameters.len() >= 3 {
            let byte1 = parameters[0];
            let byte2 = parameters[1] / 16;
            let index1 = (byte1 as u16) * 256 + byte2 as u16;
            let byte1 = parameters[1] % 16;
            let byte2 = parameters[2];
            let index2 = (byte1 as u16) * 256 + byte2 as u16;
            Ok((KeyIndex(index2), KeyIndex(index1)))
        } else {
            Err(ParseError::InvalidLength)
        }
    }

    /// The chunks of a packed pair.
    pub fn two_chunks(indexes: (&KeyIndex, &KeyIndex)) -> (r: Vec<Vec<u8>>)
        ensures
            views(r@) == key_pair_chunks(*indexes.0, *indexes.1),
    {
        let net = indexes.0.0;
        let app = indexes.1.0;
        let mut r = no_chunks();
        push_chunk(&mut r, byte_chunk((app / 256) as u8));
        let shifted = (((app % 256) * 16) % 256) as u8;
        push_chunk(&mut r, byte_chunk(shifted | (net / 256) as u8));
        push_chunk(&mut r, byte_chunk((net % 256) as u8));
        assert(views(r@) =~= key_pair_chunks(*indexes.0, *indexes.1));
        r
    }

    /// Writes a packed (network, application) pair of key indexes.
    pub fn emit_two(indexes: (&KeyIndex, &KeyIndex), xmit: &mut Xmit) -> (r: Result<(), InsufficientBuffer>)
        requires
            old(xmit).wf(),
        ensures
            final(xmit).wf(),
            final(xmit).cap() == old(xmit).cap(),
            (final(xmit)@, r is Ok) == put_all(old(xmit)@, old(xmit).cap(), key_pair_chunks(*indexes.0, *indexes.1)),
    {
        xmit.put_chunks(&KeyIndex::two_chunks(indexes))
    }
}

/// The index of a network key.
#[derive(Copy, Clone, Debug, PartialEq, Eq, Structural, Hash)]
pub struct NetKeyIndex(pub KeyIndex);

impl NetKeyIndex {
    /// A network key index holding `index`.
    pub fn new(index: u16) -> (r: NetKeyIndex)
        ensures
            r.0.0 == index,
    {
        NetKeyIndex(KeyIndex(index))
    }

    /// The numeric index.
    pub fn value(&self) -> (r: u16)
        ensures
            r == self.0.0,
    {
        self.0.0
    }

    /// Writes the index.
    pub fn emit(&self, xmit: &mut Xmit) -> (r: Result<(), InsufficientBuffer>)
        requires
            old(xmit).wf(),
        ensures
            final(xmit).wf(),
            final(xmit).cap() == old(xmit).cap(),
            (final(xmit)@, r is Ok) == put_all(old(xmit)@, old(xmit).cap(), key_index_chunks(self.0)),
    {
        KeyIndex::emit_one(&self.0, xmit)
    }
}

/// The index of an application key.
#[derive(Copy, Clone, Debug, PartialEq, Eq, Structural, Hash)]
pub struct AppKeyIndex(pub KeyIndex);

impl AppKeyIndex {
    /// An application key index holding `index`.
    pub fn new(index: u16) -> (r: AppKeyIndex)
        ensures
            r.0.0 == index,
    {
        AppKeyIndex(KeyIndex::new(index))
    }

    /// The numeric index.
    pub fn value(&self) -> (r: u16)
        ensures
            r == self.0.0,
    {
        self.0.0
    }

    /// Writes the index.
    pub fn emit(&self, xmit: &mut Xmit) -> (r: Result<(), InsufficientBuffer>)
        requires
            old(xmit).wf(),
        ensures
            final(xmit).wf(),
            final(xmit).cap() == old(xmit).cap(),
            (final(xmit)@, r is Ok) == put_all(old(xmit)@, old(xmit).cap(), key_index_chunks(self.0)),
    {
        KeyIndex::emit_one(&self.0, xmit)
    }
}

/// A network key index bound to an application key index.
#[derive(Copy, Clone, Debug, PartialEq, Eq, Structural, Hash)]
pub struct NetKeyAppKeyIndexesPair(pub NetKeyIndex, pub AppKeyIndex);

/// Decoding a key index pair: exactly three bytes.
pub open spec fn spec_parse_pair(p: Seq<u8>) -> Result<NetKeyAppKeyIndexesPair, ParseError> {
    if p.len() == 3 {
        match spec_parse_two(p) {
            Ok((n, a)) => Ok(NetKeyAppKeyIndexesPair(NetKeyIndex(n), AppKeyIndex(a))),
            Err(e) => Err(e),
        }
    } else {
        Err(ParseError::InvalidLength)
    }
}

impl NetKeyAppKeyIndexesPair {
    /// The chunks of the pair.
    pub open spec fn spec_chunks(&self) -> Seq<Seq<u8>> {
        key_pair_chunks(self.0.0, self.1.0)
    }

    /// Writes the pair.
    pub fn emit(&self, xmit: &mut Xmit) -> (r: Result<(), InsufficientBuffer>)
        requires
            old(xmit).wf(),
        ensures
            final(xmit).wf(),
            final(xmit).cap() == old(xmit).cap(),
            (final(xmit)@, r is Ok) == put_all(old(xmit)@, old(xmit).cap(), self.spec_chunks()),
    {
        KeyIndex::emit_two((&self.0.0, &self.1.0), xmit)
    }

    /// Decodes a pair from exactly three bytes.
    pub fn parse(parameters: &[u8]) -> (r: Result<NetKeyAppKeyIndexesPair, ParseError>)
        ensures
            r == spec_parse_pair(parameters@),
    {
        if parameters.len() == 3 {
            let (net_key, app_key) = KeyIndex::parse_two(parameters)?;
            Ok(NetKeyAppKeyIndexesPair(NetKeyIndex(net_key), AppKeyIndex(app_key)))
        } else {
            Err(ParseError::InvalidLength)
        }
    }

    /// The network key index.
    pub fn net_key(&self) -> (r: NetKeyIndex)
        ensures
            r == self.0,
    {
        self.0
    }

    /// The application key index.
    pub fn app_key(&self) -> (r: AppKeyIndex)
        ensures
            r == self.1,
    {
        self.1
    }
}


/// The model identifier of the configuration server.
#[verifier::allow_in_spec]
pub fn configuration_server() -> ModelIdentifier
    returns
        ModelIdentifier::SIG(0x0000),
{
    ModelIdentifier::SIG(0x0000)
}

/// The model identifier of the configuration client.
#[verifier::allow_in_spec]
pub fn configuration_client() -> ModelIdentifier
    returns
        ModelIdentifier::SIG(0x0001),
{
    ModelIdentifier::SIG(0x0001)
}

/// Configuration messages.
#[derive(Clone, Debug)]
pub enum ConfigurationMessage {
    Beacon(BeaconMessage),
    DefaultTTL(DefaultTTLMessage),
    NodeReset(NodeResetMessage),
    CompositionData(CompositionDataMessage),
    AppKey(AppKeyMessage),
    ModelApp(ModelAppMessage),
    ModelPublication(ModelPublicationMessage),
    ModelSubscription(ModelSubscriptionMessage),
    Relay(RelayMessage),
}

impl ConfigurationMessage {
    pub open spec fn spec_opcode(&self) -> Opcode {
        match *self {
            ConfigurationMessage::Beacon(m) => m.spec_opcode(),
            ConfigurationMessage::DefaultTTL(m) => m.spec_opcode(),
            ConfigurationMessage::NodeReset(m) => m.spec_opcode(),
            ConfigurationMessage::CompositionData(m) => m.spec_opcode(),
            ConfigurationMessage::AppKey(m) => m.spec_opcode(),
            ConfigurationMessage::ModelApp(m) => m.spec_opcode(),
            ConfigurationMessage::ModelPublication(m) => m.spec_opcode(),
            ConfigurationMessage::ModelSubscription(m) => m.spec_opcode(),
            ConfigurationMessage::Relay(m) => m.spec_opcode(),
        }
    }

    /// The opcode of the message.
    pub fn opcode(&self) -> (r: Opcode)
        ensures
            r == self.spec_opcode(),
    {
        match self {
            ConfigurationMessage::Beacon(m) => m.opcode(),
            ConfigurationMessage::DefaultTTL(m) => m.opcode(),
            ConfigurationMessage::NodeReset(m) => m.opcode(),
            ConfigurationMessage::CompositionData(m) => m.opcode(),
            ConfigurationMessage::AppKey(m) => m.opcode(),
            ConfigurationMessage::ModelApp(m) => m.opcode(),
            ConfigurationMessage::ModelPublication(m) => m.opcode(),
            ConfigurationMessage::ModelSubscription(m) => m.opcode(),
            ConfigurationMessage::Relay(m) => m.opcode(),
        }
    }

    /// The messages whose parameters can be written.
    pub open spec fn can_emit(&self) -> bool {
        match *self {
            ConfigurationMessage::AppKey(m) => m.can_emit(),
            ConfigurationMessage::ModelPublication(m) => m.can_emit(),
            ConfigurationMessage::ModelSubscription(m) => m.can_emit(),
            _ => true,
        }
    }

    pub open spec fn spec_chunks(&self) -> Seq<Seq<u8>> {
        match *self {
            ConfigurationMessage::Beacon(m) => m.spec_chunks(),
            ConfigurationMessage::DefaultTTL(m) => m.spec_chunks(),
            ConfigurationMessage::NodeReset(m) => seq![],
            ConfigurationMessage::CompositionData(m) => m.spec_chunks(),
            ConfigurationMessage::AppKey(m) => m.spec_chunks(),
            ConfigurationMessage::ModelApp(m) => m.spec_chunks(),
            ConfigurationMessage::ModelPublication(m) => m.spec_chunks(),
            ConfigurationMessage::ModelSubscription(m) => m.spec_chunks(),
            ConfigurationMessage::Relay(m) => m.spec_chunks(),
        }
    }

    /// Writes the parameters.
    pub fn emit_parameters(&self, xmit: &mut Xmit) -> (r: Result<(), InsufficientBuffer>)
        requires
            old(xmit).wf(),
            self.can_emit(),
        ensures
            final(xmit).wf(),
            final(xmit).cap() == old(xmit).cap(),
            (final(xmit)@, r is Ok) == put_all(old(xmit)@, old(xmit).cap(), self.spec_chunks()),
    {
        match self {
            ConfigurationMessage::Beacon(m) => m.emit_parameters(xmit),
            ConfigurationMessage::DefaultTTL(m) => m.emit_parameters(xmit),
            ConfigurationMessage::NodeReset(m) => m.emit_parameters(xmit),
            ConfigurationMessage::CompositionData(m) => m.emit_parameters(xmit),
            ConfigurationMessage::AppKey(m) => m.emit_parameters(xmit),
            ConfigurationMessage::ModelApp(m) => m.emit_parameters(xmit),
            ConfigurationMessage::ModelPublication(m) => m.emit_parameters(xmit),
            ConfigurationMessage::ModelSubscription(m) => m.emit_parameters(xmit),
            ConfigurationMessage::Relay(m) => m.emit_parameters(xmit),
        }
    }
}

/// A decoded message wrapped by `f`, or the decoding error.
pub open spec fn lift<T>(
    r: Result<T, ParseError>,
    f: spec_fn(T) -> ConfigurationMessage,
) -> Result<Option<ConfigurationMessage>, ParseError> {
    match r {
        Ok(m) => Ok(Some(f(m))),
        Err(e) => Err(e),
    }
}

/// What the configuration server decodes for an opcode: the matching message,
/// or nothing for an opcode it does not handle.
pub open spec fn spec_server_parse(op: Opcode, p: Seq<u8>) -> Result<Option<ConfigurationMessage>, ParseError> {
    if op == config_beacon_get() {
        lift(spec_parse_beacon_get(p), |m: BeaconMessage| ConfigurationMessage::Beacon(m))
    } else if op == config_beacon_set() {
        lift(spec_parse_beacon_set(p), |m: BeaconMessage| ConfigurationMessage::Beacon(m))
    } else if op == config_default_ttl_get() {
        lift(spec_parse_default_ttl_get(p), |m: DefaultTTLMessage| ConfigurationMessage::DefaultTTL(m))
    } else if op == config_default_ttl_set() {
        lift(spec_parse_default_ttl_set(p), |m: DefaultTTLMessage| ConfigurationMessage::DefaultTTL(m))
    } else if op == config_node_reset() {
        lift(spec_parse_empty(p, NodeResetMessage::Reset), |m: NodeResetMessage| ConfigurationMessage::NodeReset(m))
    } else if op == config_composition_data_get() {
        lift(spec_parse_composition_data_get(p), |m: CompositionDataMessage| ConfigurationMessage::CompositionData(m))
    } else if op == config_appkey_add() {
        lift(spec_parse_appkey_add(p), |m: AppKeyMessage| ConfigurationMessage::AppKey(m))
    } else if op == config_appkey_delete() {
        lift(spec_parse_appkey_delete(p), |m: AppKeyMessage| ConfigurationMessage::AppKey(m))
    } else if op == config_appkey_get() {
        lift(spec_parse_appkey_get(p), |m: AppKeyMessage| ConfigurationMessage::AppKey(m))
    } else if op == config_model_app_bind() {
        lift(spec_parse_model_app_payload(p), |m: ModelAppPayload| ConfigurationMessage::ModelApp(ModelAppMessage::Bind(m)))
    } else if op == config_model_app_unbind() {
        lift(spec_parse_model_app_payload(p), |m: ModelAppPayload| ConfigurationMessage::ModelApp(ModelAppMessage::Unbind(m)))
    } else if op == config_model_publication_set() {
        lift(spec_parse_details(p), |m: PublicationDetails| ConfigurationMessage::ModelPublication(ModelPublicationMessage::SetState(ModelPublicationSetMessage { details: m })))
    } else if op == config_model_publication_get() {
        lift(spec_parse_publication_get(p), |m: ModelPublicationGetMessage| ConfigurationMessage::ModelPublication(ModelPublicationMessage::Get(m)))
    } else if op == config_model_publication_virtual_address_set() {
        lift(spec_parse_virtual_details(p), |m: PublicationDetails| ConfigurationMessage::ModelPublication(ModelPublicationMessage::VirtualAddressSet(ModelPublicationSetMessage { details: m })))
    } else if op == config_model_subscription_add() {
        lift(spec_parse_subscription_payload(p), |m: ModelSubscriptionPayload| ConfigurationMessage::ModelSubscription(ModelSubscriptionMessage::Add(m)))
    } else if op == config_model_subscription_virtual_address_add() {
        lift(spec_parse_virtual_payload(p), |m: ModelSubscriptionPayload| ConfigurationMessage::ModelSubscription(ModelSubscriptionMessage::Add(m)))
    } else if op == config_model_subscription_delete() {
        lift(spec_parse_subscription_payload(p), |m: ModelSubscriptionPayload| ConfigurationMessage::ModelSubscription(ModelSubscriptionMessage::Delete(m)))
    } else if op == config_model_subscription_virtual_address_delete() {
        lift(spec_parse_virtual_payload(p), |m: ModelSubscriptionPayload| ConfigurationMessage::ModelSubscription(ModelSubscriptionMessage::Delete(m)))
    } else if op == config_model_subscription_overwrite() {
        lift(spec_parse_subscription_payload(p), |m: ModelSubscriptionPayload| ConfigurationMessage::ModelSubscription(ModelSubscriptionMessage::Overwrite(m)))
    } else if op == config_model_subscription_virtual_address_overwrite() {
        lift(spec_parse_virtual_payload(p), |m: ModelSubscriptionPayload| ConfigurationMessage::ModelSubscription(ModelSubscriptionMessage::Overwrite(m)))
    } else if op == config_model_subscription_delete_all() {
        lift(spec_parse_element_model(p), |m: (UnicastAddress, ModelIdentifier)| ConfigurationMessage::ModelSubscription(ModelSubscriptionMessage::DeleteAll(ModelSubscriptionDeleteAllMessage { element_address: m.0, model_identifier: m.1 })))
    } else if op == config_vendor_model_subscription_get() {
        lift(spec_parse_element_model(p), |m: (UnicastAddress, ModelIdentifier)| ConfigurationMessage::ModelSubscription(ModelSubscriptionMessage::VendorGet(ModelSubscriptionGetMessage { element_address: m.0, model_identifier: m.1 })))
    } else if op == config_sig_model_subscription_get() {
        lift(spec_parse_element_model(p), |m: (UnicastAddress, ModelIdentifier)| ConfigurationMessage::ModelSubscription(ModelSubscriptionMessage::SigGet(ModelSubscriptionGetMessage { element_address: m.0, model_identifier: m.1 })))
    } else if op == config_relay_get() {
        lift(spec_parse_relay_get(p), |m: RelayMessage| ConfigurationMessage::Relay(m))
    } else if op == config_relay_set() {
        lift(spec_parse_relay_set(p), |m: RelayMessage| ConfigurationMessage::Relay(m))
    } else {
        Ok(None)
    }
}

/// Every message the configuration server decodes is the message of the
/// opcode it came with: its opcode is that opcode. The one exception is the
/// virtual-address subscription requests, which decode as the add, delete or
/// overwrite request of the same action, carrying a label address.
pub proof fn lemma_server_parse_keeps_opcode(op: Opcode, p: Seq<u8>)
    ensures
        spec_server_parse(op, p) matches Ok(Some(m)) ==> {
            if op == config_model_subscription_virtual_address_add() {
                m matches ConfigurationMessage::ModelSubscription(ModelSubscriptionMessage::Add(x))
                    && x.subscription_address is Label
            } else if op == config_model_subscription_virtual_address_delete() {
                m matches ConfigurationMessage::ModelSubscription(ModelSubscriptionMessage::Delete(x))
                    && x.subscription_address is Label
            } else if op == config_model_subscription_virtual_address_overwrite() {
                m matches ConfigurationMessage::ModelSubscription(ModelSubscriptionMessage::Overwrite(x))
                    && x.subscription_address is Label
            } else {
                m.spec_opcode() == op
            }
        },
{
}

/// Every message the configuration client decodes is the status message of
/// the opcode it came with, but for a Relay Status, which decodes as the
/// relay state in a Set message.
pub proof fn lemma_client_parse_keeps_opcode(op: Opcode, p: Seq<u8>)
    ensures
        spec_client_parse(op, p) matches Ok(Some(m)) ==> if op == config_relay_status() {
            m matches ConfigurationMessage::Relay(RelayMessage::SetState(_))
        } else {
            m.spec_opcode() == op
        },
{
}

/// What the configuration client decodes for an opcode: the matching status
/// message, or nothing for an opcode it does not handle.
pub open spec fn spec_client_parse(op: Opcode, p: Seq<u8>) -> Result<Option<ConfigurationMessage>, ParseError> {
    if op == config_node_reset_status() {
        lift(spec_parse_empty(p, NodeResetMessage::Status), |m: NodeResetMessage| ConfigurationMessage::NodeReset(m))
    } else if op == config_appkey_status() {
        lift(spec_parse_appkey_status(p), |m: AppKeyStatusMessage| ConfigurationMessage::AppKey(AppKeyMessage::Status(m)))
    } else if op == config_model_app_status() {
        lift(spec_parse_model_app_status(p), |m: ModelAppStatusMessage| ConfigurationMessage::ModelApp(ModelAppMessage::Status(m)))
    } else if op == config_model_publication_status() {
        lift(spec_parse_publication_status(p), |m: ModelPublicationStatusMessage| ConfigurationMessage::ModelPublication(ModelPublicationMessage::Status(m)))
    } else if op == config_model_subscription_status() {
        lift(spec_parse_subscription_status(p), |m: ModelSubscriptionStatusMessage| ConfigurationMessage::ModelSubscription(ModelSubscriptionMessage::Status(m)))
    } else if op == config_relay_status() {
        lift(spec_parse_relay_set(p), |m: RelayMessage| ConfigurationMessage::Relay(m))
    } else {
        Ok(None)
    }
}

/// The status messages whose first bytes the client reads unchecked need
/// that many bytes.
pub open spec fn client_parse_defined(op: Opcode, p: Seq<u8>) -> bool {
    &&& op == config_appkey_status() ==> p.len() >= 4
    &&& op == config_model_app_status() ==> p.len() >= 1
    &&& op == config_model_publication_status() ==> p.len() >= 1
    &&& op == config_model_subscription_status() ==> p.len() >= 5
}

/// The configuration server model.
#[derive(Copy, Clone, Debug, PartialEq, Eq, Structural)]
pub struct ConfigurationServer;

impl ConfigurationServer {
    /// The model identifier.
    pub fn identifier() -> (r: ModelIdentifier)
        ensures
            r == configuration_server(),
    {
        configuration_server()
    }

    /// The configuration server takes no subscriptions.
    pub fn supports_subscription() -> (r: bool)
        ensures
            !r,
    {
        false
    }

    /// The configuration server does not publish.
    pub fn supports_publication() -> (r: bool)
        ensures
            !r,
    {
        false
    }

    /// Decodes a message addressed to the configuration server.
    pub fn parse(opcode: &Opcode, parameters: &[u8]) -> (r: Result<Option<ConfigurationMessage>, ParseError>)
        ensures
            r == spec_server_parse(*opcode, parameters@),
    {
        if *opcode == config_beacon_get() {
            Ok(Some(ConfigurationMessage::Beacon(BeaconMessage::parse_get(parameters)?)))
        } else if *opcode == config_beacon_set() {
            Ok(Some(ConfigurationMessage::Beacon(BeaconMessage::parse_set(parameters)?)))
        } else if *opcode == config_default_ttl_get() {
            Ok(Some(ConfigurationMessage::DefaultTTL(DefaultTTLMessage::parse_get(parameters)?)))
        } else if *opcode == config_default_ttl_set() {
            Ok(Some(ConfigurationMessage::DefaultTTL(DefaultTTLMessage::parse_set(parameters)?)))
        } else if *opcode == config_node_reset() {
            Ok(Some(ConfigurationMessage::NodeReset(NodeResetMessage::parse_reset(parameters)?)))
        } else if *opcode == config_composition_data_get() {
            Ok(Some(ConfigurationMessage::CompositionData(CompositionDataMessage::parse_get(parameters)?)))
        } else if *opcode == config_appkey_add() {
            Ok(Some(ConfigurationMessage::AppKey(AppKeyMessage::parse_add(parameters)?)))
        } else if *opcode == config_appkey_delete() {
            Ok(Some(ConfigurationMessage::AppKey(AppKeyMessage::parse_delete(parameters)?)))
        } else if *opcode == config_appkey_get() {
            Ok(Some(ConfigurationMessage::AppKey(AppKeyMessage::parse_get(parameters)?)))
        } else if *opcode == config_model_app_bind() {
            Ok(Some(ConfigurationMessage::ModelApp(ModelAppMessage::parse_bind(parameters)?)))
        } else if *opcode == config_model_app_unbind() {
            Ok(Some(ConfigurationMessage::ModelApp(ModelAppMessage::parse_unbind(parameters)?)))
        } else if *opcode == config_model_publication_set() {
            Ok(Some(ConfigurationMessage::ModelPublication(ModelPublicationMessage::parse_set(parameters)?)))
        } else if *opcode == config_model_publication_get() {
            Ok(Some(ConfigurationMessage::ModelPublication(ModelPublicationMessage::parse_get(parameters)?)))
        } else if *opcode == config_model_publication_virtual_address_set() {
            Ok(Some(ConfigurationMessage::ModelPublication(ModelPublicationMessage::parse_virtual_address_set(parameters)?)))
        } else if *opcode == config_model_subscription_add() {
            Ok(Some(ConfigurationMessage::ModelSubscription(ModelSubscriptionMessage::parse_add(parameters)?)))
        } else if *opcode == config_model_subscription_virtual_address_add() {
            Ok(Some(ConfigurationMessage::ModelSubscription(ModelSubscriptionMessage::parse_virtual_address_add(parameters)?)))
        } else if *opcode == config_model_subscription_delete() {
            Ok(Some(ConfigurationMessage::ModelSubscription(ModelSubscriptionMessage::parse_delete(parameters)?)))
        } else if *opcode == config_model_subscription_virtual_address_delete() {
            Ok(Some(ConfigurationMessage::ModelSubscription(ModelSubscriptionMessage::parse_virtual_address_delete(parameters)?)))
        } else if *opcode == config_model_subscription_overwrite() {
            Ok(Some(ConfigurationMessage::ModelSubscription(ModelSubscriptionMessage::parse_overwrite(parameters)?)))
        } else if *opcode == config_model_subscription_virtual_address_overwrite() {
            Ok(Some(ConfigurationMessage::ModelSubscription(ModelSubscriptionMessage::parse_virtual_address_overwrite(parameters)?)))
        } else if *opcode == config_model_subscription_delete_all() {
            Ok(Some(ConfigurationMessage::ModelSubscription(ModelSubscriptionMessage::parse_delete_all(parameters)?)))
        } else if *opcode == config_vendor_model_subscription_get() {
            Ok(Some(ConfigurationMessage::ModelSubscription(ModelSubscriptionMessage::parse_vendor_get(parameters)?)))
        } else if *opcode == config_sig_model_subscription_get() {
            Ok(Some(ConfigurationMessage::ModelSubscription(ModelSubscriptionMessage::parse_sig_get(parameters)?)))
        } else if *opcode == config_relay_get() {
            Ok(Some(ConfigurationMessage::Relay(RelayMessage::parse_get(parameters)?)))
        } else if *opcode == config_relay_set() {
            Ok(Some(ConfigurationMessage::Relay(RelayMessage::parse_set(parameters)?)))
        } else {
            Ok(None)
        }
    }
}

/// The configuration client model.
#[derive(Copy, Clone, Debug, PartialEq, Eq, Structural)]
pub struct ConfigurationClient;

impl ConfigurationClient {
    /// The model identifier.
    pub fn identifier() -> (r: ModelIdentifier)
        ensures
            r == configuration_client(),
    {
        configuration_client()
    }

    /// The configuration client takes no subscriptions.
    pub fn supports_subscription() -> (r: bool)
        ensures
            !r,
    {
        false
    }

    /// The configuration client does not publish.
    pub fn supports_publication() -> (r: bool)
        ensures
            !r,
    {
        false
    }

    /// Decodes a status message addressed to the configuration client.
    pub fn parse(opcode: &Opcode, parameters: &[u8]) -> (r: Result<Option<ConfigurationMessage>, ParseError>)
        requires
            client_parse_defined(*opcode, parameters@),
        ensures
            r == spec_client_parse(*opcode, parameters@),
    {
        if *opcode == config_node_reset_status() {
            Ok(Some(ConfigurationMessage::NodeReset(NodeResetMessage::parse_status(parameters)?)))
        } else if *opcode == config_appkey_status() {
            Ok(Some(ConfigurationMessage::AppKey(AppKeyMessage::parse_status(parameters)?)))
        } else if *opcode == config_model_app_status() {
            Ok(Some(ConfigurationMessage::ModelApp(ModelAppMessage::parse_status(parameters)?)))
        } else if *opcode == config_model_publication_status() {
            Ok(Some(ConfigurationMessage::ModelPublication(ModelPublicationMessage::parse_status(parameters)?)))
        } else if *opcode == config_model_subscription_status() {
            Ok(Some(ConfigurationMessage::ModelSubscription(ModelSubscriptionMessage::parse_status(parameters)?)))
        } else if *opcode == config_relay_status() {
            Ok(Some(ConfigurationMessage::Relay(RelayMessage::parse_status(parameters)?)))
        } else {
            Ok(None)
        }
    }
}

} // verus!
pub mod beacon;
pub mod default_ttl;
pub mod node_reset;
pub mod composition_data;
pub mod relay;
pub mod network_transmit;
pub mod app_key;
pub mod model_app;
pub mod model_publication;
pub mod model_subscription;
