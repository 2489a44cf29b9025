//! The Config AppKey messages.

use vstd::prelude::*;
use crate::error::{InsufficientBuffer, ParseError};
use crate::buffer::{put_all, Xmit};
use crate::chunks::{views, no_chunks, push_chunk, byte_chunk, append_chunks};
use crate::common::{Opcode, to_array16};
use crate::keys::ApplicationKey;
use crate::models::{Status, status_code, spec_parse_status};
use crate::models::configuration::{
    AppKeyIndex, KeyIndex, NetKeyAppKeyIndexesPair, NetKeyIndex, key_index_chunks,
    key_pair_chunks, spec_parse_one, spec_parse_pair,
};

verus! {

/// Opcode of Config AppKey Add.
#[verifier::allow_in_spec]
pub fn config_appkey_add() -> Opcode
    returns
        Opcode::OneOctet(0x00),
{
    Opcode::OneOctet(0x00)
}

/// Opcode of Config AppKey Delete.
#[verifier::allow_in_spec]
pub fn config_appkey_delete() -> Opcode
    returns
        Opcode::TwoOctet(0x80, 0x00),
{
    Opcode::TwoOctet(0x80, 0x00)
}

/// Opcode of Config AppKey Get.
#[verifier::allow_in_spec]
pub fn config_appkey_get() -> Opcode
    returns
        Opcode::TwoOctet(0x80, 0x01),
{
    Opcode::TwoOctet(0x80, 0x01)
}

/// Opcode of Config AppKey List.
#[verifier::allow_in_spec]
pub fn config_appkey_list() -> Opcode
    returns
        Opcode::TwoOctet(0x80, 0x02),
{
    Opcode::TwoOctet(0x80, 0x02)
}

/// Opcode of Config AppKey Status.
#[verifier::allow_in_spec]
pub fn config_appkey_status() -> Opcode
    returns
        Opcode::TwoOctet(0x80, 0x03),
{
    Opcode::TwoOctet(0x80, 0x03)
}

/// Opcode of Config AppKey Update.
#[verifier::allow_in_spec]
pub fn config_appkey_update() -> Opcode
    returns
        Opcode::OneOctet(0x01),
{
    Opcode::OneOctet(0x01)
}

/// Adds an application key bound to a network key.
#[derive(Copy, Clone, Debug)]
pub struct AppKeyAddMessage {
    pub indexes: NetKeyAppKeyIndexesPair,
    pub app_key: ApplicationKey,
}

impl AppKeyAddMessage {
    /// The network key index.
    pub fn net_key_index(&self) -> (r: NetKeyIndex)
        ensures
            r == self.indexes.0,
    {
        self.indexes.0
    }

    /// The application key index.
    pub fn app_key_index(&self) -> (r: AppKeyIndex)
        ensures
            r == self.indexes.1,
    {
        self.indexes.1
    }

    /// The application key.
    pub fn app_key(&self) -> (r: ApplicationKey)
        ensures
            r == self.app_key,
    {
        self.app_key
    }
}

/// Deletes an application key.
#[derive(Copy, Clone, Debug, PartialEq, Eq, Structural)]
pub struct AppKeyDeleteMessage {
    pub indexes: NetKeyAppKeyIndexesPair,
}

impl AppKeyDeleteMessage {
    /// The network key index.
    pub fn net_key_index(&self) -> (r: NetKeyIndex)
        ensures
            r == self.indexes.0,
    {
        self.indexes.0
    }

    /// The application key index.
    pub fn app_key_index(&self) -> (r: AppKeyIndex)
        ensures
            r == self.indexes.1,
    {
        self.indexes.1
    }
}

/// Asks for the application keys bound to a network key.
#[derive(Copy, Clone, Debug, PartialEq, Eq, Structural)]
pub struct AppKeyGetMessage {
    pub net_key_index: NetKeyIndex,
}

/// Lists the application keys bound to a network key.
#[derive(Clone, Debug)]
pub struct AppKeyListMessage {
    pub status: Status,
    pub net_key_index: NetKeyIndex,
    pub app_key_indexes: Vec<AppKeyIndex>,
}

/// The chunks a list of application key indexes is written as: packed pairs,
/// then a single index when the count is odd.
pub open spec fn app_key_list_chunks(s: Seq<AppKeyIndex>) -> Seq<Seq<u8>>
    decreases s.len(),
{
    if s.len() == 0 {
        seq![]
    } else if s.len() == 1 {
        key_index_chunks(s[0].0)
    } else {
        key_pair_chunks(s[0].0, s[1].0) + app_key_list_chunks(s.skip(2))
    }
}

impl AppKeyListMessage {
    pub open spec fn spec_chunks(&self) -> Seq<Seq<u8>> {
        seq![seq![status_code(self.status)]] + key_index_chunks(self.net_key_index.0)
            + app_key_list_chunks(self.app_key_indexes@)
    }

    /// The chunks of the parameters.
    pub fn chunks(&self) -> (r: Vec<Vec<u8>>)
        ensures
            views(r@) == self.spec_chunks(),
    {
        let mut r = no_chunks();
        push_chunk(&mut r, byte_chunk(self.status.code()));
        append_chunks(&mut r, KeyIndex::one_chunks(&self.net_key_index.0));
        let ghost head = views(r@);
        let ghost s = self.app_key_indexes@;
        let mut i: usize = 0;
        assert(s.skip(0) =~= s);
        while i < self.app_key_indexes.len()
            invariant
                s == self.app_key_indexes@,
                i <= s.len(),
                views(r@) + app_key_list_chunks(s.skip(i as int)) == head + app_key_list_chunks(s),
            decreases s.len() - i,
        {
            let rest = Ghost(s.skip(i as int));
            if self.app_key_indexes.len() - i >= 2 {
                assert(rest@.skip(2) =~= s.skip(i + 2));
                append_chunks(&mut r, KeyIndex::two_chunks((&self.app_key_indexes[i].0, &self.app_key_indexes[i + 1].0)));
                assert(views(r@) + app_key_list_chunks(s.skip(i + 2)) =~= head + app_key_list_chunks(s));
                i = i + 2;
            } else {
                append_chunks(&mut r, KeyIndex::one_chunks(&self.app_key_indexes[i].0));
                assert(s.skip(i + 1).len() == 0);
                assert(views(r@) + app_key_list_chunks(s.skip(i + 1)) =~= head + app_key_list_chunks(s));
                i = i + 1;
            }
        }
        assert(s.skip(i as int).len() == 0);
        assert(views(r@) =~= views(r@) + app_key_list_chunks(s.skip(i as int)));
        assert(head =~= seq![seq![status_code(self.status)]] + key_index_chunks(self.net_key_index.0));
        r
    }
}

/// Reports the outcome of an application key operation.
#[derive(Copy, Clone, Debug, PartialEq, Eq, Structural)]
pub struct AppKeyStatusMessage {
    pub status: Status,
    pub indexes: NetKeyAppKeyIndexesPair,
}

/// Decoding an AppKey Status: a status code, then a key index pair.
pub open spec fn spec_parse_appkey_status(p: Seq<u8>) -> Result<AppKeyStatusMessage, ParseError>
    recommends
        p.len() >= 4,
{
    match spec_parse_status(p[0]) {
        Ok(status) => match spec_parse_pair(p.subrange(1, 4)) {
            Ok(indexes) => Ok(AppKeyStatusMessage { status, indexes }),
            Err(e) => Err(e),
        },
        Err(e) => Err(e),
    }
}

impl AppKeyStatusMessage {
    pub open spec fn spec_chunks(&self) -> Seq<Seq<u8>> {
        seq![seq![status_code(self.status)]] + self.indexes.spec_chunks()
    }

    /// The chunks of the parameters.
    pub fn chunks(&self) -> (r: Vec<Vec<u8>>)
        ensures
            views(r@) == self.spec_chunks(),
    {
        let mut r = no_chunks();
        push_chunk(&mut r, byte_chunk(self.status.code()));
        append_chunks(&mut r, KeyIndex::two_chunks((&self.indexes.0.0, &self.indexes.1.0)));
        assert(views(r@) =~= self.spec_chunks());
        r
    }

    /// Writes the parameters.
    pub fn emit_parameters(&self, xmit: &mut Xmit) -> (r: Result<(), InsufficientBuffer>)
        requires
            old(xmit).wf(),
        ensures
            final(xmit).wf(),
            final(xmit).cap() == old(xmit).cap(),
            (final(xmit)@, r is Ok) == put_all(old(xmit)@, old(xmit).cap(), self.spec_chunks()),
    {
        xmit.put_chunks(&self.chunks())
    }

    /// Decodes an AppKey Status. The code reads four bytes unchecked, so
    /// shorter inputs are outside its domain.
    pub fn parse(parameters: &[u8]) -> (r: Result<AppKeyStatusMessage, ParseError>)
        requires
            parameters@.len() >= 4,
        ensures
            r == spec_parse_appkey_status(parameters@),
    {
        let status = Status::parse(parameters[0])?;
        let indexes = NetKeyAppKeyIndexesPair::parse(vstd::slice::slice_subrange(parameters, 1, 4))?;
        Ok(AppKeyStatusMessage { status, indexes })
    }
}

/// Replaces an application key.
#[derive(Copy, Clone, Debug)]
pub struct AppKeyUpdateMessage {
    pub net_key_index: NetKeyIndex,
    pub app_key_index: AppKeyIndex,
    pub app_key: [u8; 16],
}

/// Application key configuration messages.
#[derive(Clone, Debug)]
pub enum AppKeyMessage {
    Add(AppKeyAddMessage),
    Delete(AppKeyDeleteMessage),
    Get(AppKeyGetMessage),
    List(AppKeyListMessage),
    Status(AppKeyStatusMessage),
    Update(AppKeyUpdateMessage),
}

/// Decoding an AppKey Add: exactly nineteen bytes, a key index pair then the
/// sixteen key bytes.
pub open spec fn spec_parse_appkey_add(p: Seq<u8>) -> Result<AppKeyMessage, ParseError> {
    if p.len() == 19 {
        match spec_parse_pair(p.subrange(0, 3)) {
            Ok(indexes) => Ok(
                AppKeyMessage::Add(
                    AppKeyAddMessage { indexes, app_key: ApplicationKey::spec_from_key(p.subrange(3, 19)) },
                ),
            ),
            Err(e) => Err(e),
        }
    } else {
        Err(ParseError::InvalidLength)
    }
}

/// Decoding an AppKey Delete: exactly three bytes of key indexes.
pub open spec fn spec_parse_appkey_delete(p: Seq<u8>) -> Result<AppKeyMessage, ParseError> {
    match spec_parse_pair(p) {
        Ok(indexes) => Ok(AppKeyMessage::Delete(AppKeyDeleteMessage { indexes })),
        Err(e) => Err(e),
    }
}

/// Decoding an AppKey Get: exactly two bytes of network key index.
pub open spec fn spec_parse_appkey_get(p: Seq<u8>) -> Result<AppKeyMessage, ParseError> {
    if p.len() == 2 {
        match spec_parse_one(p) {
            Ok(k) => Ok(AppKeyMessage::Get(AppKeyGetMessage { net_key_index: NetKeyIndex(k) })),
            Err(e) => Err(e),
        }
    } else {
        Err(ParseError::InvalidLength)
    }
}

impl AppKeyMessage {
    /// Decodes an AppKey Add.
    pub fn parse_add(parameters: &[u8]) -> (r: Result<AppKeyMessage, ParseError>)
        ensures
            r == spec_parse_appkey_add(parameters@),
    {
        if parameters.len() == 19 {
            let indexes = NetKeyAppKeyIndexesPair::parse(vstd::slice::slice_subrange(parameters, 0, 3))?;
            let key = to_array16(vstd::slice::slice_subrange(parameters, 3, 19));
            let app_key = ApplicationKey::new(key);
            Ok(AppKeyMessage::Add(AppKeyAddMessage { indexes, app_key }))
        } else {
            Err(ParseError::InvalidLength)
        }
    }

    /// Decodes an AppKey Delete.
    pub fn parse_delete(parameters: &[u8]) -> (r: Result<AppKeyMessage, ParseError>)
        ensures
            r == spec_parse_appkey_delete(parameters@),
    {
        if parameters.len() == 3 {
            let indexes = NetKeyAppKeyIndexesPair::parse(vstd::slice::slice_subrange(parameters, 0, 3))?;
            assert(parameters@.subrange(0, 3) =~= parameters@);
            Ok(AppKeyMessage::Delete(AppKeyDeleteMessage { indexes }))
        } else {
            Err(ParseError::InvalidLength)
        }
    }

    /// Decodes an AppKey Get.
    pub fn parse_get(parameters: &[u8]) -> (r: Result<AppKeyMessage, ParseError>)
        ensures
            r == spec_parse_appkey_get(parameters@),
    {
        if parameters.len() == 2 {
            let net_key_index = NetKeyIndex(KeyIndex::parse_one(parameters)?);
            Ok(AppKeyMessage::Get(AppKeyGetMessage { net_key_index }))
        } else {
            Err(ParseError::InvalidLength)
        }
    }

    /// Decodes an AppKey Status.
    pub fn parse_status(parameters: &[u8]) -> (r: Result<AppKeyMessage, ParseError>)
        requires
            parameters@.len() >= 4,
        ensures
            r == (match spec_parse_appkey_status(parameters@) {
                Ok(m) => Ok(AppKeyMessage::Status(m)),
                Err(e) => Err(e),
            }),
    {
        Ok(AppKeyMessage::Status(AppKeyStatusMessage::parse(parameters)?))
    }

    pub open spec fn spec_opcode(&self) -> Opcode {
        match *self {
            AppKeyMessage::Add(_) => config_appkey_add(),
            AppKeyMessage::Delete(_) => config_appkey_delete(),
            AppKeyMessage::Get(_) => config_appkey_get(),
            AppKeyMessage::List(_) => config_appkey_list(),
            AppKeyMessage::Status(_) => config_appkey_status(),
            AppKeyMessage::Update(_) => config_appkey_status(),
        }
    }

    /// The opcode of the message; an Update reports the Status opcode.
    pub fn opcode(&self) -> (r: Opcode)
        ensures
            r == self.spec_opcode(),
    {
        match self {
            AppKeyMessage::Add(_) => config_appkey_add(),
            AppKeyMessage::Delete(_) => config_appkey_delete(),
            AppKeyMessage::Get(_) => config_appkey_get(),
            AppKeyMessage::List(_) => config_appkey_list(),
            AppKeyMessage::Status(_) => config_appkey_status(),
            AppKeyMessage::Update(_) => config_appkey_status(),
        }
    }

    /// Only List and Status messages can be written.
    pub open spec fn can_emit(&self) -> bool {
        self is List || self is Status
    }

    pub open spec fn spec_chunks(&self) -> Seq<Seq<u8>> {
        match *self {
            AppKeyMessage::List(m) => m.spec_chunks(),
            AppKeyMessage::Status(m) => m.spec_chunks(),
            _ => seq![],
        }
    }

    /// Writes the parameters of a List or Status message.
    pub fn emit_parameters(&self, xmit: &mut Xmit) -> (r: Result<(), InsufficientBuffer>)
        requires
            old(xmit).wf(),
            self.can_emit(),
        ensures
            final(xmit).wf(),
            final(xmit).cap() == old(xmit).cap(),
            (final(xmit)@, r is Ok) == put_all(old(xmit)@, old(xmit).cap(), self.spec_chunks()),
    {
        match self {
            AppKeyMessage::List(inner) => xmit.put_chunks(&inner.chunks()),
            AppKeyMessage::Status(inner) => inner.emit_parameters(xmit),
            _ => Ok(()),
        }
    }
}

} // verus!
