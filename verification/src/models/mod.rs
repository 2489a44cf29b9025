//! Mesh model messages: their opcodes, parameter decoding and encoding.

use vstd::prelude::*;
use crate::error::ParseError;

pub mod configuration;
pub mod generic;

verus! {

/// Status code of configuration messages.
#[derive(Copy, Clone, Debug, PartialEq, Eq, Structural)]
pub enum Status {
    Success,
    InvalidAddress,
    InvalidModel,
    InvalidAppKeyIndex,
    InvalidNetKeyIndex,
    InsufficientResources,
    KeyIndexAlreadyStored,
    InvalidPublishParameters,
    NotASubscribeModel,
    StorageFailure,
    FeatureNotSupported,
    CannotUpdate,
    CannotRemove,
    CannotBind,
    TemporarilyUnableToChangeState,
    CannotSet,
    UnspecifiedError,
    InvalidBinding,
}

/// The wire code of a status.
pub open spec fn status_code(s: Status) -> u8 {
    match s {
        Status::Success => 0x00,
        Status::InvalidAddress => 0x01,
        Status::InvalidModel => 0x02,
        Status::InvalidAppKeyIndex => 0x03,
        Status::InvalidNetKeyIndex => 0x04,
        Status::InsufficientResources => 0x05,
        Status::KeyIndexAlreadyStored => 0x06,
        Status::InvalidPublishParameters => 0x07,
        Status::NotASubscribeModel => 0x08,
        Status::StorageFailure => 0x09,
        Status::FeatureNotSupported => 0x0A,
        Status::CannotUpdate => 0x0B,
        Status::CannotRemove => 0x0C,
        Status::CannotBind => 0x0D,
        Status::TemporarilyUnableToChangeState => 0x0E,
        Status::CannotSet => 0x0F,
        Status::UnspecifiedError => 0x10,
        Status::InvalidBinding => 0x11,
    }
}

/// Decoding a status code: the codes 0x00 to 0x11 are defined, others refused.
pub open spec fn spec_parse_status(v: u8) -> Result<Status, ParseError> {
    if v <= 0x11 {
        Ok(choose|s: Status| status_code(s) == v)
    } else {
        Err(ParseError::InvalidValue)
    }
}

impl Status {
    /// The wire code of the status.
    pub fn code(&self) -> (r: u8)
        ensures
            r == status_code(*self),
    {
        match self {
            Status::Success => 0x00,
            Status::InvalidAddress => 0x01,
            Status::InvalidModel => 0x02,
            Status::InvalidAppKeyIndex => 0x03,
            Status::InvalidNetKeyIndex => 0x04,
            Status::InsufficientResources => 0x05,
            Status::KeyIndexAlreadyStored => 0x06,
            Status::InvalidPublishParameters => 0x07,
            Status::NotASubscribeModel => 0x08,
            Status::StorageFailure => 0x09,
            Status::FeatureNotSupported => 0x0A,
            Status::CannotUpdate => 0x0B,
            Status::CannotRemove => 0x0C,
            Status::CannotBind => 0x0D,
            Status::TemporarilyUnableToChangeState => 0x0E,
            Status::CannotSet => 0x0F,
            Status::UnspecifiedError => 0x10,
            Status::InvalidBinding => 0x11,
        }
    }

    /// Decodes a status code.
    pub fn parse(v: u8) -> (r: Result<Status, ParseError>)
        ensures
            r == spec_parse_status(v),
            r matches Ok(s) ==> status_code(s) == v,
    {
        let r = match v {
            0x00 => Ok(Status::Success),
            0x01 => Ok(Status::InvalidAddress),
            0x02 => Ok(Status::InvalidModel),
            0x03 => Ok(Status::InvalidAppKeyIndex),
            0x04 => Ok(Status::InvalidNetKeyIndex),
            0x05 => Ok(Status::InsufficientResources),
            0x06 => Ok(Status::KeyIndexAlreadyStored),
            0x07 => Ok(Status::InvalidPublishParameters),
            0x08 => Ok(Status::NotASubscribeModel),
            0x09 => Ok(Status::StorageFailure),
            0x0A => Ok(Status::FeatureNotSupported),
            0x0B => Ok(Status::CannotUpdate),
            0x0C => Ok(Status::CannotRemove),
            0x0D => Ok(Status::CannotBind),
            0x0E => Ok(Status::TemporarilyUnableToChangeState),
            0x0F => Ok(Status::CannotSet),
            0x10 => Ok(Status::UnspecifiedError),
            0x11 => Ok(Status::InvalidBinding),
            _ => Err(ParseError::InvalidValue),
        };
        proof {
            if let Ok(s) = r {
                lemma_status_code_injective(s, choose|t: Status| status_code(t) == v);
            }
        }
        r
    }
}

/// Distinct statuses have distinct codes.
pub proof fn lemma_status_code_injective(a: Status, b: Status)
    requires
        status_code(a) == status_code(b),
    ensures
        a == b,
{
}

/// Decoding the code of a status gives the status back.
pub proof fn lemma_status_roundtrip(s: Status)
    ensures
        spec_parse_status(status_code(s)) == Ok::<Status, ParseError>(s),
{
    let t = choose|t: Status| status_code(t) == status_code(s);
    lemma_status_code_injective(s, t);
}

} // verus!
