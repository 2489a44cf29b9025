//! The errors of parsing and of the stack.

use vstd::prelude::*;

verus! {

/// Errors raised while decoding mesh PDUs and model messages.
#[derive(Copy, Clone, Debug, PartialEq, Eq, Structural)]
pub enum ParseError {
    /// The bytes do not form a PDU of the expected shape.
    InvalidPDUFormat,
    /// A field holds a value outside of its allowed range.
    InvalidValue,
    /// The input is shorter or longer than the message requires.
    InvalidLength,
    /// An output buffer was too small for the decoded value.
    InsufficientBuffer,
}

/// The output buffer has no room for what is being written into it.
#[derive(Copy, Clone, Debug, PartialEq, Eq, Structural)]
pub struct InsufficientBuffer;

/// Errors raised by the node's driver layers.
#[derive(Copy, Clone, Debug, PartialEq, Eq, Structural)]
pub enum DriverError {
    InvalidState,
    InvalidPDU,
    InvalidFormat,
    InsufficientSpace,
    InvalidModel,
    InvalidAddress,
    InvalidAppKeyIndex,
    InvalidNetKeyIndex,
    AppKeyIndexAlreadyStored,
    InvalidKeyHandle,
    CryptoError,
    Parse(ParseError),
}

} // verus!
