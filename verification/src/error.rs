//! The error values of the codec, the argument loader and the call-data
//! serializer.

use vstd::prelude::*;

verus! {

/// Why a byte string could not be decoded.
#[derive(Clone, Copy, Debug, PartialEq, Eq, Structural)]
pub enum DecodeError {
    /// Fewer bytes are left than the value needs.
    InputTooShort,
    /// More bytes were given than the value can have.
    InputTooLong,
    /// The bytes denote a number outside the range of the target type.
    InputOutOfRange,
}

/// Why a value could not be encoded.
#[derive(Clone, Copy, Debug, PartialEq, Eq, Structural)]
pub enum EncodeError {
    /// The value's byte count does not fit the four-byte size field of the
    /// nested format.
    LengthOverflow,
}

/// An error of a smart-contract call, as the argument loader and the
/// call-data serializer report it.
#[derive(Clone, Copy, Debug, PartialEq, Eq, Structural)]
pub enum SCError {
    /// A raw argument was asked for and none was left, or one was left over.
    ArgWrongNumber,
    /// A list pushed with an expected count did not have that many elements.
    ArgAsyncWrongNumber,
    /// The argument type has no arity-checked push.
    NotSupported,
    /// A raw argument could not be decoded.
    ArgDecodeErr(DecodeError),
    /// An argument of an asynchronous call could not be encoded.
    PushAsyncEncodeErr(EncodeError),
}

impl DecodeError {
    pub open spec fn message_spec(self) -> Seq<char> {
        match self {
            DecodeError::InputTooShort => "input too short"@,
            DecodeError::InputTooLong => "input too long"@,
            DecodeError::InputOutOfRange => "input out of range"@,
        }
    }

    /// The text of the error.
    pub fn message(&self) -> (r: &'static str)
        ensures
            r@ == self.message_spec(),
    {
        match self {
            DecodeError::InputTooShort => "input too short",
            DecodeError::InputTooLong => "input too long",
            DecodeError::InputOutOfRange => "input out of range",
        }
    }
}

impl EncodeError {
    pub open spec fn message_spec(self) -> Seq<char> {
        match self {
            EncodeError::LengthOverflow => "length does not fit the size field"@,
        }
    }

    /// The text of the error.
    pub fn message(&self) -> (r: &'static str)
        ensures
            r@ == self.message_spec(),
    {
        match self {
            EncodeError::LengthOverflow => "length does not fit the size field",
        }
    }
}

impl SCError {
    pub open spec fn message_spec(self) -> Seq<char> {
        match self {
            SCError::ArgWrongNumber => "wrong number of arguments"@,
            SCError::ArgAsyncWrongNumber => "wrong number of arguments provided to async call"@,
            SCError::NotSupported => "not supported"@,
            SCError::ArgDecodeErr(e) => e.message_spec(),
            SCError::PushAsyncEncodeErr(e) => e.message_spec(),
        }
    }

    /// The text of the error; a decode or encode error keeps its own text.
    pub fn message(&self) -> (r: &'static str)
        ensures
            r@ == self.message_spec(),
    {
        match self {
            SCError::ArgWrongNumber => "wrong number of arguments",
            SCError::ArgAsyncWrongNumber => "wrong number of arguments provided to async call",
            SCError::NotSupported => "not supported",
            SCError::ArgDecodeErr(e) => e.message(),
            SCError::PushAsyncEncodeErr(e) => e.message(),
        }
    }
}

} // verus!
