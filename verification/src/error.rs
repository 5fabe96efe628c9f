//! The three stages at which minting a token can fail.

use jsonwebtoken::errors::Error as JwtError;
use serde_json::Error as JsonError;
use std::time::SystemTimeError;
use vstd::prelude::*;
use vstd::std_specs::convert::FromSpecImpl;

verus! {

/// The error of `serde_json`, carried through untouched.
#[verifier::external_type_specification]
#[verifier::external_body]
pub struct ExJsonError(JsonError);

/// The error of `jsonwebtoken`, carried through untouched.
#[verifier::external_type_specification]
#[verifier::external_body]
pub struct ExJwtError(JwtError);

/// Why a document could not be encoded.
#[derive(Debug)]
pub enum EncodeFailure {
    /// The serializer refused a value.
    Json(JsonError),
    /// The document is too long for its encoding's length to fit in `usize`.
    Oversized,
}

/// Why the clock gave no usable time.
#[derive(Debug)]
pub enum ClockFailure {
    /// The clock stands before the Unix epoch.
    BeforeEpoch(SystemTimeError),
    /// The expiry, one hour after the reading, does not fit in 64 bits.
    ExpiryOutOfRange,
}

/// A failure to mint a token, by the stage that failed.
#[derive(Debug)]
pub enum Error {
    /// The header or the claims could not be serialized.
    SerdeJsonError(EncodeFailure),
    /// The private key was refused, or signing failed.
    JsonWebTokenError(JwtError),
    /// The system clock gave no usable time.
    SystemTimeError(ClockFailure),
}

impl Error {
    /// A short description of the stage that failed.
    pub fn message(&self) -> (text: String)
        ensures
            text@ == match *self {
                Error::SerdeJsonError(_) => "JSON error"@,
                Error::JsonWebTokenError(_) => "JWT error"@,
                Error::SystemTimeError(_) => "System time error"@,
            },
    {
        match self {
            Error::SerdeJsonError(_) => "JSON error".to_owned(),
            Error::JsonWebTokenError(_) => "JWT error".to_owned(),
            Error::SystemTimeError(_) => "System time error".to_owned(),
        }
    }
}

impl From<JsonError> for Error {
    /// A failure of the serializer is a failure to serialize.
    fn from(e: JsonError) -> (res: Self) {
        Error::SerdeJsonError(EncodeFailure::Json(e))
    }
}

impl FromSpecImpl<JsonError> for Error {
    open spec fn obeys_from_spec() -> bool {
        true
    }

    open spec fn from_spec(e: JsonError) -> Self {
        Error::SerdeJsonError(EncodeFailure::Json(e))
    }
}

impl From<JwtError> for Error {
    /// A failure of the signing library is a failure to sign.
    fn from(e: JwtError) -> (res: Self) {
        Error::JsonWebTokenError(e)
    }
}

impl FromSpecImpl<JwtError> for Error {
    open spec fn obeys_from_spec() -> bool {
        true
    }

    open spec fn from_spec(e: JwtError) -> Self {
        Error::JsonWebTokenError(e)
    }
}

impl From<SystemTimeError> for Error {
    /// The error of a time before the epoch is a clock failure.
    fn from(e: SystemTimeError) -> (res: Self) {
        Error::SystemTimeError(ClockFailure::BeforeEpoch(e))
    }
}

impl FromSpecImpl<SystemTimeError> for Error {
    open spec fn obeys_from_spec() -> bool {
        true
    }

    open spec fn from_spec(e: SystemTimeError) -> Self {
        Error::SystemTimeError(ClockFailure::BeforeEpoch(e))
    }
}

} // verus!
