//! The error taxonomies: one for the codec and one for each round.

use vstd::prelude::*;

verus! {

/// Why an entity could not be decoded from bytes, or encoded to them.
#[derive(Debug, Clone, Copy, PartialEq, Eq, Structural)]
pub enum Error {
    /// The bytes are not the encoding of an entity of the expected kind.
    DeserializationError,
    /// The entity has no encoding.
    SerializationError,
}

/// Why the first round produced no commitment.
#[derive(Debug, Clone, Copy, PartialEq, Eq, Structural)]
pub enum Round1Error {
    /// The key package does not decode.
    InvalidKeyPackage,
    /// The fresh nonce pair has no encoding.
    NonceSerializationError,
    /// The commitment, or the identifier it is tagged with, has no encoding.
    CommitmentSerializationError,
}

/// Why the second round produced no signature share, under the plain suite.
#[derive(Debug, Clone, PartialEq, Eq)]
pub enum Round2Error {
    /// The key package does not decode.
    InvalidKeyPackage,
    /// The nonce pair does not decode.
    NonceSerializationError,
    /// A commitment has no encoding.
    CommitmentSerializationError,
    /// The signing package does not decode.
    SigningPackageDeserializationError,
    /// The signing computation rejected its inputs. The message is for diagnostics only.
    SigningFailed { message: String },
}

/// A `Round2Error` as contracts speak of it: the message is a sequence of characters.
pub enum Round2Failure {
    InvalidKeyPackage,
    NonceSerializationError,
    CommitmentSerializationError,
    SigningPackageDeserializationError,
    SigningFailed { message: Seq<char> },
}

impl View for Error {
    type V = Error;

    open spec fn view(&self) -> Error {
        *self
    }
}

impl View for Round1Error {
    type V = Round1Error;

    open spec fn view(&self) -> Round1Error {
        *self
    }
}

impl View for Round2Error {
    type V = Round2Failure;

    open spec fn view(&self) -> Round2Failure {
        match self {
            Round2Error::InvalidKeyPackage => Round2Failure::InvalidKeyPackage,
            Round2Error::NonceSerializationError => Round2Failure::NonceSerializationError,
            Round2Error::CommitmentSerializationError => Round2Failure::CommitmentSerializationError,
            Round2Error::SigningPackageDeserializationError =>
                Round2Failure::SigningPackageDeserializationError,
            Round2Error::SigningFailed { message } => Round2Failure::SigningFailed {
                message: message@,
            },
        }
    }
}

/// A result as contracts speak of it: the view of what it carries, on either side.
pub open spec fn viewed<T: View, E: View>(r: Result<T, E>) -> Result<T::V, E::V> {
    match r {
        Ok(value) => Ok(value@),
        Err(e) => Err(e@),
    }
}

} // verus!
