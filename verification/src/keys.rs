//! A participant's identity and key material, as the host hands them over.

use vstd::prelude::*;
use crate::ed25519::{decode_key_package, decode_secret_share, KeyPackage, SecretShare};
use crate::error::{viewed, Error};

verus! {

/// A participant's identifier: the JSON text of the suite's identifier.
#[derive(Debug, Clone, PartialEq, Eq, Hash)]
pub struct ParticipantIdentifier {
    pub data: String,
}

/// The encoded secret share that a dealer made for one participant. The identifier beside
/// it is what the host claims; round one reads the owner from the encoded share alone.
#[derive(Debug, Clone)]
pub struct FrostSecretKeyShare {
    pub identifier: ParticipantIdentifier,
    pub data: Vec<u8>,
}

/// A participant's encoded key package. The identifier beside it is what the host claims;
/// round two reads the owner from the encoded package alone.
#[derive(Debug, Clone)]
pub struct FrostKeyPackage {
    pub identifier: ParticipantIdentifier,
    pub data: Vec<u8>,
}

impl View for ParticipantIdentifier {
    type V = Seq<char>;

    open spec fn view(&self) -> Seq<char> {
        self.data@
    }
}

impl FrostSecretKeyShare {
    /// Decodes the secret share under Ed25519. It succeeds on exactly the encodings of a
    /// secret share. The share is not verified by this.
    pub fn to_secret_share(&self) -> (res: Result<SecretShare, Error>)
        ensures
            viewed(res) == decode_secret_share(self.data@),
    {
        SecretShare::decode(&self.data)
    }
}

impl FrostKeyPackage {
    /// Decodes the key package under Ed25519. It succeeds on exactly the encodings of a
    /// key package.
    pub fn into_key_package(&self) -> (res: Result<KeyPackage, Error>)
        ensures
            viewed(res) == decode_key_package(self.data@),
    {
        KeyPackage::decode(&self.data)
    }
}

} // verus!
