//! What the coordinator sends to the signers.

use vstd::prelude::*;
use crate::ed25519::{decode_signing_package, SigningPackage};
use crate::error::{viewed, Error};

verus! {

/// The coordinator's encoded signing package: the message and the commitments of the
/// participants chosen to sign it.
#[derive(Debug, Clone)]
pub struct FrostSigningPackage {
    pub data: Vec<u8>,
}

impl FrostSigningPackage {
    /// Decodes the signing package under Ed25519. It succeeds on exactly the encodings of
    /// a signing package.
    pub fn to_signing_package(&self) -> (res: Result<SigningPackage, Error>)
        ensures
            viewed(res) == decode_signing_package(self.data@),
    {
        SigningPackage::decode(&self.data)
    }
}

} // verus!
