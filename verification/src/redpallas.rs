//! The entities of FROST(Pallas, BLAKE2b-512) with re-randomized keys, and the calls into
//! the FROST crates.
//!
//! As for the Ed25519 suite, an entity on this side is the byte string that the suite
//! writes for it, and what the suite computes is named by specification functions without
//! a body. This suite signs with a randomizer: a scalar, chosen by the coordinator for one
//! signing session, that is added to the key before the share is computed.

use vstd::prelude::*;
use crate::bytes::same;
use crate::error::{viewed, Error};

verus! {

/// Whether `data` decodes as a secret share: whether
/// `reddsa::frost::redpallas::keys::SecretShare::deserialize` returns `Ok` on it.
pub uninterp spec fn secret_share_decodes(data: Seq<u8>) -> bool;

/// Whether `data` decodes as a key package: whether
/// `reddsa::frost::redpallas::keys::KeyPackage::deserialize` returns `Ok` on it.
pub uninterp spec fn key_package_decodes(data: Seq<u8>) -> bool;

/// Whether `data` decodes as a signing package: whether
/// `reddsa::frost::redpallas::SigningPackage::deserialize` returns `Ok` on it.
pub uninterp spec fn signing_package_decodes(data: Seq<u8>) -> bool;

/// Whether `data` decodes as a nonce pair: whether
/// `reddsa::frost::redpallas::round1::SigningNonces::deserialize` returns `Ok` on it.
pub uninterp spec fn nonces_decode(data: Seq<u8>) -> bool;

/// Whether `data` decodes as a pair of nonce commitments: whether
/// `reddsa::frost::redpallas::round1::SigningCommitments::deserialize` returns `Ok` on it.
pub uninterp spec fn commitments_decode(data: Seq<u8>) -> bool;

/// Whether `data` decodes as a signature share: whether
/// `reddsa::frost::redpallas::round2::SignatureShare::deserialize` returns `Ok` on it.
pub uninterp spec fn share_decodes(data: Seq<u8>) -> bool;

/// Whether `data` decodes as a randomizer: whether
/// `frost_rerandomized::Randomizer::deserialize` returns `Ok` on it.
pub uninterp spec fn randomizer_decodes(data: Seq<u8>) -> bool;

/// What `serialize` returns for the secret share that `data` decodes to: the bytes, where there
/// are any. It is read only of data that decodes.
pub uninterp spec fn secret_share_encoding(data: Seq<u8>) -> Option<Seq<u8>>;

/// What `serialize` returns for the key package that `data` decodes to: the bytes, where there
/// are any. It is read only of data that decodes.
pub uninterp spec fn key_package_encoding(data: Seq<u8>) -> Option<Seq<u8>>;

/// What `serialize` returns for the signing package that `data` decodes to: the bytes, where there
/// are any. It is read only of data that decodes.
pub uninterp spec fn signing_package_encoding(data: Seq<u8>) -> Option<Seq<u8>>;

/// What `serialize` returns for the nonce pair that `data` decodes to: the bytes, where there
/// are any. It is read only of data that decodes.
pub uninterp spec fn nonces_encoding(data: Seq<u8>) -> Option<Seq<u8>>;

/// What `serialize` returns for the pair of nonce commitments that `data` decodes to: the bytes, where there
/// are any. It is read only of data that decodes.
pub uninterp spec fn commitments_encoding(data: Seq<u8>) -> Option<Seq<u8>>;

/// What `serialize` returns for the signature share that `data` decodes to. It is read only of
/// data that decodes.
pub uninterp spec fn share_encoding(data: Seq<u8>) -> Seq<u8>;

/// Whether the secret share that `data` decodes to passes `verify`: whether the share lies
/// on the polynomial that its commitment fixes. It is read only of data that decodes.
pub uninterp spec fn secret_share_verifies(data: Seq<u8>) -> bool;

/// The identifier of the participant for whom the secret share `data` was dealt, as the
/// JSON text that `serde_json::to_string` gives it, or the reason for which it has no
/// such text. It is read only of data that decodes.
pub uninterp spec fn secret_share_owner(data: Seq<u8>) -> Result<Seq<char>, Seq<char>>;

/// The identifier of the participant that owns the key package `data`, as the JSON text
/// that `serde_json::to_string` gives it, or the reason for which it has no such text. It
/// is read only of data that decodes.
pub uninterp spec fn key_package_owner(data: Seq<u8>) -> Result<Seq<char>, Seq<char>>;

/// What `frost_rerandomized::sign` computes from a signing package, a nonce pair, a key
/// package and a randomizer, each given by its encoding: the encoded signature share, or
/// the reason for the refusal. It is read only of data that decodes.
pub uninterp spec fn signing_outcome(
    signing_package: Seq<u8>,
    nonces: Seq<u8>,
    key_package: Seq<u8>,
    randomizer: Seq<u8>,
) -> Result<Seq<u8>, Seq<char>>;

/// The length of an encoded scalar of the suite.
pub const SCALAR_LEN: usize = 32;

/// The length of an encoded pair of nonce commitments: the format's version and the
/// suite's mark, then the two commitments.
pub const COMMITMENTS_LEN: usize = 69;

/// The length of an encoded nonce pair: the format's version and the suite's mark, the
/// two nonces, then the pair's commitments.
pub const NONCES_LEN: usize = 138;

/// Whether `data` is the encoding of a secret share: it is not empty, the suite decodes it, and
/// writes what it decoded back to the same bytes.
pub open spec fn valid_secret_share(data: Seq<u8>) -> bool {
    data.len() > 0 && secret_share_decodes(data) && secret_share_encoding(data) == Some(data)
}

/// Whether `data` is the encoding of a key package: it is not empty, the suite decodes it, and
/// writes what it decoded back to the same bytes.
pub open spec fn valid_key_package(data: Seq<u8>) -> bool {
    data.len() > 0 && key_package_decodes(data) && key_package_encoding(data) == Some(data)
}

/// Whether `data` is the encoding of a signing package: it is not empty, the suite decodes it, and
/// writes what it decoded back to the same bytes.
pub open spec fn valid_signing_package(data: Seq<u8>) -> bool {
    data.len() > 0 && signing_package_decodes(data) && signing_package_encoding(data) == Some(data)
}

/// Whether `data` is the encoding of a nonce pair: it has the length of one, the suite decodes
/// it, and writes what it decoded back to the same bytes.
pub open spec fn valid_nonces(data: Seq<u8>) -> bool {
    data.len() == NONCES_LEN && nonces_decode(data) && nonces_encoding(data) == Some(data)
}

/// Whether `data` is the encoding of a pair of nonce commitments: it has the length of one, the suite decodes
/// it, and writes what it decoded back to the same bytes.
pub open spec fn valid_commitments(data: Seq<u8>) -> bool {
    data.len() == COMMITMENTS_LEN && commitments_decode(data) && commitments_encoding(data) == Some(data)
}

/// Whether `data` is the encoding of a signature share: it has the length of a scalar, the suite
/// decodes it, and writes what it decoded back to the same bytes.
pub open spec fn valid_share(data: Seq<u8>) -> bool {
    data.len() == SCALAR_LEN && share_decodes(data) && share_encoding(data) == data
}

/// Whether `data` is the encoding of a randomizer: it has the length of a scalar, and the
/// suite decodes it.
pub open spec fn valid_randomizer(data: Seq<u8>) -> bool {
    data.len() == SCALAR_LEN && randomizer_decodes(data)
}

/// What decoding `data` as a secret share returns.
pub open spec fn decode_secret_share(data: Seq<u8>) -> Result<Seq<u8>, Error> {
    if valid_secret_share(data) {
        Ok(data)
    } else {
        Err(Error::DeserializationError)
    }
}

/// What decoding `data` as a key package returns.
pub open spec fn decode_key_package(data: Seq<u8>) -> Result<Seq<u8>, Error> {
    if valid_key_package(data) {
        Ok(data)
    } else {
        Err(Error::DeserializationError)
    }
}

/// What decoding `data` as a signing package returns.
pub open spec fn decode_signing_package(data: Seq<u8>) -> Result<Seq<u8>, Error> {
    if valid_signing_package(data) {
        Ok(data)
    } else {
        Err(Error::DeserializationError)
    }
}

/// What decoding `data` as a nonce pair returns.
pub open spec fn decode_nonces(data: Seq<u8>) -> Result<Seq<u8>, Error> {
    if valid_nonces(data) {
        Ok(data)
    } else {
        Err(Error::DeserializationError)
    }
}

/// What decoding `data` as a pair of nonce commitments returns.
pub open spec fn decode_commitments(data: Seq<u8>) -> Result<Seq<u8>, Error> {
    if valid_commitments(data) {
        Ok(data)
    } else {
        Err(Error::DeserializationError)
    }
}

/// What decoding `data` as a signature share returns.
pub open spec fn decode_share(data: Seq<u8>) -> Result<Seq<u8>, Error> {
    if valid_share(data) {
        Ok(data)
    } else {
        Err(Error::DeserializationError)
    }
}

/// What decoding `data` as a randomizer returns.
pub open spec fn decode_randomizer(data: Seq<u8>) -> Result<Seq<u8>, Error> {
    if valid_randomizer(data) {
        Ok(data)
    } else {
        Err(Error::DeserializationError)
    }
}

/// What encoding the nonce pair held in `entity` returns.
pub open spec fn encode_nonces(entity: Seq<u8>) -> Result<Seq<u8>, Error> {
    match nonces_encoding(entity) {
        Some(bytes) => Ok(bytes),
        None => Err(Error::SerializationError),
    }
}

/// What encoding the commitments held in `entity` returns.
pub open spec fn encode_commitments(entity: Seq<u8>) -> Result<Seq<u8>, Error> {
    match commitments_encoding(entity) {
        Some(bytes) => Ok(bytes),
        None => Err(Error::SerializationError),
    }
}

/// What round one makes of the suite's answer for the nonce pair: the bytes, where they
/// are the encoding of a nonce pair, and else a failure to encode.
pub open spec fn accepted_nonces(outcome: Result<Seq<u8>, Error>) -> Result<Seq<u8>, Error> {
    match outcome {
        Ok(bytes) => if valid_nonces(bytes) {
            Ok(bytes)
        } else {
            Err(Error::SerializationError)
        },
        Err(e) => Err(e),
    }
}

/// What round one makes of the suite's answer for the commitments: the bytes, where they
/// are the encoding of a pair of commitments, and else a failure to encode.
pub open spec fn accepted_commitments(outcome: Result<Seq<u8>, Error>) -> Result<
    Seq<u8>,
    Error,
> {
    match outcome {
        Ok(bytes) => if valid_commitments(bytes) {
            Ok(bytes)
        } else {
            Err(Error::SerializationError)
        },
        Err(e) => Err(e),
    }
}

/// The message of a failure to sign where the suite gave a share that does not decode.
pub open spec fn undecodable_share() -> Seq<char> {
    "The signature share does not decode."@
}

/// What round two makes of the suite's answer: the share, where it is the encoding of a
/// signature share; the suite's message, where it refused; and a message of this
/// library's, where what the suite gave is no encoding of a share.
pub open spec fn accepted_share(signed: Result<Seq<u8>, Seq<char>>) -> Result<Seq<u8>, Seq<char>> {
    match signed {
        Ok(bytes) => if valid_share(bytes) {
            Ok(bytes)
        } else {
            Err(undecodable_share())
        },
        Err(message) => Err(message),
    }
}

/// What holds of every outcome of round one's draw: a failure is a failure to encode; what
/// comes back for the nonce pair is the encoding of a nonce pair, and what comes back for
/// the commitments is the encoding of a pair of commitments; and the encoded nonce pair
/// ends with the encoded commitments, which are the last thing that a nonce pair holds.
pub open spec fn drawn(nonces: Result<Seq<u8>, Error>, commitments: Result<Seq<u8>, Error>) -> bool {
    &&& nonces matches Err(e) ==> e == Error::SerializationError
    &&& commitments matches Err(e) ==> e == Error::SerializationError
    &&& nonces matches Ok(n) ==> valid_nonces(n)
    &&& commitments matches Ok(c) ==> valid_commitments(c)
    &&& nonces matches Ok(n) ==> commitments matches Ok(c) ==> c.is_suffix_of(n)
}

/// A dealer's secret share for one participant, held as its encoding.
pub struct SecretShare {
    bytes: Vec<u8>,
}

/// A participant's key package, held as its encoding.
pub struct KeyPackage {
    bytes: Vec<u8>,
}

/// The coordinator's signing package, held as its encoding.
pub struct SigningPackage {
    bytes: Vec<u8>,
}

/// A nonce pair, held as its encoding.
pub struct SigningNonces {
    bytes: Vec<u8>,
}

/// A pair of nonce commitments, held as its encoding.
pub struct SigningCommitments {
    bytes: Vec<u8>,
}

/// A signature share, held as its encoding.
pub struct SignatureShare {
    bytes: Vec<u8>,
}

/// A randomizer, held as its encoding.
pub struct Randomizer {
    bytes: Vec<u8>,
}

impl View for SecretShare {
    type V = Seq<u8>;

    closed spec fn view(&self) -> Seq<u8> {
        self.bytes@
    }
}

impl View for KeyPackage {
    type V = Seq<u8>;

    closed spec fn view(&self) -> Seq<u8> {
        self.bytes@
    }
}

impl View for SigningPackage {
    type V = Seq<u8>;

    closed spec fn view(&self) -> Seq<u8> {
        self.bytes@
    }
}

impl View for SigningNonces {
    type V = Seq<u8>;

    closed spec fn view(&self) -> Seq<u8> {
        self.bytes@
    }
}

impl View for SigningCommitments {
    type V = Seq<u8>;

    closed spec fn view(&self) -> Seq<u8> {
        self.bytes@
    }
}

impl View for SignatureShare {
    type V = Seq<u8>;

    closed spec fn view(&self) -> Seq<u8> {
        self.bytes@
    }
}

impl View for Randomizer {
    type V = Seq<u8>;

    closed spec fn view(&self) -> Seq<u8> {
        self.bytes@
    }
}

impl SecretShare {
    #[verifier::type_invariant]
    spec fn accepted(self) -> bool {
        valid_secret_share(self.bytes@)
    }

    /// Decodes a secret share. It succeeds on exactly the byte strings that the suite decodes and
    /// writes back unchanged: what the suite rejects fails, and so does an encoding with
    /// anything after its end.
    pub fn decode(data: &Vec<u8>) -> (res: Result<SecretShare, Error>)
        ensures
            viewed(res) == decode_secret_share(data@),
    {
        if !accepts_secret_share(data) {
            return Err(Error::DeserializationError);
        }
        match secret_share_bytes(data) {
            Ok(bytes) => if same(&bytes, data) {
                Ok(SecretShare { bytes })
            } else {
                Err(Error::DeserializationError)
            },
            Err(_) => Err(Error::DeserializationError),
        }
    }

    /// Whether the share passes the suite's check against its own commitment.
    pub fn verify(&self) -> (res: bool)
        ensures
            res == secret_share_verifies(self@),
    {
        proof {
            use_type_invariant(self);
        }
        verifies_secret_share(&self.bytes)
    }

    /// The identifier of the participant for whom this share was dealt, as JSON text.
    pub fn owner(&self) -> (res: Result<String, String>)
        ensures
            viewed(res) == secret_share_owner(self@),
    {
        proof {
            use_type_invariant(self);
        }
        dealt_to(&self.bytes)
    }

    /// Round one of the suite, for a share that passed `verify`: a fresh nonce pair and its
    /// commitments, each encoded, or for each the failure to encode it. What the suite
    /// hands back is decoded before it is passed on, so what comes back are encodings of
    /// their kinds. Two calls on one share differ, so the contract says what holds of
    /// every outcome.
    pub(crate) fn commit(&self) -> (res: (Result<Vec<u8>, Error>, Result<Vec<u8>, Error>))
        requires
            secret_share_verifies(self@),
        ensures
            drawn(viewed(res.0), viewed(res.1)),
    {
        proof {
            use_type_invariant(self);
        }
        let (nonces, commitments) = round1_commit(&self.bytes);
        (SigningNonces::accept(nonces), SigningCommitments::accept(commitments))
    }
}

impl KeyPackage {
    #[verifier::type_invariant]
    spec fn accepted(self) -> bool {
        valid_key_package(self.bytes@)
    }

    /// Decodes a key package. It succeeds on exactly the byte strings that the suite decodes and
    /// writes back unchanged: what the suite rejects fails, and so does an encoding with
    /// anything after its end.
    pub fn decode(data: &Vec<u8>) -> (res: Result<KeyPackage, Error>)
        ensures
            viewed(res) == decode_key_package(data@),
    {
        if !accepts_key_package(data) {
            return Err(Error::DeserializationError);
        }
        match key_package_bytes(data) {
            Ok(bytes) => if same(&bytes, data) {
                Ok(KeyPackage { bytes })
            } else {
                Err(Error::DeserializationError)
            },
            Err(_) => Err(Error::DeserializationError),
        }
    }

    /// The identifier of the participant that owns this key package, as JSON text.
    pub fn owner(&self) -> (res: Result<String, String>)
        ensures
            viewed(res) == key_package_owner(self@),
    {
        proof {
            use_type_invariant(self);
        }
        owner_text(&self.bytes)
    }
}

impl SigningPackage {
    #[verifier::type_invariant]
    spec fn accepted(self) -> bool {
        valid_signing_package(self.bytes@)
    }

    /// Decodes a signing package. It succeeds on exactly the byte strings that the suite decodes and
    /// writes back unchanged: what the suite rejects fails, and so does an encoding with
    /// anything after its end.
    pub fn decode(data: &Vec<u8>) -> (res: Result<SigningPackage, Error>)
        ensures
            viewed(res) == decode_signing_package(data@),
    {
        if !accepts_signing_package(data) {
            return Err(Error::DeserializationError);
        }
        match signing_package_bytes(data) {
            Ok(bytes) => if same(&bytes, data) {
                Ok(SigningPackage { bytes })
            } else {
                Err(Error::DeserializationError)
            },
            Err(_) => Err(Error::DeserializationError),
        }
    }
}

impl SigningNonces {
    #[verifier::type_invariant]
    spec fn accepted(self) -> bool {
        valid_nonces(self.bytes@)
    }

    /// Decodes a nonce pair. It succeeds on exactly the byte strings of `NONCES_LEN`
    /// bytes that the suite decodes and writes back unchanged: shorter and longer data
    /// fails, and so does what the suite rejects.
    pub fn decode(data: &Vec<u8>) -> (res: Result<SigningNonces, Error>)
        ensures
            viewed(res) == decode_nonces(data@),
    {
        if data.len() != NONCES_LEN || !accepts_nonces(data) {
            return Err(Error::DeserializationError);
        }
        match nonces_bytes(data) {
            Ok(bytes) => if same(&bytes, data) {
                Ok(SigningNonces { bytes })
            } else {
                Err(Error::DeserializationError)
            },
            Err(_) => Err(Error::DeserializationError),
        }
    }

    /// What round one makes of the suite's answer for the nonce pair: the bytes are kept
    /// where they decode, and are a failure to encode where they do not.
    pub fn accept(outcome: Result<Vec<u8>, Error>) -> (res: Result<Vec<u8>, Error>)
        ensures
            viewed(res) == accepted_nonces(viewed(outcome)),
    {
        match outcome {
            Ok(bytes) => match SigningNonces::decode(&bytes) {
                Ok(_) => Ok(bytes),
                Err(_) => Err(Error::SerializationError),
            },
            Err(e) => Err(e),
        }
    }

    /// Encodes the nonce pair: the suite writes the bytes that the nonce pair is held in.
    pub fn encode(&self) -> (res: Result<Vec<u8>, Error>)
        ensures
            viewed(res) == encode_nonces(self@),
            viewed(res) == Ok::<Seq<u8>, Error>(self@),
            decode_nonces(self@) == Ok::<Seq<u8>, Error>(self@),
    {
        proof {
            use_type_invariant(self);
        }
        nonces_bytes(&self.bytes)
    }
}

impl SigningCommitments {
    #[verifier::type_invariant]
    spec fn accepted(self) -> bool {
        valid_commitments(self.bytes@)
    }

    /// Decodes a pair of nonce commitments. It succeeds on exactly the byte strings of `COMMITMENTS_LEN`
    /// bytes that the suite decodes and writes back unchanged: shorter and longer data
    /// fails, and so does what the suite rejects.
    pub fn decode(data: &Vec<u8>) -> (res: Result<SigningCommitments, Error>)
        ensures
            viewed(res) == decode_commitments(data@),
    {
        if data.len() != COMMITMENTS_LEN || !accepts_commitments(data) {
            return Err(Error::DeserializationError);
        }
        match commitments_bytes(data) {
            Ok(bytes) => if same(&bytes, data) {
                Ok(SigningCommitments { bytes })
            } else {
                Err(Error::DeserializationError)
            },
            Err(_) => Err(Error::DeserializationError),
        }
    }

    /// What round one makes of the suite's answer for the pair of nonce commitments: the bytes are kept
    /// where they decode, and are a failure to encode where they do not.
    pub fn accept(outcome: Result<Vec<u8>, Error>) -> (res: Result<Vec<u8>, Error>)
        ensures
            viewed(res) == accepted_commitments(viewed(outcome)),
    {
        match outcome {
            Ok(bytes) => match SigningCommitments::decode(&bytes) {
                Ok(_) => Ok(bytes),
                Err(_) => Err(Error::SerializationError),
            },
            Err(e) => Err(e),
        }
    }

    /// Encodes the pair of nonce commitments: the suite writes the bytes that the pair of nonce commitments is held in.
    pub fn encode(&self) -> (res: Result<Vec<u8>, Error>)
        ensures
            viewed(res) == encode_commitments(self@),
            viewed(res) == Ok::<Seq<u8>, Error>(self@),
            decode_commitments(self@) == Ok::<Seq<u8>, Error>(self@),
    {
        proof {
            use_type_invariant(self);
        }
        commitments_bytes(&self.bytes)
    }
}

impl SignatureShare {
    #[verifier::type_invariant]
    spec fn accepted(self) -> bool {
        valid_share(self.bytes@)
    }

    /// Decodes a signature share. It succeeds on exactly the byte strings of a scalar's length that
    /// the suite decodes and writes back unchanged.
    pub fn decode(data: &Vec<u8>) -> (res: Result<SignatureShare, Error>)
        ensures
            viewed(res) == decode_share(data@),
    {
        if !accepts_share(data) {
            return Err(Error::DeserializationError);
        }
        let bytes = share_bytes(data);
        if same(&bytes, data) {
            Ok(SignatureShare { bytes })
        } else {
            Err(Error::DeserializationError)
        }
    }

    /// What round two makes of the suite's answer: a share is kept where it decodes, and is
    /// a failure to sign where it does not; a refusal is passed on.
    pub fn accept(signed: Result<Vec<u8>, String>) -> (res: Result<Vec<u8>, String>)
        ensures
            viewed(res) == accepted_share(viewed(signed)),
    {
        match signed {
            Ok(bytes) => match SignatureShare::decode(&bytes) {
                Ok(_) => Ok(bytes),
                Err(_) => Err(String::from_str("The signature share does not decode.")),
            },
            Err(message) => Err(message),
        }
    }

    /// Encodes the signature share: the suite writes the bytes that the share is held in,
    /// which are `SCALAR_LEN` many.
    pub fn encode(&self) -> (res: Vec<u8>)
        ensures
            res@ == share_encoding(self@),
            res@ == self@,
            decode_share(self@) == Ok::<Seq<u8>, Error>(self@),
    {
        proof {
            use_type_invariant(self);
        }
        share_bytes(&self.bytes)
    }
}

impl Randomizer {
    #[verifier::type_invariant]
    spec fn accepted(self) -> bool {
        valid_randomizer(self.bytes@)
    }

    /// Decodes a randomizer. It succeeds on exactly the byte strings of a scalar's length
    /// that the suite decodes.
    pub fn decode(data: &Vec<u8>) -> (res: Result<Randomizer, Error>)
        ensures
            viewed(res) == decode_randomizer(data@),
    {
        if accepts_randomizer(data) {
            Ok(Randomizer { bytes: crate::bytes::copy(data) })
        } else {
            Err(Error::DeserializationError)
        }
    }
}

/// Round two of the suite: this participant's signature share over the signing package,
/// made with the key that the randomizer shifts, or the reason for which the suite refuses
/// to sign. What the suite hands back is decoded before it is passed on, so a share that
/// comes back is the encoding of one.
pub fn sign_share(
    signing_package: &SigningPackage,
    nonces: &SigningNonces,
    key_package: &KeyPackage,
    randomizer: &Randomizer,
) -> (res: Result<Vec<u8>, String>)
    ensures
        viewed(res) == accepted_share(
            signing_outcome(signing_package@, nonces@, key_package@, randomizer@),
        ),
        res matches Ok(share) ==> valid_share(share@),
{
    proof {
        use_type_invariant(signing_package);
        use_type_invariant(nonces);
        use_type_invariant(key_package);
        use_type_invariant(randomizer);
    }
    SignatureShare::accept(
        randomized_sign(
            &signing_package.bytes,
            &nonces.bytes,
            &key_package.bytes,
            &randomizer.bytes,
        ),
    )
}

/// `reddsa::frost::redpallas::keys::SecretShare::deserialize`: the answer is whether it returns `Ok`,
/// which depends on the bytes alone. It begins by reading one byte, the version of the
/// format, and fails where there is none.
#[verifier::external_body]
fn accepts_secret_share(data: &Vec<u8>) -> (res: bool)
    ensures
        res == secret_share_decodes(data@),
        res ==> data@.len() > 0,
{
    reddsa::frost::redpallas::keys::SecretShare::deserialize(data).is_ok()
}

/// `reddsa::frost::redpallas::keys::KeyPackage::deserialize`: the answer is whether it returns `Ok`,
/// which depends on the bytes alone. It begins by reading one byte, the version of the
/// format, and fails where there is none.
#[verifier::external_body]
fn accepts_key_package(data: &Vec<u8>) -> (res: bool)
    ensures
        res == key_package_decodes(data@),
        res ==> data@.len() > 0,
{
    reddsa::frost::redpallas::keys::KeyPackage::deserialize(data).is_ok()
}

/// `reddsa::frost::redpallas::SigningPackage::deserialize`: the answer is whether it returns `Ok`,
/// which depends on the bytes alone. It begins by reading one byte, the version of the
/// format, and fails where there is none.
#[verifier::external_body]
fn accepts_signing_package(data: &Vec<u8>) -> (res: bool)
    ensures
        res == signing_package_decodes(data@),
        res ==> data@.len() > 0,
{
    reddsa::frost::redpallas::SigningPackage::deserialize(data).is_ok()
}

/// `reddsa::frost::redpallas::round1::SigningNonces::deserialize`: the answer is whether it returns `Ok`,
/// which depends on the bytes alone. It begins by reading one byte, the version of the
/// format, and fails where there is none.
#[verifier::external_body]
fn accepts_nonces(data: &Vec<u8>) -> (res: bool)
    ensures
        res == nonces_decode(data@),
        res ==> data@.len() > 0,
{
    reddsa::frost::redpallas::round1::SigningNonces::deserialize(data).is_ok()
}

/// `reddsa::frost::redpallas::round1::SigningCommitments::deserialize`: the answer is whether it returns `Ok`,
/// which depends on the bytes alone. It begins by reading one byte, the version of the
/// format, and fails where there is none.
#[verifier::external_body]
fn accepts_commitments(data: &Vec<u8>) -> (res: bool)
    ensures
        res == commitments_decode(data@),
        res ==> data@.len() > 0,
{
    reddsa::frost::redpallas::round1::SigningCommitments::deserialize(data).is_ok()
}

/// `reddsa::frost::redpallas::round2::SignatureShare::deserialize`: the answer is whether it returns `Ok`,
/// which depends on the bytes alone. It first turns the slice into an array of
/// `SCALAR_LEN` bytes and fails where the length differs.
#[verifier::external_body]
fn accepts_share(data: &Vec<u8>) -> (res: bool)
    ensures
        res == share_decodes(data@),
        res ==> data@.len() == SCALAR_LEN,
{
    reddsa::frost::redpallas::round2::SignatureShare::deserialize(data).is_ok()
}

/// `frost_rerandomized::Randomizer::deserialize` for the suite: the answer is whether it
/// returns `Ok`, which depends on the bytes alone. It first turns the slice into an array
/// of `SCALAR_LEN` bytes and fails where the length differs.
#[verifier::external_body]
fn accepts_randomizer(data: &Vec<u8>) -> (res: bool)
    ensures
        res == randomizer_decodes(data@),
        res ==> data@.len() == SCALAR_LEN,
{
    reddsa::frost::redpallas::rerandomized::Randomizer::deserialize(data).is_ok()
}

/// `reddsa::frost::redpallas::keys::SecretShare::serialize`, on the secret share that `data` decodes to.
/// The result depends on that value alone.
#[verifier::external_body]
fn secret_share_bytes(data: &Vec<u8>) -> (res: Result<Vec<u8>, Error>)
    requires
        secret_share_decodes(data@),
    ensures
        match res {
            Ok(bytes) => secret_share_encoding(data@) == Some(bytes@),
            Err(e) => secret_share_encoding(data@) is None && e == Error::SerializationError,
        },
{
    let value = reddsa::frost::redpallas::keys::SecretShare::deserialize(data).expect("a secret share");
    value.serialize().map_err(|_| Error::SerializationError)
}

/// `reddsa::frost::redpallas::keys::KeyPackage::serialize`, on the key package that `data` decodes to.
/// The result depends on that value alone.
#[verifier::external_body]
fn key_package_bytes(data: &Vec<u8>) -> (res: Result<Vec<u8>, Error>)
    requires
        key_package_decodes(data@),
    ensures
        match res {
            Ok(bytes) => key_package_encoding(data@) == Some(bytes@),
            Err(e) => key_package_encoding(data@) is None && e == Error::SerializationError,
        },
{
    let value = reddsa::frost::redpallas::keys::KeyPackage::deserialize(data).expect("a key package");
    value.serialize().map_err(|_| Error::SerializationError)
}

/// `reddsa::frost::redpallas::SigningPackage::serialize`, on the signing package that `data` decodes to.
/// The result depends on that value alone.
#[verifier::external_body]
fn signing_package_bytes(data: &Vec<u8>) -> (res: Result<Vec<u8>, Error>)
    requires
        signing_package_decodes(data@),
    ensures
        match res {
            Ok(bytes) => signing_package_encoding(data@) == Some(bytes@),
            Err(e) => signing_package_encoding(data@) is None && e == Error::SerializationError,
        },
{
    let value = reddsa::frost::redpallas::SigningPackage::deserialize(data).expect("a signing package");
    value.serialize().map_err(|_| Error::SerializationError)
}

/// `reddsa::frost::redpallas::round1::SigningNonces::serialize`, on the nonce pair that `data` decodes to.
/// The result depends on that value alone.
#[verifier::external_body]
fn nonces_bytes(data: &Vec<u8>) -> (res: Result<Vec<u8>, Error>)
    requires
        nonces_decode(data@),
    ensures
        match res {
            Ok(bytes) => nonces_encoding(data@) == Some(bytes@),
            Err(e) => nonces_encoding(data@) is None && e == Error::SerializationError,
        },
{
    let value = reddsa::frost::redpallas::round1::SigningNonces::deserialize(data).expect("a nonce pair");
    value.serialize().map_err(|_| Error::SerializationError)
}

/// `reddsa::frost::redpallas::round1::SigningCommitments::serialize`, on the pair of nonce commitments that `data` decodes to.
/// The result depends on that value alone.
#[verifier::external_body]
fn commitments_bytes(data: &Vec<u8>) -> (res: Result<Vec<u8>, Error>)
    requires
        commitments_decode(data@),
    ensures
        match res {
            Ok(bytes) => commitments_encoding(data@) == Some(bytes@),
            Err(e) => commitments_encoding(data@) is None && e == Error::SerializationError,
        },
{
    let value = reddsa::frost::redpallas::round1::SigningCommitments::deserialize(data).expect("a pair of nonce commitments");
    value.serialize().map_err(|_| Error::SerializationError)
}

/// `reddsa::frost::redpallas::round2::SignatureShare::serialize`, on the signature share that `data` decodes to.
/// The result depends on that value alone.
#[verifier::external_body]
fn share_bytes(data: &Vec<u8>) -> (res: Vec<u8>)
    requires
        share_decodes(data@),
    ensures
        res@ == share_encoding(data@),
{
    reddsa::frost::redpallas::round2::SignatureShare::deserialize(data).expect("a signature share").serialize()
}

/// `reddsa::frost::redpallas::keys::SecretShare::verify`, on the secret share that `data` decodes to:
/// the answer is whether it returns `Ok`, which depends on the share alone.
#[verifier::external_body]
fn verifies_secret_share(data: &Vec<u8>) -> (res: bool)
    requires
        secret_share_decodes(data@),
    ensures
        res == secret_share_verifies(data@),
{
    let share = reddsa::frost::redpallas::keys::SecretShare::deserialize(data).expect("a secret share");
    share.verify().is_ok()
}

/// `serde_json::to_string`, on the identifier of the secret share that `data` decodes to.
/// The text depends on the identifier alone. Where there is none, the message is that of
/// the suite's serialization error.
#[verifier::external_body]
fn dealt_to(data: &Vec<u8>) -> (res: Result<String, String>)
    requires
        secret_share_decodes(data@),
    ensures
        viewed(res) == secret_share_owner(data@),
{
    let share = reddsa::frost::redpallas::keys::SecretShare::deserialize(data).expect("a secret share");
    serde_json::to_string(share.identifier()).map_err(
        |_| reddsa::frost::redpallas::Error::SerializationError.to_string(),
    )
}

/// `serde_json::to_string`, on the identifier of the key package that `data` decodes to.
/// The text depends on the identifier alone. Where there is none, the message is that of
/// the suite's serialization error.
#[verifier::external_body]
fn owner_text(data: &Vec<u8>) -> (res: Result<String, String>)
    requires
        key_package_decodes(data@),
    ensures
        viewed(res) == key_package_owner(data@),
{
    let key_package = reddsa::frost::redpallas::keys::KeyPackage::deserialize(data).expect("a key package");
    serde_json::to_string(key_package.identifier()).map_err(
        |_| reddsa::frost::redpallas::Error::SerializationError.to_string(),
    )
}

/// `reddsa::frost::redpallas::round1::commit`, on the signing share of the secret share that
/// `data` decodes to and on `rand::thread_rng()`; then `serialize` on each of the two
/// results. The generator panics where the operating system gives it no seed; no input
/// decides that, and the contract leaves it aside as it does a lack of memory. The nonces
/// are random, so the contract holds what is true of every outcome. A failure to encode
/// is given as `SerializationError`. The commitments that come back are
/// a copy of those that the nonce pair holds as its last field, and `serialize` writes a
/// value field by field in the order of declaration, with nothing between the fields and
/// nothing after them: so the encoded nonce pair ends with the encoded commitments.
#[verifier::external_body]
fn round1_commit(data: &Vec<u8>) -> (res: (Result<Vec<u8>, Error>, Result<Vec<u8>, Error>))
    requires
        secret_share_decodes(data@),
        secret_share_verifies(data@),
    ensures
        res.0 matches Err(e) ==> e == Error::SerializationError,
        res.1 matches Err(e) ==> e == Error::SerializationError,
        res.0 matches Ok(nonces) ==> res.1 matches Ok(commitments) ==> commitments@.is_suffix_of(
            nonces@,
        ),
{
    let share = reddsa::frost::redpallas::keys::SecretShare::deserialize(data).expect("a secret share");
    let (nonces, commitments) = reddsa::frost::redpallas::round1::commit(
        share.signing_share(),
        &mut rand::thread_rng(),
    );
    (
        nonces.serialize().map_err(|_| Error::SerializationError),
        commitments.serialize().map_err(|_| Error::SerializationError),
    )
}

/// `frost_rerandomized::sign`, on what the four byte strings decode to. A share comes back
/// as `serialize` gives it, which is a scalar's array of `SCALAR_LEN` bytes; a refusal
/// comes back as the text that the suite's error displays. Both depend on the four decoded
/// values alone.
#[verifier::external_body]
#[allow(deprecated)]
fn randomized_sign(
    signing_package: &Vec<u8>,
    nonces: &Vec<u8>,
    key_package: &Vec<u8>,
    randomizer: &Vec<u8>,
) -> (res: Result<Vec<u8>, String>)
    requires
        signing_package_decodes(signing_package@),
        nonces_decode(nonces@),
        key_package_decodes(key_package@),
        randomizer_decodes(randomizer@),
    ensures
        viewed(res) == signing_outcome(signing_package@, nonces@, key_package@, randomizer@),
        res matches Ok(share) ==> share@.len() == SCALAR_LEN,
{
    let package = reddsa::frost::redpallas::SigningPackage::deserialize(signing_package).expect("a package");
    let nonces = reddsa::frost::redpallas::round1::SigningNonces::deserialize(nonces).expect("a nonce pair");
    let keys = reddsa::frost::redpallas::keys::KeyPackage::deserialize(key_package).expect("a key package");
    let scalar = reddsa::frost::redpallas::rerandomized::Randomizer::deserialize(randomizer).expect("a randomizer");
    match frost_rerandomized::sign(&package, &nonces, &keys, scalar) {
        Ok(share) => Ok(share.serialize()),
        Err(e) => Err(e.to_string()),
    }
}

} // verus!
