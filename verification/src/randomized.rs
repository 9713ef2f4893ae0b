//! The two steps of a signer under re-randomized FROST(Pallas, BLAKE2b-512), and the codec
//! of that suite on the records.
//!
//! Round one is that of the plain suite on another curve. Round two takes one input more,
//! the session's randomizer, and without a randomizer that decodes it does not sign. Its
//! errors are a set of their own, with one member more than the plain round's.

use vstd::prelude::*;
use crate::coordinator::FrostSigningPackage;
use crate::error::{viewed, Error, Round1Error};
use crate::keys::{FrostKeyPackage, FrostSecretKeyShare, ParticipantIdentifier};
use crate::participant::{
    first_round, FirstRound, FirstRoundCommitment, FrostSignatureShare,
    FrostSigningCommitments, FrostSigningNonces, Tagged,
};
use crate::redpallas::{
    accepted_share, valid_commitments, valid_share, decode_commitments, decode_key_package, decode_nonces, decode_randomizer,
    decode_secret_share, decode_share, decode_signing_package, drawn, key_package_owner,
    secret_share_owner, secret_share_verifies, sign_share, signing_outcome, valid_key_package,
    valid_nonces, valid_secret_share, valid_signing_package, KeyPackage, Randomizer,
    SecretShare, SignatureShare, SigningCommitments, SigningNonces, SigningPackage,
};

verus! {

/// Why the second round produced no signature share, under the re-randomized suite.
#[derive(Debug, Clone, PartialEq, Eq)]
pub enum Round2Error {
    /// The key package does not decode, or its owner's identifier has no text.
    InvalidKeyPackage,
    /// The nonce pair does not decode.
    NonceSerializationError,
    /// A commitment has no encoding.
    CommitmentSerializationError,
    /// The signing package does not decode.
    SigningPackageDeserializationError,
    /// The signing computation rejected its inputs. The message is for diagnostics only.
    SigningFailed { message: String },
    /// The randomizer is missing, malformed or no scalar of the suite.
    InvalidRandomizer,
}

/// A `Round2Error` as contracts speak of it: the message is a sequence of characters.
pub enum Round2Failure {
    InvalidKeyPackage,
    NonceSerializationError,
    CommitmentSerializationError,
    SigningPackageDeserializationError,
    SigningFailed { message: Seq<char> },
    InvalidRandomizer,
}

impl View for Round2Error {
    type V = Round2Failure;

    open spec fn view(&self) -> Round2Failure {
        match self {
            Round2Error::InvalidKeyPackage => Round2Failure::InvalidKeyPackage,
            Round2Error::NonceSerializationError => Round2Failure::NonceSerializationError,
            Round2Error::CommitmentSerializationError => Round2Failure::CommitmentSerializationError,
            Round2Error::SigningPackageDeserializationError =>
                Round2Failure::SigningPackageDeserializationError,
            Round2Error::SigningFailed { message } => Round2Failure::SigningFailed {
                message: message@,
            },
            Round2Error::InvalidRandomizer => Round2Failure::InvalidRandomizer,
        }
    }
}

/// An encoded randomizer, as the coordinator sends it for one signing session.
#[derive(Debug, Clone)]
pub struct FrostRandomizer {
    pub data: Vec<u8>,
}

impl View for FrostRandomizer {
    type V = Seq<u8>;

    open spec fn view(&self) -> Seq<u8> {
        self.data@
    }
}

/// Whether round one takes the secret share `data`: it is the encoding of a secret share,
/// and the share passes the suite's check against its own commitment.
pub open spec fn usable_secret_share(data: Seq<u8>) -> bool {
    valid_secret_share(data) && secret_share_verifies(data)
}

/// What turning `data` into a randomizer returns.
pub open spec fn to_randomizer(data: Seq<u8>) -> Result<Seq<u8>, Round2Failure> {
    match decode_randomizer(data) {
        Ok(randomizer) => Ok(randomizer),
        Err(_) => Err(Round2Failure::InvalidRandomizer),
    }
}

/// The second round's result, given the text of the owner's identifier and what the suite
/// returned for the signature.
pub open spec fn tagged_share(identifier: Seq<char>, signed: Result<Seq<u8>, Seq<char>>) -> Result<
    Tagged,
    Round2Failure,
> {
    match signed {
        Ok(data) => Ok(Tagged { identifier, data }),
        Err(message) => Err(Round2Failure::SigningFailed { message }),
    }
}

/// The second round. The inputs are decoded in the order signing package, nonces, key
/// package, randomizer, and the first that is no encoding of its kind decides the error.
/// So where the first three decode and the randomizer does not, the error is
/// `InvalidRandomizer`, whatever else holds. A key package whose owner's identifier has no
/// text is an invalid key package. Where all is well, the result is the suite's, tagged
/// with the owner that the key package names. A share that the suite gave and that does not
/// decode as one is a failure to sign.
pub open spec fn round_two(
    signing_package: Seq<u8>,
    nonces: Seq<u8>,
    key_package: Seq<u8>,
    randomizer: Seq<u8>,
) -> Result<Tagged, Round2Failure> {
    if !valid_signing_package(signing_package) {
        Err(Round2Failure::SigningPackageDeserializationError)
    } else if !valid_nonces(nonces) {
        Err(Round2Failure::NonceSerializationError)
    } else if !valid_key_package(key_package) {
        Err(Round2Failure::InvalidKeyPackage)
    } else if to_randomizer(randomizer) is Err {
        Err(Round2Failure::InvalidRandomizer)
    } else {
        match key_package_owner(key_package) {
            Err(_) => Err(Round2Failure::InvalidKeyPackage),
            Ok(identifier) => tagged_share(
                identifier,
                accepted_share(signing_outcome(signing_package, nonces, key_package, randomizer)),
            ),
        }
    }
}

impl FrostRandomizer {
    /// Decodes the randomizer. It succeeds on exactly the encodings of a randomizer: data
    /// that is not `SCALAR_LEN` bytes long fails, the empty string too, and so does data
    /// that encodes no scalar of the field.
    pub fn into_randomizer(&self) -> (res: Result<Randomizer, Round2Error>)
        ensures
            viewed(res) == to_randomizer(self@),
    {
        match Randomizer::decode(&self.data) {
            Ok(randomizer) => Ok(randomizer),
            Err(_) => Err(Round2Error::InvalidRandomizer),
        }
    }
}

/// Decodes a secret share under this suite. The share is not verified by this.
pub fn to_secret_share(record: &FrostSecretKeyShare) -> (res: Result<SecretShare, Error>)
    ensures
        viewed(res) == decode_secret_share(record.data@),
{
    SecretShare::decode(&record.data)
}

/// Decodes a key package under this suite.
pub fn into_key_package(record: &FrostKeyPackage) -> (res: Result<KeyPackage, Error>)
    ensures
        viewed(res) == decode_key_package(record.data@),
{
    KeyPackage::decode(&record.data)
}

/// Decodes a signing package under this suite.
pub fn to_signing_package(record: &FrostSigningPackage) -> (res: Result<SigningPackage, Error>)
    ensures
        viewed(res) == decode_signing_package(record.data@),
{
    SigningPackage::decode(&record.data)
}

/// Decodes a nonce pair under this suite. It succeeds on exactly the encodings of a nonce
/// pair: data that the suite rejects fails, and so does data of another length than the
/// pair's.
pub fn to_signing_nonces(record: &FrostSigningNonces) -> (res: Result<SigningNonces, Error>)
    ensures
        viewed(res) == decode_nonces(record@),
{
    SigningNonces::decode(&record.data)
}

/// Encodes a nonce pair of this suite. The record holds the bytes that the pair was
/// decoded from, and decodes to the pair again.
pub fn from_nonces(nonces: SigningNonces) -> (res: Result<FrostSigningNonces, Error>)
    ensures
        viewed(res) == Ok::<Seq<u8>, Error>(nonces@),
        decode_nonces(nonces@) == Ok::<Seq<u8>, Error>(nonces@),
{
    match nonces.encode() {
        Ok(data) => Ok(FrostSigningNonces { data }),
        Err(e) => Err(e),
    }
}

/// Decodes commitments under this suite. The identifier is not looked at.
pub fn to_commitments(record: &FrostSigningCommitments) -> (res: Result<SigningCommitments, Error>)
    ensures
        viewed(res) == decode_commitments(record@.data),
{
    SigningCommitments::decode(&record.data)
}

/// Encodes commitments of this suite and tags them with the participant that made them.
/// The record holds the bytes that the commitments were decoded from, and decodes to them
/// again.
pub fn with_identifier_and_commitments(
    identifier: ParticipantIdentifier,
    commitments: SigningCommitments,
) -> (res: Result<FrostSigningCommitments, Error>)
    ensures
        viewed(res) == Ok::<Tagged, Error>(Tagged { identifier: identifier@, data: commitments@ }),
        decode_commitments(commitments@) == Ok::<Seq<u8>, Error>(commitments@),
{
    match commitments.encode() {
        Ok(data) => Ok(FrostSigningCommitments { identifier, data }),
        Err(e) => Err(e),
    }
}

/// Decodes a signature share under this suite. It succeeds on exactly the encodings of a
/// share, which have `SCALAR_LEN` bytes. The identifier is not looked at.
pub fn to_signature_share(record: &FrostSignatureShare) -> (res: Result<SignatureShare, Error>)
    ensures
        viewed(res) == decode_share(record@.data),
{
    SignatureShare::decode(&record.data)
}

/// Encodes a signature share of this suite and tags it with the participant that made it.
/// This does not fail. The record holds the bytes that the share was decoded from, and
/// decodes to the share again.
pub fn from_signature_share(identifier: ParticipantIdentifier, share: SignatureShare) -> (res:
    Result<FrostSignatureShare, Error>)
    ensures
        viewed(res) == Ok::<Tagged, Error>(Tagged { identifier: identifier@, data: share@ }),
        decode_share(share@) == Ok::<Seq<u8>, Error>(share@),
{
    let data = share.encode();
    Ok(FrostSignatureShare { identifier, data })
}

/// Puts the second round's result together from the owner's identifier and what the suite
/// returned for the signature.
pub fn tag_share(identifier: ParticipantIdentifier, signed: Result<Vec<u8>, String>) -> (res:
    Result<FrostSignatureShare, Round2Error>)
    ensures
        viewed(res) == tagged_share(identifier@, viewed(signed)),
{
    match signed {
        Ok(data) => Ok(FrostSignatureShare { identifier, data }),
        Err(message) => Err(Round2Error::SigningFailed { message }),
    }
}

/// Round one. Draws a fresh nonce pair for the signing share of the participant's secret
/// share and returns it with its commitments.
///
/// The secret share is rejected exactly when it is no encoding of a secret share or does
/// not pass the suite's check against its own commitment; no nonce is drawn for a share
/// that is rejected. Otherwise the result is `first_round` of the share's owner and of
/// whatever the suite returned for the nonces, which are random. So the commitments are
/// tagged with the owner that the encoded share names, whatever `secret_share.identifier`
/// says. What comes back are the encodings of a nonce pair and of a pair of commitments,
/// of `NONCES_LEN` and `COMMITMENTS_LEN` bytes: the suite's answer is decoded before it is
/// returned, and an answer that does not decode counts as one that could not be encoded.
/// The commitments are bound to the nonces that come with them: the encoded nonce pair
/// ends with the encoded commitments.
pub fn generate_nonces_and_commitments(secret_share: FrostSecretKeyShare) -> (res: Result<
    FirstRoundCommitment,
    Round1Error,
>)
    ensures
        !usable_secret_share(secret_share.data@) <==> viewed(res) == Err::<
            FirstRound,
            Round1Error,
        >(Round1Error::InvalidKeyPackage),
        usable_secret_share(secret_share.data@) ==> exists|
            nonces: Result<Seq<u8>, Error>,
            commitments: Result<Seq<u8>, Error>,
        |
            drawn(nonces, commitments) && viewed(res) == #[trigger] first_round(
                secret_share_owner(secret_share.data@),
                nonces,
                commitments,
            ),
        res matches Ok(first) ==> secret_share_owner(secret_share.data@) == Ok::<
            Seq<char>,
            Seq<char>,
        >(first@.commitments.identifier),
        res matches Ok(first) ==> valid_nonces(first@.nonces) && valid_commitments(
            first@.commitments.data,
        ),
        res matches Ok(first) ==> first@.commitments.data.is_suffix_of(first@.nonces),
{
    let share = match to_secret_share(&secret_share) {
        Ok(share) => share,
        Err(_) => {
            return Err(Round1Error::InvalidKeyPackage);
        },
    };
    if !share.verify() {
        return Err(Round1Error::InvalidKeyPackage);
    }
    let owner = share.owner();
    let (nonces, commitments) = share.commit();
    let res = FirstRoundCommitment::from_outcomes(owner, nonces, commitments);
    assert(viewed(res) == first_round(
        secret_share_owner(secret_share.data@),
        viewed(nonces),
        viewed(commitments),
    ));
    res
}

/// Round two. Signs the coordinator's package with the nonce pair of round one, the
/// participant's key package and the session's randomizer.
///
/// The result is `round_two` of the four encodings: the first input that is no encoding
/// of its kind decides the error, and where all decode the result is the suite's
/// signature share, tagged with the owner that the encoded key package names, or
/// `SigningFailed` with the suite's message. A share that is returned decodes as one, and
/// so has `SCALAR_LEN` bytes: the suite's answer is decoded before it is returned. Without
/// a randomizer that decodes there is no share.
pub fn sign(
    signing_package: FrostSigningPackage,
    nonces: FrostSigningNonces,
    key_package: FrostKeyPackage,
    randomizer: &FrostRandomizer,
) -> (res: Result<FrostSignatureShare, Round2Error>)
    ensures
        viewed(res) == round_two(signing_package.data@, nonces@, key_package.data@, randomizer@),
        res matches Ok(share) ==> valid_share(share@.data) && decode_share(share@.data) == Ok::<
            Seq<u8>,
            Error,
        >(share@.data),
{
    let package = match to_signing_package(&signing_package) {
        Ok(package) => package,
        Err(_) => {
            return Err(Round2Error::SigningPackageDeserializationError);
        },
    };
    let signer_nonces = match to_signing_nonces(&nonces) {
        Ok(signer_nonces) => signer_nonces,
        Err(_) => {
            return Err(Round2Error::NonceSerializationError);
        },
    };
    let keys = match into_key_package(&key_package) {
        Ok(keys) => keys,
        Err(_) => {
            return Err(Round2Error::InvalidKeyPackage);
        },
    };
    let session_randomizer = match randomizer.into_randomizer() {
        Ok(session_randomizer) => session_randomizer,
        Err(_) => {
            return Err(Round2Error::InvalidRandomizer);
        },
    };
    let identifier = match keys.owner() {
        Ok(data) => ParticipantIdentifier { data },
        Err(_) => {
            return Err(Round2Error::InvalidKeyPackage);
        },
    };
    let signed = sign_share(&package, &signer_nonces, &keys, &session_randomizer);
    tag_share(identifier, signed)
}

} // verus!
