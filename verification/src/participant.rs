//! The two steps of a signer under FROST(Ed25519, SHA-512): commit to a fresh nonce pair,
//! then sign.
//!
//! A signing attempt passes through each step once. The nonce pair that the first step
//! returns must be handed to the second step once and then forgotten: a nonce pair that
//! signs two different packages gives away the signer's share of the key. The types do not
//! prevent it: the records are plain bytes, and a host can copy them.
//!
//! The records are those of both suites. Their methods decode and encode under Ed25519.

use vstd::prelude::*;
use crate::coordinator::FrostSigningPackage;
use crate::ed25519::{
    accepted_share, decode_commitments, decode_nonces, decode_share, drawn, key_package_owner,
    secret_share_owner, secret_share_verifies, sign_share, signing_outcome, valid_commitments,
    valid_key_package, valid_nonces, valid_secret_share, valid_share, valid_signing_package,
    SignatureShare, SigningCommitments, SigningNonces,
};
use crate::error::{viewed, Error, Round1Error, Round2Error, Round2Failure};
use crate::keys::{FrostKeyPackage, FrostSecretKeyShare, ParticipantIdentifier};

verus! {

/// An encoded nonce pair. It is secret, and good for one signature.
#[derive(Debug, Clone)]
pub struct FrostSigningNonces {
    pub data: Vec<u8>,
}

/// The encoded commitments to a nonce pair, tagged with the participant that made them.
#[derive(Debug, Clone)]
pub struct FrostSigningCommitments {
    pub identifier: ParticipantIdentifier,
    pub data: Vec<u8>,
}

/// What the first round hands back: the nonces to keep and the commitments to publish.
#[derive(Debug, Clone)]
pub struct FirstRoundCommitment {
    pub nonces: FrostSigningNonces,
    pub commitments: FrostSigningCommitments,
}

/// A participant's encoded signature share, tagged with the participant that made it.
#[derive(Debug, Clone)]
pub struct FrostSignatureShare {
    pub identifier: ParticipantIdentifier,
    pub data: Vec<u8>,
}

/// Encoded commitments or an encoded share, with the text of the identifier they carry.
pub struct Tagged {
    pub identifier: Seq<char>,
    pub data: Seq<u8>,
}

/// The first round's result: the encoded nonce pair and the tagged commitments.
pub struct FirstRound {
    pub nonces: Seq<u8>,
    pub commitments: Tagged,
}

impl View for FrostSigningNonces {
    type V = Seq<u8>;

    open spec fn view(&self) -> Seq<u8> {
        self.data@
    }
}

impl View for FrostSigningCommitments {
    type V = Tagged;

    open spec fn view(&self) -> Tagged {
        Tagged { identifier: self.identifier@, data: self.data@ }
    }
}

impl View for FirstRoundCommitment {
    type V = FirstRound;

    open spec fn view(&self) -> FirstRound {
        FirstRound { nonces: self.nonces@, commitments: self.commitments@ }
    }
}

impl View for FrostSignatureShare {
    type V = Tagged;

    open spec fn view(&self) -> Tagged {
        Tagged { identifier: self.identifier@, data: self.data@ }
    }
}

/// Whether round one takes the secret share `data`: it is the encoding of a secret share,
/// and the share passes the suite's check against its own commitment.
pub open spec fn usable_secret_share(data: Seq<u8>) -> bool {
    valid_secret_share(data) && secret_share_verifies(data)
}

/// The first round's result, given what the suite returned for the owner of the share,
/// for the nonce pair and for the commitments. A nonce pair without an encoding is
/// reported first; an owner without a text counts as a commitment that cannot be encoded.
pub open spec fn first_round(
    owner: Result<Seq<char>, Seq<char>>,
    nonces: Result<Seq<u8>, Error>,
    commitments: Result<Seq<u8>, Error>,
) -> Result<FirstRound, Round1Error> {
    match (nonces, owner, commitments) {
        (Err(_), _, _) => Err(Round1Error::NonceSerializationError),
        (Ok(nonces), Ok(identifier), Ok(data)) => Ok(
            FirstRound { nonces, commitments: Tagged { identifier, data } },
        ),
        _ => Err(Round1Error::CommitmentSerializationError),
    }
}

/// The second round's result, given what the suite returned for the owner of the key
/// package and for the signature. A refusal to sign is reported first, with the suite's
/// message; an owner without a text is a failure to sign as well.
pub open spec fn tagged_share(
    owner: Result<Seq<char>, Seq<char>>,
    signed: Result<Seq<u8>, Seq<char>>,
) -> Result<Tagged, Round2Failure> {
    match signed {
        Err(message) => Err(Round2Failure::SigningFailed { message }),
        Ok(data) => match owner {
            Err(message) => Err(Round2Failure::SigningFailed { message }),
            Ok(identifier) => Ok(Tagged { identifier, data }),
        },
    }
}

/// The second round. The inputs are decoded in the order signing package, nonces, key
/// package, and the first that is no encoding of its kind decides the error. Where all
/// decode, the result is the suite's, tagged with the owner that the key package names. A
/// share that the suite gave and that does not decode as one is a failure to sign.
pub open spec fn round_two(signing_package: Seq<u8>, nonces: Seq<u8>, key_package: Seq<u8>) -> Result<
    Tagged,
    Round2Failure,
> {
    if !valid_signing_package(signing_package) {
        Err(Round2Failure::SigningPackageDeserializationError)
    } else if !valid_nonces(nonces) {
        Err(Round2Failure::NonceSerializationError)
    } else if !valid_key_package(key_package) {
        Err(Round2Failure::InvalidKeyPackage)
    } else {
        tagged_share(
            key_package_owner(key_package),
            accepted_share(signing_outcome(signing_package, nonces, key_package)),
        )
    }
}

impl FrostSigningNonces {
    /// Decodes the nonce pair. It succeeds on exactly the encodings of a nonce pair: data
    /// that the suite rejects fails, and so does data of another length than the pair's.
    pub fn to_signing_nonces(&self) -> (res: Result<SigningNonces, Error>)
        ensures
            viewed(res) == decode_nonces(self@),
    {
        SigningNonces::decode(&self.data)
    }

    /// Encodes a nonce pair. The record holds the bytes that the pair was decoded from, and
    /// decodes to the pair again.
    pub fn from_nonces(nonces: SigningNonces) -> (res: Result<FrostSigningNonces, Error>)
        ensures
            viewed(res) == Ok::<Seq<u8>, Error>(nonces@),
            decode_nonces(nonces@) == Ok::<Seq<u8>, Error>(nonces@),
    {
        match nonces.encode() {
            Ok(data) => Ok(FrostSigningNonces { data }),
            Err(e) => Err(e),
        }
    }
}

impl FrostSigningCommitments {
    /// Decodes the commitments. It succeeds on exactly the encodings of a pair of
    /// commitments: data that the suite rejects fails, and so does data of another length
    /// than the pair's. The identifier is not looked at.
    pub fn to_commitments(&self) -> (res: Result<SigningCommitments, Error>)
        ensures
            viewed(res) == decode_commitments(self@.data),
    {
        SigningCommitments::decode(&self.data)
    }

    /// Encodes commitments and tags them with the participant that made them. The record
    /// holds the bytes that the commitments were decoded from, and decodes to them again.
    pub fn with_identifier_and_commitments(
        identifier: ParticipantIdentifier,
        commitments: SigningCommitments,
    ) -> (res: Result<FrostSigningCommitments, Error>)
        ensures
            viewed(res) == Ok::<Tagged, Error>(
                Tagged { identifier: identifier@, data: commitments@ },
            ),
            decode_commitments(commitments@) == Ok::<Seq<u8>, Error>(commitments@),
    {
        match commitments.encode() {
            Ok(data) => Ok(FrostSigningCommitments { identifier, data }),
            Err(e) => Err(e),
        }
    }
}

impl FirstRoundCommitment {
    /// Puts the first round's result together from what the suite returned: the owner of
    /// the share, the encoded nonce pair and the encoded commitments.
    pub fn from_outcomes(
        owner: Result<String, String>,
        nonces: Result<Vec<u8>, Error>,
        commitments: Result<Vec<u8>, Error>,
    ) -> (res: Result<FirstRoundCommitment, Round1Error>)
        ensures
            viewed(res) == first_round(viewed(owner), viewed(nonces), viewed(commitments)),
    {
        let nonces = match nonces {
            Ok(data) => FrostSigningNonces { data },
            Err(_) => {
                return Err(Round1Error::NonceSerializationError);
            },
        };
        let identifier = match owner {
            Ok(data) => ParticipantIdentifier { data },
            Err(_) => {
                return Err(Round1Error::CommitmentSerializationError);
            },
        };
        match commitments {
            Ok(data) => Ok(
                FirstRoundCommitment {
                    nonces,
                    commitments: FrostSigningCommitments { identifier, data },
                },
            ),
            Err(_) => Err(Round1Error::CommitmentSerializationError),
        }
    }
}

/// Round one. Draws a fresh nonce pair for the signing share of the participant's secret
/// share and returns it with its commitments.
///
/// The secret share is rejected exactly when it is no encoding of a secret share or does
/// not pass the suite's check against its own commitment; no nonce is drawn for a share
/// that is rejected. Otherwise the result is `first_round` of the share's owner and of
/// whatever the suite returned for the nonces, which are random. So the commitments are
/// tagged with the owner that the encoded share names, whatever `secret_share.identifier`
/// says. What comes back are the encodings of a nonce pair and of a pair of commitments,
/// of `NONCES_LEN` and `COMMITMENTS_LEN` bytes: the suite's answer is decoded before it is
/// returned, and an answer that does not decode counts as one that could not be encoded.
/// The commitments are bound to the nonces that come with them: the encoded nonce pair
/// ends with the encoded commitments.
pub fn generate_nonces_and_commitments(secret_share: FrostSecretKeyShare) -> (res: Result<
    FirstRoundCommitment,
    Round1Error,
>)
    ensures
        !usable_secret_share(secret_share.data@) <==> viewed(res) == Err::<
            FirstRound,
            Round1Error,
        >(Round1Error::InvalidKeyPackage),
        usable_secret_share(secret_share.data@) ==> exists|
            nonces: Result<Seq<u8>, Error>,
            commitments: Result<Seq<u8>, Error>,
        |
            drawn(nonces, commitments) && viewed(res) == #[trigger] first_round(
                secret_share_owner(secret_share.data@),
                nonces,
                commitments,
            ),
        res matches Ok(first) ==> secret_share_owner(secret_share.data@) == Ok::<
            Seq<char>,
            Seq<char>,
        >(first@.commitments.identifier),
        res matches Ok(first) ==> valid_nonces(first@.nonces) && valid_commitments(
            first@.commitments.data,
        ),
        res matches Ok(first) ==> first@.commitments.data.is_suffix_of(first@.nonces),
{
    let share = match secret_share.to_secret_share() {
        Ok(share) => share,
        Err(_) => {
            return Err(Round1Error::InvalidKeyPackage);
        },
    };
    if !share.verify() {
        return Err(Round1Error::InvalidKeyPackage);
    }
    let owner = share.owner();
    let (nonces, commitments) = share.commit();
    let res = FirstRoundCommitment::from_outcomes(owner, nonces, commitments);
    assert(viewed(res) == first_round(
        secret_share_owner(secret_share.data@),
        viewed(nonces),
        viewed(commitments),
    ));
    res
}

impl FrostSignatureShare {
    /// Decodes the signature share. It succeeds on exactly the encodings of a share, which
    /// have `SCALAR_LEN` bytes: shorter and longer data fails. The identifier is not looked
    /// at.
    pub fn to_signature_share(&self) -> (res: Result<SignatureShare, Error>)
        ensures
            viewed(res) == decode_share(self@.data),
    {
        SignatureShare::decode(&self.data)
    }

    /// Encodes a signature share and tags it with the participant that made it. This does
    /// not fail. The record holds the bytes that the share was decoded from, and decodes to
    /// the share again.
    pub fn from_signature_share(identifier: ParticipantIdentifier, share: SignatureShare) -> (res:
        Result<FrostSignatureShare, Error>)
        ensures
            viewed(res) == Ok::<Tagged, Error>(Tagged { identifier: identifier@, data: share@ }),
            decode_share(share@) == Ok::<Seq<u8>, Error>(share@),
    {
        let data = share.encode();
        Ok(FrostSignatureShare { identifier, data })
    }

    /// Puts the second round's result together from what the suite returned: the owner of
    /// the key package and the outcome of signing.
    pub fn from_outcomes(owner: Result<String, String>, signed: Result<Vec<u8>, String>) -> (res:
        Result<FrostSignatureShare, Round2Error>)
        ensures
            viewed(res) == tagged_share(viewed(owner), viewed(signed)),
    {
        let data = match signed {
            Ok(data) => data,
            Err(message) => {
                return Err(Round2Error::SigningFailed { message });
            },
        };
        match owner {
            Ok(text) => Ok(
                FrostSignatureShare { identifier: ParticipantIdentifier { data: text }, data },
            ),
            Err(message) => Err(Round2Error::SigningFailed { message }),
        }
    }
}

/// Round two. Signs the coordinator's package with the nonce pair of round one and the
/// participant's key package.
///
/// The result is `round_two` of the three encodings: the first input that is no encoding
/// of its kind decides the error, and where all decode the result is the suite's
/// signature share, tagged with the owner that the encoded key package names, or
/// `SigningFailed` with the suite's message. A share that is returned decodes as one, and
/// so has `SCALAR_LEN` bytes: the suite's answer is decoded before it is returned.
pub fn sign(
    signing_package: FrostSigningPackage,
    nonces: FrostSigningNonces,
    key_package: FrostKeyPackage,
) -> (res: Result<FrostSignatureShare, Round2Error>)
    ensures
        viewed(res) == round_two(signing_package.data@, nonces@, key_package.data@),
        res matches Ok(share) ==> valid_share(share@.data) && decode_share(share@.data) == Ok::<
            Seq<u8>,
            Error,
        >(share@.data),
{
    let package = match signing_package.to_signing_package() {
        Ok(package) => package,
        Err(_) => {
            return Err(Round2Error::SigningPackageDeserializationError);
        },
    };
    let signer_nonces = match nonces.to_signing_nonces() {
        Ok(signer_nonces) => signer_nonces,
        Err(_) => {
            return Err(Round2Error::NonceSerializationError);
        },
    };
    let keys = match key_package.into_key_package() {
        Ok(keys) => keys,
        Err(_) => {
            return Err(Round2Error::InvalidKeyPackage);
        },
    };
    let owner = keys.owner();
    let signed = sign_share(&package, &signer_nonces, &keys);
    FrostSignatureShare::from_outcomes(owner, signed)
}

} // verus!
