//! What holds of the codec and of the two rounds, for every input.
//!
//! Each statement is over the specification functions that the contracts of the library's
//! functions use, so it holds of what those functions return.

use vstd::prelude::*;
use crate::ed25519;
use crate::error::{Error, Round1Error, Round2Failure};
use crate::participant;
use crate::participant::{FirstRound, Tagged};
use crate::randomized;
use crate::redpallas;

verus! {

/// Round trip under Ed25519. An entity is held as its encoding, so whatever decoded, as
/// a nonce pair, as commitments or as a signature share, is encoded to the bytes that it
/// is held in, and those bytes decode to it again.
pub proof fn round_trip(entity: Seq<u8>)
    ensures
        ed25519::decode_nonces(entity) is Ok ==> ed25519::encode_nonces(entity) == Ok::<
            Seq<u8>,
            Error,
        >(entity) && ed25519::decode_nonces(ed25519::encode_nonces(entity)->Ok_0) == Ok::<
            Seq<u8>,
            Error,
        >(entity),
        ed25519::decode_commitments(entity) is Ok ==> ed25519::encode_commitments(entity) == Ok::<
            Seq<u8>,
            Error,
        >(entity) && ed25519::decode_commitments(ed25519::encode_commitments(entity)->Ok_0)
            == Ok::<Seq<u8>, Error>(entity),
        ed25519::decode_share(entity) is Ok ==> ed25519::share_encoding(entity) == entity
            && ed25519::decode_share(ed25519::share_encoding(entity)) == Ok::<Seq<u8>, Error>(
            entity,
        ),
{
}

/// Round trip under the re-randomized suite, as under Ed25519.
pub proof fn randomized_round_trip(entity: Seq<u8>)
    ensures
        redpallas::decode_nonces(entity) is Ok ==> redpallas::encode_nonces(entity) == Ok::<
            Seq<u8>,
            Error,
        >(entity) && redpallas::decode_nonces(redpallas::encode_nonces(entity)->Ok_0) == Ok::<
            Seq<u8>,
            Error,
        >(entity),
        redpallas::decode_commitments(entity) is Ok ==> redpallas::encode_commitments(entity)
            == Ok::<Seq<u8>, Error>(entity) && redpallas::decode_commitments(
            redpallas::encode_commitments(entity)->Ok_0,
        ) == Ok::<Seq<u8>, Error>(entity),
        redpallas::decode_share(entity) is Ok ==> redpallas::share_encoding(entity) == entity
            && redpallas::decode_share(redpallas::share_encoding(entity)) == Ok::<Seq<u8>, Error>(
            entity,
        ),
{
}

/// What decodes is what the suite itself writes. So of two byte strings of different
/// lengths that the suite decodes to one entity, at most one decodes here: an encoding
/// with bytes after its end does not.
pub proof fn one_encoding_for_an_entity(data: Seq<u8>, other: Seq<u8>)
    requires
        ed25519::decode_nonces(data) is Ok,
        ed25519::nonces_encoding(other) == ed25519::nonces_encoding(data),
        other != data,
    ensures
        ed25519::decode_nonces(other) == Err::<Seq<u8>, Error>(Error::DeserializationError),
{
}

/// Decoding fails in one way only, whatever the kind of entity and whatever the bytes.
pub proof fn decoding_fails_with_one_error(data: Seq<u8>)
    ensures
        ed25519::decode_secret_share(data) matches Err(e) ==> e == Error::DeserializationError,
        ed25519::decode_key_package(data) matches Err(e) ==> e == Error::DeserializationError,
        ed25519::decode_signing_package(data) matches Err(e) ==> e == Error::DeserializationError,
        ed25519::decode_nonces(data) matches Err(e) ==> e == Error::DeserializationError,
        ed25519::decode_commitments(data) matches Err(e) ==> e == Error::DeserializationError,
        ed25519::decode_share(data) matches Err(e) ==> e == Error::DeserializationError,
        redpallas::decode_secret_share(data) matches Err(e) ==> e == Error::DeserializationError,
        redpallas::decode_key_package(data) matches Err(e) ==> e == Error::DeserializationError,
        redpallas::decode_signing_package(data) matches Err(e) ==> e
            == Error::DeserializationError,
        redpallas::decode_nonces(data) matches Err(e) ==> e == Error::DeserializationError,
        redpallas::decode_commitments(data) matches Err(e) ==> e == Error::DeserializationError,
        redpallas::decode_share(data) matches Err(e) ==> e == Error::DeserializationError,
        redpallas::decode_randomizer(data) matches Err(e) ==> e == Error::DeserializationError,
        randomized::to_randomizer(data) matches Err(e) ==> e
            == randomized::Round2Failure::InvalidRandomizer,
{
}

/// The empty byte string is no entity of any kind.
pub proof fn the_empty_string_is_no_entity()
    ensures
        ed25519::decode_secret_share(Seq::empty()) is Err,
        ed25519::decode_key_package(Seq::empty()) is Err,
        ed25519::decode_signing_package(Seq::empty()) is Err,
        ed25519::decode_nonces(Seq::empty()) is Err,
        ed25519::decode_commitments(Seq::empty()) is Err,
        ed25519::decode_share(Seq::empty()) is Err,
        redpallas::decode_secret_share(Seq::empty()) is Err,
        redpallas::decode_key_package(Seq::empty()) is Err,
        redpallas::decode_signing_package(Seq::empty()) is Err,
        redpallas::decode_nonces(Seq::empty()) is Err,
        redpallas::decode_commitments(Seq::empty()) is Err,
        redpallas::decode_share(Seq::empty()) is Err,
        redpallas::decode_randomizer(Seq::empty()) is Err,
{
}

/// A nonce pair and a pair of commitments have one length each, under either suite: a
/// byte string of another length, shorter or longer, is neither.
pub proof fn entity_of_wrong_length_is_rejected(data: Seq<u8>)
    ensures
        data.len() != ed25519::NONCES_LEN ==> ed25519::decode_nonces(data) == Err::<
            Seq<u8>,
            Error,
        >(Error::DeserializationError),
        data.len() != ed25519::COMMITMENTS_LEN ==> ed25519::decode_commitments(data) == Err::<
            Seq<u8>,
            Error,
        >(Error::DeserializationError),
        data.len() != redpallas::NONCES_LEN ==> redpallas::decode_nonces(data) == Err::<
            Seq<u8>,
            Error,
        >(Error::DeserializationError),
        data.len() != redpallas::COMMITMENTS_LEN ==> redpallas::decode_commitments(data) == Err::<
            Seq<u8>,
            Error,
        >(Error::DeserializationError),
{
}

/// What the first round returns are encodings of their kinds, whatever the suite drew: a
/// nonce pair of `NONCES_LEN` bytes that decodes, and commitments of `COMMITMENTS_LEN`
/// bytes that decode and that end the encoded nonce pair.
pub proof fn first_round_returns_encodings(
    owner: Result<Seq<char>, Seq<char>>,
    nonces: Result<Seq<u8>, Error>,
    commitments: Result<Seq<u8>, Error>,
)
    requires
        ed25519::drawn(nonces, commitments),
    ensures
        participant::first_round(owner, nonces, commitments) matches Ok(first) ==> {
            &&& ed25519::decode_nonces(first.nonces) == Ok::<Seq<u8>, Error>(first.nonces)
            &&& ed25519::decode_commitments(first.commitments.data) == Ok::<Seq<u8>, Error>(
                first.commitments.data,
            )
            &&& first.nonces.len() == ed25519::NONCES_LEN
            &&& first.commitments.data.len() == ed25519::COMMITMENTS_LEN
            &&& first.commitments.data.is_suffix_of(first.nonces)
        },
{
}

/// What the first round returns under the re-randomized suite are encodings of their
/// kinds as well.
pub proof fn randomized_first_round_returns_encodings(
    owner: Result<Seq<char>, Seq<char>>,
    nonces: Result<Seq<u8>, Error>,
    commitments: Result<Seq<u8>, Error>,
)
    requires
        redpallas::drawn(nonces, commitments),
    ensures
        participant::first_round(owner, nonces, commitments) matches Ok(first) ==> {
            &&& redpallas::decode_nonces(first.nonces) == Ok::<Seq<u8>, Error>(first.nonces)
            &&& redpallas::decode_commitments(first.commitments.data) == Ok::<Seq<u8>, Error>(
                first.commitments.data,
            )
            &&& first.nonces.len() == redpallas::NONCES_LEN
            &&& first.commitments.data.len() == redpallas::COMMITMENTS_LEN
            &&& first.commitments.data.is_suffix_of(first.nonces)
        },
{
}

/// A byte string of another length than a scalar's, shorter or longer, is no signature
/// share and no randomizer.
pub proof fn scalar_of_wrong_length_is_rejected(data: Seq<u8>)
    requires
        data.len() != ed25519::SCALAR_LEN,
    ensures
        ed25519::decode_share(data) == Err::<Seq<u8>, Error>(Error::DeserializationError),
        redpallas::decode_share(data) == Err::<Seq<u8>, Error>(Error::DeserializationError),
        redpallas::decode_randomizer(data) == Err::<Seq<u8>, Error>(Error::DeserializationError),
        randomized::to_randomizer(data) == Err::<Seq<u8>, randomized::Round2Failure>(
            randomized::Round2Failure::InvalidRandomizer,
        ),
{
}

/// The first round tags the commitments with the owner of the share: where it succeeds,
/// the identifier in its result is the text that the suite gave for the owner. It never
/// reports an invalid key package: that is decided before anything is drawn.
pub proof fn first_round_tags_with_the_owner(
    owner: Result<Seq<char>, Seq<char>>,
    nonces: Result<Seq<u8>, Error>,
    commitments: Result<Seq<u8>, Error>,
)
    ensures
        participant::first_round(owner, nonces, commitments) matches Ok(first) ==> {
            &&& owner == Ok::<Seq<char>, Seq<char>>(first.commitments.identifier)
            &&& nonces == Ok::<Seq<u8>, Error>(first.nonces)
            &&& commitments == Ok::<Seq<u8>, Error>(first.commitments.data)
        },
        participant::first_round(owner, nonces, commitments) is Ok <==> owner is Ok && nonces is Ok
            && commitments is Ok,
        participant::first_round(owner, nonces, commitments) != Err::<FirstRound, Round1Error>(
            Round1Error::InvalidKeyPackage,
        ),
{
}

/// The second round tags the share with the owner of the key package, and the share is the
/// suite's and decodes as a share. It succeeds exactly where the three inputs decode, the
/// suite signs with a share that decodes, and the owner has a text.
pub proof fn second_round_tags_with_the_owner(
    signing_package: Seq<u8>,
    nonces: Seq<u8>,
    key_package: Seq<u8>,
)
    ensures
        participant::round_two(signing_package, nonces, key_package) matches Ok(share) ==> {
            &&& ed25519::key_package_owner(key_package) == Ok::<Seq<char>, Seq<char>>(
                share.identifier,
            )
            &&& ed25519::signing_outcome(signing_package, nonces, key_package) == Ok::<
                Seq<u8>,
                Seq<char>,
            >(share.data)
            &&& ed25519::decode_share(share.data) == Ok::<Seq<u8>, Error>(share.data)
            &&& share.data.len() == ed25519::SCALAR_LEN
        },
        participant::round_two(signing_package, nonces, key_package) is Ok <==> {
            &&& ed25519::valid_signing_package(signing_package)
            &&& ed25519::valid_nonces(nonces)
            &&& ed25519::valid_key_package(key_package)
            &&& ed25519::signing_outcome(signing_package, nonces, key_package) matches Ok(share)
                && ed25519::valid_share(share)
            &&& ed25519::key_package_owner(key_package) is Ok
        },
{
}

/// Where the suite refuses to sign, the second round fails with the suite's message.
pub proof fn refusal_to_sign_is_signing_failed(
    signing_package: Seq<u8>,
    nonces: Seq<u8>,
    key_package: Seq<u8>,
)
    requires
        ed25519::valid_signing_package(signing_package),
        ed25519::valid_nonces(nonces),
        ed25519::valid_key_package(key_package),
        ed25519::signing_outcome(signing_package, nonces, key_package) is Err,
    ensures
        participant::round_two(signing_package, nonces, key_package) == Err::<
            Tagged,
            Round2Failure,
        >(
            Round2Failure::SigningFailed {
                message: ed25519::signing_outcome(signing_package, nonces, key_package)->Err_0,
            },
        ),
{
}

/// Under the randomized suite there is no share without a randomizer that decodes, and
/// nothing is signed. Where the signing package, the nonces and the key package decode,
/// the round then fails with `InvalidRandomizer`.
pub proof fn no_share_without_a_randomizer(
    signing_package: Seq<u8>,
    nonces: Seq<u8>,
    key_package: Seq<u8>,
    randomizer: Seq<u8>,
)
    requires
        redpallas::decode_randomizer(randomizer) is Err,
    ensures
        randomized::round_two(signing_package, nonces, key_package, randomizer) is Err,
        redpallas::valid_signing_package(signing_package) && redpallas::valid_nonces(nonces)
            && redpallas::valid_key_package(key_package) ==> randomized::round_two(
            signing_package,
            nonces,
            key_package,
            randomizer,
        ) == Err::<Tagged, randomized::Round2Failure>(
            randomized::Round2Failure::InvalidRandomizer,
        ),
{
}

/// The randomized round fails with `InvalidRandomizer` on exactly the inputs of which the
/// first three decode and the randomizer does not.
pub proof fn invalid_randomizer_is_reported_last(
    signing_package: Seq<u8>,
    nonces: Seq<u8>,
    key_package: Seq<u8>,
    randomizer: Seq<u8>,
)
    ensures
        randomized::round_two(signing_package, nonces, key_package, randomizer) == Err::<
            Tagged,
            randomized::Round2Failure,
        >(randomized::Round2Failure::InvalidRandomizer) <==> {
            &&& redpallas::valid_signing_package(signing_package)
            &&& redpallas::valid_nonces(nonces)
            &&& redpallas::valid_key_package(key_package)
            &&& redpallas::decode_randomizer(randomizer) is Err
        },
{
}

/// The randomized round tags the share with the owner of the key package, and the share is
/// the suite's. A key package whose owner has no text is an invalid key package.
pub proof fn randomized_round_tags_with_the_owner(
    signing_package: Seq<u8>,
    nonces: Seq<u8>,
    key_package: Seq<u8>,
    randomizer: Seq<u8>,
)
    ensures
        randomized::round_two(signing_package, nonces, key_package, randomizer) matches Ok(
            share,
        ) ==> {
            &&& redpallas::key_package_owner(key_package) == Ok::<Seq<char>, Seq<char>>(
                share.identifier,
            )
            &&& redpallas::signing_outcome(signing_package, nonces, key_package, randomizer)
                == Ok::<Seq<u8>, Seq<char>>(share.data)
            &&& redpallas::decode_share(share.data) == Ok::<Seq<u8>, Error>(share.data)
            &&& share.data.len() == redpallas::SCALAR_LEN
            &&& randomizer.len() == redpallas::SCALAR_LEN
        },
        redpallas::valid_signing_package(signing_package) && redpallas::valid_nonces(nonces)
            && redpallas::valid_key_package(key_package) && redpallas::decode_randomizer(
            randomizer,
        ) is Ok && redpallas::key_package_owner(key_package) is Err ==> randomized::round_two(
            signing_package,
            nonces,
            key_package,
            randomizer,
        ) == Err::<Tagged, randomized::Round2Failure>(
            randomized::Round2Failure::InvalidKeyPackage,
        ),
{
}

} // verus!
