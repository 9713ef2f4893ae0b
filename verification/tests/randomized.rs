use std::collections::BTreeMap;

use frost_participant::coordinator::FrostSigningPackage;
use frost_participant::error::{Error, Round1Error};
use frost_participant::keys::{FrostKeyPackage, FrostSecretKeyShare, ParticipantIdentifier};
use frost_participant::participant::{FirstRoundCommitment, FrostSignatureShare, FrostSigningNonces};
use frost_participant::randomized::{
    from_nonces, from_signature_share, generate_nonces_and_commitments, into_key_package, sign,
    tag_share, to_commitments, to_secret_share, to_signature_share, to_signing_nonces,
    to_signing_package, with_identifier_and_commitments, FrostRandomizer, Round2Error,
};
use frost_participant::redpallas::{Randomizer, SignatureShare, SigningCommitments, SigningNonces};
use reddsa::frost::redpallas as frost;
use reddsa::frost::redpallas::rerandomized::RandomizedParams;

const MESSAGE: &[u8] = b"message to sign";

struct Dealt {
    shares: Vec<FrostSecretKeyShare>,
    keys: Vec<FrostKeyPackage>,
    pubkeys: frost::keys::PublicKeyPackage,
}

fn text_of(identifier: &frost::Identifier) -> ParticipantIdentifier {
    ParticipantIdentifier { data: serde_json::to_string(identifier).unwrap() }
}

fn identifier_of(text: &ParticipantIdentifier) -> frost::Identifier {
    serde_json::from_str(&text.data).unwrap()
}

fn dealer(max: u16, min: u16) -> Dealt {
    let (dealt, pubkeys) = frost::keys::generate_with_dealer(
        max,
        min,
        frost::keys::IdentifierList::Default,
        rand::thread_rng(),
    )
    .unwrap();
    let mut shares = Vec::new();
    let mut keys = Vec::new();
    for (identifier, share) in dealt {
        shares.push(FrostSecretKeyShare {
            identifier: text_of(&identifier),
            data: share.serialize().unwrap(),
        });
        let key_package = frost::keys::KeyPackage::try_from(share).unwrap();
        keys.push(FrostKeyPackage {
            identifier: text_of(&identifier),
            data: key_package.serialize().unwrap(),
        });
    }
    Dealt { shares, keys, pubkeys }
}

fn round_one(dealt: &Dealt) -> Vec<FirstRoundCommitment> {
    dealt.shares.iter().map(|s| generate_nonces_and_commitments(s.clone()).unwrap()).collect()
}

fn package_of(firsts: &[&FirstRoundCommitment], message: &[u8]) -> frost::SigningPackage {
    let mut commitments = BTreeMap::new();
    for first in firsts {
        commitments.insert(
            identifier_of(&first.commitments.identifier),
            frost::round1::SigningCommitments::deserialize(&first.commitments.data).unwrap(),
        );
    }
    frost::SigningPackage::new(commitments, message)
}

fn record_of(package: &frost::SigningPackage) -> FrostSigningPackage {
    FrostSigningPackage { data: package.serialize().unwrap() }
}

fn session(
    package: &frost::SigningPackage,
    pubkeys: &frost::keys::PublicKeyPackage,
) -> (RandomizedParams, FrostRandomizer) {
    let (params, _seed) = RandomizedParams::new_from_commitments(
        pubkeys.verifying_key(),
        package.signing_commitments(),
        rand::thread_rng(),
    )
    .unwrap();
    let randomizer = FrostRandomizer { data: params.randomizer().serialize() };
    (params, randomizer)
}

#[test]
fn randomized_two_of_three_sign_and_the_signature_verifies() {
    let dealt = dealer(3, 2);
    let firsts = round_one(&dealt);
    for pair in [[0usize, 1], [0, 2], [1, 2]] {
        let package = package_of(&[&firsts[pair[0]], &firsts[pair[1]]], MESSAGE);
        let (params, randomizer) = session(&package, &dealt.pubkeys);
        assert_eq!(randomizer.data.len(), 32);
        let mut signed = BTreeMap::new();
        for i in pair {
            let share = sign(
                record_of(&package),
                firsts[i].nonces.clone(),
                dealt.keys[i].clone(),
                &randomizer,
            )
            .unwrap();
            assert_eq!(share.identifier, dealt.keys[i].identifier);
            assert_eq!(share.data.len(), 32);
            assert!(to_signature_share(&share).is_ok());
            signed.insert(
                identifier_of(&share.identifier),
                frost::round2::SignatureShare::deserialize(&share.data).unwrap(),
            );
        }
        let signature =
            frost::rerandomized::aggregate(&package, &signed, &dealt.pubkeys, &params).unwrap();
        params.randomized_verifying_key().verify(MESSAGE, &signature).unwrap();
        // The signature is one under the randomized key, not under the group's own.
        assert!(dealt.pubkeys.verifying_key().verify(MESSAGE, &signature).is_err());
    }
}

#[test]
fn randomized_share_depends_on_the_randomizer() {
    let dealt = dealer(3, 2);
    let firsts = round_one(&dealt);
    let package = package_of(&[&firsts[0], &firsts[1]], MESSAGE);
    let (_, one) = session(&package, &dealt.pubkeys);
    let (_, other) = session(&package, &dealt.pubkeys);
    assert_ne!(one.data, other.data);
    let keys = dealt.keys[0].clone();
    let a = sign(record_of(&package), firsts[0].nonces.clone(), keys.clone(), &one).unwrap();
    let b = sign(record_of(&package), firsts[0].nonces.clone(), keys.clone(), &other).unwrap();
    let again = sign(record_of(&package), firsts[0].nonces.clone(), keys, &one).unwrap();
    assert_ne!(a.data, b.data);
    assert_eq!(a.data, again.data);
}

#[test]
fn no_share_without_a_valid_randomizer() {
    let dealt = dealer(3, 2);
    let firsts = round_one(&dealt);
    let package = record_of(&package_of(&[&firsts[0], &firsts[1]], MESSAGE));
    let nonces = firsts[0].nonces.clone();

    let missing = FrostRandomizer { data: vec![] };
    let short = FrostRandomizer { data: vec![1; 31] };
    let long = FrostRandomizer { data: vec![0; 33] };
    let out_of_range = FrostRandomizer { data: vec![0xff; 32] };
    for randomizer in [missing, short, long, out_of_range] {
        assert_eq!(
            sign(package.clone(), nonces.clone(), dealt.keys[0].clone(), &randomizer).unwrap_err(),
            Round2Error::InvalidRandomizer
        );
        assert_eq!(randomizer.into_randomizer().err(), Some(Round2Error::InvalidRandomizer));
        assert_eq!(Randomizer::decode(&randomizer.data).err(), Some(Error::DeserializationError));
    }

    let mut one = vec![0u8; 32];
    one[0] = 1;
    let valid = FrostRandomizer { data: one };
    assert!(valid.into_randomizer().is_ok());
    assert!(sign(package, nonces, dealt.keys[0].clone(), &valid).is_ok());
}

#[test]
fn randomized_round_two_reports_the_first_input_that_does_not_decode() {
    let dealt = dealer(3, 2);
    let firsts = round_one(&dealt);
    let good_package = record_of(&package_of(&[&firsts[0], &firsts[1]], MESSAGE));
    let good_nonces = firsts[0].nonces.clone();
    let good_keys = dealt.keys[0].clone();
    let bad_package = FrostSigningPackage { data: vec![1, 2, 3] };
    let bad_nonces = FrostSigningNonces { data: vec![] };
    let bad_keys = FrostKeyPackage { identifier: good_keys.identifier.clone(), data: vec![0] };
    let bad_randomizer = FrostRandomizer { data: vec![] };

    assert_eq!(
        sign(bad_package, bad_nonces.clone(), bad_keys.clone(), &bad_randomizer).unwrap_err(),
        Round2Error::SigningPackageDeserializationError
    );
    assert_eq!(
        sign(good_package.clone(), bad_nonces, bad_keys.clone(), &bad_randomizer).unwrap_err(),
        Round2Error::NonceSerializationError
    );
    assert_eq!(
        sign(good_package.clone(), good_nonces.clone(), bad_keys, &bad_randomizer).unwrap_err(),
        Round2Error::InvalidKeyPackage
    );
    let mut long_keys = good_keys.clone();
    long_keys.data.push(0);
    assert_eq!(
        sign(good_package.clone(), good_nonces.clone(), long_keys, &bad_randomizer).unwrap_err(),
        Round2Error::InvalidKeyPackage
    );
    assert_eq!(
        sign(good_package, good_nonces, good_keys, &bad_randomizer).unwrap_err(),
        Round2Error::InvalidRandomizer
    );
}

#[test]
fn randomized_signing_without_ones_commitment_in_the_package_fails() {
    let dealt = dealer(3, 2);
    let firsts = round_one(&dealt);
    let package = package_of(&[&firsts[0], &firsts[1]], MESSAGE);
    let (_, randomizer) = session(&package, &dealt.pubkeys);
    let res =
        sign(record_of(&package), firsts[2].nonces.clone(), dealt.keys[2].clone(), &randomizer);
    assert_eq!(
        res.unwrap_err(),
        Round2Error::SigningFailed {
            message: "The Signing Package must contain the participant's Commitment.".to_string()
        }
    );
}

#[test]
fn randomized_round_one_tags_with_the_owner_of_the_share() {
    let dealt = dealer(3, 2);
    let mut mislabelled = dealt.shares[1].clone();
    mislabelled.identifier = dealt.shares[0].identifier.clone();
    let first = generate_nonces_and_commitments(mislabelled).unwrap();
    assert_eq!(first.commitments.identifier, dealt.shares[1].identifier);
    assert_eq!(
        first.commitments.identifier.data,
        "\"0200000000000000000000000000000000000000000000000000000000000000\""
    );
    let again = generate_nonces_and_commitments(dealt.shares[1].clone()).unwrap();
    assert_ne!(first.nonces.data, again.nonces.data);
}

#[test]
fn randomized_round_one_rejects_a_share_that_does_not_decode() {
    let dealt = dealer(3, 2);
    let mut short = dealt.shares[0].clone();
    short.data.pop();
    assert_eq!(generate_nonces_and_commitments(short).unwrap_err(), Round1Error::InvalidKeyPackage);
    let mut long = dealt.shares[0].clone();
    long.data.push(0);
    assert_eq!(generate_nonces_and_commitments(long).unwrap_err(), Round1Error::InvalidKeyPackage);
    let empty = FrostSecretKeyShare { identifier: dealt.shares[0].identifier.clone(), data: vec![] };
    assert_eq!(generate_nonces_and_commitments(empty).unwrap_err(), Round1Error::InvalidKeyPackage);
}

#[test]
fn randomized_round_one_rejects_a_share_that_fails_its_check() {
    let dealt = dealer(3, 2);
    let mine = frost::keys::SecretShare::deserialize(&dealt.shares[0].data).unwrap();
    let theirs = frost::keys::SecretShare::deserialize(&dealt.shares[1].data).unwrap();
    let forged = frost::keys::SecretShare::new(
        *mine.identifier(),
        *theirs.signing_share(),
        mine.commitment().clone(),
    );
    assert!(forged.verify().is_err());
    let record = FrostSecretKeyShare {
        identifier: dealt.shares[0].identifier.clone(),
        data: forged.serialize().unwrap(),
    };
    assert!(!to_secret_share(&record).ok().unwrap().verify());
    assert_eq!(
        generate_nonces_and_commitments(record).unwrap_err(),
        Round1Error::InvalidKeyPackage
    );
    assert!(to_secret_share(&dealt.shares[0]).ok().unwrap().verify());
}

#[test]
fn entities_of_one_suite_are_none_of_the_other() {
    let dealt = dealer(3, 2);
    assert_eq!(
        frost_participant::participant::generate_nonces_and_commitments(dealt.shares[0].clone())
            .unwrap_err(),
        Round1Error::InvalidKeyPackage
    );
    assert_eq!(dealt.keys[0].into_key_package().err(), Some(Error::DeserializationError));
    assert!(into_key_package(&dealt.keys[0]).is_ok());
    let first = generate_nonces_and_commitments(dealt.shares[0].clone()).unwrap();
    assert_eq!(first.nonces.to_signing_nonces().err(), Some(Error::DeserializationError));
    assert!(to_signing_nonces(&first.nonces).is_ok());
}

#[test]
fn the_encoded_randomized_nonces_end_with_the_encoded_commitments() {
    let dealt = dealer(3, 2);
    for share in &dealt.shares {
        for _ in 0..8 {
            let first = generate_nonces_and_commitments(share.clone()).unwrap();
            assert!(first.nonces.data.ends_with(&first.commitments.data));
            assert!(first.commitments.data.len() < first.nonces.data.len());
            let other = generate_nonces_and_commitments(share.clone()).unwrap();
            assert!(!first.nonces.data.ends_with(&other.commitments.data));
        }
    }
}

#[test]
fn randomized_round_one_returns_encodings_of_one_length() {
    let dealt = dealer(3, 2);
    for first in round_one(&dealt) {
        assert_eq!(first.nonces.data.len(), frost_participant::redpallas::NONCES_LEN);
        assert_eq!(first.commitments.data.len(), frost_participant::redpallas::COMMITMENTS_LEN);
        assert!(to_signing_nonces(&first.nonces).is_ok());
        assert!(to_commitments(&first.commitments).is_ok());
        let nonces = frost::round1::SigningNonces::deserialize(&first.nonces.data).unwrap();
        let commitments =
            frost::round1::SigningCommitments::deserialize(&first.commitments.data).unwrap();
        assert_eq!(nonces.commitments(), &commitments);
    }
    assert_eq!(SigningNonces::accept(Ok(vec![1, 2, 3])), Err(Error::SerializationError));
    assert_eq!(SigningCommitments::accept(Ok(vec![])), Err(Error::SerializationError));
    assert_eq!(
        SignatureShare::accept(Ok(vec![0xff; 32])),
        Err("The signature share does not decode.".to_string())
    );
}

#[test]
fn randomized_codec_round_trips() {
    let dealt = dealer(3, 2);
    let firsts = round_one(&dealt);
    let first = &firsts[0];

    let nonces = to_signing_nonces(&first.nonces).ok().unwrap();
    assert_eq!(from_nonces(nonces).unwrap().data, first.nonces.data);

    let commitments = to_commitments(&first.commitments).ok().unwrap();
    let again =
        with_identifier_and_commitments(first.commitments.identifier.clone(), commitments).unwrap();
    assert_eq!(again.data, first.commitments.data);
    assert_eq!(again.identifier, first.commitments.identifier);
    assert!(to_commitments(&again).is_ok());

    let package = package_of(&[&firsts[0], &firsts[1]], MESSAGE);
    let (_, randomizer) = session(&package, &dealt.pubkeys);
    assert!(to_signing_package(&record_of(&package)).is_ok());
    let share =
        sign(record_of(&package), first.nonces.clone(), dealt.keys[0].clone(), &randomizer).unwrap();
    let decoded = to_signature_share(&share).ok().unwrap();
    let again = from_signature_share(share.identifier.clone(), decoded).unwrap();
    assert_eq!(again.data, share.data);
    assert_eq!(again.identifier, share.identifier);
}

#[test]
fn randomized_codec_rejects_wrong_lengths() {
    let dealt = dealer(3, 2);
    let firsts = round_one(&dealt);
    let first = &firsts[0];

    let mut long = first.nonces.clone();
    long.data.push(0);
    assert!(frost::round1::SigningNonces::deserialize(&long.data).is_ok());
    assert_eq!(to_signing_nonces(&long).err(), Some(Error::DeserializationError));
    let mut short = first.nonces.clone();
    short.data.pop();
    assert_eq!(to_signing_nonces(&short).err(), Some(Error::DeserializationError));

    let mut long = first.commitments.clone();
    long.data.push(0);
    assert_eq!(to_commitments(&long).err(), Some(Error::DeserializationError));

    let mut long = record_of(&package_of(&[&firsts[0], &firsts[1]], MESSAGE));
    long.data.push(0);
    assert_eq!(to_signing_package(&long).err(), Some(Error::DeserializationError));

    let mut long = dealt.keys[0].clone();
    long.data.push(0);
    assert_eq!(into_key_package(&long).err(), Some(Error::DeserializationError));

    let identifier = first.commitments.identifier.clone();
    let mut scalar = vec![0u8; 32];
    scalar[0] = 3;
    let exact = FrostSignatureShare { identifier: identifier.clone(), data: scalar.clone() };
    assert_eq!(to_signature_share(&exact).ok().unwrap().encode(), scalar);
    let long = FrostSignatureShare { identifier: identifier.clone(), data: vec![0u8; 33] };
    assert_eq!(to_signature_share(&long).err(), Some(Error::DeserializationError));
    let short = FrostSignatureShare { identifier, data: vec![0u8; 31] };
    assert_eq!(to_signature_share(&short).err(), Some(Error::DeserializationError));
}

#[test]
fn randomized_share_from_the_outcome_of_signing() {
    let identifier = ParticipantIdentifier { data: "\"02\"".to_string() };
    let ok = tag_share(identifier.clone(), Ok(vec![9; 32])).unwrap();
    assert_eq!(ok.identifier, identifier);
    assert_eq!(ok.data, vec![9; 32]);
    assert_eq!(
        tag_share(identifier, Err("refused".to_string())).unwrap_err(),
        Round2Error::SigningFailed { message: "refused".to_string() }
    );
}
