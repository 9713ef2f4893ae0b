use frost_ed25519 as frost;
use frost_participant::ed25519::{
    sign_share, KeyPackage, SecretShare, SignatureShare, SigningCommitments, SigningNonces,
    SigningPackage, COMMITMENTS_LEN, NONCES_LEN, SCALAR_LEN,
};
use frost_participant::error::Error;
use std::collections::BTreeMap;

fn key_packages() -> Vec<frost::keys::KeyPackage> {
    let (shares, _) = frost::keys::generate_with_dealer(
        3,
        2,
        frost::keys::IdentifierList::Default,
        rand::thread_rng(),
    )
    .unwrap();
    shares.into_values().map(|s| frost::keys::KeyPackage::try_from(s).unwrap()).collect()
}

#[test]
fn a_scalar_has_32_bytes() {
    assert_eq!(SCALAR_LEN, 32);
    assert_eq!(frost_participant::redpallas::SCALAR_LEN, 32);
}

#[test]
fn nonces_and_commitments_have_one_length() {
    assert_eq!(NONCES_LEN, 138);
    assert_eq!(COMMITMENTS_LEN, 69);
    assert_eq!(frost_participant::redpallas::NONCES_LEN, 138);
    assert_eq!(frost_participant::redpallas::COMMITMENTS_LEN, 69);
    for key_package in key_packages() {
        let (nonces, commitments) =
            frost::round1::commit(key_package.signing_share(), &mut rand::thread_rng());
        assert_eq!(nonces.serialize().unwrap().len(), NONCES_LEN);
        assert_eq!(commitments.serialize().unwrap().len(), COMMITMENTS_LEN);
    }
}

#[test]
fn an_answer_of_the_suite_is_kept_where_it_decodes() {
    let keys = key_packages();
    let (nonces, commitments) =
        frost::round1::commit(keys[0].signing_share(), &mut rand::thread_rng());
    let nonce_bytes = nonces.serialize().unwrap();
    let commitment_bytes = commitments.serialize().unwrap();

    assert_eq!(SigningNonces::accept(Ok(nonce_bytes.clone())), Ok(nonce_bytes.clone()));
    assert_eq!(SigningNonces::accept(Ok(vec![])), Err(Error::SerializationError));
    assert_eq!(SigningNonces::accept(Ok(vec![0; 138])), Err(Error::SerializationError));
    assert_eq!(
        SigningNonces::accept(Ok(commitment_bytes.clone())),
        Err(Error::SerializationError)
    );
    assert_eq!(
        SigningNonces::accept(Err(Error::SerializationError)),
        Err(Error::SerializationError)
    );
    assert_eq!(
        SigningNonces::accept(Err(Error::DeserializationError)),
        Err(Error::DeserializationError)
    );

    assert_eq!(
        SigningCommitments::accept(Ok(commitment_bytes.clone())),
        Ok(commitment_bytes.clone())
    );
    assert_eq!(SigningCommitments::accept(Ok(vec![])), Err(Error::SerializationError));
    assert_eq!(SigningCommitments::accept(Ok(nonce_bytes)), Err(Error::SerializationError));
    assert_eq!(
        SigningCommitments::accept(Err(Error::SerializationError)),
        Err(Error::SerializationError)
    );

    let mut scalar = vec![0u8; 32];
    scalar[0] = 7;
    assert_eq!(SignatureShare::accept(Ok(scalar.clone())), Ok(scalar));
    assert_eq!(
        SignatureShare::accept(Ok(vec![0xff; 32])),
        Err("The signature share does not decode.".to_string())
    );
    assert_eq!(
        SignatureShare::accept(Ok(vec![])),
        Err("The signature share does not decode.".to_string())
    );
    assert_eq!(SignatureShare::accept(Err("refused".to_string())), Err("refused".to_string()));
}

#[test]
fn the_owner_of_a_key_package_is_its_identifier_as_json() {
    for real in key_packages() {
        let decoded = KeyPackage::decode(&real.serialize().unwrap()).ok().unwrap();
        assert_eq!(decoded.owner().unwrap(), serde_json::to_string(real.identifier()).unwrap());
    }
    let first = &key_packages()[0];
    let decoded = KeyPackage::decode(&first.serialize().unwrap()).ok().unwrap();
    assert_eq!(
        decoded.owner().unwrap(),
        "\"0100000000000000000000000000000000000000000000000000000000000000\""
    );
}

#[test]
fn the_owner_of_a_secret_share_is_its_identifier_as_json() {
    let (shares, _) = frost::keys::generate_with_dealer(
        3,
        2,
        frost::keys::IdentifierList::Default,
        rand::thread_rng(),
    )
    .unwrap();
    for (identifier, share) in shares {
        let decoded = SecretShare::decode(&share.serialize().unwrap()).ok().unwrap();
        assert_eq!(decoded.owner().unwrap(), serde_json::to_string(&identifier).unwrap());
        assert!(decoded.verify());
    }
}

#[test]
fn entities_encode_to_what_the_suite_encodes_them_to() {
    let keys = key_packages();
    let (nonces, commitments) =
        frost::round1::commit(keys[0].signing_share(), &mut rand::thread_rng());
    let nonce_bytes = nonces.serialize().unwrap();
    let commitment_bytes = commitments.serialize().unwrap();

    let decoded = SigningNonces::decode(&nonce_bytes).ok().unwrap();
    assert_eq!(decoded.encode().unwrap(), nonce_bytes);
    let decoded = SigningCommitments::decode(&commitment_bytes).ok().unwrap();
    assert_eq!(decoded.encode().unwrap(), commitment_bytes);

    let mut followed = nonce_bytes.clone();
    followed.extend_from_slice(&[0, 0]);
    assert!(frost::round1::SigningNonces::deserialize(&followed).is_ok());
    assert_eq!(SigningNonces::decode(&followed).err(), Some(Error::DeserializationError));
    let mut followed = commitment_bytes.clone();
    followed.push(1);
    assert_eq!(SigningCommitments::decode(&followed).err(), Some(Error::DeserializationError));
}

#[test]
fn decoding_rejects_bytes_of_another_kind() {
    let keys = key_packages();
    let (nonces, commitments) =
        frost::round1::commit(keys[0].signing_share(), &mut rand::thread_rng());
    let nonce_bytes = nonces.serialize().unwrap();
    let commitment_bytes = commitments.serialize().unwrap();
    let key_bytes = keys[0].serialize().unwrap();

    assert_eq!(SigningNonces::decode(&commitment_bytes).err(), Some(Error::DeserializationError));
    assert_eq!(SigningCommitments::decode(&nonce_bytes).err(), Some(Error::DeserializationError));
    assert_eq!(SigningCommitments::decode(&vec![]).err(), Some(Error::DeserializationError));
    assert_eq!(KeyPackage::decode(&nonce_bytes).err(), Some(Error::DeserializationError));
    assert_eq!(SecretShare::decode(&key_bytes).err(), Some(Error::DeserializationError));
    assert_eq!(SigningPackage::decode(&vec![0xff; 10]).err(), Some(Error::DeserializationError));
    assert_eq!(SignatureShare::decode(&key_bytes).err(), Some(Error::DeserializationError));
    assert!(KeyPackage::decode(&key_bytes).is_ok());
}

#[test]
fn a_share_of_another_length_than_32_does_not_decode() {
    let mut scalar = vec![0u8; 32];
    scalar[0] = 5;
    assert!(SignatureShare::decode(&scalar).is_ok());
    let mut longer = scalar.clone();
    longer.push(0);
    assert_eq!(SignatureShare::decode(&longer).err(), Some(Error::DeserializationError));
    scalar.pop();
    assert_eq!(SignatureShare::decode(&scalar).err(), Some(Error::DeserializationError));
}

#[test]
fn the_suite_signs_what_the_records_hold() {
    let keys = key_packages();
    let mut nonces = Vec::new();
    let mut commitments = BTreeMap::new();
    for key_package in &keys[0..2] {
        let (n, c) = frost::round1::commit(key_package.signing_share(), &mut rand::thread_rng());
        nonces.push(n);
        commitments.insert(*key_package.identifier(), c);
    }
    let package = frost::SigningPackage::new(commitments, b"hello");
    let expected = frost::round2::sign(&package, &nonces[0], &keys[0]).unwrap().serialize();

    let record = SigningPackage::decode(&package.serialize().unwrap()).ok().unwrap();
    let signer_nonces = SigningNonces::decode(&nonces[0].serialize().unwrap()).ok().unwrap();
    let signer_keys = KeyPackage::decode(&keys[0].serialize().unwrap()).ok().unwrap();
    assert_eq!(sign_share(&record, &signer_nonces, &signer_keys).unwrap(), expected);
    assert_eq!(expected.len(), 32);

    let other_keys = KeyPackage::decode(&keys[2].serialize().unwrap()).ok().unwrap();
    assert_eq!(
        sign_share(&record, &signer_nonces, &other_keys).unwrap_err(),
        "The Signing Package must contain the participant's Commitment."
    );
}
