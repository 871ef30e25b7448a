use sha2::Digest;
use web5_pds::content_id::{cid_of_block, parse_optional_cid, require_cid};
use web5_pds::crypto::{decode_signature, digest_message, judge, verify_signature, CryptoError};
use web5_pds::entropy::generate_random_string;
use web5_pds::hexcode::{bytes_to_hex, hex_to_bytes, strip_hex_prefix};

fn p256_signer() -> (String, p256::ecdsa::SigningKey) {
    let key = p256::ecdsa::SigningKey::from_slice(&[0x42u8; 32]).unwrap();
    let did = rsky_crypto::did::format_did_key(
        "ES256".to_string(),
        key.verifying_key().to_encoded_point(true).as_bytes().to_vec(),
    )
    .unwrap();
    (did, key)
}

fn p256_sign(key: &p256::ecdsa::SigningKey, digest: &[u8]) -> String {
    let made: p256::ecdsa::Signature = p256::ecdsa::signature::Signer::sign(key, digest);
    let low = made.normalize_s().unwrap_or(made);
    hex::encode(low.to_bytes())
}

fn k256_signer() -> (String, secp256k1::SecretKey) {
    let secret = secp256k1::SecretKey::from_slice(&[0x17u8; 32]).unwrap();
    let public = secp256k1::PublicKey::from_secret_key(&secp256k1::Secp256k1::new(), &secret);
    let did = rsky_crypto::did::format_did_key(
        "ES256K".to_string(),
        public.serialize_uncompressed().to_vec(),
    )
    .unwrap();
    (did, secret)
}

fn k256_sign(secret: &secp256k1::SecretKey, digest: &[u8]) -> String {
    let message = secp256k1::Message::from_digest_slice(digest).unwrap();
    let mut made = secp256k1::Secp256k1::new().sign_ecdsa(&message, secret);
    made.normalize_s();
    hex::encode(made.serialize_compact())
}

#[test]
fn hexadecimal_text_is_written_in_lower_case() {
    assert_eq!(bytes_to_hex(&b"foobar".to_vec()), "666f6f626172");
    assert_eq!(bytes_to_hex(&vec![0x00, 0x0f, 0xf0, 0xff, 0xab]), "000ff0ffab");
    assert_eq!(bytes_to_hex(&vec![]), "");
}

#[test]
fn hexadecimal_text_is_read_in_either_case() {
    assert_eq!(hex_to_bytes("666f6f626172"), Some(b"foobar".to_vec()));
    assert_eq!(hex_to_bytes("666F6F626172"), Some(b"foobar".to_vec()));
    assert_eq!(hex_to_bytes("00ff0AaB"), Some(vec![0x00, 0xff, 0x0a, 0xab]));
    assert_eq!(hex_to_bytes(""), Some(vec![]));
}

#[test]
fn text_that_is_not_hexadecimal_is_refused() {
    assert_eq!(hex_to_bytes("1"), None);
    assert_eq!(hex_to_bytes("666f6f6261721"), None);
    assert_eq!(hex_to_bytes("66ag"), None);
    assert_eq!(hex_to_bytes("0x00"), None);
    assert_eq!(hex_to_bytes(" 00"), None);
    assert_eq!(hex_to_bytes("é0"), None);
    assert_eq!(hex_to_bytes("é"), None);
}

#[test]
fn hexadecimal_round_trip_keeps_the_bytes() {
    let bytes: Vec<u8> = (0..=255u8).collect();
    assert_eq!(hex_to_bytes(&bytes_to_hex(&bytes)), Some(bytes));
}

#[test]
fn hex_prefix_is_optional() {
    assert_eq!(strip_hex_prefix("0xabcd"), "abcd");
    assert_eq!(strip_hex_prefix("0Xabcd"), "abcd");
    assert_eq!(strip_hex_prefix("abcd"), "abcd");
    assert_eq!(strip_hex_prefix("0x"), "");
    assert_eq!(strip_hex_prefix("0"), "0");
    assert_eq!(strip_hex_prefix(""), "");
    assert_eq!(strip_hex_prefix("x0ab"), "x0ab");
    assert_eq!(strip_hex_prefix("0x0xab"), "0xab");
    assert_eq!(strip_hex_prefix("1xab"), "1xab");
    assert_eq!(decode_signature("0xABcd"), Some(vec![0xab, 0xcd]));
    assert_eq!(decode_signature("0Xabcd"), Some(vec![0xab, 0xcd]));
    assert_eq!(decode_signature("abcd"), Some(vec![0xab, 0xcd]));
    assert_eq!(decode_signature("0xabc"), None);
    assert_eq!(decode_signature("0x0xab"), None);
}

#[test]
fn message_digest_is_sha256_of_the_utf8_bytes() {
    assert_eq!(
        bytes_to_hex(&digest_message("abc")),
        "ba7816bf8f01cfea414140de5dae2223b00361a396177a9cb410ff61f20015ad"
    );
    assert_eq!(
        bytes_to_hex(&digest_message("")),
        "e3b0c44298fc1c149afbf4c8996fb92427ae41e4649b934ca495991b7852b855"
    );
    assert_eq!(digest_message("é"), sha2::Sha256::digest([0xc3u8, 0xa9]).to_vec());
}

#[test]
fn verifier_answers_are_placed() {
    assert_eq!(judge(Some(true)), Ok(true));
    assert_eq!(judge(Some(false)), Ok(false));
    assert_eq!(judge(None), Err(CryptoError::KeyOrSignature));
}

#[test]
fn p256_signature_over_the_digest_verifies() {
    let (did, key) = p256_signer();
    let digest = digest_message("Web5 Login\nTimestamp: 1");
    let signature = p256_sign(&key, &digest);
    assert_eq!(verify_signature(&did, &digest, &signature), Ok(true));
    assert_eq!(verify_signature(&did, &digest, &format!("0x{signature}")), Ok(true));
    assert_eq!(verify_signature(&did, &digest, &format!("0X{signature}")), Ok(true));
    assert_eq!(verify_signature(&did, &digest, &signature.to_uppercase()), Ok(true));
    let other = digest_message("another message");
    assert_eq!(verify_signature(&did, &other, &signature), Ok(false));
}

#[test]
fn secp256k1_signature_over_the_digest_verifies() {
    let (did, secret) = k256_signer();
    let digest = digest_message("Web5 Login\nTimestamp: 1");
    let signature = k256_sign(&secret, &digest);
    assert_eq!(verify_signature(&did, &digest, &signature), Ok(true));
    assert_eq!(verify_signature(&did, &digest, &format!("0x{signature}")), Ok(true));
    let other = digest_message("another message");
    assert_eq!(verify_signature(&did, &other, &signature), Ok(false));
    let (stranger, _) = p256_signer();
    assert_ne!(verify_signature(&stranger, &digest, &signature), Ok(true));
}

#[test]
fn malformed_key_or_signature_is_a_crypto_error() {
    let (did, key) = p256_signer();
    let digest = digest_message("m");
    let signature = p256_sign(&key, &digest);
    assert_eq!(
        verify_signature(&did, &digest, "not hex"),
        Err(CryptoError::SignatureEncoding)
    );
    assert_eq!(
        verify_signature(&did, &digest, &signature[1..]),
        Err(CryptoError::SignatureEncoding)
    );
    assert_eq!(
        verify_signature(&"did:plc:notakey".to_string(), &digest, &signature),
        Err(CryptoError::KeyOrSignature)
    );
    assert_eq!(
        verify_signature(&"did:key:zQ3shunknown".to_string(), &digest, &signature),
        Err(CryptoError::KeyOrSignature)
    );
    assert_eq!(verify_signature(&did, &digest, "abcd"), Ok(false));
    let (k256, _) = k256_signer();
    assert_eq!(
        verify_signature(&k256, &vec![1, 2, 3], &signature),
        Err(CryptoError::KeyOrSignature)
    );
}

#[test]
fn block_identifier_is_cid_v1_dag_cbor_sha256() {
    for block in [b"".to_vec(), b"hello".to_vec(), vec![0xa0], (0..200u8).collect()] {
        let hash = cid::multihash::Multihash::<64>::wrap(0x12, &sha2::Sha256::digest(&block)).unwrap();
        let expected = cid::Cid::new_v1(0x71, hash).to_string();
        let made = cid_of_block(&block);
        assert_eq!(made, expected);
        assert!(made.starts_with("bafyrei"));
        assert_eq!(made.len(), 59);
    }
    assert_ne!(cid_of_block(&b"a".to_vec()), cid_of_block(&b"b".to_vec()));
}

#[test]
fn expected_commit_is_read_and_brought_into_its_usual_form() {
    let usual = cid_of_block(&b"commit".to_vec());
    assert_eq!(parse_optional_cid(&None), Ok(None));
    assert_eq!(parse_optional_cid(&Some(usual.clone())), Ok(Some(usual.clone())));
    let parsed = cid::Cid::try_from(usual.as_str()).unwrap();
    let other_base = parsed.to_string_of_base(cid::multibase::Base::Base58Btc).unwrap();
    assert_ne!(other_base, usual);
    assert_eq!(parse_optional_cid(&Some(other_base)), Ok(Some(usual.clone())));
    assert_eq!(
        parse_optional_cid(&Some(format!("/ipfs/{usual}"))),
        Ok(Some(usual.clone()))
    );
    let v0 = "QmdfTbBqBPQ7VNxZEYEj14VmRuZBkqFbiwReogJgS1zR1n".to_string();
    assert_eq!(parse_optional_cid(&Some(v0.clone())), Ok(Some(v0)));
}

#[test]
fn unreadable_expected_commit_is_refused() {
    for text in ["", "b", "not a cid", "bafyrei", "Qm", "zzzz", "bafyreié"] {
        assert_eq!(parse_optional_cid(&Some(text.to_string())), Err(()), "{text:?}");
    }
    assert_eq!(require_cid(None), Err(()));
    assert_eq!(require_cid(Some("x".to_string())), Ok(Some("x".to_string())));
}

#[test]
fn random_text_has_the_length_asked_for_and_is_alphanumeric() {
    for length in [0usize, 1, 10, 16, 64] {
        let text = generate_random_string(length);
        assert_eq!(text.chars().count(), length);
        assert!(text.chars().all(|c| c.is_ascii_alphanumeric()));
    }
    assert_ne!(generate_random_string(32), generate_random_string(32));
}
