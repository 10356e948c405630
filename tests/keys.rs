use stargate::error::{CryptoError, KeyLoadError};
use stargate::hasher::Sha256Hasher;
use stargate::keys::{RsaSignerKey, RsaVerifierKey};


/// A fresh key pair: the private key as PKCS#1 PEM, the public key as
/// SubjectPublicKeyInfo PEM.
fn keypair() -> (rsa::RsaPrivateKey, String, String) {
    let key = rsa::RsaPrivateKey::new(&mut rsa::rand_core::OsRng, 1024).unwrap();
    let private = rsa::pkcs1::EncodeRsaPrivateKey::to_pkcs1_pem(&key, rsa::pkcs1::LineEnding::LF)
        .unwrap()
        .to_string();
    let public = rsa::pkcs8::EncodePublicKey::to_public_key_pem(&key.to_public_key(), rsa::pkcs8::LineEnding::LF)
        .unwrap();
    (key, private, public)
}

fn hex(bytes: &[u8]) -> String {
    bytes.iter().map(|b| format!("{:02x}", b)).collect()
}

#[test]
fn signer_key_id_convention() {
    let (_, private_a, _) = keypair();
    let key = RsaSignerKey::load("example.org", "relay.actor", &private_a).unwrap();
    assert_eq!(key.id(), "https://example.org/relay.actor#main-key");
    assert_eq!(key.algorithm(), "rsa-sha256");
}

#[test]
fn signer_refuses_other_encodings() {
    let (key, _, public_a) = keypair();
    let pkcs8_private_a = rsa::pkcs8::EncodePrivateKey::to_pkcs8_pem(&key, rsa::pkcs8::LineEnding::LF)
        .unwrap()
        .to_string();
    let pkcs8_private_a = pkcs8_private_a.as_str();
    let public_a = public_a.as_str();
    assert!(matches!(RsaSignerKey::load("h", "o", pkcs8_private_a), Err(KeyLoadError::IncorrectKey)));
    assert!(matches!(RsaSignerKey::load("h", "o", public_a), Err(KeyLoadError::IncorrectKey)));
    assert!(matches!(RsaSignerKey::load("h", "o", ""), Err(KeyLoadError::IncorrectKey)));
}

#[test]
fn verifier_refuses_other_encodings() {
    let (key, _, _) = keypair();
    let pkcs1_public_a = rsa::pkcs1::EncodeRsaPublicKey::to_pkcs1_pem(&key.to_public_key(), rsa::pkcs1::LineEnding::LF)
        .unwrap();
    let pkcs1_public_a = pkcs1_public_a.as_str();
    let r = RsaVerifierKey::new("https://a/actor#main-key".to_string(), pkcs1_public_a);
    assert!(matches!(r, Err(KeyLoadError::IncorrectKey)));
    let r = RsaVerifierKey::new("k".to_string(), "garbage");
    assert!(matches!(r, Err(KeyLoadError::IncorrectKey)));
}

#[test]
fn verifier_keeps_id_and_pem() {
    let (_, _, public_a) = keypair();
    let public_a = public_a.as_str();
    let key = RsaVerifierKey::new("https://a/actor#main-key".to_string(), public_a).unwrap();
    assert_eq!(key.id(), "https://a/actor#main-key");
    assert_eq!(key.algorithm(), "rsa-sha256");
    assert_eq!(key.as_pem(), public_a);
}

#[test]
fn signature_round_trip() {
    let (_, private_a, public_a) = keypair();
    let (private_a, public_a) = (private_a.as_str(), public_a.as_str());
    let signer = RsaSignerKey::load("a", "actor", private_a).unwrap();
    let verifier = RsaVerifierKey::new("https://a/actor#main-key".to_string(), public_a).unwrap();
    let msg = b"(request-target): post /inbox\nhost: a";
    let sig = signer.sign(msg).unwrap();
    assert_eq!(sig.len(), 128);
    assert_eq!(signer.sign(msg).unwrap(), sig);
    assert!(verifier.verify(msg, &sig).is_ok());
}

#[test]
fn signature_fails_closed() {
    let (_, private_a, public_a) = keypair();
    let (_, _, public_b) = keypair();
    let (private_a, public_a, public_b) = (private_a.as_str(), public_a.as_str(), public_b.as_str());
    let signer = RsaSignerKey::load("a", "actor", private_a).unwrap();
    let verifier = RsaVerifierKey::new("k".to_string(), public_a).unwrap();
    let other = RsaVerifierKey::new("k".to_string(), public_b).unwrap();
    let msg = b"date: Tue, 07 Jun 2022 20:51:35 GMT";
    let sig = signer.sign(msg).unwrap();
    assert!(matches!(verifier.verify(b"date: Tue, 07 Jun 2022 20:51:36 GMT", &sig), Err(CryptoError)));
    assert!(matches!(other.verify(msg, &sig), Err(CryptoError)));
    let mut bad = sig.clone();
    bad[10] ^= 1;
    assert!(matches!(verifier.verify(msg, &bad), Err(CryptoError)));
    assert!(matches!(verifier.verify(msg, &[]), Err(CryptoError)));
}

#[test]
fn signer_b_is_not_signer_a() {
    let (_, private_a, _) = keypair();
    let (_, private_b, _) = keypair();
    let (private_a, private_b) = (private_a.as_str(), private_b.as_str());
    let a = RsaSignerKey::load("a", "actor", private_a).unwrap();
    let b = RsaSignerKey::load("b", "actor", private_b).unwrap();
    assert_ne!(a.sign(b"x").unwrap(), b.sign(b"x").unwrap());
}

#[test]
fn hash_known_value() {
    assert_eq!(hex(&Sha256Hasher::hash(b"abc")), "ba7816bf8f01cfea414140de5dae2223b00361a396177a9cb410ff61f20015ad");
    assert_eq!(hex(&Sha256Hasher::hash(b"")), "e3b0c44298fc1c149afbf4c8996fb92427ae41e4649b934ca495991b7852b855");
    assert_eq!(Sha256Hasher::algorithm(), "SHA-256");
}

#[test]
fn hash_is_deterministic_and_sensitive() {
    let body = b"{\"type\":\"Follow\"}".to_vec();
    assert_eq!(Sha256Hasher::hash(&body), Sha256Hasher::hash(&body.clone()));
    let mut changed = body.clone();
    changed[3] = b'T';
    assert_ne!(Sha256Hasher::hash(&body), Sha256Hasher::hash(&changed));
    assert_eq!(Sha256Hasher::hash(&body).len(), 32);
}

#[test]
fn verifier_load_takes_pkcs1_public_keys() {
    let (key, private_a, public_a) = keypair();
    let pkcs1_public_a = rsa::pkcs1::EncodeRsaPublicKey::to_pkcs1_pem(&key.to_public_key(), rsa::pkcs1::LineEnding::LF)
        .unwrap();
    let (private_a, public_a, pkcs1_public_a) = (private_a.as_str(), public_a.as_str(), pkcs1_public_a.as_str());
    let key = RsaVerifierKey::load("k".to_string(), pkcs1_public_a).unwrap();
    assert_eq!(key.as_pem(), pkcs1_public_a);
    let signer = RsaSignerKey::load("a", "actor", private_a).unwrap();
    let sig = signer.sign(b"m").unwrap();
    assert!(key.verify(b"m", &sig).is_ok());
    assert!(matches!(RsaVerifierKey::load("k".to_string(), public_a), Err(KeyLoadError::IncorrectKey)));
}
