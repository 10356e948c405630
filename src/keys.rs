use vstd::prelude::*;

use crate::error::{CryptoError, KeyLoadError};
use crate::identity::{key_id, key_id_of};

verus! {

#[verifier::external_type_specification]
#[verifier::external_body]
pub struct ExRsaPrivateKey(rsa::RsaPrivateKey);

#[verifier::external_type_specification]
#[verifier::external_body]
pub struct ExRsaPublicKey(rsa::RsaPublicKey);

/// Whether the text is an RSA private key in PKCS#1 PEM encoding.
pub uninterp spec fn pkcs1_private_pem_decodes(pem: Seq<char>) -> bool;

/// Whether the text is an RSA public key in SubjectPublicKeyInfo PEM encoding.
pub uninterp spec fn spki_public_pem_decodes(pem: Seq<char>) -> bool;

/// The RSASSA-PKCS1-v1_5 signature with SHA-256 over `msg` by the private
/// key that `pem` encodes; `None` where the key cannot sign.
pub uninterp spec fn rsa_sha256_signature(pem: Seq<char>, msg: Seq<u8>) -> Option<Seq<u8>>;

/// Whether `sig` is a valid RSASSA-PKCS1-v1_5 signature with SHA-256 over
/// `msg` for the public key that `pem` encodes.
pub uninterp spec fn rsa_sha256_verifies(pem: Seq<char>, msg: Seq<u8>, sig: Seq<u8>) -> bool;

/// Relies on `rsa::pkcs1::DecodeRsaPrivateKey::from_pkcs1_pem` for
/// `rsa::RsaPrivateKey`: it decodes exactly the PKCS#1 PEM private keys.
#[verifier::external_body]
fn decode_pkcs1_private(pem: &str) -> (r: Option<rsa::RsaPrivateKey>)
    ensures
        r is Some <==> pkcs1_private_pem_decodes(pem@),
{
    <rsa::RsaPrivateKey as rsa::pkcs1::DecodeRsaPrivateKey>::from_pkcs1_pem(pem).ok()
}

/// Relies on `rsa::pkcs8::DecodePublicKey::from_public_key_pem` for
/// `rsa::RsaPublicKey`: it decodes exactly the SubjectPublicKeyInfo PEM keys.
#[verifier::external_body]
fn decode_spki_public(pem: &str) -> (r: Option<rsa::RsaPublicKey>)
    ensures
        r is Some <==> spki_public_pem_decodes(pem@),
{
    <rsa::RsaPublicKey as rsa::pkcs8::DecodePublicKey>::from_public_key_pem(pem).ok()
}

/// Whether the text is an RSA public key in PKCS#1 PEM encoding.
pub uninterp spec fn pkcs1_public_pem_decodes(pem: Seq<char>) -> bool;

/// Relies on `rsa::pkcs1::DecodeRsaPublicKey::from_pkcs1_pem` for
/// `rsa::RsaPublicKey`: it decodes exactly the PKCS#1 PEM public keys.
#[verifier::external_body]
fn decode_pkcs1_public(pem: &str) -> (r: Option<rsa::RsaPublicKey>)
    ensures
        r is Some <==> pkcs1_public_pem_decodes(pem@),
{
    <rsa::RsaPublicKey as rsa::pkcs1::DecodeRsaPublicKey>::from_pkcs1_pem(pem).ok()
}

/// Relies on `rsa::signature::Signer::try_sign` of
/// `rsa::pkcs1v15::SigningKey<sha2::Sha256>`, which pads the SHA-256 digest
/// and signs without randomness. The key was decoded from `key.raw` by
/// `RsaSignerKey::load`, the only place that builds one.
#[verifier::external_body]
fn rsa_sign(key: &RsaSignerKey, msg: &[u8]) -> (r: Option<Vec<u8>>)
    ensures
        r is Some <==> rsa_sha256_signature(key.raw@, msg@) is Some,
        r matches Some(s) ==> rsa_sha256_signature(key.raw@, msg@) == Some(s@),
{
    let signing = rsa::pkcs1v15::SigningKey::<sha2::Sha256>::new(key.key.clone());
    match rsa::signature::Signer::try_sign(&signing, msg) {
        Ok(sig) => Some(rsa::signature::SignatureEncoding::to_vec(&sig)),
        Err(_) => None,
    }
}

/// Relies on `rsa::signature::Verifier::verify` of
/// `rsa::pkcs1v15::VerifyingKey<sha2::Sha256>`. The key was decoded from
/// `key.raw` by `RsaVerifierKey::new` or `RsaVerifierKey::load`, the only
/// places that build one; the two accept disjoint PEM labels.
#[verifier::external_body]
fn rsa_verify(key: &RsaVerifierKey, msg: &[u8], sig: &[u8]) -> (r: bool)
    ensures
        r == rsa_sha256_verifies(key.raw@, msg@, sig@),
{
    let verifying = rsa::pkcs1v15::VerifyingKey::<sha2::Sha256>::new(key.key.clone());
    match rsa::pkcs1v15::Signature::try_from(sig) {
        Ok(s) => rsa::signature::Verifier::verify(&verifying, msg, &s).is_ok(),
        Err(_) => false,
    }
}

/// A store of remote actors' public keys, keyed by key id.
pub trait ActorPublicKeyCache {}

/// The algorithm label announced with every signature.
pub open spec fn algorithm_label() -> Seq<char> {
    "rsa-sha256"@
}

/// The relay's private signing key and the key id it publishes.
pub struct RsaSignerKey {
    url: String,
    raw: String,
    key: rsa::RsaPrivateKey,
}

impl RsaSignerKey {
    pub closed spec fn spec_id(&self) -> Seq<char> {
        self.url@
    }

    /// The PEM text the key was loaded from.
    pub closed spec fn spec_pem(&self) -> Seq<char> {
        self.raw@
    }

    /// Loads a PKCS#1 PEM private key, published as
    /// `https://{hostname}/{owner_id}#main-key`.
    pub fn load(hostname: &str, owner_id: &str, pem: &str) -> (r: Result<RsaSignerKey, KeyLoadError>)
        ensures
            r is Ok <==> pkcs1_private_pem_decodes(pem@),
            r matches Ok(k) ==> k.spec_id() == key_id_of(hostname@, owner_id@) && k.spec_pem() == pem@,
            r matches Err(e) ==> e == KeyLoadError::IncorrectKey,
    {
        match decode_pkcs1_private(pem) {
            Some(key) => Ok(RsaSignerKey { url: key_id(hostname, owner_id), raw: String::from_str(pem), key }),
            None => Err(KeyLoadError::IncorrectKey),
        }
    }

    pub fn id(&self) -> (r: String)
        ensures
            r@ == self.spec_id(),
    {
        self.url.clone()
    }

    pub fn algorithm(&self) -> (r: String)
        ensures
            r@ == algorithm_label(),
    {
        String::from_str("rsa-sha256")
    }

    /// Signs `target`; the same bytes always give the same signature.
    pub fn sign(&self, target: &[u8]) -> (r: Option<Vec<u8>>)
        ensures
            r is Some <==> rsa_sha256_signature(self.spec_pem(), target@) is Some,
            r matches Some(s) ==> rsa_sha256_signature(self.spec_pem(), target@) == Some(s@),
    {
        rsa_sign(self, target)
    }
}

/// A remote signer's public key, with the id it was published under.
pub struct RsaVerifierKey {
    url: String,
    raw: String,
    key: rsa::RsaPublicKey,
}

impl RsaVerifierKey {
    pub closed spec fn spec_id(&self) -> Seq<char> {
        self.url@
    }

    pub closed spec fn spec_pem(&self) -> Seq<char> {
        self.raw@
    }

    /// Loads a SubjectPublicKeyInfo PEM public key published under `url`.
    pub fn new(url: String, pem: &str) -> (r: Result<RsaVerifierKey, KeyLoadError>)
        ensures
            r is Ok <==> spki_public_pem_decodes(pem@),
            r matches Ok(k) ==> k.spec_id() == url@ && k.spec_pem() == pem@,
            r matches Err(e) ==> e == KeyLoadError::IncorrectKey,
    {
        match decode_spki_public(pem) {
            Some(key) => Ok(RsaVerifierKey { url, raw: String::from_str(pem), key }),
            None => Err(KeyLoadError::IncorrectKey),
        }
    }

    /// Loads a PKCS#1 PEM public key published under `url`.
    pub fn load(url: String, pem: &str) -> (r: Result<RsaVerifierKey, KeyLoadError>)
        ensures
            r is Ok <==> pkcs1_public_pem_decodes(pem@),
            r matches Ok(k) ==> k.spec_id() == url@ && k.spec_pem() == pem@,
            r matches Err(e) ==> e == KeyLoadError::IncorrectKey,
    {
        match decode_pkcs1_public(pem) {
            Some(key) => Ok(RsaVerifierKey { url, raw: String::from_str(pem), key }),
            None => Err(KeyLoadError::IncorrectKey),
        }
    }

    pub fn id(&self) -> (r: String)
        ensures
            r@ == self.spec_id(),
    {
        self.url.clone()
    }

    pub fn algorithm(&self) -> (r: String)
        ensures
            r@ == algorithm_label(),
    {
        String::from_str("rsa-sha256")
    }

    pub fn as_pem(&self) -> (r: &str)
        ensures
            r@ == self.spec_pem(),
    {
        self.raw.as_str()
    }

    /// Checks `sig` over `target`; fails closed on any mismatch.
    pub fn verify(&self, target: &[u8], sig: &[u8]) -> (r: Result<(), CryptoError>)
        ensures
            r is Ok <==> rsa_sha256_verifies(self.spec_pem(), target@, sig@),
    {
        if rsa_verify(self, target, sig) {
            Ok(())
        } else {
            Err(CryptoError)
        }
    }
}

} // verus!
