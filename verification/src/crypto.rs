//! Digests, signatures and key material. The arithmetic is that of the
//! `sha2`, `p256` and `p384` crates; this module gives each operation a
//! name that contracts can speak of, and decides which operation a given
//! signature asks for.

use vstd::prelude::*;
use p256::ecdsa::signature::{Signer, Verifier};
use p256::pkcs8::{DecodePrivateKey, DecodePublicKey, EncodePrivateKey, EncodePublicKey};
use sha2::Digest;
use crate::bytes::optional;

verus! {

/// The SHA-256 digest of `data`.
pub uninterp spec fn sha256_digest(data: Seq<u8>) -> Seq<u8>;

/// Whether `signature`, an ASN.1 `ECDSA-Sig-Value`, is a valid ECDSA
/// signature of `message` over P-256 with SHA-256 under the key that the
/// `SubjectPublicKeyInfo` `key` holds.
pub uninterp spec fn p256_der_valid(key: Seq<u8>, message: Seq<u8>, signature: Seq<u8>) -> bool;

/// As `p256_der_valid`, for a signature given as `r` and `s`, 32 octets
/// each, most significant first.
pub uninterp spec fn p256_fixed_valid(key: Seq<u8>, message: Seq<u8>, signature: Seq<u8>) -> bool;

/// Whether `signature`, an ASN.1 `ECDSA-Sig-Value`, is a valid ECDSA
/// signature of `message` over P-384 with SHA-384 under the key that the
/// `SubjectPublicKeyInfo` `key` holds.
pub uninterp spec fn p384_der_valid(key: Seq<u8>, message: Seq<u8>, signature: Seq<u8>) -> bool;

/// As `p384_der_valid`, for a signature given as `r` and `s`, 48 octets
/// each, most significant first.
pub uninterp spec fn p384_fixed_valid(key: Seq<u8>, message: Seq<u8>, signature: Seq<u8>) -> bool;

/// The deterministic ECDSA signature of `message` over P-256 with SHA-256
/// under the PKCS#8 private key `key`, as an ASN.1 `ECDSA-Sig-Value`.
pub uninterp spec fn p256_signature(key: Seq<u8>, message: Seq<u8>) -> Option<Seq<u8>>;

/// The `SubjectPublicKeyInfo` of the public half of the PKCS#8 private
/// key `key` over P-256.
pub uninterp spec fn p256_public_key(key: Seq<u8>) -> Option<Seq<u8>>;

/// Whether `key` reads as a PKCS#8 `PrivateKeyInfo`.
pub uninterp spec fn is_private_key_info(key: Seq<u8>) -> bool;

/// What a `Secret` holds.
pub uninterp spec fn secret_bytes(secret: Secret) -> Seq<u8>;

/// Key material that is wiped from memory when it is dropped: octets in
/// a `zeroize::Zeroizing`. What it holds is known to contracts by the
/// name `secret_bytes` alone.
#[verifier::external_body]
#[derive(Debug)]
pub struct Secret {
    bytes: zeroize::Zeroizing<Vec<u8>>,
}

impl View for Secret {
    type V = Seq<u8>;

    open spec fn view(&self) -> Seq<u8> {
        secret_bytes(*self)
    }
}

/// `sha2::Sha256::digest`: the digest is SHA-256 of the data, 32 octets.
#[verifier::external_body]
pub(crate) fn sha256(data: &[u8]) -> (digest: Vec<u8>)
    ensures
        digest@ == sha256_digest(data@),
        digest@.len() == 32,
{
    sha2::Sha256::digest(data).to_vec()
}

/// `p256::ecdsa::VerifyingKey::verify` with a `DerSignature`: true where
/// the key and the signature parse and the signature verifies.
#[verifier::external_body]
pub(crate) fn p256_verify_der(key: &[u8], message: &[u8], signature: &[u8]) -> (valid: bool)
    ensures
        valid == p256_der_valid(key@, message@, signature@),
{
    let key = p256::ecdsa::VerifyingKey::from_public_key_der(key);
    let signature = p256::ecdsa::DerSignature::try_from(signature);
    match (key, signature) {
        (Ok(key), Ok(signature)) => key.verify(message, &signature).is_ok(),
        _ => false,
    }
}

/// `p256::ecdsa::VerifyingKey::verify` with a fixed-width `Signature`:
/// true where the key and the signature parse and the signature verifies.
#[verifier::external_body]
pub(crate) fn p256_verify_fixed(key: &[u8], message: &[u8], signature: &[u8]) -> (valid: bool)
    ensures
        valid == p256_fixed_valid(key@, message@, signature@),
{
    let key = p256::ecdsa::VerifyingKey::from_public_key_der(key);
    let signature = p256::ecdsa::Signature::from_slice(signature);
    match (key, signature) {
        (Ok(key), Ok(signature)) => key.verify(message, &signature).is_ok(),
        _ => false,
    }
}

/// `p384::ecdsa::VerifyingKey::verify` with a `DerSignature`: true where
/// the key and the signature parse and the signature verifies.
#[verifier::external_body]
pub(crate) fn p384_verify_der(key: &[u8], message: &[u8], signature: &[u8]) -> (valid: bool)
    ensures
        valid == p384_der_valid(key@, message@, signature@),
{
    let key = p384::ecdsa::VerifyingKey::from_public_key_der(key);
    let signature = p384::ecdsa::DerSignature::try_from(signature);
    match (key, signature) {
        (Ok(key), Ok(signature)) => key.verify(message, &signature).is_ok(),
        _ => false,
    }
}

/// `p384::ecdsa::VerifyingKey::verify` with a fixed-width `Signature`:
/// true where the key and the signature parse and the signature verifies.
#[verifier::external_body]
pub(crate) fn p384_verify_fixed(key: &[u8], message: &[u8], signature: &[u8]) -> (valid: bool)
    ensures
        valid == p384_fixed_valid(key@, message@, signature@),
{
    let key = p384::ecdsa::VerifyingKey::from_public_key_der(key);
    let signature = p384::ecdsa::Signature::from_slice(signature);
    match (key, signature) {
        (Ok(key), Ok(signature)) => key.verify(message, &signature).is_ok(),
        _ => false,
    }
}

/// `p256::ecdsa::SigningKey::try_sign`, which derives its nonce from the
/// key and the message: the signature as an ASN.1 `ECDSA-Sig-Value`, or
/// nothing where the key does not parse or signing fails.
#[verifier::external_body]
pub(crate) fn p256_sign(key: &Secret, message: &[u8]) -> (signature: Option<Vec<u8>>)
    ensures
        optional(signature) == p256_signature(key@, message@),
{
    let key = p256::ecdsa::SigningKey::from_pkcs8_der(&key.bytes).ok()?;
    let signature: p256::ecdsa::DerSignature = key.try_sign(message).ok()?;
    Some(signature.as_bytes().to_vec())
}

/// `p256::ecdsa::SigningKey::verifying_key`: the `SubjectPublicKeyInfo`
/// of the public half of a PKCS#8 private key over P-256.
#[verifier::external_body]
pub(crate) fn p256_public(key: &Secret) -> (public: Option<Vec<u8>>)
    ensures
        optional(public) == p256_public_key(key@),
{
    let key = p256::ecdsa::SigningKey::from_pkcs8_der(&key.bytes).ok()?;
    Some(key.verifying_key().to_public_key_der().ok()?.into_vec())
}

/// `p256::ecdsa::SigningKey::random` on the system's random number
/// generator: a fresh private key as PKCS#8. Nothing is promised of it.
#[verifier::external_body]
pub(crate) fn p256_generate() -> (key: Option<Secret>) {
    let key = p256::ecdsa::SigningKey::random(&mut rand_core::OsRng);
    Some(Secret { bytes: key.to_pkcs8_der().ok()?.to_bytes() })
}

/// `pkcs8::PrivateKeyInfo::try_from` on the octets, which decodes them
/// as DER: whether they parse.
#[verifier::external_body]
pub(crate) fn private_key_info_ok(key: &Secret) -> (ok: bool)
    ensures
        ok == is_private_key_info(key@),
{
    pkcs8::PrivateKeyInfo::try_from(key.bytes.as_slice()).is_ok()
}

/// `zeroize::Zeroizing::new`: the same octets, wiped on drop.
#[verifier::external_body]
pub(crate) fn seal(bytes: Vec<u8>) -> (secret: Secret)
    ensures
        secret_bytes(secret) == bytes@,
{
    Secret { bytes: zeroize::Zeroizing::new(bytes) }
}

/// How a signature is written down.
#[derive(Clone, Copy, Debug, PartialEq, Eq, Structural)]
pub enum Encoding {
    /// As an ASN.1 `ECDSA-Sig-Value`.
    Der,
    /// As `r` and `s`, each as wide as the curve, most significant first.
    Fixed,
}

/// The signature schemes that are accepted.
#[derive(Clone, Copy, Debug, PartialEq, Eq, Structural)]
pub enum Scheme {
    /// ECDSA over P-256 with SHA-256.
    P256,
    /// ECDSA over P-384 with SHA-384.
    P384,
}

/// The `AlgorithmIdentifier` of ecdsa-with-SHA256 (1.2.840.10045.4.3.2).
pub open spec fn ecdsa_with_sha256() -> Seq<u8> {
    seq![0x30u8, 0x0a, 0x06, 0x08, 0x2a, 0x86, 0x48, 0xce, 0x3d, 0x04, 0x03, 0x02]
}

/// The `AlgorithmIdentifier` of ecdsa-with-SHA384 (1.2.840.10045.4.3.3).
pub open spec fn ecdsa_with_sha384() -> Seq<u8> {
    seq![0x30u8, 0x0a, 0x06, 0x08, 0x2a, 0x86, 0x48, 0xce, 0x3d, 0x04, 0x03, 0x03]
}

/// The scheme that an `AlgorithmIdentifier` names, if it is an accepted one.
pub open spec fn spec_scheme_of(algorithm: Seq<u8>) -> Option<Scheme> {
    if algorithm == ecdsa_with_sha256() {
        Some(Scheme::P256)
    } else if algorithm == ecdsa_with_sha384() {
        Some(Scheme::P384)
    } else {
        None
    }
}

/// Whether `signature` is valid for `message` under `key`.
pub open spec fn spec_verify(
    scheme: Scheme,
    encoding: Encoding,
    key: Seq<u8>,
    message: Seq<u8>,
    signature: Seq<u8>,
) -> bool {
    match (scheme, encoding) {
        (Scheme::P256, Encoding::Der) => p256_der_valid(key, message, signature),
        (Scheme::P256, Encoding::Fixed) => p256_fixed_valid(key, message, signature),
        (Scheme::P384, Encoding::Der) => p384_der_valid(key, message, signature),
        (Scheme::P384, Encoding::Fixed) => p384_fixed_valid(key, message, signature),
    }
}

/// Whether `signature`, made with the algorithm that `algorithm`
/// identifies, is valid for `message` under `key`. An algorithm that is
/// not accepted validates nothing.
pub open spec fn spec_verify_as(
    algorithm: Seq<u8>,
    key: Seq<u8>,
    message: Seq<u8>,
    signature: Seq<u8>,
) -> bool {
    match spec_scheme_of(algorithm) {
        Some(scheme) => spec_verify(scheme, Encoding::Der, key, message, signature),
        None => false,
    }
}

/// The `AlgorithmIdentifier` with which a scheme signs.
pub fn algorithm_of(scheme: Scheme) -> (algorithm: Vec<u8>)
    ensures
        spec_scheme_of(algorithm@) == Some(scheme),
        algorithm@ == match scheme {
            Scheme::P256 => ecdsa_with_sha256(),
            Scheme::P384 => ecdsa_with_sha384(),
        },
{
    let last: u8 = match scheme {
        Scheme::P256 => 0x02,
        Scheme::P384 => 0x03,
    };
    let algorithm = vec![0x30u8, 0x0a, 0x06, 0x08, 0x2a, 0x86, 0x48, 0xce, 0x3d, 0x04, 0x03, last];
    assert(ecdsa_with_sha256()[11] != ecdsa_with_sha384()[11]);
    assert(algorithm@ =~= match scheme {
        Scheme::P256 => ecdsa_with_sha256(),
        Scheme::P384 => ecdsa_with_sha384(),
    });
    algorithm
}

/// The scheme that an `AlgorithmIdentifier` names, if it is an accepted one.
pub fn scheme_of(algorithm: &[u8]) -> (scheme: Option<Scheme>)
    ensures
        scheme == spec_scheme_of(algorithm@),
{
    let p256 = algorithm_of(Scheme::P256);
    let p384 = algorithm_of(Scheme::P384);
    if crate::bytes::same(algorithm, p256.as_slice()) {
        Some(Scheme::P256)
    } else if crate::bytes::same(algorithm, p384.as_slice()) {
        Some(Scheme::P384)
    } else {
        None
    }
}

/// Checks `signature` for `message` under the `SubjectPublicKeyInfo` `key`.
pub fn verify(scheme: Scheme, encoding: Encoding, key: &[u8], message: &[u8], signature: &[u8]) -> (valid:
    bool)
    ensures
        valid == spec_verify(scheme, encoding, key@, message@, signature@),
{
    match scheme {
        Scheme::P256 => match encoding {
            Encoding::Der => p256_verify_der(key, message, signature),
            Encoding::Fixed => p256_verify_fixed(key, message, signature),
        },
        Scheme::P384 => match encoding {
            Encoding::Der => p384_verify_der(key, message, signature),
            Encoding::Fixed => p384_verify_fixed(key, message, signature),
        },
    }
}

/// Checks `signature`, made with the algorithm that `algorithm`
/// identifies, for `message` under the `SubjectPublicKeyInfo` `key`.
pub fn verify_as(algorithm: &[u8], key: &[u8], message: &[u8], signature: &[u8]) -> (valid: bool)
    ensures
        valid == spec_verify_as(algorithm@, key@, message@, signature@),
{
    match scheme_of(algorithm) {
        Some(scheme) => verify(scheme, Encoding::Der, key, message, signature),
        None => false,
    }
}

} // verus!
