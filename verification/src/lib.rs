//! An attestation-gated certificate authority: the rules by which a
//! certification request that carries platform evidence is judged and
//! answered with a freshly issued certificate.
//!
//! A request is a PKCS#10 certification request whose extension request
//! holds evidence: an SGX quote, SEV-SNP evidence, or the marker of a
//! KVM guest. [`issue::attest`] judges the request ([`judge`]), hands
//! each extension to the verifier that reads it ([`ext`]), and answers
//! an approved request with the path of the issuer's certificate and a
//! new certificate for the key of the request ([`leaf`], [`name`],
//! [`path`]).
//!
//! Parsing and encoding of X.509, the arithmetic of signatures and
//! digests, PEM and media types are the work of other crates. Each call
//! into them stands in one small function whose contract says what is
//! taken on trust ([`x509`], [`crypto`], [`pem`], [`media`], [`fresh`]);
//! everything else is proved against the contracts in this crate.

pub mod bytes;
pub mod crypto;
pub mod debug;
pub mod der;
pub mod ext;
pub mod fresh;
pub mod issue;
pub mod judge;
pub mod leaf;
pub mod media;
pub mod name;
pub mod path;
pub mod pem;
pub mod serial;
pub mod state;
pub mod status;
pub mod trust;
pub mod x509;
