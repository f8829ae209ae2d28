//! What the service holds for as long as it runs: the issuer's key and
//! certificate, the counter of serial numbers, and the name to add to
//! every certificate; and the two ways to come by it.

use std::sync::atomic::AtomicUsize;
use vstd::prelude::*;
use vstd::string::StringSliceAdditionalSpecFns;
use crate::crypto::{
    algorithm_of, ecdsa_with_sha256, is_private_key_info, p256_generate, p256_public,
    p256_public_key, private_key_info_ok, seal, Scheme, Secret,
};
use crate::debug::{debug_mode, spec_debug_mode};
use crate::ext::kvm::Kvm;
use crate::ext::Rejection;
use crate::fresh::unix_now;
use crate::name::{common_name, spec_common_name, spec_plain_text};
use crate::leaf::{sign, sound, spec_sign, spec_sound, version, version_3};
use crate::pem::{first_item, read_one, Item, ItemView};
use crate::serial::{counter, draw};
use crate::x509::{
    basic_constraints_der, certificate_fields, encode_basic_constraints, encode_extensions,
    encode_key_usage, encode_name, encode_validity, extensions_der, key_usage_der, name_der,
    parse_certificate, validity_der, Extension, ExtensionView, Tbs, TbsView,
};

verus! {

/// The state of the service.
#[derive(Debug)]
pub struct State {
    /// The issuer's private key, as PKCS#8.
    pub key: Secret,
    /// The DER of the issuer's certificate.
    pub crt: Vec<u8>,
    /// The counter from which serial numbers are drawn.
    pub ord: AtomicUsize,
    /// A DNS name to add to every certificate as an alternative name.
    pub san: Option<String>,
}

/// Why no state came about.
#[derive(Clone, Copy, Debug, PartialEq, Eq, Structural)]
pub enum SetupError {
    /// A file is no PEM: a section does not end, or holds no base64.
    Unreadable,
    /// The first section of a known kind in the key file is no PKCS#8
    /// private key, or there is none.
    InvalidKeyFile,
    /// The first section of a known kind in the certificate file is no
    /// certificate, or there is none.
    InvalidCrtFile,
    /// The private key does not parse.
    KeySyntax,
    /// The certificate does not parse.
    CrtSyntax,
    /// No key could be generated.
    KeyGeneration,
    /// The clock stands before 1970.
    Clock,
    /// The self-signed certificate could not be made.
    Certificate,
}

/// The serial number of the first certificate.
pub const FIRST_SERIAL: usize = 1;

/// The seconds for which a self-signed issuer is valid: 365 days.
pub const ISSUER_LIFETIME: u64 = 31_536_000;

/// The flag of the key usage that allows signing certificates: usage 5.
pub const KEY_CERT_SIGN: u16 = 0x20;

/// The content octets of 2.5.29.15, the key usage.
pub open spec fn key_usage_oid() -> Seq<u8> {
    seq![0x55u8, 0x1d, 0x0f]
}

/// The content octets of 2.5.29.19, the basic constraints.
pub open spec fn basic_constraints_oid() -> Seq<u8> {
    seq![0x55u8, 0x1d, 0x13]
}

/// The key and the certificate that two PEM texts hold. The first
/// section of a known kind must be a PKCS#8 private key in the key file
/// and a certificate in the certificate file, and both must parse.
pub open spec fn spec_load(key_pem: Seq<u8>, crt_pem: Seq<u8>) -> Result<
    (Seq<u8>, Seq<u8>),
    SetupError,
> {
    match first_item(key_pem) {
        ItemView::Unreadable => Err(SetupError::Unreadable),
        ItemView::Pkcs8Key(key) => match first_item(crt_pem) {
            ItemView::Unreadable => Err(SetupError::Unreadable),
            ItemView::Certificate(crt) => if !is_private_key_info(key) {
                Err(SetupError::KeySyntax)
            } else if certificate_fields(crt).is_none() {
                Err(SetupError::CrtSyntax)
            } else {
                Ok((key, crt))
            },
            _ => Err(SetupError::InvalidCrtFile),
        },
        _ => Err(SetupError::InvalidKeyFile),
    }
}

/// The DER of the name of a self-signed issuer: its common name is the
/// host's name. Nothing where the host's name is not spelled plainly, or
/// the name cannot be encoded.
pub open spec fn spec_issuer_name(hostname: Seq<u8>) -> Option<Seq<u8>> {
    if spec_plain_text(hostname) {
        name_der(spec_common_name(hostname))
    } else {
        None
    }
}

/// The extensions of a self-signed issuer: it may sign certificates and
/// is an authority below which no other stands. Both are critical.
pub open spec fn spec_issuer_extensions() -> Option<Seq<ExtensionView>> {
    match (key_usage_der(KEY_CERT_SIGN), basic_constraints_der(true, Some(0u8))) {
        (Some(usage), Some(constraints)) => Some(
            seq![
                ExtensionView { oid: key_usage_oid(), critical: true, value: usage },
                ExtensionView { oid: basic_constraints_oid(), critical: true, value: constraints },
            ],
        ),
        _ => None,
    }
}

/// The body of the certificate of a self-signed issuer: version 3,
/// serial number zero, valid for 365 days from `now`, issuer and subject the same.
pub open spec fn spec_issuer_fields(hostname: Seq<u8>, public_key: Seq<u8>, now: u64) -> Option<
    TbsView,
> {
    if now + ISSUER_LIFETIME > u64::MAX {
        None
    } else {
        match (
            spec_issuer_name(hostname),
            spec_issuer_extensions(),
            validity_der(now, (now + ISSUER_LIFETIME) as u64),
        ) {
            (Some(name), Some(list), Some(validity)) => match extensions_der(list) {
                Some(extensions) => Some(
                    TbsView {
                        version: version_3(),
                        serial: seq![0u8],
                        algorithm: ecdsa_with_sha256(),
                        issuer: name,
                        validity,
                        subject: name,
                        public_key,
                        issuer_unique_id: None,
                        subject_unique_id: None,
                        extensions,
                    },
                ),
                None => None,
            },
            _ => None,
        }
    }
}

/// The certificate that the key `key` signs for itself under the name of
/// the host. Nothing where the key does not read, where the certificate
/// cannot be made, or where what was made does not read back with the
/// key's public half, a signature that verifies under it, and the same
/// issuer and subject.
pub open spec fn spec_self_signed(hostname: Seq<u8>, key: Seq<u8>, now: u64) -> Option<Seq<u8>> {
    match p256_public_key(key) {
        None => None,
        Some(public_key) => if !is_private_key_info(key) {
            None
        } else {
            match spec_issuer_fields(hostname, public_key, now) {
                None => None,
                Some(fields) => match spec_sign(key, fields) {
                    None => None,
                    Some(crt) => if spec_sound(
                        public_key,
                        fields.issuer,
                        public_key,
                        fields.serial,
                        crt,
                    ) && spec_debug_mode(certificate_fields(crt).unwrap()) {
                        Some(crt)
                    } else {
                        None
                    },
                },
            }
        },
    }
}

/// An issuer that signs its own certificate is in debug mode, and so
/// accepts the marker of a KVM guest.
pub proof fn lemma_self_signed_is_debug(hostname: Seq<u8>, key: Seq<u8>, now: u64)
    requires
        spec_self_signed(hostname, key, now).is_some(),
    ensures
        certificate_fields(spec_self_signed(hostname, key, now).unwrap()).is_some(),
        spec_debug_mode(certificate_fields(spec_self_signed(hostname, key, now).unwrap()).unwrap()),
        Kvm::spec_verify(
            spec_debug_mode(
                certificate_fields(spec_self_signed(hostname, key, now).unwrap()).unwrap(),
            ),
        ) == Ok::<bool, Rejection>(false),
{
}

/// Puts together the extensions of a self-signed issuer.
pub fn issuer_extensions() -> (list: Option<Vec<Extension>>)
    ensures
        list.deep_view() == spec_issuer_extensions(),
{
    let usage = match encode_key_usage(KEY_CERT_SIGN) {
        Some(usage) => usage,
        None => {
            return None;
        },
    };
    let constraints = match encode_basic_constraints(true, Some(0)) {
        Some(constraints) => constraints,
        None => {
            return None;
        },
    };
    let usage_oid: Vec<u8> = vec![0x55u8, 0x1d, 0x0f];
    let constraints_oid: Vec<u8> = vec![0x55u8, 0x1d, 0x13];
    assert(usage_oid@ =~= key_usage_oid());
    assert(constraints_oid@ =~= basic_constraints_oid());
    let first = Extension { oid: usage_oid, critical: true, value: usage };
    let second = Extension { oid: constraints_oid, critical: true, value: constraints };
    let mut list: Vec<Extension> = Vec::new();
    list.push(first);
    list.push(second);
    assert(list.deep_view() =~= spec_issuer_extensions().unwrap());
    Some(list)
}

/// Puts together the body of the certificate of a self-signed issuer.
pub fn issuer_fields(hostname: &str, public_key: Vec<u8>, now: u64) -> (fields: Option<Tbs>)
    ensures
        fields.deep_view() == spec_issuer_fields(hostname.spec_bytes(), public_key@, now),
{
    if now > u64::MAX - ISSUER_LIFETIME {
        return None;
    }
    let text = match common_name(hostname.as_bytes()) {
        Some(text) => text,
        None => {
            return None;
        },
    };
    let issuer = match encode_name(text.as_slice()) {
        Some(name) => name,
        None => {
            return None;
        },
    };
    let subject = match encode_name(text.as_slice()) {
        Some(name) => name,
        None => {
            return None;
        },
    };
    let list = match issuer_extensions() {
        Some(list) => list,
        None => {
            return None;
        },
    };
    let validity = match encode_validity(now, now + ISSUER_LIFETIME) {
        Some(validity) => validity,
        None => {
            return None;
        },
    };
    let extensions = match encode_extensions(&list) {
        Some(extensions) => extensions,
        None => {
            return None;
        },
    };
    let serial: Vec<u8> = vec![0u8];
    assert(serial@ =~= seq![0u8]);
    Some(
        Tbs {
            version: version(),
            serial,
            algorithm: algorithm_of(Scheme::P256),
            issuer,
            validity,
            subject,
            public_key,
            issuer_unique_id: None,
            subject_unique_id: None,
            extensions,
        },
    )
}

impl State {
    /// Whether key and certificate both read. A state that either way of
    /// coming by one has made is well formed; one that is not answers
    /// every request with an internal error.
    pub open spec fn well_formed(self) -> bool {
        &&& is_private_key_info(self.key@)
        &&& certificate_fields(self.crt@).is_some()
    }

    /// A state with the given key and certificate as they are, whose
    /// counter stands at the first serial number.
    pub fn new(key: Vec<u8>, crt: Vec<u8>, san: Option<String>) -> (state: State)
        ensures
            state.key@ == key@,
            state.crt@ == crt@,
            state.san == san,
    {
        State { key: seal(key), crt, ord: counter(FIRST_SERIAL), san }
    }

    /// Draws the next serial number.
    pub fn next_serial(&self) -> u64 {
        draw(&self.ord) as u64
    }

    /// Makes the state from the text of a key file and the text of a
    /// certificate file, both PEM.
    pub fn load(san: Option<String>, key_pem: &[u8], crt_pem: &[u8]) -> (state: Result<
        State,
        SetupError,
    >)
        ensures
            match state {
                Ok(s) => spec_load(key_pem@, crt_pem@) == Ok::<_, SetupError>((s.key@, s.crt@))
                    && s.san == san && s.well_formed(),
                Err(e) => spec_load(key_pem@, crt_pem@) == Err::<(Seq<u8>, Seq<u8>), _>(e),
            },
    {
        let key = match read_one(key_pem) {
            Item::Pkcs8Key(key) => seal(key),
            Item::Unreadable => {
                return Err(SetupError::Unreadable);
            },
            _ => {
                return Err(SetupError::InvalidKeyFile);
            },
        };
        let crt = match read_one(crt_pem) {
            Item::Certificate(crt) => crt,
            Item::Unreadable => {
                return Err(SetupError::Unreadable);
            },
            _ => {
                return Err(SetupError::InvalidCrtFile);
            },
        };
        if !private_key_info_ok(&key) {
            return Err(SetupError::KeySyntax);
        }
        if parse_certificate(crt.as_slice()).is_none() {
            return Err(SetupError::CrtSyntax);
        }
        Ok(State { key, crt, ord: counter(FIRST_SERIAL), san })
    }

    /// Makes the state of an issuer that vouches for itself: the key
    /// `key` signs its own certificate under the name of the host.
    pub fn self_signed(san: Option<String>, hostname: &str, key: Secret, now: u64) -> (state:
        Result<State, SetupError>)
        ensures
            match state {
                Ok(s) => spec_self_signed(hostname.spec_bytes(), key@, now) == Some(s.crt@)
                    && s.key == key && s.san == san && s.well_formed(),
                Err(e) => spec_self_signed(hostname.spec_bytes(), key@, now).is_none() && e
                    == SetupError::Certificate,
            },
    {
        let public_key = match p256_public(&key) {
            Some(public_key) => public_key,
            None => {
                return Err(SetupError::Certificate);
            },
        };
        if !private_key_info_ok(&key) {
            return Err(SetupError::Certificate);
        }
        let check_key = vstd::slice::slice_to_vec(public_key.as_slice());
        let fields = match issuer_fields(hostname, public_key, now) {
            Some(fields) => fields,
            None => {
                return Err(SetupError::Certificate);
            },
        };
        let crt = match sign(&key, &fields) {
            Some(crt) => crt,
            None => {
                return Err(SetupError::Certificate);
            },
        };
        match sound(
            check_key.as_slice(),
            fields.issuer.as_slice(),
            check_key.as_slice(),
            fields.serial.as_slice(),
            crt.as_slice(),
        ) {
            Some(read) => {
                if !debug_mode(&read) {
                    return Err(SetupError::Certificate);
                }
            },
            None => {
                return Err(SetupError::Certificate);
            },
        }
        Ok(State { key, crt, ord: counter(FIRST_SERIAL), san })
    }

    /// Makes the state of an issuer that vouches for itself, with a fresh
    /// key and a certificate that is valid from now.
    ///
    /// Whatever key and time are drawn, the certificate is the one that
    /// `spec_self_signed` gives for them.
    pub fn generate(san: Option<String>, hostname: &str) -> (state: Result<State, SetupError>)
        ensures
            match state {
                Ok(s) => s.san == san && s.well_formed() && exists|now: u64| #[trigger]
                    spec_self_signed(hostname.spec_bytes(), s.key@, now) == Some(s.crt@),
                Err(e) => e == SetupError::KeyGeneration || e == SetupError::Clock || e
                    == SetupError::Certificate,
            },
    {
        let key = match p256_generate() {
            Some(key) => key,
            None => {
                return Err(SetupError::KeyGeneration);
            },
        };
        let now = match unix_now() {
            Some(now) => now,
            None => {
                return Err(SetupError::Clock);
            },
        };
        Self::self_signed(san, hostname, key, now)
    }
}

} // verus!
