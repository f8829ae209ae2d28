//! The verifier for SGX enclaves. A quote is accepted where its chain of
//! PCK certificates hangs from the vendor's root, the PCK vouches for the
//! quoting enclave, the quoting enclave for the attestation key, the
//! attestation key for the enclave's report, and the report for the key
//! of the request.

pub mod quote;

use vstd::prelude::*;
use vstd::slice::slice_subrange;
use crate::bytes::{append, same};
use crate::crypto::{
    p256_fixed_valid, sha256, sha256_digest, spec_verify, verify, Encoding, Scheme,
};
use crate::ext::sgx::quote::{Quote, QuoteView};
use crate::ext::{bound, spec_bound, Rejection};
use crate::pem::{certificate_list, certificates};
use crate::trust::{chained, parse_all, spec_chained, spec_parse_all};
use crate::x509::{certificate_fields, parse_certificate, Certificate, CertificateView};

verus! {

/// The verifier for SGX enclaves.
#[derive(Debug)]
pub struct Sgx {
    /// The DER of the vendor's root certificate.
    pub root: Vec<u8>,
    /// A quote that an issuer in debug mode accepts as it stands, so that
    /// the service can be tried where no enclave is at hand.
    pub sample: Option<Vec<u8>>,
}

/// What stands before the point in the `SubjectPublicKeyInfo` of a key of
/// P-256 that is given by both coordinates.
pub open spec fn p256_key_head() -> Seq<u8> {
    seq![
        0x30u8, 0x59, 0x30, 0x13, 0x06, 0x07, 0x2a, 0x86, 0x48, 0xce, 0x3d, 0x02, 0x01, 0x06, 0x08,
        0x2a, 0x86, 0x48, 0xce, 0x3d, 0x03, 0x01, 0x07, 0x03, 0x42, 0x00, 0x04,
    ]
}

/// The `SubjectPublicKeyInfo` of the key of P-256 whose coordinates are
/// `point`.
pub open spec fn spec_key_info(point: Seq<u8>) -> Seq<u8> {
    p256_key_head() + point
}

/// Writes the `SubjectPublicKeyInfo` of the key of P-256 whose
/// coordinates are `point`.
pub fn key_info(point: &[u8]) -> (info: Vec<u8>)
    ensures
        info@ == spec_key_info(point@),
{
    let mut info: Vec<u8> = vec![
        0x30u8, 0x59, 0x30, 0x13, 0x06, 0x07, 0x2a, 0x86, 0x48, 0xce, 0x3d, 0x02, 0x01, 0x06, 0x08,
        0x2a, 0x86, 0x48, 0xce, 0x3d, 0x03, 0x01, 0x07, 0x03, 0x42, 0x00, 0x04,
    ];
    assert(info@ =~= p256_key_head());
    append(&mut info, point);
    info
}

/// Whether the signatures inside a quote hold, given the key of the PCK:
/// the PCK signed the report of the quoting enclave, that report names
/// the digest of the attestation key and the authentication data, and
/// the attestation key signed the header and the report of the enclave.
pub open spec fn spec_vouched(quote: QuoteView, pck_key: Seq<u8>) -> bool {
    &&& p256_fixed_valid(pck_key, quote.qe_signed, quote.qe_signature)
    &&& quote.qe_report.report_data.len() >= 32
    &&& quote.qe_report.report_data.subrange(0, 32) == sha256_digest(
        quote.attestation_key + quote.qe_auth,
    )
    &&& p256_fixed_valid(spec_key_info(quote.attestation_key), quote.signed, quote.signature)
}

/// Checks the signatures inside a quote, given the key of the PCK.
pub fn vouched(quote: &Quote<'_>, pck_key: &[u8]) -> (ok: bool)
    ensures
        ok == spec_vouched(quote.deep_view(), pck_key@),
{
    if !verify(Scheme::P256, Encoding::Fixed, pck_key, quote.qe_signed, quote.qe_signature) {
        return false;
    }
    if quote.qe_report.report_data.len() < 32 {
        return false;
    }
    let mut material: Vec<u8> = Vec::new();
    append(&mut material, quote.attestation_key);
    append(&mut material, quote.qe_auth);
    assert(material@ =~= quote.attestation_key@ + quote.qe_auth@);
    let digest = sha256(material.as_slice());
    if !same(slice_subrange(quote.qe_report.report_data, 0, 32), digest.as_slice()) {
        return false;
    }
    let key = key_info(quote.attestation_key);
    verify(Scheme::P256, Encoding::Fixed, key.as_slice(), quote.signed, quote.signature)
}

impl Sgx {
    /// The PCK certificate of a quote whose chain hangs from the root.
    pub open spec fn spec_pck(self, cert_data: Seq<u8>) -> Result<CertificateView, Rejection> {
        match certificate_list(cert_data) {
            None => Err(Rejection::Malformed),
            Some(ders) => match spec_parse_all(ders) {
                None => Err(Rejection::Malformed),
                Some(chain) => match certificate_fields(self.root@) {
                    None => Err(Rejection::Untrusted),
                    Some(root) => if chain.len() > 0 && spec_chained(
                        Scheme::P256,
                        root.public_key,
                        chain,
                    ) {
                        Ok(chain[0])
                    } else {
                        Err(Rejection::Untrusted)
                    },
                },
            },
        }
    }

    /// What `verify` answers. The sample is accepted by an issuer in debug
    /// mode. Any other value must be a quote, its chain must hang from the
    /// root, its signatures must hold, and its report must be bound to the
    /// key of the request. An accepted quote is copied into the
    /// certificate.
    pub open spec fn spec_verify(self, public_key: Seq<u8>, value: Seq<u8>, dbg: bool) -> Result<
        bool,
        Rejection,
    > {
        if dbg && self.sample.is_some() && value == self.sample.unwrap()@ {
            Ok(true)
        } else {
            match quote::spec_parse(value) {
                None => Err(Rejection::Malformed),
                Some(quote) => match self.spec_pck(quote.cert_data) {
                    Err(e) => Err(e),
                    Ok(pck) => if !spec_vouched(quote, pck.public_key) {
                        Err(Rejection::Signature)
                    } else if !spec_bound(quote.report.report_data, public_key) {
                        Err(Rejection::Binding)
                    } else {
                        Ok(true)
                    },
                },
            }
        }
    }

    /// Finds the PCK certificate of a quote and checks that its chain
    /// hangs from the root.
    pub fn pck(&self, cert_data: &[u8]) -> (pck: Result<Certificate, Rejection>)
        ensures
            pck.is_ok() == self.spec_pck(cert_data@).is_ok(),
            pck matches Ok(cert) ==> self.spec_pck(cert_data@) == Ok::<_, Rejection>(
                cert.deep_view(),
            ),
            pck matches Err(e) ==> self.spec_pck(cert_data@) == Err::<CertificateView, _>(e),
    {
        let ders = match certificates(cert_data) {
            Some(ders) => ders,
            None => {
                return Err(Rejection::Malformed);
            },
        };
        let mut chain = match parse_all(&ders) {
            Some(chain) => chain,
            None => {
                return Err(Rejection::Malformed);
            },
        };
        let root = match parse_certificate(self.root.as_slice()) {
            Some(root) => root,
            None => {
                return Err(Rejection::Untrusted);
            },
        };
        if chain.len() == 0 || !chained(Scheme::P256, root.public_key.as_slice(), &chain) {
            return Err(Rejection::Untrusted);
        }
        let ghost all = chain.deep_view();
        let leaf = chain.swap_remove(0);
        assert(leaf.deep_view() == all[0]);
        Ok(leaf)
    }

    /// Judges the value of an SGX extension for a request with the key
    /// `public_key`.
    pub fn verify(&self, public_key: &[u8], value: &[u8], dbg: bool) -> (copy: Result<
        bool,
        Rejection,
    >)
        ensures
            copy == self.spec_verify(public_key@, value@, dbg),
    {
        if dbg {
            if let Some(sample) = &self.sample {
                if same(value, sample.as_slice()) {
                    return Ok(true);
                }
            }
        }
        let quote = match quote::parse(value) {
            Some(quote) => quote,
            None => {
                return Err(Rejection::Malformed);
            },
        };
        let pck = match self.pck(quote.cert_data) {
            Ok(pck) => pck,
            Err(e) => {
                return Err(e);
            },
        };
        if !vouched(&quote, pck.public_key.as_slice()) {
            return Err(Rejection::Signature);
        }
        if !bound(quote.report.report_data, public_key) {
            return Err(Rejection::Binding);
        }
        Ok(true)
    }
}

} // verus!
