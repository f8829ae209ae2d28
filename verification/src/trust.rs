//! Chains of certificates, and what it means for one to hang from a
//! trust anchor.

use vstd::prelude::*;
use crate::bytes::{same, strings};
use crate::crypto::{
    algorithm_of, ecdsa_with_sha256, ecdsa_with_sha384, spec_scheme_of, spec_verify, verify,
    Encoding, Scheme,
};
use crate::x509::{certificate_fields, parse_certificate, Certificate, CertificateView};

verus! {

/// Whether `cert` was signed, in the scheme `scheme`, with the private
/// half of `signer_key`.
pub open spec fn spec_signed_by(scheme: Scheme, signer_key: Seq<u8>, cert: CertificateView) -> bool {
    &&& spec_scheme_of(cert.algorithm) == Some(scheme)
    &&& spec_verify(scheme, Encoding::Der, signer_key, cert.tbs, cert.signature)
}

/// Whether `chain` hangs from `anchor_key`: the last certificate is
/// signed with the anchor's key, and each other one with the key of the
/// certificate that follows it. The leaf stands first.
pub open spec fn spec_chained(scheme: Scheme, anchor_key: Seq<u8>, chain: Seq<CertificateView>) -> bool
    decreases chain.len(),
{
    if chain.len() == 0 {
        true
    } else {
        &&& spec_signed_by(scheme, anchor_key, chain.last())
        &&& spec_chained(scheme, chain.last().public_key, chain.drop_last())
    }
}

/// The certificates that a list of DER strings holds, if each of them is
/// a certificate.
pub open spec fn spec_parse_all(ders: Seq<Seq<u8>>) -> Option<Seq<CertificateView>> {
    if forall|i: int| 0 <= i < ders.len() ==> (#[trigger] certificate_fields(ders[i])).is_some() {
        Some(Seq::new(ders.len(), |i: int| certificate_fields(ders[i]).unwrap()))
    } else {
        None
    }
}

/// Checks whether `cert` was signed with the private half of `signer_key`.
pub fn signed_by(scheme: Scheme, signer_key: &[u8], cert: &Certificate) -> (signed: bool)
    ensures
        signed == spec_signed_by(scheme, signer_key@, cert.deep_view()),
{
    let expected = algorithm_of(scheme);
    if !same(cert.algorithm.as_slice(), expected.as_slice()) {
        assert(spec_scheme_of(cert.algorithm@) != Some(scheme)) by {
            assert(ecdsa_with_sha256()[11] != ecdsa_with_sha384()[11]);
        }
        return false;
    }
    verify(
        scheme,
        Encoding::Der,
        signer_key,
        cert.tbs.as_slice(),
        cert.signature.as_slice(),
    )
}

/// Checks whether `chain`, leaf first, hangs from `anchor_key`.
pub fn chained(scheme: Scheme, anchor_key: &[u8], chain: &Vec<Certificate>) -> (ok: bool)
    ensures
        ok == spec_chained(scheme, anchor_key@, chain.deep_view()),
{
    let ghost all = chain.deep_view();
    let mut i: usize = chain.len();
    if i == 0 {
        return true;
    }
    i -= 1;
    assert(all.last() == chain@[i as int].deep_view());
    if !signed_by(scheme, anchor_key, &chain[i]) {
        return false;
    }
    assert(all.take(i as int) =~= all.drop_last());
    while i > 0
        invariant
            i < chain@.len(),
            all == chain.deep_view(),
            spec_chained(scheme, anchor_key@, all) == spec_chained(
                scheme,
                chain@[i as int].public_key@,
                all.take(i as int),
            ),
        decreases i,
    {
        let ghost upper = all.take(i as int);
        assert(upper.last() == chain@[i - 1].deep_view());
        assert(upper.drop_last() =~= all.take(i - 1));
        if !signed_by(scheme, chain[i].public_key.as_slice(), &chain[i - 1]) {
            return false;
        }
        i -= 1;
    }
    assert(all.take(0).len() == 0);
    true
}

/// Reads each DER string of a list as a certificate.
pub fn parse_all(ders: &Vec<Vec<u8>>) -> (certs: Option<Vec<Certificate>>)
    ensures
        certs.deep_view() == spec_parse_all(strings(ders@)),
{
    let ghost list = strings(ders@);
    let mut certs: Vec<Certificate> = Vec::new();
    let mut i: usize = 0;
    while i < ders.len()
        invariant
            i <= ders@.len(),
            list == strings(ders@),
            certs@.len() == i,
            forall|j: int|
                0 <= j < i ==> certificate_fields(list[j]) == Some(#[trigger] certs@[j].deep_view()),
        decreases ders@.len() - i,
    {
        match parse_certificate(ders[i].as_slice()) {
            Some(cert) => {
                certs.push(cert);
            },
            None => {
                assert(certificate_fields(list[i as int]).is_none());
                return None;
            },
        }
        i += 1;
    }
    assert forall|k: int| 0 <= k < list.len() implies (#[trigger] certificate_fields(
        list[k],
    )).is_some() by {
        assert(certificate_fields(list[k]) == Some(certs@[k].deep_view()));
    }
    assert(certs.deep_view() =~= spec_parse_all(list).unwrap());
    Some(certs)
}

} // verus!
