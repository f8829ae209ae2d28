//! The verifier for SEV-SNP guests. Evidence is a VCEK certificate and an
//! attestation report. It is accepted where the VCEK hangs from the
//! vendor's root, the VCEK signed the report, the report is bound to the
//! key of the request, and the guest could not be debugged.

pub mod report;

use vstd::prelude::*;
use vstd::slice::slice_subrange;
use crate::crypto::{p384_fixed_valid, verify, Encoding, Scheme};
use crate::der::{first, spec_first, OCTET_STRING, SEQUENCE};
use crate::ext::snp::report::{spec_debuggable, spec_signature, ReportView};
use crate::ext::{bound, spec_bound, Rejection};
use crate::trust::{signed_by, spec_signed_by};
use crate::x509::{certificate_fields, parse_certificate};

verus! {

/// The verifier for SEV-SNP guests.
#[derive(Debug)]
pub struct Snp {
    /// The DER of the vendor's root certificate.
    pub root: Vec<u8>,
}

/// Evidence, taken apart: the DER of the VCEK certificate and the octets
/// of the report.
pub struct Evidence<'a> {
    pub vcek: &'a [u8],
    pub report: &'a [u8],
}

/// `Evidence` as contracts see it.
pub struct EvidenceView {
    pub vcek: Seq<u8>,
    pub report: Seq<u8>,
}

impl<'a> DeepView for Evidence<'a> {
    type V = EvidenceView;

    open spec fn deep_view(&self) -> EvidenceView {
        EvidenceView { vcek: self.vcek@, report: self.report@ }
    }
}

/// The evidence that `value` spells: one DER sequence that holds a
/// sequence, the certificate, and an octet string, the report, and
/// nothing else.
pub open spec fn spec_evidence(value: Seq<u8>) -> Option<EvidenceView> {
    match spec_first(value) {
        Some((tag, start, end)) => if tag == SEQUENCE && end == value.len() {
            let content = value.subrange(start, end);
            match spec_first(content) {
                Some((tag, _, end)) => if tag == SEQUENCE {
                    let rest = content.subrange(end, content.len() as int);
                    match spec_first(rest) {
                        Some((tag, from, to)) => if tag == OCTET_STRING && to == rest.len() {
                            Some(
                                EvidenceView {
                                    vcek: content.subrange(0, end),
                                    report: rest.subrange(from, to),
                                },
                            )
                        } else {
                            None
                        },
                        None => None,
                    }
                } else {
                    None
                },
                None => None,
            }
        } else {
            None
        },
        None => None,
    }
}

/// Takes evidence apart.
pub fn evidence<'a>(value: &'a [u8]) -> (evidence: Option<Evidence<'a>>)
    ensures
        evidence.deep_view() == spec_evidence(value@),
{
    let (start, end) = match first(value) {
        Some((tag, start, end)) => {
            if tag != SEQUENCE || end != value.len() {
                return None;
            }
            (start, end)
        },
        None => {
            return None;
        },
    };
    let content = slice_subrange(value, start, end);
    let cut = match first(content) {
        Some((tag, _, end)) => {
            if tag != SEQUENCE {
                return None;
            }
            end
        },
        None => {
            return None;
        },
    };
    let rest = slice_subrange(content, cut, content.len());
    match first(rest) {
        Some((tag, from, to)) => {
            if tag != OCTET_STRING || to != rest.len() {
                return None;
            }
            Some(
                Evidence {
                    vcek: slice_subrange(content, 0, cut),
                    report: slice_subrange(rest, from, to),
                },
            )
        },
        None => None,
    }
}

impl Snp {
    /// What `verify` answers, once the evidence is taken apart.
    pub open spec fn spec_judge(
        self,
        public_key: Seq<u8>,
        vcek: Seq<u8>,
        report: ReportView,
        dbg: bool,
    ) -> Result<bool, Rejection> {
        match certificate_fields(vcek) {
            None => Err(Rejection::Malformed),
            Some(vcek) => match certificate_fields(self.root@) {
                None => Err(Rejection::Untrusted),
                Some(root) => if !spec_signed_by(Scheme::P384, root.public_key, vcek) {
                    Err(Rejection::Untrusted)
                } else {
                    match spec_signature(report.r, report.s) {
                        None => Err(Rejection::Signature),
                        Some(signature) => if !p384_fixed_valid(
                            vcek.public_key,
                            report.signed,
                            signature,
                        ) {
                            Err(Rejection::Signature)
                        } else if !spec_bound(report.report_data, public_key) {
                            Err(Rejection::Binding)
                        } else if spec_debuggable(report.policy) && !dbg {
                            Err(Rejection::Policy)
                        } else {
                            Ok(true)
                        },
                    }
                },
            },
        }
    }

    /// What `verify` answers. The value must be evidence, the VCEK must be
    /// signed with the root's key, the report with the VCEK's, the report
    /// must be bound to the key of the request, and only an issuer in
    /// debug mode accepts a guest that could be debugged. Accepted
    /// evidence is copied into the certificate.
    pub open spec fn spec_verify(self, public_key: Seq<u8>, value: Seq<u8>, dbg: bool) -> Result<
        bool,
        Rejection,
    > {
        match spec_evidence(value) {
            None => Err(Rejection::Malformed),
            Some(evidence) => match report::spec_parse(evidence.report) {
                None => Err(Rejection::Malformed),
                Some(report) => self.spec_judge(public_key, evidence.vcek, report, dbg),
            },
        }
    }

    /// Judges the value of an SNP extension for a request with the key
    /// `public_key`.
    pub fn verify(&self, public_key: &[u8], value: &[u8], dbg: bool) -> (copy: Result<
        bool,
        Rejection,
    >)
        ensures
            copy == self.spec_verify(public_key@, value@, dbg),
    {
        let evidence = match evidence(value) {
            Some(evidence) => evidence,
            None => {
                return Err(Rejection::Malformed);
            },
        };
        let report = match report::parse(evidence.report) {
            Some(report) => report,
            None => {
                return Err(Rejection::Malformed);
            },
        };
        let vcek = match parse_certificate(evidence.vcek) {
            Some(vcek) => vcek,
            None => {
                return Err(Rejection::Malformed);
            },
        };
        let root = match parse_certificate(self.root.as_slice()) {
            Some(root) => root,
            None => {
                return Err(Rejection::Untrusted);
            },
        };
        if !signed_by(Scheme::P384, root.public_key.as_slice(), &vcek) {
            return Err(Rejection::Untrusted);
        }
        let signature = match report::signature(report.r, report.s) {
            Some(signature) => signature,
            None => {
                return Err(Rejection::Signature);
            },
        };
        if !verify(
            Scheme::P384,
            Encoding::Fixed,
            vcek.public_key.as_slice(),
            report.signed,
            signature.as_slice(),
        ) {
            return Err(Rejection::Signature);
        }
        if !bound(report.report_data, public_key) {
            return Err(Rejection::Binding);
        }
        if report::debuggable(report.policy) && !dbg {
            return Err(Rejection::Policy);
        }
        Ok(true)
    }
}

} // verus!
