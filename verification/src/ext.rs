//! The verifiers of attestation evidence, and the table that finds the
//! verifier for an extension by the extension's object identifier.

pub mod kvm;
pub mod sgx;
pub mod snp;

use vstd::prelude::*;
use vstd::slice::slice_subrange;
use crate::bytes::same;
use crate::crypto::{sha256, sha256_digest};
use crate::ext::kvm::Kvm;
use crate::ext::sgx::Sgx;
use crate::ext::snp::Snp;

verus! {

/// Why a verifier turned an extension down.
#[derive(Clone, Copy, Debug, PartialEq, Eq, Structural)]
pub enum Rejection {
    /// The verifier only works for an issuer in debug mode.
    Disabled,
    /// The evidence is not built as its format demands.
    Malformed,
    /// The evidence does not chain to the vendor's root.
    Untrusted,
    /// A signature inside the evidence does not verify.
    Signature,
    /// The evidence was not made for the key of this request.
    Binding,
    /// The platform was in a state that is not accepted.
    Policy,
}

/// The kinds of evidence that are understood. The table is closed.
#[derive(Clone, Copy, Debug, PartialEq, Eq, Structural)]
pub enum Kind {
    Kvm,
    Sgx,
    Snp,
}

/// The content octets of 1.3.6.1.4.1.58270.1.1, which marks a KVM guest.
pub open spec fn kvm_oid() -> Seq<u8> {
    seq![0x2bu8, 0x06, 0x01, 0x04, 0x01, 0x83, 0xc7, 0x1e, 0x01, 0x01]
}

/// The content octets of 1.3.6.1.4.1.58270.1.2, which holds an SGX quote.
pub open spec fn sgx_oid() -> Seq<u8> {
    seq![0x2bu8, 0x06, 0x01, 0x04, 0x01, 0x83, 0xc7, 0x1e, 0x01, 0x02]
}

/// The content octets of 1.3.6.1.4.1.58270.1.3, which holds SNP evidence.
pub open spec fn snp_oid() -> Seq<u8> {
    seq![0x2bu8, 0x06, 0x01, 0x04, 0x01, 0x83, 0xc7, 0x1e, 0x01, 0x03]
}

impl Kind {
    /// The object identifier of the extension that this kind reads.
    pub open spec fn spec_oid(self) -> Seq<u8> {
        match self {
            Kind::Kvm => kvm_oid(),
            Kind::Sgx => sgx_oid(),
            Kind::Snp => snp_oid(),
        }
    }

    /// Whether the success of this kind's verifier alone authorizes
    /// issuance. It does for every kind.
    pub open spec fn spec_attests(self) -> bool {
        true
    }

    /// The kind that reads the extension with the identifier `oid`.
    pub open spec fn spec_lookup(oid: Seq<u8>) -> Option<Kind> {
        if oid == kvm_oid() {
            Some(Kind::Kvm)
        } else if oid == sgx_oid() {
            Some(Kind::Sgx)
        } else if oid == snp_oid() {
            Some(Kind::Snp)
        } else {
            None
        }
    }

    /// The object identifier of the extension that this kind reads.
    pub fn oid(self) -> (oid: Vec<u8>)
        ensures
            oid@ == self.spec_oid(),
            Self::spec_lookup(oid@) == Some(self),
    {
        let last: u8 = match self {
            Kind::Kvm => 0x01,
            Kind::Sgx => 0x02,
            Kind::Snp => 0x03,
        };
        let oid = vec![0x2bu8, 0x06, 0x01, 0x04, 0x01, 0x83, 0xc7, 0x1e, 0x01, last];
        assert(oid@ =~= self.spec_oid());
        assert(kvm_oid()[9] == 1 && sgx_oid()[9] == 2 && snp_oid()[9] == 3);
        oid
    }

    /// Whether the success of this kind's verifier alone authorizes
    /// issuance.
    pub fn attests(self) -> (attests: bool)
        ensures
            attests == self.spec_attests(),
    {
        true
    }

    /// Finds the kind that reads the extension with the identifier `oid`.
    pub fn lookup(oid: &[u8]) -> (kind: Option<Kind>)
        ensures
            kind == Self::spec_lookup(oid@),
    {
        let kvm = Kind::Kvm.oid();
        let sgx = Kind::Sgx.oid();
        let snp = Kind::Snp.oid();
        if same(oid, kvm.as_slice()) {
            Some(Kind::Kvm)
        } else if same(oid, sgx.as_slice()) {
            Some(Kind::Sgx)
        } else if same(oid, snp.as_slice()) {
            Some(Kind::Snp)
        } else {
            None
        }
    }
}

/// Whether evidence with the report data `report_data` was made for the
/// key `public_key`: the first 32 octets of the report data are the
/// SHA-256 digest of the DER of the key's `SubjectPublicKeyInfo`.
pub open spec fn spec_bound(report_data: Seq<u8>, public_key: Seq<u8>) -> bool {
    &&& report_data.len() >= 32
    &&& report_data.subrange(0, 32) == sha256_digest(public_key)
}

/// Checks whether evidence with the report data `report_data` was made
/// for the key `public_key`.
pub fn bound(report_data: &[u8], public_key: &[u8]) -> (bound: bool)
    ensures
        bound == spec_bound(report_data@, public_key@),
{
    if report_data.len() < 32 {
        return false;
    }
    let digest = sha256(public_key);
    same(slice_subrange(report_data, 0, 32), digest.as_slice())
}

/// One verifier of each kind.
#[derive(Debug)]
pub struct Verifiers {
    pub kvm: Kvm,
    pub sgx: Sgx,
    pub snp: Snp,
}

impl Verifiers {
    /// What the verifier of the kind `kind` answers to the extension
    /// value `value` in a request with the key `public_key`: whether the
    /// extension is to be copied into the certificate, or why it is
    /// turned down.
    pub open spec fn spec_verify(
        self,
        kind: Kind,
        public_key: Seq<u8>,
        value: Seq<u8>,
        dbg: bool,
    ) -> Result<bool, Rejection> {
        match kind {
            Kind::Kvm => Kvm::spec_verify(dbg),
            Kind::Sgx => self.sgx.spec_verify(public_key, value, dbg),
            Kind::Snp => self.snp.spec_verify(public_key, value, dbg),
        }
    }

    /// Hands an extension value to the verifier of the kind `kind`.
    pub fn verify(&self, kind: Kind, public_key: &[u8], value: &[u8], dbg: bool) -> (copy: Result<
        bool,
        Rejection,
    >)
        ensures
            copy == self.spec_verify(kind, public_key@, value@, dbg),
    {
        match kind {
            Kind::Kvm => self.kvm.verify(dbg),
            Kind::Sgx => self.sgx.verify(public_key, value, dbg),
            Kind::Snp => self.snp.verify(public_key, value, dbg),
        }
    }
}

/// Every kind is found by its own identifier, and by no other kind's.
pub proof fn lemma_lookup_finds(kind: Kind)
    ensures
        Kind::spec_lookup(kind.spec_oid()) == Some(kind),
{
    assert(kvm_oid()[9] == 1 && sgx_oid()[9] == 2 && snp_oid()[9] == 3);
}

} // verus!
