//! The verifier for KVM guests. KVM has no hardware root of trust, so its
//! marker is taken at its word, and only by an issuer that is in debug
//! mode.

use vstd::prelude::*;
use crate::ext::Rejection;

verus! {

/// The verifier for KVM guests.
#[derive(Clone, Copy, Debug, Default)]
pub struct Kvm;

impl Kvm {
    /// What `verify` answers: in debug mode any marker is accepted and not
    /// copied into the certificate, otherwise the marker is rejected.
    pub open spec fn spec_verify(dbg: bool) -> Result<bool, Rejection> {
        if dbg {
            Ok(false)
        } else {
            Err(Rejection::Disabled)
        }
    }

    /// Judges a KVM marker. Its value is not looked at.
    pub fn verify(&self, dbg: bool) -> (copy: Result<bool, Rejection>)
        ensures
            copy == Self::spec_verify(dbg),
    {
        if dbg {
            Ok(false)
        } else {
            Err(Rejection::Disabled)
        }
    }
}

} // verus!
