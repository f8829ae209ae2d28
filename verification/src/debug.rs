//! Debug mode. An issuer is in debug mode where its certificate is
//! self-signed, and only there: an issuer that hangs from an authority
//! cannot be put into debug mode by any setting.

use vstd::prelude::*;
use crate::bytes::{optional, same};
use crate::x509::{Certificate, CertificateView};

verus! {

/// Whether an issuer is in debug mode: it is where its certificate is
/// self-signed, that is, names the same issuer and subject, unique
/// identifiers included.
pub open spec fn spec_debug_mode(issuer: CertificateView) -> bool {
    &&& issuer.issuer_unique_id == issuer.subject_unique_id
    &&& issuer.issuer == issuer.subject
}

/// Whether two byte strings that may be absent are the same.
pub fn same_optional(a: &Option<Vec<u8>>, b: &Option<Vec<u8>>) -> (equal: bool)
    ensures
        equal == (optional(*a) == optional(*b)),
{
    match (a, b) {
        (Some(a), Some(b)) => same(a.as_slice(), b.as_slice()),
        (None, None) => true,
        _ => false,
    }
}

/// Whether an issuer is in debug mode.
pub fn debug_mode(issuer: &Certificate) -> (dbg: bool)
    ensures
        dbg == spec_debug_mode(issuer.deep_view()),
{
    same_optional(&issuer.issuer_unique_id, &issuer.subject_unique_id) && same(
        issuer.issuer.as_slice(),
        issuer.subject.as_slice(),
    )
}

} // verus!
