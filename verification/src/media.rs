//! Media types, compared as the `mime` crate compares them.

use vstd::prelude::*;

verus! {

/// The media type of a PKCS#10 certification request.
pub const PKCS10: &'static str = "application/pkcs10";

/// Whether `a` and `b` both spell a media type, and the same one.
pub uninterp spec fn same_media_type(a: Seq<char>, b: Seq<char>) -> bool;

/// `mime::Mime::from_str` on both texts, then `==` on what they gave:
/// false where either is no media type. The comparison cuts the second
/// text where the first has its semicolon, which is safe for the one
/// second text that is ever handed in: it is ASCII and has no parameter.
#[verifier::external_body]
pub(crate) fn media_types_match(a: &str, b: &str) -> (same: bool)
    requires
        b@ == PKCS10@,
    ensures
        same == same_media_type(a@, b@),
{
    match (a.parse::<mime::Mime>(), b.parse::<mime::Mime>()) {
        (Ok(a), Ok(b)) => a == b,
        _ => false,
    }
}

/// The characters of a content type that may be absent.
pub open spec fn declared(content_type: Option<&str>) -> Option<Seq<char>> {
    match content_type {
        Some(text) => Some(text@),
        None => None,
    }
}

/// Whether a request that declares the content type `content_type`
/// declares a certification request. No content type declares none.
pub open spec fn spec_is_pkcs10(content_type: Option<Seq<char>>) -> bool {
    match content_type {
        Some(text) => same_media_type(text, PKCS10@),
        None => false,
    }
}

/// Checks whether a request that declares the content type
/// `content_type` declares a certification request.
pub fn is_pkcs10(content_type: Option<&str>) -> (ok: bool)
    ensures
        ok == spec_is_pkcs10(declared(content_type)),
{
    match content_type {
        Some(text) => media_types_match(text, PKCS10),
        None => false,
    }
}

} // verus!
