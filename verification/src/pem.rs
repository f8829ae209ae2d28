//! PEM: armoured DER, as key files and certificate chains carry it. The
//! reading is done by the `rustls-pemfile` crate, which knows five kinds
//! of section (certificate, PKCS#8 key, RSA key, EC key, revocation
//! list) and passes over every other.

use vstd::prelude::*;
use crate::bytes::optional_strings;

verus! {

/// What the first section of a known kind in a PEM text holds.
#[derive(Debug)]
pub enum Item {
    /// The DER of an X.509 certificate.
    Certificate(Vec<u8>),
    /// The DER of a PKCS#8 private key.
    Pkcs8Key(Vec<u8>),
    /// A section of another known kind: an RSA key, an EC key or a
    /// revocation list.
    Other,
    /// The text holds no section of a known kind.
    Nothing,
    /// The text cannot be read: a section does not end, or its content is
    /// no base64.
    Unreadable,
}

/// An `Item` as contracts see it.
pub enum ItemView {
    Certificate(Seq<u8>),
    Pkcs8Key(Seq<u8>),
    Other,
    Nothing,
    Unreadable,
}

impl DeepView for Item {
    type V = ItemView;

    open spec fn deep_view(&self) -> ItemView {
        match self {
            Item::Certificate(der) => ItemView::Certificate(der@),
            Item::Pkcs8Key(der) => ItemView::Pkcs8Key(der@),
            Item::Other => ItemView::Other,
            Item::Nothing => ItemView::Nothing,
            Item::Unreadable => ItemView::Unreadable,
        }
    }
}

/// What the first section of a known kind in the PEM text `text` holds.
pub uninterp spec fn first_item(text: Seq<u8>) -> ItemView;

/// The DER of every certificate in the PEM text `text`, in the order in
/// which they stand, or nothing where the text cannot be read.
pub uninterp spec fn certificate_list(text: Seq<u8>) -> Option<Seq<Seq<u8>>>;

/// `rustls_pemfile::read_one` on the text: the first section of a kind
/// that the crate knows, sections of other kinds before it being passed
/// over.
#[verifier::external_body]
pub(crate) fn read_one(text: &[u8]) -> (item: Item)
    ensures
        item.deep_view() == first_item(text@),
{
    let mut reader = text;
    match rustls_pemfile::read_one(&mut reader) {
        Ok(Some(rustls_pemfile::Item::X509Certificate(der))) => Item::Certificate(der),
        Ok(Some(rustls_pemfile::Item::PKCS8Key(der))) => Item::Pkcs8Key(der),
        Ok(Some(_)) => Item::Other,
        Ok(None) => Item::Nothing,
        Err(_) => Item::Unreadable,
    }
}

/// `rustls_pemfile::certs` on the text: the content of every certificate
/// section, sections of other kinds being passed over.
#[verifier::external_body]
pub(crate) fn certificates(text: &[u8]) -> (list: Option<Vec<Vec<u8>>>)
    ensures
        optional_strings(list) == certificate_list(text@),
{
    let mut reader = text;
    rustls_pemfile::certs(&mut reader).ok()
}

} // verus!
