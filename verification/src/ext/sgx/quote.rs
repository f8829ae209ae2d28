//! The layout of an SGX quote of version 3 with an ECDSA P-256
//! attestation key: a header, the report of the enclave, and the
//! signature section that vouches for both.

use vstd::prelude::*;
use vstd::slice::slice_subrange;
use crate::bytes::{le16, le32, read_le16, read_le32};

verus! {

/// The length of the header.
pub const HEADER_LEN: usize = 48;

/// The length of a report.
pub const REPORT_LEN: usize = 384;

/// The length of what the attestation key signs: header and report.
pub const SIGNED_LEN: usize = 432;

/// The length of a signature, and of a public key: two coordinates of
/// 32 octets.
pub const PAIR_LEN: usize = 64;

/// The length of a quote whose authentication data and certification
/// data are both empty.
pub const MIN_LEN: usize = 1020;

/// The only version that is read.
pub const VERSION: u16 = 3;

/// The attestation key type of ECDSA over P-256.
pub const KEY_TYPE_P256: u16 = 2;

/// The certification data type of a chain of PCK certificates in PEM.
pub const CERT_TYPE_PCK_CHAIN: u16 = 5;

/// The report of an enclave.
pub struct Report<'a> {
    pub cpu_svn: &'a [u8],
    pub misc_select: u32,
    pub attributes: &'a [u8],
    pub mr_enclave: &'a [u8],
    pub mr_signer: &'a [u8],
    pub isv_prod_id: u16,
    pub isv_svn: u16,
    pub report_data: &'a [u8],
}

/// A `Report` as contracts see it.
pub struct ReportView {
    pub cpu_svn: Seq<u8>,
    pub misc_select: u32,
    pub attributes: Seq<u8>,
    pub mr_enclave: Seq<u8>,
    pub mr_signer: Seq<u8>,
    pub isv_prod_id: u16,
    pub isv_svn: u16,
    pub report_data: Seq<u8>,
}

impl<'a> DeepView for Report<'a> {
    type V = ReportView;

    open spec fn deep_view(&self) -> ReportView {
        ReportView {
            cpu_svn: self.cpu_svn@,
            misc_select: self.misc_select,
            attributes: self.attributes@,
            mr_enclave: self.mr_enclave@,
            mr_signer: self.mr_signer@,
            isv_prod_id: self.isv_prod_id,
            isv_svn: self.isv_svn,
            report_data: self.report_data@,
        }
    }
}

/// A quote, taken apart.
pub struct Quote<'a> {
    pub qe_svn: u16,
    pub pce_svn: u16,
    pub qe_vendor_id: &'a [u8],
    pub user_data: &'a [u8],
    /// The report of the enclave that asks.
    pub report: Report<'a>,
    /// Header and report as they stand in the quote.
    pub signed: &'a [u8],
    /// The attestation key's signature over `signed`.
    pub signature: &'a [u8],
    /// The attestation key: the coordinates of a point of P-256.
    pub attestation_key: &'a [u8],
    /// The report of the quoting enclave, as it stands in the quote.
    pub qe_signed: &'a [u8],
    /// The report of the quoting enclave.
    pub qe_report: Report<'a>,
    /// The PCK's signature over `qe_signed`.
    pub qe_signature: &'a [u8],
    /// The authentication data of the quoting enclave.
    pub qe_auth: &'a [u8],
    /// The chain of PCK certificates, in PEM.
    pub cert_data: &'a [u8],
}

/// A `Quote` as contracts see it.
pub struct QuoteView {
    pub qe_svn: u16,
    pub pce_svn: u16,
    pub qe_vendor_id: Seq<u8>,
    pub user_data: Seq<u8>,
    pub report: ReportView,
    pub signed: Seq<u8>,
    pub signature: Seq<u8>,
    pub attestation_key: Seq<u8>,
    pub qe_signed: Seq<u8>,
    pub qe_report: ReportView,
    pub qe_signature: Seq<u8>,
    pub qe_auth: Seq<u8>,
    pub cert_data: Seq<u8>,
}

impl<'a> DeepView for Quote<'a> {
    type V = QuoteView;

    open spec fn deep_view(&self) -> QuoteView {
        QuoteView {
            qe_svn: self.qe_svn,
            pce_svn: self.pce_svn,
            qe_vendor_id: self.qe_vendor_id@,
            user_data: self.user_data@,
            report: self.report.deep_view(),
            signed: self.signed@,
            signature: self.signature@,
            attestation_key: self.attestation_key@,
            qe_signed: self.qe_signed@,
            qe_report: self.qe_report.deep_view(),
            qe_signature: self.qe_signature@,
            qe_auth: self.qe_auth@,
            cert_data: self.cert_data@,
        }
    }
}

/// The report that 384 octets spell.
pub open spec fn spec_report(bytes: Seq<u8>) -> ReportView
    recommends
        bytes.len() == REPORT_LEN,
{
    ReportView {
        cpu_svn: bytes.subrange(0, 16),
        misc_select: le32(bytes, 16) as u32,
        attributes: bytes.subrange(48, 64),
        mr_enclave: bytes.subrange(64, 96),
        mr_signer: bytes.subrange(128, 160),
        isv_prod_id: le16(bytes, 256) as u16,
        isv_svn: le16(bytes, 258) as u16,
        report_data: bytes.subrange(320, 384),
    }
}

/// The length of the authentication data that a quote announces.
pub open spec fn auth_len(bytes: Seq<u8>) -> int
    recommends
        bytes.len() >= MIN_LEN,
{
    le16(bytes, 1012) as int
}

/// Whether `bytes` is built as a quote is: long enough, of the version
/// and the key type that are read, with a PCK certificate chain as its
/// certification data, and with announced lengths that account for every
/// octet.
pub open spec fn well_formed(bytes: Seq<u8>) -> bool {
    &&& bytes.len() >= MIN_LEN
    &&& le16(bytes, 0) == VERSION
    &&& le16(bytes, 2) == KEY_TYPE_P256
    &&& le32(bytes, 432) == bytes.len() - 436
    &&& 1020 + auth_len(bytes) <= bytes.len()
    &&& le16(bytes, 1014 + auth_len(bytes)) == CERT_TYPE_PCK_CHAIN
    &&& le32(bytes, 1016 + auth_len(bytes)) == bytes.len() - 1020 - auth_len(bytes)
}

/// The quote that `bytes` spells, if it spells one.
pub open spec fn spec_parse(bytes: Seq<u8>) -> Option<QuoteView> {
    if well_formed(bytes) {
        let a = auth_len(bytes);
        Some(
            QuoteView {
                qe_svn: le16(bytes, 8) as u16,
                pce_svn: le16(bytes, 10) as u16,
                qe_vendor_id: bytes.subrange(12, 28),
                user_data: bytes.subrange(28, 48),
                report: spec_report(bytes.subrange(48, 432)),
                signed: bytes.subrange(0, 432),
                signature: bytes.subrange(436, 500),
                attestation_key: bytes.subrange(500, 564),
                qe_signed: bytes.subrange(564, 948),
                qe_report: spec_report(bytes.subrange(564, 948)),
                qe_signature: bytes.subrange(948, 1012),
                qe_auth: bytes.subrange(1014, 1014 + a),
                cert_data: bytes.subrange(1020 + a, bytes.len() as int),
            },
        )
    } else {
        None
    }
}

/// Reads a report from its 384 octets.
fn report<'a>(bytes: &'a [u8]) -> (report: Report<'a>)
    requires
        bytes@.len() == REPORT_LEN,
    ensures
        report.deep_view() == spec_report(bytes@),
{
    Report {
        cpu_svn: slice_subrange(bytes, 0, 16),
        misc_select: read_le32(bytes, 16),
        attributes: slice_subrange(bytes, 48, 64),
        mr_enclave: slice_subrange(bytes, 64, 96),
        mr_signer: slice_subrange(bytes, 128, 160),
        isv_prod_id: read_le16(bytes, 256),
        isv_svn: read_le16(bytes, 258),
        report_data: slice_subrange(bytes, 320, 384),
    }
}

/// Reads a quote.
pub fn parse<'a>(bytes: &'a [u8]) -> (quote: Option<Quote<'a>>)
    ensures
        quote.deep_view() == spec_parse(bytes@),
{
    let len = bytes.len();
    if len < MIN_LEN {
        return None;
    }
    if read_le16(bytes, 0) != VERSION || read_le16(bytes, 2) != KEY_TYPE_P256 {
        return None;
    }
    if read_le32(bytes, 432) as usize != len - 436 {
        return None;
    }
    let a: usize = read_le16(bytes, 1012) as usize;
    if a > len - 1020 {
        return None;
    }
    if read_le16(bytes, 1014 + a) != CERT_TYPE_PCK_CHAIN {
        return None;
    }
    if read_le32(bytes, 1016 + a) as usize != len - 1020 - a {
        return None;
    }
    let signed = slice_subrange(bytes, 0, 432);
    let qe_signed = slice_subrange(bytes, 564, 948);
    Some(
        Quote {
            qe_svn: read_le16(bytes, 8),
            pce_svn: read_le16(bytes, 10),
            qe_vendor_id: slice_subrange(bytes, 12, 28),
            user_data: slice_subrange(bytes, 28, 48),
            report: report(slice_subrange(bytes, 48, 432)),
            signed,
            signature: slice_subrange(bytes, 436, 500),
            attestation_key: slice_subrange(bytes, 500, 564),
            qe_signed,
            qe_report: report(qe_signed),
            qe_signature: slice_subrange(bytes, 948, 1012),
            qe_auth: slice_subrange(bytes, 1014, 1014 + a),
            cert_data: slice_subrange(bytes, 1020 + a, len),
        },
    )
}

} // verus!
