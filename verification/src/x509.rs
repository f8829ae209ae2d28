//! Certificates and certification requests as this library reads them:
//! the DER of each part that a decision looks at or that is copied into
//! what is issued. Reading and writing the structures themselves is the
//! work of the `x509-cert` and `der` crates.

use vstd::prelude::*;
use vstd::slice::slice_to_vec;
use der::{Decode, Encode};
use x509_cert::serial_number::SerialNumber;
use x509_cert::TbsCertificate;
use crate::bytes::{optional, strings};
use crate::name::spec_names_one;

verus! {

/// An extension of a certificate, or one that a request asks for.
#[derive(Debug)]
pub struct Extension {
    /// The content octets of the extension's object identifier.
    pub oid: Vec<u8>,
    pub critical: bool,
    /// The content of the extension's octet string.
    pub value: Vec<u8>,
}

/// An `Extension` as contracts see it.
pub struct ExtensionView {
    pub oid: Seq<u8>,
    pub critical: bool,
    pub value: Seq<u8>,
}

impl DeepView for Extension {
    type V = ExtensionView;

    open spec fn deep_view(&self) -> ExtensionView {
        ExtensionView { oid: self.oid@, critical: self.critical, value: self.value@ }
    }
}

impl Extension {
    /// A copy of this extension.
    pub fn copy(&self) -> (copy: Extension)
        ensures
            copy.deep_view() == self.deep_view(),
    {
        Extension {
            oid: slice_to_vec(self.oid.as_slice()),
            critical: self.critical,
            value: slice_to_vec(self.value.as_slice()),
        }
    }
}

/// An attribute of a certification request.
#[derive(Debug)]
pub struct Attribute {
    /// The content octets of the attribute's object identifier.
    pub oid: Vec<u8>,
    /// The DER of each value.
    pub values: Vec<Vec<u8>>,
}

/// An `Attribute` as contracts see it.
pub struct AttributeView {
    pub oid: Seq<u8>,
    pub values: Seq<Seq<u8>>,
}

impl DeepView for Attribute {
    type V = AttributeView;

    open spec fn deep_view(&self) -> AttributeView {
        AttributeView {
            oid: self.oid@,
            values: strings(self.values@),
        }
    }
}

/// A PKCS#10 certification request.
#[derive(Debug)]
pub struct CertReq {
    /// The DER of the `CertificationRequestInfo`: what the request signs.
    pub info: Vec<u8>,
    /// The DER of the `SubjectPublicKeyInfo` inside `info`.
    pub public_key: Vec<u8>,
    /// The attributes inside `info`.
    pub attributes: Vec<Attribute>,
    /// The DER of the signature's `AlgorithmIdentifier`.
    pub algorithm: Vec<u8>,
    /// The octets of the signature.
    pub signature: Vec<u8>,
}

/// A `CertReq` as contracts see it.
pub struct CertReqView {
    pub info: Seq<u8>,
    pub public_key: Seq<u8>,
    pub attributes: Seq<AttributeView>,
    pub algorithm: Seq<u8>,
    pub signature: Seq<u8>,
}

impl DeepView for CertReq {
    type V = CertReqView;

    open spec fn deep_view(&self) -> CertReqView {
        CertReqView {
            info: self.info@,
            public_key: self.public_key@,
            attributes: self.attributes.deep_view(),
            algorithm: self.algorithm@,
            signature: self.signature@,
        }
    }
}

/// An X.509 certificate.
#[derive(Debug)]
pub struct Certificate {
    /// The DER of the `TBSCertificate`: what the certificate's issuer signed.
    pub tbs: Vec<u8>,
    /// The serial number, most significant octet first.
    pub serial: Vec<u8>,
    /// The DER of the issuer's name.
    pub issuer: Vec<u8>,
    /// The DER of the subject's name.
    pub subject: Vec<u8>,
    /// The DER of the issuer's unique identifier, as a bit string.
    pub issuer_unique_id: Option<Vec<u8>>,
    /// The DER of the subject's unique identifier, as a bit string.
    pub subject_unique_id: Option<Vec<u8>>,
    /// The DER of the `SubjectPublicKeyInfo`.
    pub public_key: Vec<u8>,
    /// The DER of the signature's `AlgorithmIdentifier`.
    pub algorithm: Vec<u8>,
    /// The octets of the signature.
    pub signature: Vec<u8>,
}

/// A `Certificate` as contracts see it.
pub struct CertificateView {
    pub tbs: Seq<u8>,
    pub serial: Seq<u8>,
    pub issuer: Seq<u8>,
    pub subject: Seq<u8>,
    pub issuer_unique_id: Option<Seq<u8>>,
    pub subject_unique_id: Option<Seq<u8>>,
    pub public_key: Seq<u8>,
    pub algorithm: Seq<u8>,
    pub signature: Seq<u8>,
}

impl DeepView for Certificate {
    type V = CertificateView;

    open spec fn deep_view(&self) -> CertificateView {
        CertificateView {
            tbs: self.tbs@,
            serial: self.serial@,
            issuer: self.issuer@,
            subject: self.subject@,
            issuer_unique_id: optional(self.issuer_unique_id),
            subject_unique_id: optional(self.subject_unique_id),
            public_key: self.public_key@,
            algorithm: self.algorithm@,
            signature: self.signature@,
        }
    }
}

/// The fields from which the body of a certificate is written.
pub struct Tbs {
    /// The DER of the version.
    pub version: Vec<u8>,
    /// The serial number, most significant octet first.
    pub serial: Vec<u8>,
    /// The DER of the `AlgorithmIdentifier` of the signature to come.
    pub algorithm: Vec<u8>,
    /// The DER of the issuer's name.
    pub issuer: Vec<u8>,
    /// The DER of the `Validity`.
    pub validity: Vec<u8>,
    /// The DER of the subject's name.
    pub subject: Vec<u8>,
    /// The DER of the `SubjectPublicKeyInfo`.
    pub public_key: Vec<u8>,
    /// The DER of the issuer's unique identifier, as a bit string.
    pub issuer_unique_id: Option<Vec<u8>>,
    /// The DER of the subject's unique identifier, as a bit string.
    pub subject_unique_id: Option<Vec<u8>>,
    /// The DER of the `Extensions`.
    pub extensions: Vec<u8>,
}

/// A `Tbs` as contracts see it.
pub struct TbsView {
    pub version: Seq<u8>,
    pub serial: Seq<u8>,
    pub algorithm: Seq<u8>,
    pub issuer: Seq<u8>,
    pub validity: Seq<u8>,
    pub subject: Seq<u8>,
    pub public_key: Seq<u8>,
    pub issuer_unique_id: Option<Seq<u8>>,
    pub subject_unique_id: Option<Seq<u8>>,
    pub extensions: Seq<u8>,
}

impl DeepView for Tbs {
    type V = TbsView;

    open spec fn deep_view(&self) -> TbsView {
        TbsView {
            version: self.version@,
            serial: self.serial@,
            algorithm: self.algorithm@,
            issuer: self.issuer@,
            validity: self.validity@,
            subject: self.subject@,
            public_key: self.public_key@,
            issuer_unique_id: optional(self.issuer_unique_id),
            subject_unique_id: optional(self.subject_unique_id),
            extensions: self.extensions@,
        }
    }
}

/// Something that is signed: a certificate or a certification request.
#[derive(Debug)]
pub struct Signed {
    /// The DER of what the signature covers.
    pub body: Vec<u8>,
    /// The DER of the signature's `AlgorithmIdentifier`.
    pub algorithm: Vec<u8>,
    /// The octets of the signature.
    pub signature: Vec<u8>,
}

/// A `Signed` as contracts see it.
pub struct SignedView {
    pub body: Seq<u8>,
    pub algorithm: Seq<u8>,
    pub signature: Seq<u8>,
}

impl DeepView for Signed {
    type V = SignedView;

    open spec fn deep_view(&self) -> SignedView {
        SignedView { body: self.body@, algorithm: self.algorithm@, signature: self.signature@ }
    }
}

/// What the body of a certificate says of issuer and subject.
#[derive(Debug)]
pub struct Body {
    /// The serial number, most significant octet first.
    pub serial: Vec<u8>,
    /// The DER of the issuer's name.
    pub issuer: Vec<u8>,
    /// The DER of the subject's name.
    pub subject: Vec<u8>,
    /// The DER of the issuer's unique identifier, as a bit string.
    pub issuer_unique_id: Option<Vec<u8>>,
    /// The DER of the subject's unique identifier, as a bit string.
    pub subject_unique_id: Option<Vec<u8>>,
    /// The DER of the `SubjectPublicKeyInfo`.
    pub public_key: Vec<u8>,
}

/// A `Body` as contracts see it.
pub struct BodyView {
    pub serial: Seq<u8>,
    pub issuer: Seq<u8>,
    pub subject: Seq<u8>,
    pub issuer_unique_id: Option<Seq<u8>>,
    pub subject_unique_id: Option<Seq<u8>>,
    pub public_key: Seq<u8>,
}

impl DeepView for Body {
    type V = BodyView;

    open spec fn deep_view(&self) -> BodyView {
        BodyView {
            serial: self.serial@,
            issuer: self.issuer@,
            subject: self.subject@,
            issuer_unique_id: optional(self.issuer_unique_id),
            subject_unique_id: optional(self.subject_unique_id),
            public_key: self.public_key@,
        }
    }
}

/// What the body of a certification request asks for.
#[derive(Debug)]
pub struct Info {
    /// The DER of the `SubjectPublicKeyInfo`.
    pub public_key: Vec<u8>,
    /// The attributes, in the order in which they stand.
    pub attributes: Vec<Attribute>,
}

/// An `Info` as contracts see it.
pub struct InfoView {
    pub public_key: Seq<u8>,
    pub attributes: Seq<AttributeView>,
}

impl DeepView for Info {
    type V = InfoView;

    open spec fn deep_view(&self) -> InfoView {
        InfoView { public_key: self.public_key@, attributes: self.attributes.deep_view() }
    }
}

/// The three parts of the certificate `der`.
pub uninterp spec fn signed_certificate(der: Seq<u8>) -> Option<SignedView>;

/// What `tbs`, the body of a certificate, says of issuer and subject.
pub uninterp spec fn certificate_body(tbs: Seq<u8>) -> Option<BodyView>;

/// The three parts of the certification request `der`.
pub uninterp spec fn signed_request(der: Seq<u8>) -> Option<SignedView>;

/// What `info`, the body of a certification request, asks for.
pub uninterp spec fn request_info(info: Seq<u8>) -> Option<InfoView>;

/// What `der` holds, read as a certificate.
pub open spec fn certificate_fields(der: Seq<u8>) -> Option<CertificateView> {
    match signed_certificate(der) {
        None => None,
        Some(signed) => match certificate_body(signed.body) {
            None => None,
            Some(body) => Some(
                CertificateView {
                    tbs: signed.body,
                    serial: body.serial,
                    issuer: body.issuer,
                    subject: body.subject,
                    issuer_unique_id: body.issuer_unique_id,
                    subject_unique_id: body.subject_unique_id,
                    public_key: body.public_key,
                    algorithm: signed.algorithm,
                    signature: signed.signature,
                },
            ),
        },
    }
}

/// What `der` holds, read as a certification request.
pub open spec fn request_fields(der: Seq<u8>) -> Option<CertReqView> {
    match signed_request(der) {
        None => None,
        Some(signed) => match request_info(signed.body) {
            None => None,
            Some(info) => Some(
                CertReqView {
                    info: signed.body,
                    public_key: info.public_key,
                    attributes: info.attributes,
                    algorithm: signed.algorithm,
                    signature: signed.signature,
                },
            ),
        },
    }
}

/// The extensions that `value`, the DER of an attribute's value, asks for.
pub uninterp spec fn requested_extensions(value: Seq<u8>) -> Option<Seq<ExtensionView>>;

/// The DER of a list of extensions.
pub uninterp spec fn extensions_der(extensions: Seq<ExtensionView>) -> Option<Seq<u8>>;

/// The DER of the distinguished name that `text` spells, in the string
/// form of RFC 4514.
pub uninterp spec fn name_der(text: Seq<u8>) -> Option<Seq<u8>>;

/// The DER of a validity from `not_before` until `not_after`, both in
/// seconds since 1970-01-01T00:00:00Z.
pub uninterp spec fn validity_der(not_before: u64, not_after: u64) -> Option<Seq<u8>>;

/// The DER of a subject alternative name that holds the one DNS name `name`.
pub uninterp spec fn dns_alt_name_der(name: Seq<char>) -> Option<Seq<u8>>;

/// The DER of the key usage with the flags `flags`: bit `i` of `flags`
/// stands for the usage that RFC 5280 numbers `i`.
pub uninterp spec fn key_usage_der(flags: u16) -> Option<Seq<u8>>;

/// The DER of the basic constraints of a certificate: whether its
/// subject is an authority, and how many further authorities may stand
/// below it.
pub uninterp spec fn basic_constraints_der(ca: bool, path_len: Option<u8>) -> Option<Seq<u8>>;

/// The DER of the certificate body with these fields.
pub uninterp spec fn tbs_der(fields: TbsView) -> Option<Seq<u8>>;

/// The DER of the certificate with the body `tbs`, signed with
/// `algorithm`, the signature being `signature`.
pub uninterp spec fn certificate_der(tbs: Seq<u8>, algorithm: Seq<u8>, signature: Seq<u8>) -> Option<
    Seq<u8>,
>;

/// `x509_cert::Certificate::from_der`: the body encoded again by
/// `to_der`, the algorithm likewise, the signature as the octets of its
/// bit string; nothing where the octets do not parse.
#[verifier::external_body]
pub(crate) fn split_certificate(der: &[u8]) -> (signed: Option<Signed>)
    ensures
        signed.deep_view() == signed_certificate(der@),
{
    let c = x509_cert::Certificate::from_der(der).ok()?;
    Some(Signed {
        body: c.tbs_certificate.to_der().ok()?,
        algorithm: c.signature_algorithm.to_der().ok()?,
        signature: c.signature.raw_bytes().to_vec(),
    })
}

/// `x509_cert::TbsCertificate::from_der`: the serial number as the
/// octets that `SerialNumber::as_bytes` gives, the names, the unique
/// identifiers and the key, each encoded again by `to_der`; nothing
/// where the octets do not parse.
#[verifier::external_body]
pub(crate) fn parse_body(tbs: &[u8]) -> (body: Option<Body>)
    ensures
        body.deep_view() == certificate_body(tbs@),
{
    let t = x509_cert::TbsCertificate::from_der(tbs).ok()?;
    Some(Body {
        serial: t.serial_number.as_bytes().to_vec(),
        issuer: t.issuer.to_der().ok()?,
        subject: t.subject.to_der().ok()?,
        issuer_unique_id: t.issuer_unique_id.map(|b| b.to_der()).transpose().ok()?,
        subject_unique_id: t.subject_unique_id.map(|b| b.to_der()).transpose().ok()?,
        public_key: t.subject_public_key_info.to_der().ok()?,
    })
}

/// `x509_cert::request::CertReq::from_der`: the body encoded again by
/// `to_der`, the algorithm likewise, the signature as the octets of its
/// bit string; nothing where the octets do not parse.
#[verifier::external_body]
pub(crate) fn split_request(der: &[u8]) -> (signed: Option<Signed>)
    ensures
        signed.deep_view() == signed_request(der@),
{
    let r = x509_cert::request::CertReq::from_der(der).ok()?;
    Some(Signed {
        body: r.info.to_der().ok()?,
        algorithm: r.algorithm.to_der().ok()?,
        signature: r.signature.raw_bytes().to_vec(),
    })
}

/// `x509_cert::request::CertReqInfo::from_der`: the key and each value
/// of each attribute encoded again by `to_der`, an object identifier as
/// its content octets; nothing where the octets do not parse.
#[verifier::external_body]
pub(crate) fn parse_info(info: &[u8]) -> (parsed: Option<Info>)
    ensures
        parsed.deep_view() == request_info(info@),
{
    let i = x509_cert::request::CertReqInfo::from_der(info).ok()?;
    let attribute = |a: &x509_cert::attr::Attribute| Some(Attribute {
        oid: a.oid.as_bytes().to_vec(),
        values: a.values.iter().map(|v| v.to_der().ok()).collect::<Option<_>>()?,
    });
    let attributes = i.attributes.iter().map(attribute).collect::<Option<_>>()?;
    Some(Info { public_key: i.public_key.to_der().ok()?, attributes })
}

/// Reads a certificate.
pub fn parse_certificate(der: &[u8]) -> (cert: Option<Certificate>)
    ensures
        cert.deep_view() == certificate_fields(der@),
{
    let Signed { body: tbs, algorithm, signature } = match split_certificate(der) {
        Some(signed) => signed,
        None => {
            return None;
        },
    };
    let body = match parse_body(tbs.as_slice()) {
        Some(body) => body,
        None => {
            return None;
        },
    };
    let Body { serial, issuer, subject, issuer_unique_id, subject_unique_id, public_key } = body;
    Some(
        Certificate {
            tbs,
            serial,
            issuer,
            subject,
            issuer_unique_id,
            subject_unique_id,
            public_key,
            algorithm,
            signature,
        },
    )
}

/// Reads a certification request.
pub fn parse_request(der: &[u8]) -> (request: Option<CertReq>)
    ensures
        request.deep_view() == request_fields(der@),
{
    let Signed { body: info, algorithm, signature } = match split_request(der) {
        Some(signed) => signed,
        None => {
            return None;
        },
    };
    let Info { public_key, attributes } = match parse_info(info.as_slice()) {
        Some(parsed) => parsed,
        None => {
            return None;
        },
    };
    Some(CertReq { info, public_key, attributes, algorithm, signature })
}

/// `x509_cert::request::ExtensionReq::from_der`: the extensions in the
/// order in which they stand, an object identifier as its content octets;
/// nothing where the octets do not parse.
#[verifier::external_body]
pub(crate) fn parse_extension_req(value: &[u8]) -> (extensions: Option<Vec<Extension>>)
    ensures
        extensions.deep_view() == requested_extensions(value@),
{
    let req = x509_cert::request::ExtensionReq::from_der(value).ok()?;
    let extension = |e: x509_cert::ext::Extension| Extension {
        oid: e.extn_id.as_bytes().to_vec(),
        critical: e.critical,
        value: e.extn_value.into_bytes(),
    };
    Some(req.0.into_iter().map(extension).collect())
}

/// `to_der` of `x509_cert::ext::Extensions`: the DER of the list, or
/// nothing where an identifier is none or the list cannot be encoded.
#[verifier::external_body]
pub(crate) fn encode_extensions(extensions: &Vec<Extension>) -> (der: Option<Vec<u8>>)
    ensures
        optional(der) == extensions_der(extensions.deep_view()),
{
    let extension = |e: &Extension| Some(x509_cert::ext::Extension {
        extn_id: der::asn1::ObjectIdentifier::from_bytes(&e.oid).ok()?,
        critical: e.critical,
        extn_value: der::asn1::OctetString::new(e.value.clone()).ok()?,
    });
    extensions.iter().map(extension).collect::<Option<Vec<_>>>()?.to_der().ok()
}

/// `x509_cert::name::Name::from_str`, then `to_der`: the DER of the name,
/// or nothing where the text spells no name. The text must be `CN=` and
/// a plain value: the parser reads a key that it does not know as a
/// dotted identifier, and does so with unchecked arithmetic.
#[verifier::external_body]
pub(crate) fn encode_name(text: &[u8]) -> (der: Option<Vec<u8>>)
    requires
        spec_names_one(text@),
    ensures
        optional(der) == name_der(text@),
{
    let text = core::str::from_utf8(text).ok()?;
    text.parse::<x509_cert::name::Name>().ok()?.to_der().ok()
}

/// `to_der` of `x509_cert::time::Validity` with two generalized times made
/// by `GeneralizedTime::from_unix_duration`: the DER, or nothing where a
/// time is beyond what a generalized time can hold.
#[verifier::external_body]
pub(crate) fn encode_validity(not_before: u64, not_after: u64) -> (der: Option<Vec<u8>>)
    ensures
        optional(der) == validity_der(not_before, not_after),
{
    let time = |secs: u64| der::asn1::GeneralizedTime::from_unix_duration(
        core::time::Duration::from_secs(secs),
    );
    x509_cert::time::Validity {
        not_before: x509_cert::time::Time::GeneralTime(time(not_before).ok()?),
        not_after: x509_cert::time::Time::GeneralTime(time(not_after).ok()?),
    }.to_der().ok()
}

/// `to_der` of `x509_cert::ext::pkix::SubjectAltName` with one
/// `GeneralName::DnsName`: the DER, or nothing where the name is no
/// IA5 string.
#[verifier::external_body]
pub(crate) fn encode_dns_alt_name(name: &str) -> (der: Option<Vec<u8>>)
    ensures
        optional(der) == dns_alt_name_der(name@),
{
    let name = der::asn1::Ia5String::new(name).ok()?;
    let name = x509_cert::ext::pkix::name::GeneralName::DnsName(name);
    x509_cert::ext::pkix::SubjectAltName(vec![name]).to_der().ok()
}

/// `to_der` of `x509_cert::ext::pkix::KeyUsage` over the flag set that
/// `FlagSet::new` makes of `flags`: the DER, or nothing where `flags`
/// holds a bit that is no key usage.
#[verifier::external_body]
pub(crate) fn encode_key_usage(flags: u16) -> (der: Option<Vec<u8>>)
    ensures
        optional(der) == key_usage_der(flags),
{
    x509_cert::ext::pkix::KeyUsage(der::flagset::FlagSet::new(flags).ok()?).to_der().ok()
}

/// `to_der` of `x509_cert::ext::pkix::BasicConstraints` with the given
/// fields.
#[verifier::external_body]
pub(crate) fn encode_basic_constraints(ca: bool, path_len: Option<u8>) -> (der: Option<Vec<u8>>)
    ensures
        optional(der) == basic_constraints_der(ca, path_len),
{
    x509_cert::ext::pkix::BasicConstraints { ca, path_len_constraint: path_len }.to_der().ok()
}

/// `to_der` of `x509_cert::TbsCertificate`, each field read from its
/// DER, the serial number made by `SerialNumber::new`: the DER, or
/// nothing where a field does not parse or the body cannot be encoded.
#[verifier::external_body]
pub(crate) fn encode_tbs(fields: &Tbs) -> (der: Option<Vec<u8>>)
    ensures
        optional(der) == tbs_der(fields.deep_view()),
{
    let encode = || TbsCertificate {
        version: Decode::from_der(&fields.version)?,
        serial_number: SerialNumber::new(&fields.serial)?,
        signature: Decode::from_der(&fields.algorithm)?,
        issuer: Decode::from_der(&fields.issuer)?,
        validity: Decode::from_der(&fields.validity)?,
        subject: Decode::from_der(&fields.subject)?,
        subject_public_key_info: Decode::from_der(&fields.public_key)?,
        issuer_unique_id: fields.issuer_unique_id.as_deref().map(Decode::from_der).transpose()?,
        subject_unique_id: fields.subject_unique_id.as_deref().map(Decode::from_der).transpose()?,
        extensions: Some(Decode::from_der(&fields.extensions)?),
    }.to_der();
    encode().ok()
}

/// `to_der` of `x509_cert::Certificate`, the body and the algorithm read
/// from their DER, the signature wrapped by `BitString::from_bytes`: the
/// DER, or nothing where a part does not parse.
#[verifier::external_body]
pub(crate) fn encode_certificate(tbs: &[u8], algorithm: &[u8], signature: &[u8]) -> (der: Option<
    Vec<u8>,
>)
    ensures
        optional(der) == certificate_der(tbs@, algorithm@, signature@),
{
    x509_cert::Certificate {
        tbs_certificate: Decode::from_der(tbs).ok()?,
        signature_algorithm: Decode::from_der(algorithm).ok()?,
        signature: der::asn1::BitString::from_bytes(signature).ok()?,
    }.to_der().ok()
}

} // verus!
