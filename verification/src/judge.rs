//! The judgement on a request: whether it may be answered with a
//! certificate, and which of its extensions the certificate is to hold.

use vstd::prelude::*;
use crate::bytes::{same, strings};
use crate::crypto::{is_private_key_info, private_key_info_ok, spec_verify_as, verify_as, Secret};
use crate::debug::{debug_mode, spec_debug_mode};
use crate::ext::{kvm_oid, lemma_lookup_finds, Kind, Verifiers};
use crate::media::{declared, is_pkcs10, spec_is_pkcs10};
use crate::status::HttpError;
use crate::x509::{
    certificate_fields, parse_certificate, parse_extension_req, parse_request, request_fields,
    requested_extensions, Attribute, AttributeView, Certificate, CertificateView, Extension,
    ExtensionView,
};

verus! {

/// The content octets of 1.2.840.113549.1.9.14, the attribute in which a
/// request asks for extensions.
pub open spec fn extension_req_oid() -> Seq<u8> {
    seq![0x2au8, 0x86, 0x48, 0x86, 0xf7, 0x0d, 0x01, 0x09, 0x0e]
}

/// What the extensions seen so far come to.
pub struct Outcome {
    /// Whether a verifier whose word authorizes issuance has accepted one.
    pub attested: bool,
    /// Those that go into the certificate, in the order of the request.
    pub copied: Vec<Extension>,
}

/// An `Outcome` as contracts see it.
pub struct OutcomeView {
    pub attested: bool,
    pub copied: Seq<ExtensionView>,
}

impl DeepView for Outcome {
    type V = OutcomeView;

    open spec fn deep_view(&self) -> OutcomeView {
        OutcomeView { attested: self.attested, copied: self.copied.deep_view() }
    }
}

/// A request that may be answered with a certificate.
pub struct Approved {
    /// The issuer's certificate.
    pub issuer: Certificate,
    /// The DER of the key that the certificate is to hold.
    pub public_key: Vec<u8>,
    /// The extensions that the certificate is to hold.
    pub extensions: Vec<Extension>,
}

/// An `Approved` request as contracts see it.
pub struct ApprovedView {
    pub issuer: CertificateView,
    pub public_key: Seq<u8>,
    pub extensions: Seq<ExtensionView>,
}

impl DeepView for Approved {
    type V = ApprovedView;

    open spec fn deep_view(&self) -> ApprovedView {
        ApprovedView {
            issuer: self.issuer.deep_view(),
            public_key: self.public_key@,
            extensions: self.extensions.deep_view(),
        }
    }
}

/// What one more extension makes of an outcome: nothing where no verifier
/// reads it or its verifier turns it down.
pub open spec fn spec_examine(
    verifiers: Verifiers,
    public_key: Seq<u8>,
    dbg: bool,
    so_far: OutcomeView,
    extension: ExtensionView,
) -> Option<OutcomeView> {
    match Kind::spec_lookup(extension.oid) {
        None => None,
        Some(kind) => match verifiers.spec_verify(kind, public_key, extension.value, dbg) {
            Err(_) => None,
            Ok(copy) => Some(
                OutcomeView {
                    attested: so_far.attested || kind.spec_attests(),
                    copied: if copy {
                        so_far.copied.push(extension)
                    } else {
                        so_far.copied
                    },
                },
            ),
        },
    }
}

/// What a row of extensions makes of an outcome.
pub open spec fn spec_examine_extensions(
    verifiers: Verifiers,
    public_key: Seq<u8>,
    dbg: bool,
    so_far: OutcomeView,
    extensions: Seq<ExtensionView>,
) -> Option<OutcomeView>
    decreases extensions.len(),
{
    if extensions.len() == 0 {
        Some(so_far)
    } else {
        match spec_examine(verifiers, public_key, dbg, so_far, extensions[0]) {
            None => None,
            Some(next) => spec_examine_extensions(
                verifiers,
                public_key,
                dbg,
                next,
                extensions.drop_first(),
            ),
        }
    }
}

/// What the values of an attribute make of an outcome: each value must
/// be a list of requested extensions.
pub open spec fn spec_examine_values(
    verifiers: Verifiers,
    public_key: Seq<u8>,
    dbg: bool,
    so_far: OutcomeView,
    values: Seq<Seq<u8>>,
) -> Option<OutcomeView>
    decreases values.len(),
{
    if values.len() == 0 {
        Some(so_far)
    } else {
        match requested_extensions(values[0]) {
            None => None,
            Some(extensions) => match spec_examine_extensions(
                verifiers,
                public_key,
                dbg,
                so_far,
                extensions,
            ) {
                None => None,
                Some(next) => spec_examine_values(
                    verifiers,
                    public_key,
                    dbg,
                    next,
                    values.drop_first(),
                ),
            },
        }
    }
}

/// What the attributes of a request make of an outcome: each attribute
/// must be an extension request.
pub open spec fn spec_examine_attributes(
    verifiers: Verifiers,
    public_key: Seq<u8>,
    dbg: bool,
    so_far: OutcomeView,
    attributes: Seq<AttributeView>,
) -> Option<OutcomeView>
    decreases attributes.len(),
{
    if attributes.len() == 0 {
        Some(so_far)
    } else if attributes[0].oid != extension_req_oid() {
        None
    } else {
        match spec_examine_values(verifiers, public_key, dbg, so_far, attributes[0].values) {
            None => None,
            Some(next) => spec_examine_attributes(
                verifiers,
                public_key,
                dbg,
                next,
                attributes.drop_first(),
            ),
        }
    }
}

/// The judgement on a request. The issuer's certificate and key must
/// read, else the service is at fault. The request must declare the
/// media type of a certification request, be one, and be signed with its
/// own key; each of its attributes must ask for extensions, and each
/// extension must be accepted by the verifier that reads it: else the
/// request is bad. If then nothing attests the request, it is
/// unauthorized.
pub open spec fn spec_check(
    verifiers: Verifiers,
    content_type: Option<Seq<char>>,
    body: Seq<u8>,
    crt: Seq<u8>,
    key: Seq<u8>,
) -> Result<ApprovedView, HttpError> {
    match certificate_fields(crt) {
        None => Err(HttpError::InternalServerError),
        Some(issuer) => if !is_private_key_info(key) {
            Err(HttpError::InternalServerError)
        } else if !spec_is_pkcs10(content_type) {
            Err(HttpError::BadRequest)
        } else {
            match request_fields(body) {
                None => Err(HttpError::BadRequest),
                Some(request) => if !spec_verify_as(
                    request.algorithm,
                    request.public_key,
                    request.info,
                    request.signature,
                ) {
                    Err(HttpError::BadRequest)
                } else {
                    match spec_examine_attributes(
                        verifiers,
                        request.public_key,
                        spec_debug_mode(issuer),
                        OutcomeView { attested: false, copied: Seq::empty() },
                        request.attributes,
                    ) {
                        None => Err(HttpError::BadRequest),
                        Some(outcome) => if !outcome.attested {
                            Err(HttpError::Unauthorized)
                        } else {
                            Ok(
                                ApprovedView {
                                    issuer,
                                    public_key: request.public_key,
                                    extensions: outcome.copied,
                                },
                            )
                        },
                    }
                },
            }
        },
    }
}

/// The judgement blames the service only where the issuer's certificate
/// or key does not read: with both in order, a request is approved, bad
/// or unauthorized.
pub proof fn lemma_check_blames_request(
    verifiers: Verifiers,
    content_type: Option<Seq<char>>,
    body: Seq<u8>,
    crt: Seq<u8>,
    key: Seq<u8>,
)
    requires
        certificate_fields(crt).is_some(),
        is_private_key_info(key),
    ensures
        spec_check(verifiers, content_type, body, crt, key) != Err::<ApprovedView, _>(
            HttpError::InternalServerError,
        ),
{
}

/// Whether a verifier reads `extension` and accepts it.
pub open spec fn spec_accepted(
    verifiers: Verifiers,
    public_key: Seq<u8>,
    dbg: bool,
    extension: ExtensionView,
) -> bool {
    match Kind::spec_lookup(extension.oid) {
        Some(kind) => verifiers.spec_verify(kind, public_key, extension.value, dbg).is_ok(),
        None => false,
    }
}

/// Whether attribute `a` asks for extensions, its value `v` is a list of
/// extensions, and a verifier reads extension `e` of that list and
/// accepts it.
pub open spec fn spec_accepted_at(
    verifiers: Verifiers,
    public_key: Seq<u8>,
    dbg: bool,
    attributes: Seq<AttributeView>,
    a: int,
    v: int,
    e: int,
) -> bool {
    &&& attributes[a].oid == extension_req_oid()
    &&& match requested_extensions(attributes[a].values[v]) {
        Some(list) => e < list.len() ==> spec_accepted(verifiers, public_key, dbg, list[e]),
        None => false,
    }
}

/// Every extension of a row that makes an outcome is accepted.
pub proof fn lemma_extensions_accepted(
    verifiers: Verifiers,
    public_key: Seq<u8>,
    dbg: bool,
    so_far: OutcomeView,
    extensions: Seq<ExtensionView>,
    e: int,
)
    requires
        spec_examine_extensions(verifiers, public_key, dbg, so_far, extensions).is_some(),
        0 <= e < extensions.len(),
    ensures
        spec_accepted(verifiers, public_key, dbg, extensions[e]),
    decreases extensions.len(),
{
    if e > 0 {
        let next = spec_examine(verifiers, public_key, dbg, so_far, extensions[0]).unwrap();
        let rest = extensions.drop_first();
        lemma_extensions_accepted(verifiers, public_key, dbg, next, rest, e - 1);
        assert(rest[e - 1] == extensions[e]);
    }
}

/// Every value of an attribute that makes an outcome is a list of
/// extensions, and every extension of it is accepted.
pub proof fn lemma_values_accepted(
    verifiers: Verifiers,
    public_key: Seq<u8>,
    dbg: bool,
    so_far: OutcomeView,
    values: Seq<Seq<u8>>,
    v: int,
    e: int,
)
    requires
        spec_examine_values(verifiers, public_key, dbg, so_far, values).is_some(),
        0 <= v < values.len(),
        0 <= e,
    ensures
        requested_extensions(values[v]) matches Some(list) && (e < list.len() ==> spec_accepted(
            verifiers,
            public_key,
            dbg,
            list[e],
        )),
    decreases values.len(),
{
    let list = requested_extensions(values[0]).unwrap();
    if v == 0 {
        if e < list.len() {
            lemma_extensions_accepted(verifiers, public_key, dbg, so_far, list, e);
        }
    } else {
        let next = spec_examine_extensions(verifiers, public_key, dbg, so_far, list).unwrap();
        let rest = values.drop_first();
        lemma_values_accepted(verifiers, public_key, dbg, next, rest, v - 1, e);
        assert(rest[v - 1] == values[v]);
    }
}

/// Every attribute of a request that makes an outcome asks for
/// extensions, and every extension that it asks for is accepted.
pub proof fn lemma_attributes_accepted(
    verifiers: Verifiers,
    public_key: Seq<u8>,
    dbg: bool,
    so_far: OutcomeView,
    attributes: Seq<AttributeView>,
    a: int,
    v: int,
    e: int,
)
    requires
        spec_examine_attributes(verifiers, public_key, dbg, so_far, attributes).is_some(),
        0 <= a < attributes.len(),
        0 <= v < attributes[a].values.len(),
        0 <= e,
    ensures
        spec_accepted_at(verifiers, public_key, dbg, attributes, a, v, e),
    decreases attributes.len(),
{
    if a == 0 {
        lemma_values_accepted(verifiers, public_key, dbg, so_far, attributes[0].values, v, e);
    } else {
        let next = spec_examine_values(
            verifiers,
            public_key,
            dbg,
            so_far,
            attributes[0].values,
        ).unwrap();
        let rest = attributes.drop_first();
        assert(rest[a - 1] == attributes[a]);
        lemma_attributes_accepted(verifiers, public_key, dbg, next, rest, a - 1, v, e);
    }
}

/// One extension that is turned down turns the request down: in a request
/// that is approved, every attribute asks for extensions, and a verifier
/// reads and accepts every extension that is asked for.
pub proof fn lemma_approved_is_accepted_throughout(
    verifiers: Verifiers,
    content_type: Option<Seq<char>>,
    body: Seq<u8>,
    crt: Seq<u8>,
    key: Seq<u8>,
    a: int,
    v: int,
    e: int,
)
    requires
        spec_check(verifiers, content_type, body, crt, key).is_ok(),
        0 <= a < request_fields(body).unwrap().attributes.len(),
        0 <= v < request_fields(body).unwrap().attributes[a].values.len(),
        0 <= e,
    ensures
        spec_accepted_at(
            verifiers,
            request_fields(body).unwrap().public_key,
            spec_debug_mode(certificate_fields(crt).unwrap()),
            request_fields(body).unwrap().attributes,
            a,
            v,
            e,
        ),
{
    let request = request_fields(body).unwrap();
    lemma_attributes_accepted(
        verifiers,
        request.public_key,
        spec_debug_mode(certificate_fields(crt).unwrap()),
        OutcomeView { attested: false, copied: Seq::empty() },
        request.attributes,
        a,
        v,
        e,
    );
}

/// An issuer that hangs from an authority approves no request that
/// carries the marker of a KVM guest.
pub proof fn lemma_kvm_needs_debug_mode(
    verifiers: Verifiers,
    content_type: Option<Seq<char>>,
    body: Seq<u8>,
    crt: Seq<u8>,
    key: Seq<u8>,
    a: int,
    v: int,
    e: int,
)
    requires
        spec_check(verifiers, content_type, body, crt, key).is_ok(),
        !spec_debug_mode(certificate_fields(crt).unwrap()),
        0 <= a < request_fields(body).unwrap().attributes.len(),
        0 <= v < request_fields(body).unwrap().attributes[a].values.len(),
        0 <= e < requested_extensions(
            request_fields(body).unwrap().attributes[a].values[v],
        ).unwrap().len(),
    ensures
        requested_extensions(request_fields(body).unwrap().attributes[a].values[v]).unwrap()[e].oid
            != kvm_oid(),
{
    lemma_approved_is_accepted_throughout(verifiers, content_type, body, crt, key, a, v, e);
    lemma_lookup_finds(Kind::Kvm);
}

/// Whether the verifier that reads `extension` accepts it, and its word
/// authorizes issuance.
pub open spec fn spec_vouches(
    verifiers: Verifiers,
    public_key: Seq<u8>,
    dbg: bool,
    extension: ExtensionView,
) -> bool {
    match Kind::spec_lookup(extension.oid) {
        Some(kind) => kind.spec_attests() && verifiers.spec_verify(
            kind,
            public_key,
            extension.value,
            dbg,
        ).is_ok(),
        None => false,
    }
}

/// Whether extension `e` of value `v` of attribute `a` vouches for the
/// request.
pub open spec fn spec_vouches_at(
    verifiers: Verifiers,
    public_key: Seq<u8>,
    dbg: bool,
    attributes: Seq<AttributeView>,
    a: int,
    v: int,
    e: int,
) -> bool {
    &&& 0 <= a < attributes.len()
    &&& 0 <= v < attributes[a].values.len()
    &&& match requested_extensions(attributes[a].values[v]) {
        Some(list) => 0 <= e < list.len() && spec_vouches(verifiers, public_key, dbg, list[e]),
        None => false,
    }
}

/// A row of extensions that turns an outcome without attestation into
/// one with attestation holds an extension that vouches.
pub proof fn lemma_extension_vouches(
    verifiers: Verifiers,
    public_key: Seq<u8>,
    dbg: bool,
    so_far: OutcomeView,
    extensions: Seq<ExtensionView>,
) -> (e: int)
    requires
        !so_far.attested,
        spec_examine_extensions(verifiers, public_key, dbg, so_far, extensions) matches Some(
            outcome,
        ) && outcome.attested,
    ensures
        0 <= e < extensions.len(),
        spec_vouches(verifiers, public_key, dbg, extensions[e]),
    decreases extensions.len(),
{
    let next = spec_examine(verifiers, public_key, dbg, so_far, extensions[0]).unwrap();
    if next.attested {
        0
    } else {
        let rest = extensions.drop_first();
        let e = lemma_extension_vouches(verifiers, public_key, dbg, next, rest);
        assert(rest[e] == extensions[e + 1]);
        e + 1
    }
}

/// The values of an attribute that turn an outcome without attestation
/// into one with attestation hold an extension that vouches.
pub proof fn lemma_value_vouches(
    verifiers: Verifiers,
    public_key: Seq<u8>,
    dbg: bool,
    so_far: OutcomeView,
    values: Seq<Seq<u8>>,
) -> (at: (int, int))
    requires
        !so_far.attested,
        spec_examine_values(verifiers, public_key, dbg, so_far, values) matches Some(outcome)
            && outcome.attested,
    ensures
        0 <= at.0 < values.len(),
        requested_extensions(values[at.0]) matches Some(list) && 0 <= at.1 < list.len()
            && spec_vouches(verifiers, public_key, dbg, list[at.1]),
    decreases values.len(),
{
    let list = requested_extensions(values[0]).unwrap();
    let next = spec_examine_extensions(verifiers, public_key, dbg, so_far, list).unwrap();
    if next.attested {
        let e = lemma_extension_vouches(verifiers, public_key, dbg, so_far, list);
        (0, e)
    } else {
        let rest = values.drop_first();
        let (v, e) = lemma_value_vouches(verifiers, public_key, dbg, next, rest);
        assert(rest[v] == values[v + 1]);
        (v + 1, e)
    }
}

/// The attributes that turn an outcome without attestation into one with
/// attestation hold an extension that vouches.
pub proof fn lemma_attribute_vouches(
    verifiers: Verifiers,
    public_key: Seq<u8>,
    dbg: bool,
    so_far: OutcomeView,
    attributes: Seq<AttributeView>,
) -> (at: (int, int, int))
    requires
        !so_far.attested,
        spec_examine_attributes(verifiers, public_key, dbg, so_far, attributes) matches Some(
            outcome,
        ) && outcome.attested,
    ensures
        spec_vouches_at(verifiers, public_key, dbg, attributes, at.0, at.1, at.2),
    decreases attributes.len(),
{
    let next = spec_examine_values(
        verifiers,
        public_key,
        dbg,
        so_far,
        attributes[0].values,
    ).unwrap();
    if next.attested {
        let (v, e) = lemma_value_vouches(verifiers, public_key, dbg, so_far, attributes[0].values);
        (0, v, e)
    } else {
        let rest = attributes.drop_first();
        let (a, v, e) = lemma_attribute_vouches(verifiers, public_key, dbg, next, rest);
        assert(rest[a] == attributes[a + 1]);
        (a + 1, v, e)
    }
}

/// Nothing is issued on nobody's word: a request that is approved holds
/// an extension that its verifier accepts and whose verifier's word
/// authorizes issuance.
pub proof fn lemma_approved_is_vouched_for(
    verifiers: Verifiers,
    content_type: Option<Seq<char>>,
    body: Seq<u8>,
    crt: Seq<u8>,
    key: Seq<u8>,
)
    requires
        spec_check(verifiers, content_type, body, crt, key).is_ok(),
    ensures
        exists|a: int, v: int, e: int| #[trigger]
            spec_vouches_at(
                verifiers,
                request_fields(body).unwrap().public_key,
                spec_debug_mode(certificate_fields(crt).unwrap()),
                request_fields(body).unwrap().attributes,
                a,
                v,
                e,
            ),
{
    let request = request_fields(body).unwrap();
    let dbg = spec_debug_mode(certificate_fields(crt).unwrap());
    let (a, v, e) = lemma_attribute_vouches(
        verifiers,
        request.public_key,
        dbg,
        OutcomeView { attested: false, copied: Seq::empty() },
        request.attributes,
    );
    assert(spec_vouches_at(verifiers, request.public_key, dbg, request.attributes, a, v, e));
}

/// Hands one extension to its verifier and adds the answer to `so_far`.
pub fn examine(
    verifiers: &Verifiers,
    public_key: &[u8],
    dbg: bool,
    so_far: Outcome,
    extension: &Extension,
) -> (outcome: Option<Outcome>)
    ensures
        outcome.deep_view() == spec_examine(
            *verifiers,
            public_key@,
            dbg,
            so_far.deep_view(),
            extension.deep_view(),
        ),
{
    let kind = match Kind::lookup(extension.oid.as_slice()) {
        Some(kind) => kind,
        None => {
            return None;
        },
    };
    let copy = match verifiers.verify(kind, public_key, extension.value.as_slice(), dbg) {
        Ok(copy) => copy,
        Err(_) => {
            return None;
        },
    };
    let mut outcome = so_far;
    let ghost before = outcome.copied.deep_view();
    outcome.attested = outcome.attested || kind.attests();
    if copy {
        outcome.copied.push(extension.copy());
        assert(outcome.copied.deep_view() =~= before.push(extension.deep_view()));
    }
    Some(outcome)
}

/// Hands each extension of a row to its verifier.
pub fn examine_extensions(
    verifiers: &Verifiers,
    public_key: &[u8],
    dbg: bool,
    so_far: Outcome,
    extensions: &Vec<Extension>,
) -> (outcome: Option<Outcome>)
    ensures
        outcome.deep_view() == spec_examine_extensions(
            *verifiers,
            public_key@,
            dbg,
            so_far.deep_view(),
            extensions.deep_view(),
        ),
{
    let ghost all = extensions.deep_view();
    let ghost start = so_far.deep_view();
    let mut outcome = so_far;
    let mut i: usize = 0;
    assert(all.skip(0) =~= all);
    while i < extensions.len()
        invariant
            i <= extensions@.len(),
            all == extensions.deep_view(),
            start == so_far.deep_view(),
            spec_examine_extensions(*verifiers, public_key@, dbg, start, all)
                == spec_examine_extensions(
                *verifiers,
                public_key@,
                dbg,
                outcome.deep_view(),
                all.skip(i as int),
            ),
        decreases extensions@.len() - i,
    {
        assert(all.skip(i as int)[0] == extensions@[i as int].deep_view());
        assert(all.skip(i as int).drop_first() =~= all.skip(i + 1));
        outcome = match examine(verifiers, public_key, dbg, outcome, &extensions[i]) {
            Some(next) => next,
            None => {
                return None;
            },
        };
        i += 1;
    }
    Some(outcome)
}

/// Reads each value of an attribute as requested extensions and hands
/// them to their verifiers.
pub fn examine_values(
    verifiers: &Verifiers,
    public_key: &[u8],
    dbg: bool,
    so_far: Outcome,
    values: &Vec<Vec<u8>>,
) -> (outcome: Option<Outcome>)
    ensures
        outcome.deep_view() == spec_examine_values(
            *verifiers,
            public_key@,
            dbg,
            so_far.deep_view(),
            strings(values@),
        ),
{
    let ghost all = strings(values@);
    let ghost start = so_far.deep_view();
    let mut outcome = so_far;
    let mut i: usize = 0;
    assert(all.skip(0) =~= all);
    while i < values.len()
        invariant
            i <= values@.len(),
            all == strings(values@),
            start == so_far.deep_view(),
            spec_examine_values(*verifiers, public_key@, dbg, start, all) == spec_examine_values(
                *verifiers,
                public_key@,
                dbg,
                outcome.deep_view(),
                all.skip(i as int),
            ),
        decreases values@.len() - i,
    {
        assert(all.skip(i as int)[0] == values@[i as int]@);
        assert(all.skip(i as int).drop_first() =~= all.skip(i + 1));
        let extensions = match parse_extension_req(values[i].as_slice()) {
            Some(extensions) => extensions,
            None => {
                return None;
            },
        };
        outcome = match examine_extensions(verifiers, public_key, dbg, outcome, &extensions) {
            Some(next) => next,
            None => {
                return None;
            },
        };
        i += 1;
    }
    Some(outcome)
}

/// Checks that each attribute asks for extensions, and hands these to
/// their verifiers.
pub fn examine_attributes(
    verifiers: &Verifiers,
    public_key: &[u8],
    dbg: bool,
    so_far: Outcome,
    attributes: &Vec<Attribute>,
) -> (outcome: Option<Outcome>)
    ensures
        outcome.deep_view() == spec_examine_attributes(
            *verifiers,
            public_key@,
            dbg,
            so_far.deep_view(),
            attributes.deep_view(),
        ),
{
    let ghost all = attributes.deep_view();
    let ghost start = so_far.deep_view();
    let wanted: Vec<u8> = vec![0x2au8, 0x86, 0x48, 0x86, 0xf7, 0x0d, 0x01, 0x09, 0x0e];
    assert(wanted@ =~= extension_req_oid());
    let mut outcome = so_far;
    let mut i: usize = 0;
    assert(all.skip(0) =~= all);
    while i < attributes.len()
        invariant
            i <= attributes@.len(),
            all == attributes.deep_view(),
            start == so_far.deep_view(),
            wanted@ == extension_req_oid(),
            spec_examine_attributes(*verifiers, public_key@, dbg, start, all)
                == spec_examine_attributes(
                *verifiers,
                public_key@,
                dbg,
                outcome.deep_view(),
                all.skip(i as int),
            ),
        decreases attributes@.len() - i,
    {
        assert(all.skip(i as int)[0] == attributes@[i as int].deep_view());
        assert(all.skip(i as int).drop_first() =~= all.skip(i + 1));
        if !same(attributes[i].oid.as_slice(), wanted.as_slice()) {
            return None;
        }
        outcome = match examine_values(verifiers, public_key, dbg, outcome, &attributes[i].values) {
            Some(next) => next,
            None => {
                return None;
            },
        };
        i += 1;
    }
    Some(outcome)
}

/// Judges a request: whether it may be answered with a certificate, and
/// with which extensions.
pub fn check(
    verifiers: &Verifiers,
    content_type: Option<&str>,
    body: &[u8],
    crt: &[u8],
    key: &Secret,
) -> (approved: Result<Approved, HttpError>)
    ensures
        match approved {
            Ok(a) => spec_check(
                *verifiers,
                declared(content_type),
                body@,
                crt@,
                key@,
            ) == Ok::<_, HttpError>(a.deep_view()),
            Err(e) => spec_check(
                *verifiers,
                declared(content_type),
                body@,
                crt@,
                key@,
            ) == Err::<ApprovedView, _>(e),
        },
{
    let issuer = match parse_certificate(crt) {
        Some(issuer) => issuer,
        None => {
            return Err(HttpError::InternalServerError);
        },
    };
    if !private_key_info_ok(key) {
        return Err(HttpError::InternalServerError);
    }
    if !is_pkcs10(content_type) {
        return Err(HttpError::BadRequest);
    }
    let request = match parse_request(body) {
        Some(request) => request,
        None => {
            return Err(HttpError::BadRequest);
        },
    };
    if !verify_as(
        request.algorithm.as_slice(),
        request.public_key.as_slice(),
        request.info.as_slice(),
        request.signature.as_slice(),
    ) {
        return Err(HttpError::BadRequest);
    }
    let dbg = debug_mode(&issuer);
    let nothing = Outcome { attested: false, copied: Vec::new() };
    assert(nothing.copied.deep_view() =~= Seq::<ExtensionView>::empty());
    let outcome = match examine_attributes(
        verifiers,
        request.public_key.as_slice(),
        dbg,
        nothing,
        &request.attributes,
    ) {
        Some(outcome) => outcome,
        None => {
            return Err(HttpError::BadRequest);
        },
    };
    if !outcome.attested {
        return Err(HttpError::Unauthorized);
    }
    Ok(Approved { issuer, public_key: request.public_key, extensions: outcome.copied })
}

} // verus!
