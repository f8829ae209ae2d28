//! The issuance engine: from an approved request to the certificate and
//! the path that answers it, and from a request as it comes in to its
//! answer.

use vstd::prelude::*;
use vstd::slice::slice_to_vec;
use crate::bytes::optional;
use crate::crypto::{algorithm_of, ecdsa_with_sha256, spec_verify_as, Scheme, Secret};
use crate::ext::Verifiers;
use crate::fresh::{spec_uuid_v4, unix_now, uuid_v4};
use crate::judge::{check, spec_check, Approved, ApprovedView};
use crate::leaf::{
    lemma_serials_differ, optional_text, serial, sign, sound, spec_minimal, spec_serial,
    spec_sign, spec_sound, spec_subject, spec_with_alt_name, subject, version, version_3,
    with_alt_name,
};
use crate::media::declared;
use crate::name::spec_plain_text;
use crate::path::{encode, lemma_decode_encoded, spec_decode, spec_encode};
use crate::state::State;
use crate::status::HttpError;
use crate::x509::{
    certificate_fields, encode_extensions, encode_name, encode_validity, extensions_der,
    name_der, request_fields, validity_der, Certificate, Tbs, TbsView,
};

verus! {

/// The seconds for which an issued certificate is valid.
pub const LIFETIME: u64 = 86400;

/// The DER of the name of the subject with the label `uuid`. Nothing
/// where the label is not spelled plainly, or the name cannot be encoded.
pub open spec fn spec_subject_der(uuid: Seq<u8>) -> Option<Seq<u8>> {
    if spec_plain_text(uuid) {
        name_der(spec_subject(uuid))
    } else {
        None
    }
}

/// The body of the certificate for an approved request: of version 3,
/// with the serial number `serial`, valid for a day from `now`, issued by the subject of
/// the issuer's certificate to a subject named after `uuid`, with the
/// key of the request, the copied extensions and the configured
/// alternative name. Nothing where a part cannot be encoded.
pub open spec fn spec_leaf(
    approved: ApprovedView,
    san: Option<Seq<char>>,
    serial: u64,
    now: u64,
    uuid: Seq<u8>,
) -> Option<TbsView> {
    if now + LIFETIME > u64::MAX {
        None
    } else {
        match validity_der(now, (now + LIFETIME) as u64) {
            None => None,
            Some(validity) => match spec_subject_der(uuid) {
                None => None,
                Some(subject) => match spec_with_alt_name(approved.extensions, san) {
                    None => None,
                    Some(list) => match extensions_der(list) {
                        None => None,
                        Some(extensions) => Some(
                            TbsView {
                                version: version_3(),
                                serial: spec_serial(serial),
                                algorithm: ecdsa_with_sha256(),
                                issuer: approved.issuer.subject,
                                validity,
                                subject,
                                public_key: approved.public_key,
                                issuer_unique_id: approved.issuer.subject_unique_id,
                                subject_unique_id: None,
                                extensions,
                            },
                        ),
                    },
                },
            },
        }
    }
}

/// The certificate for an approved request, signed with the issuer's
/// key. Nothing where it cannot be made, or where what was made does not
/// read back with the serial number that was drawn, the issuer's name,
/// the key of the request and a signature that verifies under the key of
/// the issuer's certificate.
pub open spec fn spec_certify(
    approved: ApprovedView,
    key: Seq<u8>,
    san: Option<Seq<char>>,
    serial: u64,
    now: u64,
    uuid: Seq<u8>,
) -> Option<Seq<u8>> {
    match spec_leaf(approved, san, serial, now, uuid) {
        None => None,
        Some(fields) => match spec_sign(key, fields) {
            None => None,
            Some(cert) => if spec_sound(
                approved.issuer.public_key,
                approved.issuer.subject,
                approved.public_key,
                spec_serial(serial),
                cert,
            ) {
                Some(cert)
            } else {
                None
            },
        },
    }
}

/// The answer to an approved request: the path of the issuer's
/// certificate `crt` and the new certificate, or an internal error where
/// the certificate or the path cannot be made.
pub open spec fn spec_issue(
    approved: ApprovedView,
    crt: Seq<u8>,
    key: Seq<u8>,
    san: Option<Seq<char>>,
    serial: u64,
    now: u64,
    uuid: Seq<u8>,
) -> Result<Seq<u8>, HttpError> {
    match spec_certify(approved, key, san, serial, now, uuid) {
        None => Err(HttpError::InternalServerError),
        Some(cert) => match spec_encode(crt, cert) {
            None => Err(HttpError::InternalServerError),
            Some(path) => Ok(path),
        },
    }
}

/// Puts together the body of the certificate for an approved request.
pub fn leaf(approved: Approved, san: &Option<String>, number: u64, now: u64, uuid: &[u8]) -> (fields:
    Option<Tbs>)
    ensures
        fields.deep_view() == spec_leaf(
            approved.deep_view(),
            optional_text(*san),
            number,
            now,
            uuid@,
        ),
{
    if now > u64::MAX - LIFETIME {
        return None;
    }
    let validity = match encode_validity(now, now + LIFETIME) {
        Some(validity) => validity,
        None => {
            return None;
        },
    };
    let text = match subject(uuid) {
        Some(text) => text,
        None => {
            return None;
        },
    };
    let subject = match encode_name(text.as_slice()) {
        Some(subject) => subject,
        None => {
            return None;
        },
    };
    let Approved { issuer, public_key, extensions } = approved;
    let list = match with_alt_name(extensions, san) {
        Some(list) => list,
        None => {
            return None;
        },
    };
    let extensions = match encode_extensions(&list) {
        Some(extensions) => extensions,
        None => {
            return None;
        },
    };
    let Certificate { subject: issuer_name, subject_unique_id, .. } = issuer;
    Some(
        Tbs {
            version: version(),
            serial: serial(number),
            algorithm: algorithm_of(Scheme::P256),
            issuer: issuer_name,
            validity,
            subject,
            public_key,
            issuer_unique_id: subject_unique_id,
            subject_unique_id: None,
            extensions,
        },
    )
}

/// Makes and signs the certificate for an approved request, and checks
/// what was made.
pub fn certify(
    approved: Approved,
    key: &Secret,
    san: &Option<String>,
    number: u64,
    now: u64,
    uuid: &[u8],
) -> (cert: Option<Vec<u8>>)
    ensures
        optional(cert) == spec_certify(
            approved.deep_view(),
            key@,
            optional_text(*san),
            number,
            now,
            uuid@,
        ),
{
    let issuer_key = slice_to_vec(approved.issuer.public_key.as_slice());
    let issuer_name = slice_to_vec(approved.issuer.subject.as_slice());
    let public_key = slice_to_vec(approved.public_key.as_slice());
    let fields = match leaf(approved, san, number, now, uuid) {
        Some(fields) => fields,
        None => {
            return None;
        },
    };
    let cert = match sign(key, &fields) {
        Some(cert) => cert,
        None => {
            return None;
        },
    };
    let number = serial(number);
    if sound(
        issuer_key.as_slice(),
        issuer_name.as_slice(),
        public_key.as_slice(),
        number.as_slice(),
        cert.as_slice(),
    ).is_none() {
        return None;
    }
    Some(cert)
}

/// Answers an approved request, given the serial number, the time and
/// the label that were drawn for it.
pub fn issue(
    approved: Approved,
    crt: &[u8],
    key: &Secret,
    san: &Option<String>,
    number: u64,
    now: u64,
    uuid: &[u8],
) -> (answer: Result<Vec<u8>, HttpError>)
    ensures
        match answer {
            Ok(path) => spec_issue(
                approved.deep_view(),
                crt@,
                key@,
                optional_text(*san),
                number,
                now,
                uuid@,
            ) == Ok::<_, HttpError>(path@),
            Err(e) => spec_issue(
                approved.deep_view(),
                crt@,
                key@,
                optional_text(*san),
                number,
                now,
                uuid@,
            ) == Err::<Seq<u8>, _>(e),
        },
{
    let cert = match certify(approved, key, san, number, now, uuid) {
        Some(cert) => cert,
        None => {
            return Err(HttpError::InternalServerError);
        },
    };
    match encode(crt, cert.as_slice()) {
        Some(path) => Ok(path),
        None => Err(HttpError::InternalServerError),
    }
}

/// Whether `path` answers the request `body` of an issuer with the
/// certificate `crt`: it holds two certificates, the first is `crt` octet
/// for octet, the second carries the key of the request octet for octet
/// and names the subject of the first as its issuer, and the signature
/// of the second verifies under the key of the first.
pub open spec fn spec_answers(crt: Seq<u8>, body: Seq<u8>, path: Seq<u8>) -> bool {
    match (spec_decode(path), certificate_fields(crt), request_fields(body)) {
        (Some(certs), Some(issuer), Some(request)) => {
            &&& certs.len() == 2
            &&& certs[0] == crt
            &&& match certificate_fields(certs[1]) {
                Some(leaf) => {
                    &&& leaf.public_key == request.public_key
                    &&& leaf.issuer == issuer.subject
                    &&& spec_verify_as(
                        leaf.algorithm,
                        issuer.public_key,
                        leaf.tbs,
                        leaf.signature,
                    )
                },
                None => false,
            }
        },
        _ => false,
    }
}

/// Whatever serial number, time and label are drawn: where a request is
/// approved and answered, the answer is a path of exactly two
/// certificates, the issuer's own and one that carries the key of the
/// request and verifies under the issuer's key.
pub proof fn lemma_issued_answers(
    verifiers: Verifiers,
    content_type: Option<Seq<char>>,
    body: Seq<u8>,
    crt: Seq<u8>,
    key: Seq<u8>,
    san: Option<Seq<char>>,
    serial: u64,
    now: u64,
    uuid: Seq<u8>,
)
    requires
        spec_check(verifiers, content_type, body, crt, key).is_ok(),
        spec_issue(
            spec_check(verifiers, content_type, body, crt, key).unwrap(),
            crt,
            key,
            san,
            serial,
            now,
            uuid,
        ).is_ok(),
    ensures
        spec_answers(
            crt,
            body,
            spec_issue(
                spec_check(verifiers, content_type, body, crt, key).unwrap(),
                crt,
                key,
                san,
                serial,
                now,
                uuid,
            ).unwrap(),
        ),
{
    let approved = spec_check(verifiers, content_type, body, crt, key).unwrap();
    let cert = spec_certify(approved, key, san, serial, now, uuid).unwrap();
    lemma_decode_encoded(crt, cert);
}

/// Certificates that are made for numbers that differ carry serial
/// numbers that differ, whatever else they are made from. So as long as
/// no two requests draw the same number, no two certificates share a
/// serial number.
pub proof fn lemma_distinct_serials(
    first: ApprovedView,
    second: ApprovedView,
    key: Seq<u8>,
    san: Option<Seq<char>>,
    numbers: (u64, u64),
    times: (u64, u64),
    labels: (Seq<u8>, Seq<u8>),
)
    requires
        numbers.0 != numbers.1,
        spec_certify(first, key, san, numbers.0, times.0, labels.0).is_some(),
        spec_certify(second, key, san, numbers.1, times.1, labels.1).is_some(),
    ensures
        spec_minimal(
            certificate_fields(
                spec_certify(first, key, san, numbers.0, times.0, labels.0).unwrap(),
            ).unwrap().serial,
        ) != spec_minimal(
            certificate_fields(
                spec_certify(second, key, san, numbers.1, times.1, labels.1).unwrap(),
            ).unwrap().serial,
        ),
{
    lemma_serials_differ(numbers.0, numbers.1);
}

/// Whether `path` is the answer to an approved request for some serial
/// number, some time and some label that is a UUID of version 4.
pub open spec fn spec_issued(
    approved: ApprovedView,
    crt: Seq<u8>,
    key: Seq<u8>,
    san: Option<Seq<char>>,
    path: Seq<u8>,
) -> bool {
    exists|serial: u64, now: u64, uuid: Seq<u8>|
        spec_uuid_v4(uuid) && #[trigger] spec_issue(approved, crt, key, san, serial, now, uuid)
            == Ok::<_, HttpError>(path)
}

/// Answers a request: judges it, and where it is approved, draws a
/// serial number, the time and a label, and issues the certificate.
///
/// A request that is turned down is answered with the error of the
/// judgement, and no serial number is drawn for it. An approved request
/// is answered with what `spec_issue` gives for what was drawn: some
/// number, some time, and a label that is a UUID of version 4.
pub fn attest(content_type: Option<&str>, body: &[u8], state: &State, verifiers: &Verifiers) -> (answer:
    Result<Vec<u8>, HttpError>)
    ensures
        match spec_check(
            *verifiers,
            declared(content_type),
            body@,
            state.crt@,
            state.key@,
        ) {
            Err(e) => answer == Err::<Vec<u8>, _>(e),
            Ok(approved) => match answer {
                Ok(path) => spec_issued(
                    approved,
                    state.crt@,
                    state.key@,
                    optional_text(state.san),
                    path@,
                ),
                Err(e) => e == HttpError::InternalServerError,
            },
        },
        answer matches Ok(path) ==> spec_answers(state.crt@, body@, path@),
{
    let approved = match check(verifiers, content_type, body, state.crt.as_slice(), &state.key) {
        Ok(approved) => approved,
        Err(e) => {
            return Err(e);
        },
    };
    let now = match unix_now() {
        Some(now) => now,
        None => {
            return Err(HttpError::InternalServerError);
        },
    };
    let uuid = uuid_v4();
    let number = state.next_serial();
    let answer = issue(
        approved,
        state.crt.as_slice(),
        &state.key,
        &state.san,
        number,
        now,
        uuid.as_slice(),
    );
    proof {
        if answer.is_ok() {
            let ghost approved = spec_check(
                *verifiers,
                declared(content_type),
                body@,
                state.crt@,
                state.key@,
            ).unwrap();
            assert(spec_issue(
                approved,
                state.crt@,
                state.key@,
                optional_text(state.san),
                number,
                now,
                uuid@,
            ) == Ok::<_, HttpError>(answer.unwrap()@));
            lemma_issued_answers(
                *verifiers,
                declared(content_type),
                body@,
                state.crt@,
                state.key@,
                optional_text(state.san),
                number,
                now,
                uuid@,
            );
        }
    }
    answer
}

} // verus!
