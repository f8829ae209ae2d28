//! What goes into an issued certificate, and how it is put together and
//! signed.

use vstd::prelude::*;
use crate::bytes::{append, optional, same};
use crate::name::{
    common_name, lemma_plain_texts_join, plain_text, spec_common_name, spec_names_one, spec_plain,
    spec_plain_text,
};
use crate::crypto::{
    algorithm_of, ecdsa_with_sha256, p256_sign, p256_signature, spec_verify_as, verify_as,
    Scheme, Secret,
};
use crate::x509::{
    certificate_der, certificate_fields, dns_alt_name_der, encode_certificate,
    encode_dns_alt_name, encode_tbs, parse_certificate, tbs_der, Certificate, Extension,
    ExtensionView, Tbs, TbsView,
};

verus! {

/// The eight octets of a serial number, most significant first.
pub open spec fn spec_serial(number: u64) -> Seq<u8> {
    let d1 = number / 0x100;
    let d2 = d1 / 0x100;
    let d3 = d2 / 0x100;
    let d4 = d3 / 0x100;
    let d5 = d4 / 0x100;
    let d6 = d5 / 0x100;
    let d7 = d6 / 0x100;
    seq![
        d7 as u8,
        (d6 % 0x100) as u8,
        (d5 % 0x100) as u8,
        (d4 % 0x100) as u8,
        (d3 % 0x100) as u8,
        (d2 % 0x100) as u8,
        (d1 % 0x100) as u8,
        (number % 0x100) as u8,
    ]
}

/// Writes a serial number as eight octets, most significant first.
pub fn serial(number: u64) -> (octets: Vec<u8>)
    ensures
        octets@ == spec_serial(number),
        octets@.len() == 8,
        spec_value(octets@) == number,
{
    let d1: u64 = number / 0x100;
    let d2: u64 = d1 / 0x100;
    let d3: u64 = d2 / 0x100;
    let d4: u64 = d3 / 0x100;
    let d5: u64 = d4 / 0x100;
    let d6: u64 = d5 / 0x100;
    let d7: u64 = d6 / 0x100;
    let octets = vec![
        d7 as u8,
        (d6 % 0x100) as u8,
        (d5 % 0x100) as u8,
        (d4 % 0x100) as u8,
        (d3 % 0x100) as u8,
        (d2 % 0x100) as u8,
        (d1 % 0x100) as u8,
        (number % 0x100) as u8,
    ];
    assert(octets@ =~= spec_serial(number));
    proof {
        lemma_value_of_serial(number);
    }
    octets
}

/// A number without the zero octets that stand before its first
/// significant octet. Zero keeps one octet.
pub open spec fn spec_minimal(octets: Seq<u8>) -> Seq<u8>
    decreases octets.len(),
{
    if octets.len() > 1 && octets[0] == 0 {
        spec_minimal(octets.drop_first())
    } else {
        octets
    }
}

/// The number that octets spell, most significant first.
pub open spec fn spec_value(octets: Seq<u8>) -> nat
    decreases octets.len(),
{
    if octets.len() == 0 {
        0
    } else {
        spec_value(octets.drop_last()) * 0x100 + octets.last() as nat
    }
}

/// Where the significant octets of a number begin.
pub fn significant_from(octets: &[u8]) -> (from: usize)
    ensures
        from <= octets@.len(),
        spec_minimal(octets@) == octets@.subrange(from as int, octets@.len() as int),
{
    let len = octets.len();
    let mut from: usize = 0;
    assert(octets@.subrange(0, len as int) =~= octets@);
    while len - from > 1 && octets[from] == 0
        invariant
            from <= len,
            len == octets@.len(),
            spec_minimal(octets@) == spec_minimal(octets@.subrange(from as int, len as int)),
        decreases len - from,
    {
        assert(octets@.subrange(from as int, len as int).drop_first() =~= octets@.subrange(
            from + 1,
            len as int,
        ));
        from += 1;
    }
    from
}

/// Whether two numbers, each written most significant octet first, are
/// the same but for zero octets in front.
pub fn same_number(a: &[u8], b: &[u8]) -> (equal: bool)
    ensures
        equal == (spec_minimal(a@) == spec_minimal(b@)),
{
    let from_a = significant_from(a);
    let from_b = significant_from(b);
    same(
        vstd::slice::slice_subrange(a, from_a, a.len()),
        vstd::slice::slice_subrange(b, from_b, b.len()),
    )
}

/// A zero octet in front changes nothing of the number that octets spell.
pub proof fn lemma_value_of_zero_in_front(octets: Seq<u8>)
    requires
        octets.len() > 0,
        octets[0] == 0,
    ensures
        spec_value(octets) == spec_value(octets.drop_first()),
    decreases octets.len(),
{
    let rest = octets.drop_first();
    if octets.len() == 1 {
        assert(spec_value(octets.drop_last()) == 0);
        assert(spec_value(rest) == 0);
    } else {
        lemma_value_of_zero_in_front(octets.drop_last());
        assert(octets.drop_last().drop_first() =~= rest.drop_last());
        assert(octets.last() == rest.last());
        assert(spec_value(octets) == spec_value(octets.drop_last()) * 0x100 + octets.last());
        assert(spec_value(rest) == spec_value(rest.drop_last()) * 0x100 + rest.last());
    }
}

/// The zero octets in front change nothing of the number that octets
/// spell.
pub proof fn lemma_value_of_minimal(octets: Seq<u8>)
    ensures
        spec_value(spec_minimal(octets)) == spec_value(octets),
    decreases octets.len(),
{
    if octets.len() > 1 && octets[0] == 0 {
        lemma_value_of_minimal(octets.drop_first());
        lemma_value_of_zero_in_front(octets);
    }
}

/// The octets of a serial number spell that number.
pub proof fn lemma_value_of_serial(number: u64)
    ensures
        spec_value(spec_serial(number)) == number,
{
    let s8 = spec_serial(number);
    let s7 = s8.drop_last();
    let s6 = s7.drop_last();
    let s5 = s6.drop_last();
    let s4 = s5.drop_last();
    let s3 = s4.drop_last();
    let s2 = s3.drop_last();
    let s1 = s2.drop_last();
    let s0 = s1.drop_last();
    assert(s0.len() == 0);
    assert(spec_value(s0) == 0);
    assert(spec_value(s1) == spec_value(s0) * 0x100 + s1.last());
    assert(spec_value(s2) == spec_value(s1) * 0x100 + s2.last());
    assert(spec_value(s3) == spec_value(s2) * 0x100 + s3.last());
    assert(spec_value(s4) == spec_value(s3) * 0x100 + s4.last());
    assert(spec_value(s5) == spec_value(s4) * 0x100 + s5.last());
    assert(spec_value(s6) == spec_value(s5) * 0x100 + s6.last());
    assert(spec_value(s7) == spec_value(s6) * 0x100 + s7.last());
    assert(spec_value(s8) == spec_value(s7) * 0x100 + s8.last());
    let d1 = number / 0x100;
    let d2 = d1 / 0x100;
    let d3 = d2 / 0x100;
    let d4 = d3 / 0x100;
    let d5 = d4 / 0x100;
    let d6 = d5 / 0x100;
    let d7 = d6 / 0x100;
    assert(d7 < 0x100);
    assert(s1.last() == s8[0] && s2.last() == s8[1] && s3.last() == s8[2] && s4.last() == s8[3]);
    assert(s5.last() == s8[4] && s6.last() == s8[5] && s7.last() == s8[6]);
    assert(spec_value(s1) == d7);
    assert(spec_value(s2) == d6);
    assert(spec_value(s3) == d5);
    assert(spec_value(s4) == d4);
    assert(spec_value(s5) == d3);
    assert(spec_value(s6) == d2);
    assert(spec_value(s7) == d1);
}

/// Numbers that differ are written with serial numbers that differ, with
/// or without the zero octets in front.
pub proof fn lemma_serials_differ(a: u64, b: u64)
    requires
        a != b,
    ensures
        spec_serial(a) != spec_serial(b),
        spec_minimal(spec_serial(a)) != spec_minimal(spec_serial(b)),
{
    lemma_value_of_serial(a);
    lemma_value_of_serial(b);
    lemma_value_of_minimal(spec_serial(a));
    lemma_value_of_minimal(spec_serial(b));
}

/// The number that a draw gets before which `earlier` draws were made,
/// on a counter that started at `first` and moves on by one with every
/// draw, from the greatest number on to zero. This is what the counter
/// of the state is documented to do; what an atomic holds is beyond
/// contracts, so nothing ties a draw to this number but that document.
pub open spec fn spec_drawn(first: usize, earlier: nat) -> usize
    recommends
        earlier <= usize::MAX,
{
    if first + earlier <= usize::MAX {
        (first + earlier) as usize
    } else {
        (first + earlier - usize::MAX - 1) as usize
    }
}

/// Until a counter has given out every number once, no two draws get the
/// same number, and so no two certificates the same serial number.
pub proof fn lemma_draws_differ(first: usize, one: nat, other: nat)
    requires
        one != other,
        one <= usize::MAX,
        other <= usize::MAX,
    ensures
        spec_drawn(first, one) != spec_drawn(first, other),
        spec_minimal(spec_serial(spec_drawn(first, one) as u64)) != spec_minimal(
            spec_serial(spec_drawn(first, other) as u64),
        ),
{
    lemma_serials_differ(spec_drawn(first, one) as u64, spec_drawn(first, other) as u64);
}

/// The DER of version 3, the version of every certificate that is made
/// here: each holds extensions.
pub open spec fn version_3() -> Seq<u8> {
    seq![0x02u8, 0x01, 0x02]
}

/// Writes the DER of version 3.
pub fn version() -> (der: Vec<u8>)
    ensures
        der@ == version_3(),
{
    let der: Vec<u8> = vec![0x02u8, 0x01, 0x02];
    assert(der@ =~= version_3());
    der
}

/// The octets of `.foo.bar.hub.profian.com`, under which every subject
/// is named.
pub open spec fn domain() -> Seq<u8> {
    seq![
        0x2eu8, 0x66, 0x6f, 0x6f, 0x2e, 0x62, 0x61, 0x72, 0x2e, 0x68, 0x75, 0x62, 0x2e, 0x70, 0x72,
        0x6f, 0x66, 0x69, 0x61, 0x6e, 0x2e, 0x63, 0x6f, 0x6d,
    ]
}

/// The text that names the subject of an issued certificate: the common
/// name is `uuid`, a label of its own, under `foo.bar.hub.profian.com`.
pub open spec fn spec_subject(uuid: Seq<u8>) -> Seq<u8> {
    spec_common_name(uuid + domain())
}

/// The domain is spelled plainly.
pub proof fn lemma_domain_is_plain()
    ensures
        spec_plain_text(domain()),
{
    let d = domain();
    assert(spec_plain(d[0]) && spec_plain(d[1]) && spec_plain(d[2]) && spec_plain(d[3]));
    assert(spec_plain(d[4]) && spec_plain(d[5]) && spec_plain(d[6]) && spec_plain(d[7]));
    assert(spec_plain(d[8]) && spec_plain(d[9]) && spec_plain(d[10]) && spec_plain(d[11]));
    assert(spec_plain(d[12]) && spec_plain(d[13]) && spec_plain(d[14]) && spec_plain(d[15]));
    assert(spec_plain(d[16]) && spec_plain(d[17]) && spec_plain(d[18]) && spec_plain(d[19]));
    assert(spec_plain(d[20]) && spec_plain(d[21]) && spec_plain(d[22]) && spec_plain(d[23]));
}

/// Writes the text that names the subject of an issued certificate, if
/// the label is spelled plainly.
pub fn subject(uuid: &[u8]) -> (text: Option<Vec<u8>>)
    ensures
        text.is_some() == spec_plain_text(uuid@),
        text matches Some(t) ==> t@ == spec_subject(uuid@) && spec_names_one(t@),
{
    if !plain_text(uuid) {
        return None;
    }
    let mut value: Vec<u8> = Vec::new();
    append(&mut value, uuid);
    let tail: Vec<u8> = vec![
        0x2eu8, 0x66, 0x6f, 0x6f, 0x2e, 0x62, 0x61, 0x72, 0x2e, 0x68, 0x75, 0x62, 0x2e, 0x70, 0x72,
        0x6f, 0x66, 0x69, 0x61, 0x6e, 0x2e, 0x63, 0x6f, 0x6d,
    ];
    assert(tail@ =~= domain());
    append(&mut value, tail.as_slice());
    assert(value@ =~= uuid@ + domain());
    proof {
        lemma_domain_is_plain();
        lemma_plain_texts_join(uuid@, domain());
    }
    common_name(value.as_slice())
}

/// The content octets of 2.5.29.17, the subject alternative name.
pub open spec fn subject_alt_name_oid() -> Seq<u8> {
    seq![0x55u8, 0x1d, 0x11]
}

/// The characters of a text that may be absent.
pub open spec fn optional_text(text: Option<String>) -> Option<Seq<char>> {
    match text {
        Some(t) => Some(t@),
        None => None,
    }
}

/// The extensions of an issued certificate: those that were copied from
/// the request and, where the service is configured with a DNS name, a
/// subject alternative name that holds it, not critical, at the end.
pub open spec fn spec_with_alt_name(copied: Seq<ExtensionView>, san: Option<Seq<char>>) -> Option<
    Seq<ExtensionView>,
> {
    match san {
        None => Some(copied),
        Some(name) => match dns_alt_name_der(name) {
            None => None,
            Some(value) => Some(
                copied.push(
                    ExtensionView { oid: subject_alt_name_oid(), critical: false, value },
                ),
            ),
        },
    }
}

/// Adds the configured subject alternative name to the copied extensions.
pub fn with_alt_name(copied: Vec<Extension>, san: &Option<String>) -> (extensions: Option<
    Vec<Extension>,
>)
    ensures
        extensions.deep_view() == spec_with_alt_name(copied.deep_view(), optional_text(*san)),
{
    let mut extensions = copied;
    match san {
        None => Some(extensions),
        Some(name) => match encode_dns_alt_name(name.as_str()) {
            None => None,
            Some(value) => {
                let ghost before = extensions.deep_view();
                let oid: Vec<u8> = vec![0x55u8, 0x1d, 0x11];
                assert(oid@ =~= subject_alt_name_oid());
                let added = Extension { oid, critical: false, value };
                extensions.push(added);
                assert(extensions.deep_view() =~= before.push(added.deep_view()));
                Some(extensions)
            },
        },
    }
}

/// The certificate that comes of signing the body `fields` with the
/// P-256 key `key`.
pub open spec fn spec_sign(key: Seq<u8>, fields: TbsView) -> Option<Seq<u8>> {
    match tbs_der(fields) {
        None => None,
        Some(tbs) => match p256_signature(key, tbs) {
            None => None,
            Some(signature) => certificate_der(tbs, ecdsa_with_sha256(), signature),
        },
    }
}

/// Encodes the body `fields`, signs it with the P-256 key `key`, and
/// puts body and signature together.
pub fn sign(key: &Secret, fields: &Tbs) -> (cert: Option<Vec<u8>>)
    ensures
        optional(cert) == spec_sign(key@, fields.deep_view()),
{
    let tbs = match encode_tbs(fields) {
        Some(tbs) => tbs,
        None => {
            return None;
        },
    };
    let signature = match p256_sign(key, tbs.as_slice()) {
        Some(signature) => signature,
        None => {
            return None;
        },
    };
    let algorithm = algorithm_of(Scheme::P256);
    encode_certificate(tbs.as_slice(), algorithm.as_slice(), signature.as_slice())
}

/// Whether `cert` is what was asked for: it reads as a certificate with
/// the serial number `serial`, names `issuer_name` as its issuer, holds
/// the key `public_key`, and its signature verifies under `issuer_key`.
pub open spec fn spec_sound(
    issuer_key: Seq<u8>,
    issuer_name: Seq<u8>,
    public_key: Seq<u8>,
    serial: Seq<u8>,
    cert: Seq<u8>,
) -> bool {
    match certificate_fields(cert) {
        None => false,
        Some(fields) => {
            &&& spec_minimal(fields.serial) == spec_minimal(serial)
            &&& fields.issuer == issuer_name
            &&& fields.public_key == public_key
            &&& spec_verify_as(fields.algorithm, issuer_key, fields.tbs, fields.signature)
        },
    }
}

/// Reads a certificate that was just made and checks that it is what was
/// asked for. A certificate that is, is handed back as it was read.
pub fn sound(
    issuer_key: &[u8],
    issuer_name: &[u8],
    public_key: &[u8],
    serial: &[u8],
    cert: &[u8],
) -> (fields: Option<Certificate>)
    ensures
        fields.is_some() == spec_sound(issuer_key@, issuer_name@, public_key@, serial@, cert@),
        fields.is_some() ==> fields.deep_view() == certificate_fields(cert@),
{
    match parse_certificate(cert) {
        None => None,
        Some(fields) => {
            if same_number(fields.serial.as_slice(), serial) && same(
                fields.issuer.as_slice(),
                issuer_name,
            ) && same(fields.public_key.as_slice(), public_key) && verify_as(
                fields.algorithm.as_slice(),
                issuer_key,
                fields.tbs.as_slice(),
                fields.signature.as_slice(),
            ) {
                Some(fields)
            } else {
                None
            }
        },
    }
}

} // verus!
