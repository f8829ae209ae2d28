use steward::bytes::{all_zero, append, same};
use steward::der::{first, frame, head, OCTET_STRING, SEQUENCE};
use steward::ext::sgx::key_info;
use steward::ext::sgx::quote;
use steward::ext::snp::report;
use steward::ext::snp::evidence;
use steward::leaf::{same_number, serial, significant_from, subject};
use steward::name::{common_name, plain, plain_text};
use steward::path::{decode, encode, is_sequence};

#[test]
fn bytes_are_compared_and_copied() {
    assert!(same(&[], &[]));
    assert!(same(&[1, 2, 3], &[1, 2, 3]));
    assert!(!same(&[1, 2, 3], &[1, 2, 4]));
    assert!(!same(&[1, 2, 3], &[1, 2]));
    let mut buffer = vec![1u8, 2];
    append(&mut buffer, &[3, 4, 5]);
    assert_eq!(buffer, [1, 2, 3, 4, 5]);
    append(&mut buffer, &[]);
    assert_eq!(buffer, [1, 2, 3, 4, 5]);
    assert!(all_zero(&[]));
    assert!(all_zero(&[0, 0, 0]));
    assert!(!all_zero(&[0, 0, 1]));
}

#[test]
fn lengths_take_their_shortest_form() {
    for (len, octets) in [
        (0usize, vec![0x00u8]),
        (1, vec![0x01]),
        (0x7f, vec![0x7f]),
        (0x80, vec![0x81, 0x80]),
        (0xff, vec![0x81, 0xff]),
        (0x100, vec![0x82, 0x01, 0x00]),
        (0xffff, vec![0x82, 0xff, 0xff]),
        (0x1_0000, vec![0x83, 0x01, 0x00, 0x00]),
        (0x12_3456, vec![0x83, 0x12, 0x34, 0x56]),
        (0x100_0000, vec![0x84, 0x01, 0x00, 0x00, 0x00]),
    ] {
        let content = vec![0x5au8; len];
        let framed = frame(OCTET_STRING, &content).unwrap();
        assert_eq!(framed[0], 0x04);
        assert_eq!(&framed[1..1 + octets.len()], &octets[..], "{}", len);
        assert_eq!(framed.len(), 1 + octets.len() + len);
        assert_eq!(first(&framed), Some((0x04, 1 + octets.len(), framed.len())));
        let h = head(&framed).unwrap();
        assert_eq!((h.tag, h.head_len, h.content_len), (0x04, 1 + octets.len(), len));

        // What the `der` crate writes is the same.
        let theirs = der::Encode::to_der(&der::asn1::OctetString::new(content).unwrap()).unwrap();
        assert_eq!(framed, theirs);
    }
}

#[test]
fn heads_that_are_not_der_are_refused() {
    assert!(head(&[]).is_none());
    assert!(head(&[0x30]).is_none());
    // A length that a shorter form could hold.
    assert!(head(&[0x30, 0x81, 0x7f]).is_none());
    assert!(head(&[0x30, 0x82, 0x00, 0xff]).is_none());
    assert!(head(&[0x30, 0x83, 0x00, 0xff, 0xff]).is_none());
    assert!(head(&[0x30, 0x84, 0x00, 0xff, 0xff, 0xff]).is_none());
    // No length at all, a length without end, a length that is too wide.
    assert!(head(&[0x30, 0x80]).is_none());
    assert!(head(&[0x30, 0x85, 1, 0, 0, 0, 0]).is_none());
    assert!(head(&[0x30, 0xff]).is_none());
    // Length octets that are cut short.
    assert!(head(&[0x30, 0x82, 0x01]).is_none());
    // A content that is cut short has a head, and is no element.
    assert!(head(&[0x30, 0x02, 0x00]).is_some());
    assert_eq!(first(&[0x30, 0x02, 0x00]), None);
    assert_eq!(first(&[0x30, 0x02, 0x00, 0x01, 0x02]), Some((0x30, 2, 4)));
}

#[test]
fn path_holds_its_certificates_in_order() {
    let issuer = frame(SEQUENCE, &[1, 2, 3]).unwrap();
    let leaf = frame(SEQUENCE, &vec![9u8; 300]).unwrap();
    let path = encode(&issuer, &leaf).unwrap();
    assert_eq!(path[0], 0x30);
    assert_eq!(&path[1..4], &[0x82, 0x01, 0x35]);
    assert_eq!(&path[4..9], &issuer[..]);
    assert_eq!(&path[9..], &leaf[..]);
    assert_eq!(decode(&path), Some(vec![issuer.clone(), leaf.clone()]));
    assert_eq!(decode(&encode(&leaf, &issuer).unwrap()), Some(vec![leaf.clone(), issuer.clone()]));

    assert!(is_sequence(&issuer));
    assert!(!is_sequence(&issuer[..4]));
    assert!(!is_sequence(&[]));
    assert_eq!(encode(&issuer[..4], &leaf), None);
    assert_eq!(encode(&issuer, &[0x04, 0x00]), None);
    let mut trailing = issuer.clone();
    trailing.push(0);
    assert_eq!(encode(&trailing, &leaf), None);
}

#[test]
fn path_that_is_no_row_of_sequences_is_refused() {
    assert_eq!(decode(&[]), None);
    assert_eq!(decode(&[0x30, 0x00]), Some(vec![]));
    assert_eq!(decode(&[0x30, 0x00, 0x00]), None);
    assert_eq!(decode(&[0x31, 0x00]), None);
    assert_eq!(decode(&[0x30, 0x02, 0x04, 0x00]), None);
    assert_eq!(decode(&[0x30, 0x03, 0x30, 0x00, 0x30]), None);
    assert_eq!(decode(&[0x30, 0x04, 0x30, 0x00, 0x30, 0x00]), Some(vec![vec![0x30, 0x00]; 2]));
    assert_eq!(decode(&[0x30, 0x04, 0x30, 0x03, 0x30, 0x00]), None);
}

#[test]
fn serial_is_written_most_significant_octet_first() {
    assert_eq!(serial(0), [0u8; 8]);
    assert_eq!(serial(1), [0, 0, 0, 0, 0, 0, 0, 1]);
    assert_eq!(serial(0x0102_0304_0506_0708), [1, 2, 3, 4, 5, 6, 7, 8]);
    assert_eq!(serial(u64::MAX), [0xff; 8]);
    assert_eq!(serial(0xdead_beef), 0xdead_beefu64.to_be_bytes());
    assert_ne!(serial(256), serial(1));
}

#[test]
fn zero_octets_in_front_do_not_change_a_number() {
    assert_eq!(significant_from(&[]), 0);
    assert_eq!(significant_from(&[0]), 0);
    assert_eq!(significant_from(&[0, 0]), 1);
    assert_eq!(significant_from(&[0, 0, 5, 0]), 2);
    assert_eq!(significant_from(&[7, 0]), 0);
    assert!(same_number(&[0, 0, 1], &[1]));
    assert!(same_number(&[0], &[0, 0, 0]));
    assert!(same_number(&[0, 0x80], &[0x80]));
    assert!(same_number(&serial(0x0102), &[1, 2]));
    assert!(!same_number(&[1, 0], &[1]));
    assert!(!same_number(&[0, 1], &[0, 2]));
    assert!(!same_number(&[], &[0]));
    assert!(same_number(&[], &[]));
}

#[test]
fn subject_is_named_after_the_label() {
    let text = subject(b"0a1b").unwrap();
    assert_eq!(text, b"CN=0a1b.foo.bar.hub.profian.com");
    assert_eq!(subject(b"").unwrap(), b"CN=.foo.bar.hub.profian.com");
    let label = b"7b1c2d3e-0f1a-4b2c-8d3e-4f5a6b7c8d9e";
    let text = subject(label).unwrap();
    assert_eq!(&text[..3], b"CN=");
    assert_eq!(&text[3..39], label);
    assert_eq!(&text[39..], b".foo.bar.hub.profian.com");

    // A label that would spell more than a value names nothing.
    assert_eq!(subject(b"a,b"), None);
    assert_eq!(subject(b"a+1.2=b"), None);
    assert_eq!(subject(b"a b"), None);
    assert_eq!(subject(b"#04"), None);
    assert_eq!(subject(b"a\\b"), None);
    assert_eq!(subject(&[0xc3, 0xa9]), None);
}

#[test]
fn plain_texts_are_letters_digits_dot_hyphen_and_underscore() {
    for octet in 0..=255u8 {
        let expected = octet.is_ascii_alphanumeric() || octet == b'.' || octet == b'-' || octet == b'_';
        assert_eq!(plain(octet), expected, "{}", octet);
        assert_eq!(plain_text(&[b'a', octet, b'z']), expected, "{}", octet);
    }
    assert!(plain_text(b""));
    assert!(plain_text(b"steward-1.example_host"));
    assert!(!plain_text(b"x,99999999999=y"));

    assert_eq!(common_name(b"host.example"), Some(b"CN=host.example".to_vec()));
    assert_eq!(common_name(b""), Some(b"CN=".to_vec()));
    assert_eq!(common_name(b"x,99999999999=y"), None);
    assert_eq!(common_name(b"a=b"), None);
}

#[test]
fn key_info_wraps_the_point() {
    let key = p256::ecdsa::SigningKey::random(&mut rand_core::OsRng);
    let point = key.verifying_key().to_encoded_point(false);
    let info = key_info(&point.as_bytes()[1..]);
    let theirs = p256::pkcs8::EncodePublicKey::to_public_key_der(key.verifying_key()).unwrap();
    assert_eq!(info, theirs.as_bytes());
}

fn sample_quote(auth: &[u8], certs: &[u8]) -> Vec<u8> {
    let mut q: Vec<u8> = (0..1012u32).map(|i| (i % 253) as u8).collect();
    q[0..2].copy_from_slice(&3u16.to_le_bytes());
    q[2..4].copy_from_slice(&2u16.to_le_bytes());
    q.extend_from_slice(&(auth.len() as u16).to_le_bytes());
    q.extend_from_slice(auth);
    q.extend_from_slice(&5u16.to_le_bytes());
    q.extend_from_slice(&(certs.len() as u32).to_le_bytes());
    q.extend_from_slice(certs);
    let len = (q.len() - 436) as u32;
    q[432..436].copy_from_slice(&len.to_le_bytes());
    q
}

#[test]
fn quote_is_taken_apart_by_its_layout() {
    let bytes = sample_quote(b"auth", b"certificates");
    let q = quote::parse(&bytes).unwrap();
    assert_eq!(q.qe_svn, u16::from_le_bytes([bytes[8], bytes[9]]));
    assert_eq!(q.pce_svn, u16::from_le_bytes([bytes[10], bytes[11]]));
    assert_eq!(q.qe_vendor_id, &bytes[12..28]);
    assert_eq!(q.user_data, &bytes[28..48]);
    assert_eq!(q.signed, &bytes[..432]);
    assert_eq!(q.signature, &bytes[436..500]);
    assert_eq!(q.attestation_key, &bytes[500..564]);
    assert_eq!(q.qe_signed, &bytes[564..948]);
    assert_eq!(q.qe_signature, &bytes[948..1012]);
    assert_eq!(q.qe_auth, b"auth");
    assert_eq!(q.cert_data, b"certificates");

    let body = &bytes[48..432];
    assert_eq!(q.report.cpu_svn, &body[0..16]);
    assert_eq!(q.report.misc_select, u32::from_le_bytes([body[16], body[17], body[18], body[19]]));
    assert_eq!(q.report.attributes, &body[48..64]);
    assert_eq!(q.report.mr_enclave, &body[64..96]);
    assert_eq!(q.report.mr_signer, &body[128..160]);
    assert_eq!(q.report.isv_prod_id, u16::from_le_bytes([body[256], body[257]]));
    assert_eq!(q.report.isv_svn, u16::from_le_bytes([body[258], body[259]]));
    assert_eq!(q.report.report_data, &body[320..384]);
    assert_eq!(q.qe_report.report_data, &bytes[564 + 320..948]);
    assert_eq!(q.qe_report.mr_signer, &bytes[564 + 128..564 + 160]);

    let empty = sample_quote(b"", b"");
    assert_eq!(empty.len(), quote::MIN_LEN);
    let q = quote::parse(&empty).unwrap();
    assert!(q.qe_auth.is_empty() && q.cert_data.is_empty());
}

#[test]
fn quote_with_a_wrong_structure_is_refused() {
    let good = sample_quote(b"auth", b"certificates");
    assert!(quote::parse(&good).is_some());
    assert!(quote::parse(&good[..good.len() - 1]).is_none());
    assert!(quote::parse(&good[..1019]).is_none());
    let mut longer = good.clone();
    longer.push(0);
    assert!(quote::parse(&longer).is_none());

    // Version, key type, length of the signature section, length of the
    // authentication data, type and length of the certification data.
    for (at, value) in [(0usize, 4u8), (2, 3), (432, 0), (1012, 5), (1013, 1), (1018, 4), (1020, 13)] {
        let mut bad = good.clone();
        bad[at] = value;
        assert!(quote::parse(&bad).is_none(), "{}", at);
    }
}

#[test]
fn report_is_taken_apart_by_its_layout() {
    let mut bytes: Vec<u8> = (0..1184u32).map(|i| (i % 251) as u8).collect();
    bytes[0x180..0x188].copy_from_slice(&[0xff; 8]);
    let r = report::parse(&bytes).unwrap();
    assert_eq!(r.reported_tcb, u64::MAX);
    assert_eq!(r.version, 0x0302_0100);
    assert_eq!(r.policy, 0x0f0e_0d0c_0b0a_0908);
    let u32_at = |at: usize| u32::from_le_bytes(bytes[at..at + 4].try_into().unwrap());
    let u64_at = |at: usize| u64::from_le_bytes(bytes[at..at + 8].try_into().unwrap());
    assert_eq!(r.version, u32_at(0));
    assert_eq!(r.guest_svn, u32_at(4));
    assert_eq!(r.policy, u64_at(8));
    assert_eq!(r.family_id, &bytes[0x10..0x20]);
    assert_eq!(r.image_id, &bytes[0x20..0x30]);
    assert_eq!(r.vmpl, u32_at(0x30));
    assert_eq!(r.signature_algo, u32_at(0x34));
    assert_eq!(r.current_tcb, u64_at(0x38));
    assert_eq!(r.platform_info, u64_at(0x40));
    assert_eq!(r.report_data, &bytes[0x50..0x90]);
    assert_eq!(r.measurement, &bytes[0x90..0xc0]);
    assert_eq!(r.host_data, &bytes[0xc0..0xe0]);
    assert_eq!(r.id_key_digest, &bytes[0xe0..0x110]);
    assert_eq!(r.author_key_digest, &bytes[0x110..0x140]);
    assert_eq!(r.report_id, &bytes[0x140..0x160]);
    assert_eq!(r.report_id_ma, &bytes[0x160..0x180]);
    assert_eq!(r.reported_tcb, u64_at(0x180));
    assert_eq!(r.chip_id, &bytes[0x1a0..0x1e0]);
    assert_eq!(r.signed, &bytes[..672]);
    assert_eq!(r.r, &bytes[672..744]);
    assert_eq!(r.s, &bytes[744..816]);

    assert!(report::parse(&bytes[1..]).is_none());
    assert!(report::parse(&[]).is_none());
    let mut longer = bytes.clone();
    longer.push(0);
    assert!(report::parse(&longer).is_none());
}

#[test]
fn report_signature_is_turned_around() {
    let mut r = [0u8; 72];
    let mut s = [0u8; 72];
    for i in 0..48 {
        r[i] = i as u8;
        s[i] = 0x80 + i as u8;
    }
    let fixed = report::signature(&r, &s).unwrap();
    assert_eq!(fixed.len(), 96);
    assert_eq!(fixed[0], 47);
    assert_eq!(fixed[47], 0);
    assert_eq!(fixed[48], 0x80 + 47);
    assert_eq!(fixed[95], 0x80);
    let turned: Vec<u8> = r[..48].iter().rev().chain(s[..48].iter().rev()).copied().collect();
    assert_eq!(fixed, turned);

    for at in [48usize, 60, 71] {
        let mut wide = r;
        wide[at] = 1;
        assert_eq!(report::signature(&wide, &s), None);
        assert_eq!(report::signature(&r, &wide), None);
    }
    assert_eq!(report::signature(&r[..71], &s), None);
    assert_eq!(report::signature(&r, &[]), None);
}

#[test]
fn policy_tells_whether_a_guest_can_be_debugged() {
    assert!(!report::debuggable(0));
    assert!(report::debuggable(1 << 19));
    assert!(report::debuggable(u64::MAX));
    assert!(!report::debuggable(!(1u64 << 19)));
    assert!(!report::debuggable(1 << 18));
    assert!(!report::debuggable(1 << 20));
}

#[test]
fn evidence_is_a_certificate_and_a_report() {
    let vcek = frame(SEQUENCE, &[1, 2, 3]).unwrap();
    let rprt = frame(OCTET_STRING, &[4, 5]).unwrap();
    let both = [vcek.clone(), rprt.clone()].concat();
    let value = frame(SEQUENCE, &both).unwrap();
    let e = evidence(&value).unwrap();
    assert_eq!(e.vcek, &vcek[..]);
    assert_eq!(e.report, &[4, 5]);

    assert!(evidence(&[]).is_none());
    assert!(evidence(&both).is_none());
    assert!(evidence(&frame(OCTET_STRING, &both).unwrap()).is_none());
    assert!(evidence(&frame(SEQUENCE, &vcek).unwrap()).is_none());
    assert!(evidence(&frame(SEQUENCE, &[rprt.clone(), vcek.clone()].concat()).unwrap()).is_none());
    assert!(evidence(&frame(SEQUENCE, &[vcek.clone(), vcek.clone()].concat()).unwrap()).is_none());
    assert!(evidence(&frame(SEQUENCE, &[both.clone(), vec![0]].concat()).unwrap()).is_none());
    let mut trailing = value.clone();
    trailing.push(0);
    assert!(evidence(&trailing).is_none());
}
