//! The layout of an SEV-SNP attestation report: 1184 octets, of which the
//! first 672 are signed and the last 512 hold the signature.

use vstd::prelude::*;
use vstd::slice::slice_subrange;
use crate::bytes::{all_zero, le32, le64, read_le32, read_le64};

verus! {

/// The length of a report.
pub const REPORT_LEN: usize = 1184;

/// The length of what the signature covers.
pub const SIGNED_LEN: usize = 672;

/// The length that each half of the signature is given, least significant
/// octet first.
pub const HALF_LEN: usize = 72;

/// The length of a coordinate of P-384.
pub const FIELD_LEN: usize = 48;

/// The bit of the guest policy that allows debugging.
pub const POLICY_DEBUG: u64 = 0x8_0000;

/// An attestation report, taken apart.
pub struct Report<'a> {
    pub version: u32,
    pub guest_svn: u32,
    pub policy: u64,
    pub family_id: &'a [u8],
    pub image_id: &'a [u8],
    pub vmpl: u32,
    pub signature_algo: u32,
    pub current_tcb: u64,
    pub platform_info: u64,
    pub report_data: &'a [u8],
    pub measurement: &'a [u8],
    pub host_data: &'a [u8],
    pub id_key_digest: &'a [u8],
    pub author_key_digest: &'a [u8],
    pub report_id: &'a [u8],
    pub report_id_ma: &'a [u8],
    pub reported_tcb: u64,
    pub chip_id: &'a [u8],
    /// What the signature covers, as it stands in the report.
    pub signed: &'a [u8],
    /// The first half of the signature, least significant octet first.
    pub r: &'a [u8],
    /// The second half of the signature, least significant octet first.
    pub s: &'a [u8],
}

/// A `Report` as contracts see it.
pub struct ReportView {
    pub version: u32,
    pub guest_svn: u32,
    pub policy: u64,
    pub family_id: Seq<u8>,
    pub image_id: Seq<u8>,
    pub vmpl: u32,
    pub signature_algo: u32,
    pub current_tcb: u64,
    pub platform_info: u64,
    pub report_data: Seq<u8>,
    pub measurement: Seq<u8>,
    pub host_data: Seq<u8>,
    pub id_key_digest: Seq<u8>,
    pub author_key_digest: Seq<u8>,
    pub report_id: Seq<u8>,
    pub report_id_ma: Seq<u8>,
    pub reported_tcb: u64,
    pub chip_id: Seq<u8>,
    pub signed: Seq<u8>,
    pub r: Seq<u8>,
    pub s: Seq<u8>,
}

impl<'a> DeepView for Report<'a> {
    type V = ReportView;

    open spec fn deep_view(&self) -> ReportView {
        ReportView {
            version: self.version,
            guest_svn: self.guest_svn,
            policy: self.policy,
            family_id: self.family_id@,
            image_id: self.image_id@,
            vmpl: self.vmpl,
            signature_algo: self.signature_algo,
            current_tcb: self.current_tcb,
            platform_info: self.platform_info,
            report_data: self.report_data@,
            measurement: self.measurement@,
            host_data: self.host_data@,
            id_key_digest: self.id_key_digest@,
            author_key_digest: self.author_key_digest@,
            report_id: self.report_id@,
            report_id_ma: self.report_id_ma@,
            reported_tcb: self.reported_tcb,
            chip_id: self.chip_id@,
            signed: self.signed@,
            r: self.r@,
            s: self.s@,
        }
    }
}

/// The report that `bytes` spells, if it has the length of one.
pub open spec fn spec_parse(bytes: Seq<u8>) -> Option<ReportView> {
    if bytes.len() == REPORT_LEN {
        Some(
            ReportView {
                version: le32(bytes, 0x000) as u32,
                guest_svn: le32(bytes, 0x004) as u32,
                policy: le64(bytes, 0x008) as u64,
                family_id: bytes.subrange(0x010, 0x020),
                image_id: bytes.subrange(0x020, 0x030),
                vmpl: le32(bytes, 0x030) as u32,
                signature_algo: le32(bytes, 0x034) as u32,
                current_tcb: le64(bytes, 0x038) as u64,
                platform_info: le64(bytes, 0x040) as u64,
                report_data: bytes.subrange(0x050, 0x090),
                measurement: bytes.subrange(0x090, 0x0c0),
                host_data: bytes.subrange(0x0c0, 0x0e0),
                id_key_digest: bytes.subrange(0x0e0, 0x110),
                author_key_digest: bytes.subrange(0x110, 0x140),
                report_id: bytes.subrange(0x140, 0x160),
                report_id_ma: bytes.subrange(0x160, 0x180),
                reported_tcb: le64(bytes, 0x180) as u64,
                chip_id: bytes.subrange(0x1a0, 0x1e0),
                signed: bytes.subrange(0, 0x2a0),
                r: bytes.subrange(0x2a0, 0x2e8),
                s: bytes.subrange(0x2e8, 0x330),
            },
        )
    } else {
        None
    }
}

/// Reads a report.
pub fn parse<'a>(bytes: &'a [u8]) -> (report: Option<Report<'a>>)
    ensures
        report.deep_view() == spec_parse(bytes@),
{
    if bytes.len() != REPORT_LEN {
        return None;
    }
    Some(
        Report {
            version: read_le32(bytes, 0x000),
            guest_svn: read_le32(bytes, 0x004),
            policy: read_le64(bytes, 0x008),
            family_id: slice_subrange(bytes, 0x010, 0x020),
            image_id: slice_subrange(bytes, 0x020, 0x030),
            vmpl: read_le32(bytes, 0x030),
            signature_algo: read_le32(bytes, 0x034),
            current_tcb: read_le64(bytes, 0x038),
            platform_info: read_le64(bytes, 0x040),
            report_data: slice_subrange(bytes, 0x050, 0x090),
            measurement: slice_subrange(bytes, 0x090, 0x0c0),
            host_data: slice_subrange(bytes, 0x0c0, 0x0e0),
            id_key_digest: slice_subrange(bytes, 0x0e0, 0x110),
            author_key_digest: slice_subrange(bytes, 0x110, 0x140),
            report_id: slice_subrange(bytes, 0x140, 0x160),
            report_id_ma: slice_subrange(bytes, 0x160, 0x180),
            reported_tcb: read_le64(bytes, 0x180),
            chip_id: slice_subrange(bytes, 0x1a0, 0x1e0),
            signed: slice_subrange(bytes, 0, 0x2a0),
            r: slice_subrange(bytes, 0x2a0, 0x2e8),
            s: slice_subrange(bytes, 0x2e8, 0x330),
        },
    )
}

/// Whether the guest policy `policy` allows debugging.
pub open spec fn spec_debuggable(policy: u64) -> bool {
    policy & POLICY_DEBUG != 0
}

/// Whether the guest policy `policy` allows debugging.
pub fn debuggable(policy: u64) -> (allowed: bool)
    ensures
        allowed == spec_debuggable(policy),
{
    policy & POLICY_DEBUG != 0
}

/// A number of at most 48 octets, turned from least significant octet
/// first to most significant octet first.
pub open spec fn spec_turned(half: Seq<u8>) -> Seq<u8>
    recommends
        half.len() >= FIELD_LEN,
{
    Seq::new(FIELD_LEN as nat, |i: int| half[FIELD_LEN - 1 - i])
}

/// The signature of a report as `r` and `s`, 48 octets each, most
/// significant first; nothing where a half does not fit in 48 octets.
pub open spec fn spec_signature(r: Seq<u8>, s: Seq<u8>) -> Option<Seq<u8>> {
    if r.len() == HALF_LEN && s.len() == HALF_LEN && (forall|i: int|
        FIELD_LEN <= i < HALF_LEN ==> r[i] == 0) && (forall|i: int|
        FIELD_LEN <= i < HALF_LEN ==> s[i] == 0) {
        Some(spec_turned(r) + spec_turned(s))
    } else {
        None
    }
}

/// Writes the signature of a report as `r` and `s`, 48 octets each, most
/// significant first.
pub fn signature(r: &[u8], s: &[u8]) -> (fixed: Option<Vec<u8>>)
    ensures
        crate::bytes::optional(fixed) == spec_signature(r@, s@),
{
    if r.len() != HALF_LEN || s.len() != HALF_LEN {
        return None;
    }
    let r_high = slice_subrange(r, FIELD_LEN, HALF_LEN);
    let s_high = slice_subrange(s, FIELD_LEN, HALF_LEN);
    if !all_zero(r_high) {
        assert(exists|i: int| 0 <= i < r_high@.len() && r_high@[i] != 0);
        let ghost i = choose|i: int| 0 <= i < r_high@.len() && r_high@[i] != 0;
        assert(r@[FIELD_LEN + i] != 0);
        return None;
    }
    if !all_zero(s_high) {
        assert(exists|i: int| 0 <= i < s_high@.len() && s_high@[i] != 0);
        let ghost i = choose|i: int| 0 <= i < s_high@.len() && s_high@[i] != 0;
        assert(s@[FIELD_LEN + i] != 0);
        return None;
    }
    assert forall|i: int| FIELD_LEN <= i < HALF_LEN implies r@[i] == 0 by {
        assert(r_high@[i - FIELD_LEN] == 0);
    }
    assert forall|i: int| FIELD_LEN <= i < HALF_LEN implies s@[i] == 0 by {
        assert(s_high@[i - FIELD_LEN] == 0);
    }
    let mut fixed: Vec<u8> = Vec::new();
    let mut i: usize = 0;
    while i < FIELD_LEN
        invariant
            i <= FIELD_LEN,
            r@.len() == HALF_LEN,
            fixed@.len() == i,
            forall|j: int| 0 <= j < i ==> fixed@[j] == r@[FIELD_LEN - 1 - j],
        decreases FIELD_LEN - i,
    {
        fixed.push(r[FIELD_LEN - 1 - i]);
        i += 1;
    }
    let mut i: usize = 0;
    while i < FIELD_LEN
        invariant
            i <= FIELD_LEN,
            s@.len() == HALF_LEN,
            fixed@.len() == FIELD_LEN + i,
            forall|j: int| 0 <= j < FIELD_LEN ==> fixed@[j] == r@[FIELD_LEN - 1 - j],
            forall|j: int|
                FIELD_LEN <= j < FIELD_LEN + i ==> fixed@[j] == s@[2 * FIELD_LEN - 1 - j],
        decreases FIELD_LEN - i,
    {
        fixed.push(s[FIELD_LEN - 1 - i]);
        i += 1;
    }
    assert(fixed@ =~= spec_turned(r@) + spec_turned(s@));
    Some(fixed)
}

} // verus!
