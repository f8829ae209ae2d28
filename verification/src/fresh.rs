//! What differs from one call to the next: the time of day, and labels
//! drawn at random.

use vstd::prelude::*;
use crate::name::{spec_plain, spec_plain_text};

verus! {

/// `std::time::SystemTime::now`, as whole seconds since
/// 1970-01-01T00:00:00Z; nothing where the clock stands before that.
/// Nothing is promised of the time.
#[verifier::external_body]
pub(crate) fn unix_now() -> (seconds: Option<u64>) {
    let now = std::time::SystemTime::now();
    Some(now.duration_since(std::time::UNIX_EPOCH).ok()?.as_secs())
}

/// Whether an octet is a hexadecimal digit in lower case.
pub open spec fn spec_hex(octet: u8) -> bool {
    ||| 0x30 <= octet <= 0x39
    ||| 0x61 <= octet <= 0x66
}

/// Whether a label is a UUID of version 4 as it is written out: 36
/// octets in five groups of hexadecimal digits in lower case with a
/// hyphen between them, the third group starting with `4`, the fourth
/// with `8`, `9`, `a` or `b`.
pub open spec fn spec_uuid_v4(label: Seq<u8>) -> bool {
    &&& label.len() == 36
    &&& forall|i: int|
        0 <= i < 36 ==> if i == 8 || i == 13 || i == 18 || i == 23 {
            #[trigger] label[i] == 0x2d
        } else {
            spec_hex(label[i])
        }
    &&& label[14] == 0x34
    &&& label[19] == 0x38 || label[19] == 0x39 || label[19] == 0x61 || label[19] == 0x62
}

/// A UUID as it is written out is spelled plainly.
pub proof fn lemma_uuid_is_plain(label: Seq<u8>)
    requires
        spec_uuid_v4(label),
    ensures
        spec_plain_text(label),
{
    assert forall|i: int| 0 <= i < label.len() implies spec_plain(#[trigger] label[i]) by {
        if i == 8 || i == 13 || i == 18 || i == 23 {
            assert(label[i] == 0x2d);
        } else {
            assert(spec_hex(label[i]));
        }
    }
}

/// `uuid::Uuid::new_v4`, written out as the crate writes it. The number
/// is random but for its version and variant, which `new_v4` sets; the
/// crate writes 32 hexadecimal digits in lower case, in groups of 8, 4,
/// 4, 4 and 12 with hyphens between them.
#[verifier::external_body]
pub(crate) fn uuid_v4() -> (label: Vec<u8>)
    ensures
        spec_uuid_v4(label@),
{
    uuid::Uuid::new_v4().to_string().into_bytes()
}

} // verus!
