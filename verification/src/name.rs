//! The names that are made here. Each has one part, a common name, and
//! its value is spelled with letters, digits, `.`, `-` and `_` alone:
//! what a host's name or a label needs, and nothing that the string form
//! of a distinguished name reads as more than the value.

use vstd::prelude::*;
use crate::bytes::append;

verus! {

/// Whether an octet is a letter, a digit, `.`, `-` or `_`.
pub open spec fn spec_plain(octet: u8) -> bool {
    ||| 0x30 <= octet <= 0x39
    ||| 0x41 <= octet <= 0x5a
    ||| 0x61 <= octet <= 0x7a
    ||| octet == 0x2d
    ||| octet == 0x2e
    ||| octet == 0x5f
}

/// Whether a text is spelled with letters, digits, `.`, `-` and `_` alone.
pub open spec fn spec_plain_text(text: Seq<u8>) -> bool {
    forall|i: int| 0 <= i < text.len() ==> spec_plain(#[trigger] text[i])
}

/// The octets of `CN=`.
pub open spec fn common_name_head() -> Seq<u8> {
    seq![0x43u8, 0x4e, 0x3d]
}

/// The text that names the one part whose common name is `value`.
pub open spec fn spec_common_name(value: Seq<u8>) -> Seq<u8> {
    common_name_head() + value
}

/// Whether a text is `CN=` and a value that is spelled plainly.
pub open spec fn spec_names_one(text: Seq<u8>) -> bool {
    &&& text.len() >= 3
    &&& text.subrange(0, 3) == common_name_head()
    &&& spec_plain_text(text.subrange(3, text.len() as int))
}

/// Whether an octet is a letter, a digit, `.`, `-` or `_`.
pub fn plain(octet: u8) -> (ok: bool)
    ensures
        ok == spec_plain(octet),
{
    (0x30 <= octet && octet <= 0x39) || (0x41 <= octet && octet <= 0x5a) || (0x61 <= octet
        && octet <= 0x7a) || octet == 0x2d || octet == 0x2e || octet == 0x5f
}

/// Whether a text is spelled with letters, digits, `.`, `-` and `_` alone.
pub fn plain_text(text: &[u8]) -> (ok: bool)
    ensures
        ok == spec_plain_text(text@),
{
    let mut i: usize = 0;
    while i < text.len()
        invariant
            i <= text@.len(),
            forall|j: int| 0 <= j < i ==> spec_plain(#[trigger] text@[j]),
        decreases text@.len() - i,
    {
        if !plain(text[i]) {
            return false;
        }
        i += 1;
    }
    true
}

/// A plain value behind `CN=` is the text of a name of one part.
pub proof fn lemma_common_name_names_one(value: Seq<u8>)
    requires
        spec_plain_text(value),
    ensures
        spec_names_one(spec_common_name(value)),
{
    let text = spec_common_name(value);
    assert(text.subrange(0, 3) =~= common_name_head());
    assert(text.subrange(3, text.len() as int) =~= value);
}

/// Two plain texts in a row are a plain text.
pub proof fn lemma_plain_texts_join(first: Seq<u8>, second: Seq<u8>)
    requires
        spec_plain_text(first),
        spec_plain_text(second),
    ensures
        spec_plain_text(first + second),
{
    let both = first + second;
    assert forall|i: int| 0 <= i < both.len() implies spec_plain(#[trigger] both[i]) by {
        if i < first.len() {
            assert(both[i] == first[i]);
        } else {
            assert(both[i] == second[i - first.len()]);
        }
    }
}

/// Writes the text that names the one part whose common name is `value`,
/// if the value is spelled plainly.
pub fn common_name(value: &[u8]) -> (text: Option<Vec<u8>>)
    ensures
        text.is_some() == spec_plain_text(value@),
        text matches Some(t) ==> t@ == spec_common_name(value@) && spec_names_one(t@),
{
    if !plain_text(value) {
        return None;
    }
    let mut text: Vec<u8> = vec![0x43u8, 0x4e, 0x3d];
    assert(text@ =~= common_name_head());
    append(&mut text, value);
    proof {
        lemma_common_name_names_one(value@);
    }
    Some(text)
}

} // verus!
