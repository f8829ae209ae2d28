//! A `PkiPath`: certificates in a row, each one signed by the one before
//! it, framed as one DER sequence.

use vstd::prelude::*;
use vstd::slice::slice_subrange;
use crate::bytes::{append, copy_range, optional, optional_strings, strings};
use crate::der::{
    element, first, frame, is_one, lemma_first_of_prefix, lemma_read_written, spec_first,
    MAX_CONTENT, SEQUENCE,
};

verus! {

/// The path that holds the certificate `issuer` and then the certificate
/// `leaf`. Each must be one DER sequence, and both together must not be
/// longer than one element can hold.
pub open spec fn spec_encode(issuer: Seq<u8>, leaf: Seq<u8>) -> Option<Seq<u8>> {
    if is_one(issuer, SEQUENCE) && is_one(leaf, SEQUENCE) && issuer.len() + leaf.len()
        <= MAX_CONTENT {
        Some(element(SEQUENCE, issuer + leaf))
    } else {
        None
    }
}

/// The sequences that stand in a row in `content`, each with its head.
pub open spec fn spec_split(content: Seq<u8>) -> Option<Seq<Seq<u8>>>
    decreases content.len(),
{
    if content.len() == 0 {
        Some(Seq::empty())
    } else {
        match spec_first(content) {
            Some((tag, _, end)) => if tag == SEQUENCE && 0 < end <= content.len() {
                match spec_split(content.subrange(end, content.len() as int)) {
                    Some(rest) => Some(seq![content.subrange(0, end)] + rest),
                    None => None,
                }
            } else {
                None
            },
            None => None,
        }
    }
}

/// The certificates that the path `path` holds, in their order.
pub open spec fn spec_decode(path: Seq<u8>) -> Option<Seq<Seq<u8>>> {
    match spec_first(path) {
        Some((tag, start, end)) => if tag == SEQUENCE && end == path.len() {
            spec_split(path.subrange(start, end))
        } else {
            None
        },
        None => None,
    }
}

/// Whether `input` is exactly one DER sequence.
pub fn is_sequence(input: &[u8]) -> (ok: bool)
    ensures
        ok == is_one(input@, SEQUENCE),
{
    match first(input) {
        Some((tag, _, end)) => tag == SEQUENCE && end == input.len(),
        None => false,
    }
}

/// Writes the path that holds `issuer` and then `leaf`.
pub fn encode(issuer: &[u8], leaf: &[u8]) -> (path: Option<Vec<u8>>)
    ensures
        optional(path) == spec_encode(issuer@, leaf@),
{
    if !is_sequence(issuer) || !is_sequence(leaf) {
        return None;
    }
    if issuer.len() > MAX_CONTENT || leaf.len() > MAX_CONTENT - issuer.len() {
        return None;
    }
    let mut content: Vec<u8> = Vec::new();
    append(&mut content, issuer);
    append(&mut content, leaf);
    assert(content@ =~= issuer@ + leaf@);
    frame(SEQUENCE, content.as_slice())
}

/// Reads the certificates that a path holds.
pub fn decode(path: &[u8]) -> (certs: Option<Vec<Vec<u8>>>)
    ensures
        optional_strings(certs) == spec_decode(path@),
{
    let content = match first(path) {
        Some((tag, start, end)) => {
            if tag != SEQUENCE || end != path.len() {
                return None;
            }
            slice_subrange(path, start, end)
        },
        None => {
            return None;
        },
    };
    let len = content.len();
    let mut certs: Vec<Vec<u8>> = Vec::new();
    let mut at: usize = 0;
    assert(content@.subrange(0, len as int) =~= content@);
    assert forall|rest: Seq<Seq<u8>>| strings(certs@) + rest == rest by {
        assert(strings(certs@) + rest =~= rest);
    }
    while at < len
        invariant
            at <= len,
            len == content@.len(),
            spec_decode(path@) == spec_split(content@),
            spec_split(content@) == match spec_split(content@.subrange(at as int, len as int)) {
                Some(rest) => Some(strings(certs@) + rest),
                None => None,
            },
        decreases len - at,
    {
        let ghost before = strings(certs@);
        let ghost tail = content@.subrange(at as int, len as int);
        let here = slice_subrange(content, at, len);
        match first(here) {
            Some((tag, _, end)) => {
                if tag != SEQUENCE || end == 0 {
                    return None;
                }
                certs.push(copy_range(here, 0, end));
                at += end;
                assert(tail.subrange(end as int, tail.len() as int) =~= content@.subrange(
                    at as int,
                    len as int,
                ));
                assert(strings(certs@) =~= before + seq![tail.subrange(0, end as int)]);
                assert forall|rest: Seq<Seq<u8>>|
                    before + (seq![tail.subrange(0, end as int)] + rest) == strings(certs@)
                        + rest by {
                    assert(before + (seq![tail.subrange(0, end as int)] + rest) =~= strings(certs@)
                        + rest);
                }
            },
            None => {
                return None;
            },
        }
    }
    assert(content@.subrange(at as int, len as int).len() == 0);
    assert(strings(certs@) + Seq::<Seq<u8>>::empty() =~= strings(certs@));
    Some(certs)
}

/// One sequence in front of a row of sequences is split off as the
/// first of them.
pub proof fn lemma_split_first(one: Seq<u8>, rest: Seq<u8>)
    requires
        is_one(one, SEQUENCE),
    ensures
        spec_split(one + rest) == match spec_split(rest) {
            Some(others) => Some(seq![one] + others),
            None => None,
        },
{
    let row = one + rest;
    let cut = one.len() as int;
    lemma_first_of_prefix(one, rest);
    assert(spec_first(row) == spec_first(one));
    assert(row.subrange(0, cut) =~= one);
    assert(row.subrange(cut, row.len() as int) =~= rest);
}

/// A path that was written from two certificates is read as those two
/// certificates, octet for octet and in their order.
pub proof fn lemma_decode_encoded(issuer: Seq<u8>, leaf: Seq<u8>)
    requires
        spec_encode(issuer, leaf).is_some(),
    ensures
        spec_decode(spec_encode(issuer, leaf).unwrap()) == Some(seq![issuer, leaf]),
{
    let content = issuer + leaf;
    let path = element(SEQUENCE, content);
    let nothing = Seq::<u8>::empty();
    lemma_read_written(SEQUENCE, content, nothing);
    assert(path + nothing =~= path);
    assert(spec_decode(path) == spec_split(content));
    lemma_split_first(issuer, leaf);
    lemma_split_first(leaf, nothing);
    assert(leaf + nothing =~= leaf);
    assert(spec_split(nothing) == Some(Seq::<Seq<u8>>::empty()));
    assert(seq![leaf] + Seq::<Seq<u8>>::empty() =~= seq![leaf]);
    assert(seq![issuer] + seq![leaf] =~= seq![issuer, leaf]);
}

} // verus!
