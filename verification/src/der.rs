//! The framing of DER: one element is a tag octet, the length octets and
//! the content. Only single-octet tags and contents below 4 GiB are read
//! or written; lengths are held to their shortest form.

use vstd::prelude::*;
use crate::bytes::append;

verus! {

/// The tag of a `SEQUENCE`.
pub const SEQUENCE: u8 = 0x30;

/// The tag of an `OCTET STRING`.
pub const OCTET_STRING: u8 = 0x04;

/// The longest content that is read or written.
pub const MAX_CONTENT: usize = 0xffff_ffff;

/// The length octets that announce a content of `n` octets.
pub open spec fn length_octets(n: nat) -> Seq<u8>
    recommends
        n <= MAX_CONTENT,
{
    if n < 0x80 {
        seq![n as u8]
    } else if n < 0x100 {
        seq![0x81u8, n as u8]
    } else if n < 0x1_0000 {
        seq![0x82u8, (n / 0x100) as u8, (n % 0x100) as u8]
    } else if n < 0x100_0000 {
        seq![0x83u8, (n / 0x1_0000) as u8, (n / 0x100 % 0x100) as u8, (n % 0x100) as u8]
    } else {
        seq![
            0x84u8,
            (n / 0x100_0000) as u8,
            (n / 0x1_0000 % 0x100) as u8,
            (n / 0x100 % 0x100) as u8,
            (n % 0x100) as u8,
        ]
    }
}

/// One element: its tag, its length octets, its content.
pub open spec fn element(tag: u8, content: Seq<u8>) -> Seq<u8>
    recommends
        content.len() <= MAX_CONTENT,
{
    seq![tag] + length_octets(content.len()) + content
}

/// What the head of an element says: how many octets the head itself
/// takes, and how many the content.
pub struct Head {
    pub tag: u8,
    pub head_len: usize,
    pub content_len: usize,
}

/// The head that `input` starts with, if it starts with one.
pub open spec fn spec_head(input: Seq<u8>) -> Option<Head> {
    if input.len() < 2 {
        None
    } else if input[1] < 0x80 {
        Some(Head { tag: input[0], head_len: 2, content_len: input[1] as usize })
    } else if input[1] == 0x81 {
        if input.len() < 3 || input[2] < 0x80 {
            None
        } else {
            Some(Head { tag: input[0], head_len: 3, content_len: input[2] as usize })
        }
    } else if input[1] == 0x82 {
        if input.len() < 4 || input[2] == 0 {
            None
        } else {
            Some(
                Head {
                    tag: input[0],
                    head_len: 4,
                    content_len: (input[2] * 0x100 + input[3]) as usize,
                },
            )
        }
    } else if input[1] == 0x83 {
        if input.len() < 5 || input[2] == 0 {
            None
        } else {
            Some(
                Head {
                    tag: input[0],
                    head_len: 5,
                    content_len: (input[2] * 0x1_0000 + input[3] * 0x100 + input[4]) as usize,
                },
            )
        }
    } else if input[1] == 0x84 {
        if input.len() < 6 || input[2] == 0 {
            None
        } else {
            Some(
                Head {
                    tag: input[0],
                    head_len: 6,
                    content_len: (input[2] * 0x100_0000 + input[3] * 0x1_0000 + input[4] * 0x100
                        + input[5]) as usize,
                },
            )
        }
    } else {
        None
    }
}

/// The first element of `input`, as far as `input` holds all of it: the
/// tag, the place where the content starts and the place where it ends.
pub open spec fn spec_first(input: Seq<u8>) -> Option<(u8, int, int)> {
    match spec_head(input) {
        Some(head) => if head.head_len + head.content_len <= input.len() {
            Some((head.tag, head.head_len as int, head.head_len + head.content_len))
        } else {
            None
        },
        None => None,
    }
}

/// Whether `input` is exactly one element with the tag `tag`.
pub open spec fn is_one(input: Seq<u8>, tag: u8) -> bool {
    match spec_first(input) {
        Some((t, _, end)) => t == tag && end == input.len(),
        None => false,
    }
}

/// Reads the head that `input` starts with.
pub fn head(input: &[u8]) -> (head: Option<Head>)
    ensures
        head == spec_head(input@),
{
    if input.len() < 2 {
        return None;
    }
    let tag = input[0];
    let first = input[1];
    if first < 0x80 {
        Some(Head { tag, head_len: 2, content_len: first as usize })
    } else if first == 0x81 {
        if input.len() < 3 || input[2] < 0x80 {
            None
        } else {
            Some(Head { tag, head_len: 3, content_len: input[2] as usize })
        }
    } else if first == 0x82 {
        if input.len() < 4 || input[2] == 0 {
            None
        } else {
            let n: usize = input[2] as usize * 0x100 + input[3] as usize;
            Some(Head { tag, head_len: 4, content_len: n })
        }
    } else if first == 0x83 {
        if input.len() < 5 || input[2] == 0 {
            None
        } else {
            let n: usize = input[2] as usize * 0x1_0000 + input[3] as usize * 0x100
                + input[4] as usize;
            Some(Head { tag, head_len: 5, content_len: n })
        }
    } else if first == 0x84 {
        if input.len() < 6 || input[2] == 0 {
            None
        } else {
            let n: usize = input[2] as usize * 0x100_0000 + input[3] as usize * 0x1_0000
                + input[4] as usize * 0x100 + input[5] as usize;
            Some(Head { tag, head_len: 6, content_len: n })
        }
    } else {
        None
    }
}

/// Reads the first element of `input`: its tag, where its content starts
/// and where it ends.
pub fn first(input: &[u8]) -> (found: Option<(u8, usize, usize)>)
    ensures
        match found {
            Some((tag, start, end)) => spec_first(input@) == Some((tag, start as int, end as int)),
            None => spec_first(input@).is_none(),
        },
{
    match head(input) {
        Some(h) => {
            if h.content_len <= input.len() - h.head_len {
                Some((h.tag, h.head_len, h.head_len + h.content_len))
            } else {
                None
            }
        },
        None => None,
    }
}

/// Frames `content` as one element with the tag `tag`.
pub fn frame(tag: u8, content: &[u8]) -> (written: Option<Vec<u8>>)
    ensures
        written.is_some() == (content@.len() <= MAX_CONTENT),
        written matches Some(out) ==> out@ == element(tag, content@),
{
    let n = content.len();
    if n > MAX_CONTENT {
        return None;
    }
    let mut out: Vec<u8> = Vec::new();
    out.push(tag);
    if n < 0x80 {
        out.push(n as u8);
    } else if n < 0x100 {
        out.push(0x81);
        out.push(n as u8);
    } else if n < 0x1_0000 {
        out.push(0x82);
        out.push((n / 0x100) as u8);
        out.push((n % 0x100) as u8);
    } else if n < 0x100_0000 {
        out.push(0x83);
        out.push((n / 0x1_0000) as u8);
        out.push((n / 0x100 % 0x100) as u8);
        out.push((n % 0x100) as u8);
    } else {
        out.push(0x84);
        out.push((n / 0x100_0000) as u8);
        out.push((n / 0x1_0000 % 0x100) as u8);
        out.push((n / 0x100 % 0x100) as u8);
        out.push((n % 0x100) as u8);
    }
    assert(out@ =~= seq![tag] + length_octets(n as nat));
    append(&mut out, content);
    Some(out)
}

/// What is written can be read: an element, whatever follows it, is found
/// again with its tag and its content.
pub proof fn lemma_read_written(tag: u8, content: Seq<u8>, rest: Seq<u8>)
    requires
        content.len() <= MAX_CONTENT,
    ensures
        spec_first(element(tag, content) + rest) matches Some((t, start, end)) && t == tag && (
        element(tag, content) + rest).subrange(start, end) == content && end == element(
            tag,
            content,
        ).len(),
{
    let n = content.len();
    let whole = element(tag, content) + rest;
    let octets = length_octets(n);
    assert(whole[0] == tag);
    assert(forall|i: int| 0 <= i < octets.len() ==> whole[1 + i] == octets[i]);
    assert(whole[1] == octets[0]);
    if n >= 0x80 {
        assert(whole[2] == octets[1]);
    }
    if n >= 0x100 {
        assert(whole[3] == octets[2]);
    }
    if n >= 0x1_0000 {
        assert(whole[4] == octets[3]);
    }
    if n >= 0x100_0000 {
        assert(whole[5] == octets[4]);
    }
    let found = spec_first(whole);
    assert(found.is_some());
    let (t, start, end) = found.unwrap();
    assert(start == 1 + octets.len());
    assert(end == start + n);
    assert(whole.subrange(start, end) =~= content);
}

/// The head of an element is read from its own octets alone: what follows
/// an element changes nothing of how it is read.
pub proof fn lemma_first_of_prefix(input: Seq<u8>, rest: Seq<u8>)
    requires
        spec_first(input).is_some(),
    ensures
        spec_first(input + rest) == spec_first(input),
{
    let whole = input + rest;
    let h = spec_head(input).unwrap();
    assert(forall|i: int| 0 <= i < input.len() ==> whole[i] == input[i]);
    assert(whole[0] == input[0]);
    assert(whole[1] == input[1]);
    if input.len() > 2 {
        assert(whole[2] == input[2]);
    }
    if input.len() > 3 {
        assert(whole[3] == input[3]);
    }
    if input.len() > 4 {
        assert(whole[4] == input[4]);
    }
    if input.len() > 5 {
        assert(whole[5] == input[5]);
    }
}

} // verus!
