//! Small operations on byte strings.

use vstd::prelude::*;

verus! {

/// The octets of a byte string that may be absent.
pub open spec fn optional(bytes: Option<Vec<u8>>) -> Option<Seq<u8>> {
    match bytes {
        Some(b) => Some(b@),
        None => None,
    }
}

/// The octets of each byte string of a list.
pub open spec fn strings(list: Seq<Vec<u8>>) -> Seq<Seq<u8>> {
    Seq::new(list.len(), |i: int| list[i]@)
}

/// The octets of each byte string of a list that may be absent.
pub open spec fn optional_strings(list: Option<Vec<Vec<u8>>>) -> Option<Seq<Seq<u8>>> {
    match list {
        Some(l) => Some(strings(l@)),
        None => None,
    }
}

/// Whether two byte strings hold the same bytes.
pub fn same(a: &[u8], b: &[u8]) -> (equal: bool)
    ensures
        equal == (a@ == b@),
{
    if a.len() != b.len() {
        return false;
    }
    let mut i: usize = 0;
    while i < a.len()
        invariant
            i <= a@.len(),
            a@.len() == b@.len(),
            forall|j: int| 0 <= j < i ==> a@[j] == b@[j],
        decreases a@.len() - i,
    {
        if a[i] != b[i] {
            return false;
        }
        i += 1;
    }
    assert(a@ =~= b@);
    true
}

/// Appends `tail` to `buffer`.
pub fn append(buffer: &mut Vec<u8>, tail: &[u8])
    ensures
        final(buffer)@ == old(buffer)@ + tail@,
{
    let mut i: usize = 0;
    while i < tail.len()
        invariant
            i <= tail@.len(),
            buffer@ == old(buffer)@ + tail@.subrange(0, i as int),
        decreases tail@.len() - i,
    {
        buffer.push(tail[i]);
        i += 1;
        assert(buffer@ =~= old(buffer)@ + tail@.subrange(0, i as int));
    }
    assert(tail@.subrange(0, i as int) =~= tail@);
}

/// A copy of the bytes of `source` from `from` up to `to`.
pub(crate) fn copy_range(source: &[u8], from: usize, to: usize) -> (copy: Vec<u8>)
    requires
        from <= to <= source@.len(),
    ensures
        copy@ == source@.subrange(from as int, to as int),
{
    let mut copy: Vec<u8> = Vec::new();
    let mut i: usize = from;
    while i < to
        invariant
            from <= i <= to <= source@.len(),
            copy@ == source@.subrange(from as int, i as int),
        decreases to - i,
    {
        copy.push(source[i]);
        i += 1;
        assert(copy@ =~= source@.subrange(from as int, i as int));
    }
    copy
}

/// Whether every byte of `data` is zero.
pub fn all_zero(data: &[u8]) -> (zero: bool)
    ensures
        zero == (forall|i: int| 0 <= i < data@.len() ==> data@[i] == 0),
{
    let mut i: usize = 0;
    while i < data.len()
        invariant
            i <= data@.len(),
            forall|j: int| 0 <= j < i ==> data@[j] == 0,
        decreases data@.len() - i,
    {
        if data[i] != 0 {
            return false;
        }
        i += 1;
    }
    true
}

/// The number that two bytes spell, least significant byte first.
pub open spec fn le16(data: Seq<u8>, at: int) -> nat
    recommends
        0 <= at,
        at + 2 <= data.len(),
{
    (data[at] + data[at + 1] * 0x100) as nat
}

/// The number that four bytes spell, least significant byte first.
pub open spec fn le32(data: Seq<u8>, at: int) -> nat
    recommends
        0 <= at,
        at + 4 <= data.len(),
{
    (data[at] + data[at + 1] * 0x100 + data[at + 2] * 0x1_0000 + data[at + 3] * 0x100_0000) as nat
}

/// The number that eight bytes spell, least significant byte first.
pub open spec fn le64(data: Seq<u8>, at: int) -> nat
    recommends
        0 <= at,
        at + 8 <= data.len(),
{
    (le32(data, at) + le32(data, at + 4) * 0x1_0000_0000) as nat
}

/// Reads two bytes at `at`, least significant byte first.
pub(crate) fn read_le16(data: &[u8], at: usize) -> (value: u16)
    requires
        at + 2 <= data@.len(),
    ensures
        value == le16(data@, at as int),
{
    let low: u16 = data[at] as u16;
    let high: u16 = data[at + 1] as u16;
    low + high * 0x100
}

/// Reads four bytes at `at`, least significant byte first.
pub(crate) fn read_le32(data: &[u8], at: usize) -> (value: u32)
    requires
        at + 4 <= data@.len(),
    ensures
        value == le32(data@, at as int),
{
    let b0: u32 = data[at] as u32;
    let b1: u32 = data[at + 1] as u32;
    let b2: u32 = data[at + 2] as u32;
    let b3: u32 = data[at + 3] as u32;
    b0 + b1 * 0x100 + b2 * 0x1_0000 + b3 * 0x100_0000
}

/// Reads eight bytes at `at`, least significant byte first.
pub(crate) fn read_le64(data: &[u8], at: usize) -> (value: u64)
    requires
        at + 8 <= data@.len(),
    ensures
        value == le64(data@, at as int),
{
    let len = data.len();
    assert(at + 8 <= len);
    let low: u64 = read_le32(data, at) as u64;
    let high: u64 = read_le32(data, at + 4) as u64;
    low + high * 0x1_0000_0000
}

} // verus!
