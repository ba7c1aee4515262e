//! Length-prefixed fields, the building block of the record layouts.

use vstd::prelude::*;

verus! {

/// Copies the bytes from index `start` up to, not including, index `end`.
pub(crate) fn copy_range(bytes: &[u8], start: usize, end: usize) -> (copy: Vec<u8>)
    requires
        start <= end <= bytes@.len(),
    ensures
        copy@ == bytes@.subrange(start as int, end as int),
{
    let mut copy: Vec<u8> = Vec::new();
    let mut i: usize = start;
    while i < end
        invariant
            start <= i <= end <= bytes@.len(),
            copy@ == bytes@.subrange(start as int, i as int),
        decreases end - i,
    {
        copy.push(bytes[i]);
        i += 1;
    }
    copy
}

/// Copies a slice of bytes into a vector of its own.
pub fn copy_bytes(bytes: &[u8]) -> (copy: Vec<u8>)
    ensures
        copy@ == bytes@,
{
    let copy = copy_range(bytes, 0, bytes.len());
    assert(bytes@.subrange(0, bytes@.len() as int) =~= bytes@);
    copy
}

/// The field that starts at index `at` of a payload, and the index just
/// after it. The byte at `at` counts the bytes of the field, which follow
/// it directly. There is no field when `at` lies outside the payload or the
/// count runs past its end.
pub open spec fn spec_field(payload: Seq<u8>, at: int) -> Option<(Seq<u8>, int)> {
    if 0 <= at < payload.len() && at + 1 + payload[at] <= payload.len() {
        Some((payload.subrange(at + 1, at + 1 + payload[at]), at + 1 + payload[at]))
    } else {
        None
    }
}

/// Reads the length-prefixed field at index `at`, and tells where the next
/// one would start.
pub fn read_field(payload: &[u8], at: usize) -> (field: Option<(Vec<u8>, usize)>)
    ensures
        match field {
            Some((bytes, next)) => spec_field(payload@, at as int) == Some(
                (bytes@, next as int),
            ),
            None => spec_field(payload@, at as int) is None,
        },
{
    if at >= payload.len() {
        return None;
    }
    let len: usize = payload[at] as usize;
    if payload.len() - at - 1 < len {
        return None;
    }
    let start: usize = at + 1;
    let end: usize = start + len;
    let bytes = copy_range(payload, start, end);
    Some((bytes, end))
}

/// Three fields in a row, the first of which starts at index `at`. There
/// are none when any of the three is missing or runs past the end.
pub open spec fn spec_three_fields(payload: Seq<u8>, at: int) -> Option<
    (Seq<u8>, Seq<u8>, Seq<u8>),
> {
    match spec_field(payload, at) {
        Some((first, after_first)) => match spec_field(payload, after_first) {
            Some((second, after_second)) => match spec_field(payload, after_second) {
                Some((third, _)) => Some((first, second, third)),
                None => None,
            },
            None => None,
        },
        None => None,
    }
}

/// Reads three length-prefixed fields in a row, starting at index `at`.
pub fn read_three_fields(payload: &[u8], at: usize) -> (fields: Option<
    (Vec<u8>, Vec<u8>, Vec<u8>),
>)
    ensures
        match fields {
            Some((first, second, third)) => spec_three_fields(payload@, at as int) == Some(
                (first@, second@, third@),
            ),
            None => spec_three_fields(payload@, at as int) is None,
        },
{
    let (first, after_first) = match read_field(payload, at) {
        Some(field) => field,
        None => { return None; },
    };
    let (second, after_second) = match read_field(payload, after_first) {
        Some(field) => field,
        None => { return None; },
    };
    let (third, _) = match read_field(payload, after_second) {
        Some(field) => field,
        None => { return None; },
    };
    Some((first, second, third))
}

} // verus!
