//! Where a name ends inside a transfer buffer.
//!
//! A query that reports no length leaves the name at the start of the buffer.
//! A zero byte ends it. A name that filled the buffer has no zero byte
//! behind it, and then the whole buffer is the name.

use vstd::prelude::*;
use crate::value::{HostnameValue, NameUnits};

verus! {

/// `end` is where the name in `buffer` ends: no byte before it is zero, and it
/// is either the place of a zero byte or the end of the buffer.
pub open spec fn is_name_end(buffer: Seq<u8>, end: int) -> bool {
    &&& 0 <= end <= buffer.len()
    &&& forall|i: int| 0 <= i < end ==> buffer[i] != 0
    &&& end < buffer.len() ==> buffer[end] == 0
}

/// The place of the first zero byte of `buffer`, or its length where it holds
/// none.
pub open spec fn name_end(buffer: Seq<u8>) -> int {
    choose|end: int| is_name_end(buffer, end)
}

/// The name that `buffer` holds: what stands before its first zero byte.
pub open spec fn name_in(buffer: Seq<u8>) -> Seq<u8> {
    buffer.take(name_end(buffer))
}

/// A buffer has one name end and no other.
pub proof fn lemma_name_end_unique(buffer: Seq<u8>, end: int)
    requires
        is_name_end(buffer, end),
    ensures
        name_end(buffer) == end,
        name_in(buffer) == buffer.take(end),
{
    let chosen = name_end(buffer);
    assert(is_name_end(buffer, chosen));
    if chosen < end {
        assert(buffer[chosen] == 0);
    } else if end < chosen {
        assert(buffer[end] == 0);
    }
}

/// Every buffer has a name end.
pub proof fn lemma_name_end_exists(buffer: Seq<u8>)
    ensures
        is_name_end(buffer, name_end(buffer)),
    decreases buffer.len(),
{
    if buffer.len() == 0 {
        assert(is_name_end(buffer, 0));
    } else {
        let last = buffer.len() - 1;
        let front = buffer.take(last);
        lemma_name_end_exists(front);
        let end = name_end(front);
        if end < last {
            assert(front[end] == buffer[end]);
            assert forall|i: int| 0 <= i < end implies buffer[i] != 0 by {
                assert(front[i] == buffer[i]);
            }
            assert(is_name_end(buffer, end));
        } else if buffer[last] == 0 {
            assert forall|i: int| 0 <= i < last implies buffer[i] != 0 by {
                assert(front[i] == buffer[i]);
            }
            assert(is_name_end(buffer, last));
        } else {
            assert forall|i: int| 0 <= i < last + 1 implies buffer[i] != 0 by {
                if i < last {
                    assert(front[i] == buffer[i]);
                }
            }
            assert(is_name_end(buffer, last + 1));
        }
    }
}

/// The name in a buffer is the buffer's start, and holds no zero byte: neither
/// the terminator nor anything behind it is part of the name.
pub proof fn lemma_name_in_is_clean_prefix(buffer: Seq<u8>)
    ensures
        name_in(buffer).len() <= buffer.len(),
        name_in(buffer) == buffer.take(name_in(buffer).len() as int),
        forall|i: int| 0 <= i < name_in(buffer).len() ==> name_in(buffer)[i] != 0,
        name_in(buffer).len() < buffer.len() ==> buffer[name_in(buffer).len() as int] == 0,
{
    lemma_name_end_exists(buffer);
}

/// A name without a zero byte, then a zero byte, then anything at all (zero
/// bytes or others): the buffer holds exactly that name.
pub proof fn lemma_terminated_name(name: Seq<u8>, rest: Seq<u8>)
    requires
        forall|i: int| 0 <= i < name.len() ==> name[i] != 0,
    ensures
        name_in(name + seq![0u8] + rest) == name,
{
    let buffer = name + seq![0u8] + rest;
    assert forall|i: int| 0 <= i < name.len() implies buffer[i] != 0 by {
        assert(buffer[i] == name[i]);
    }
    assert(buffer[name.len() as int] == 0);
    lemma_name_end_unique(buffer, name.len() as int);
    assert(buffer.take(name.len() as int) =~= name);
}

/// An empty buffer holds the empty name.
pub proof fn lemma_empty_buffer()
    ensures
        name_in(Seq::<u8>::empty()) == Seq::<u8>::empty(),
{
    lemma_name_end_unique(Seq::<u8>::empty(), 0);
    assert(Seq::<u8>::empty().take(0) =~= Seq::<u8>::empty());
}

/// A buffer of zero bytes and nothing else holds the empty name.
pub proof fn lemma_zero_filled(buffer: Seq<u8>)
    requires
        forall|i: int| 0 <= i < buffer.len() ==> buffer[i] == 0,
    ensures
        name_in(buffer) == Seq::<u8>::empty(),
{
    lemma_name_end_unique(buffer, 0);
    assert(buffer.take(0) =~= Seq::<u8>::empty());
}

/// A buffer without a zero byte is its own name, whole.
pub proof fn lemma_unterminated(buffer: Seq<u8>)
    requires
        forall|i: int| 0 <= i < buffer.len() ==> buffer[i] != 0,
    ensures
        name_in(buffer) == buffer,
{
    lemma_name_end_unique(buffer, buffer.len() as int);
    assert(buffer.take(buffer.len() as int) =~= buffer);
}

/// Cuts a transfer buffer down to the name it holds.
///
/// The name is everything before the first zero byte. A buffer without a zero
/// byte is returned whole: a name that was cut off for want of room is a name
/// all the same.
pub fn wrap_buffer(bytes: Vec<u8>) -> (name: HostnameValue)
    ensures
        name@ == NameUnits::Bytes(name_in(bytes@)),
        name@.len() <= bytes@.len(),
{
    let mut bytes = bytes;
    let ghost buffer = bytes@;
    let mut end: usize = 0;
    while end < bytes.len() && bytes[end] != 0
        invariant
            bytes@ == buffer,
            end <= bytes.len(),
            forall|i: int| 0 <= i < end ==> buffer[i] != 0,
        decreases bytes.len() - end,
    {
        end += 1;
    }
    proof {
        lemma_name_end_unique(buffer, end as int);
    }
    bytes.truncate(end);
    HostnameValue::Bytes(bytes)
}

/// Cuts a transfer buffer down to the length that the system reported for the
/// name. The length is taken at its word: no terminator is looked for.
pub fn slice_reported(units: Vec<u16>, reported: usize) -> (name: HostnameValue)
    requires
        reported <= units@.len(),
    ensures
        name@ == NameUnits::Wide(units@.take(reported as int)),
        name@.len() == reported,
{
    let mut units = units;
    units.truncate(reported);
    HostnameValue::Wide(units)
}

} // verus!
