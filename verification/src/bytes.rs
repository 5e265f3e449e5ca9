//! Little-endian decoding of values found in bytes that were read from the
//! watched process, which lays its integers out least significant byte first.

use vstd::prelude::*;
use vstd::slice::{slice_subrange, slice_to_vec};

verus! {

/// The number that two bytes spell, least significant byte first.
pub open spec fn le_u16(bytes: Seq<u8>) -> int
    recommends
        bytes.len() == 2,
{
    bytes[0] as int + 0x100 * (bytes[1] as int)
}

/// The number that four bytes spell, least significant byte first.
pub open spec fn le_u32(bytes: Seq<u8>) -> int
    recommends
        bytes.len() == 4,
{
    bytes[0] as int + 0x100 * (bytes[1] as int) + 0x1_0000 * (bytes[2] as int) + 0x100_0000 * (
    bytes[3] as int)
}

/// The number that eight bytes spell, least significant byte first.
pub open spec fn le_u64(bytes: Seq<u8>) -> int
    recommends
        bytes.len() == 8,
{
    le_u32(bytes.subrange(0, 4)) + 0x1_0000_0000 * le_u32(bytes.subrange(4, 8))
}

/// The two's complement reading of a 32-bit pattern.
pub open spec fn as_signed_32(pattern: int) -> int {
    if pattern < 0x8000_0000 {
        pattern
    } else {
        pattern - 0x1_0000_0000
    }
}

/// Whether `len` bytes starting at `at` lie inside a buffer of `total` bytes.
pub open spec fn in_bounds(total: int, at: int, len: int) -> bool {
    0 <= at && 0 <= len && at + len <= total
}

/// The `len` bytes of `bytes` that start at `at`.
pub open spec fn window(bytes: Seq<u8>, at: int, len: int) -> Seq<u8> {
    bytes.subrange(at, at + len)
}

/// `bytemuck::checked::pod_read_unaligned::<u32>`, followed by
/// `u32::from_le`. The first reads four bytes as a `u32` in the byte order of
/// the machine this runs on and panics unless it is given exactly four bytes;
/// the second turns a little-endian reading into the machine's order. The
/// result is therefore the little-endian value of the bytes on every machine.
#[verifier::external_body]
fn pod_u32_le(bytes: &[u8]) -> (value: u32)
    requires
        bytes@.len() == 4,
    ensures
        value == le_u32(bytes@),
{
    u32::from_le(bytemuck::checked::pod_read_unaligned::<u32>(bytes))
}

/// Reads the 16-bit value at `at`, if the buffer reaches that far.
pub fn u16_at(bytes: &[u8], at: usize) -> (value: Option<u16>)
    ensures
        in_bounds(bytes@.len() as int, at as int, 2) ==> value is Some && value->0 == le_u16(
            window(bytes@, at as int, 2),
        ),
        !in_bounds(bytes@.len() as int, at as int, 2) ==> value is None,
{
    if bytes.len() < 2 || at > bytes.len() - 2 {
        return None;
    }
    let low: u16 = bytes[at] as u16;
    let high: u16 = bytes[at + 1] as u16;
    Some(low + 0x100 * high)
}

/// Reads the 32-bit value at `at`, if the buffer reaches that far.
pub fn u32_at(bytes: &[u8], at: usize) -> (value: Option<u32>)
    ensures
        in_bounds(bytes@.len() as int, at as int, 4) ==> value is Some && value->0 == le_u32(
            window(bytes@, at as int, 4),
        ),
        !in_bounds(bytes@.len() as int, at as int, 4) ==> value is None,
{
    if bytes.len() < 4 || at > bytes.len() - 4 {
        return None;
    }
    Some(pod_u32_le(slice_subrange(bytes, at, at + 4)))
}

/// Reads the signed 32-bit value at `at`, if the buffer reaches that far.
pub fn i32_at(bytes: &[u8], at: usize) -> (value: Option<i32>)
    ensures
        in_bounds(bytes@.len() as int, at as int, 4) ==> value is Some && value->0 == as_signed_32(
            le_u32(window(bytes@, at as int, 4)),
        ),
        !in_bounds(bytes@.len() as int, at as int, 4) ==> value is None,
{
    match u32_at(bytes, at) {
        None => None,
        Some(pattern) => {
            if pattern < 0x8000_0000 {
                Some(pattern as i32)
            } else {
                let below: u32 = pattern - 0x8000_0000;
                Some(below as i32 - 0x4000_0000 - 0x4000_0000)
            }
        },
    }
}

/// Reads the 64-bit value at `at`, if the buffer reaches that far.
pub fn u64_at(bytes: &[u8], at: usize) -> (value: Option<u64>)
    ensures
        in_bounds(bytes@.len() as int, at as int, 8) ==> value is Some && value->0 == le_u64(
            window(bytes@, at as int, 8),
        ),
        !in_bounds(bytes@.len() as int, at as int, 8) ==> value is None,
{
    if bytes.len() < 8 || at > bytes.len() - 8 {
        return None;
    }
    let low = u32_at(bytes, at);
    let high = u32_at(bytes, at + 4);
    proof {
        let whole = window(bytes@, at as int, 8);
        assert(whole.subrange(0, 4) =~= window(bytes@, at as int, 4));
        assert(whole.subrange(4, 8) =~= window(bytes@, at + 4, 4));
    }
    match (low, high) {
        (Some(low), Some(high)) => Some(low as u64 + 0x1_0000_0000 * (high as u64)),
        _ => None,
    }
}

/// The bytes of `buffer` that come before the first byte equal to `stop`, or
/// all of it if it holds no such byte.
pub open spec fn prefix_before(buffer: Seq<u8>, stop: u8) -> Seq<u8>
    decreases buffer.len(),
{
    if buffer.len() == 0 || buffer[0] == stop {
        Seq::empty()
    } else {
        seq![buffer[0]] + prefix_before(buffer.drop_first(), stop)
    }
}

/// What a C string stored in `buffer` says: the bytes before its first zero
/// byte, or all of it if it holds none.
pub open spec fn c_string(buffer: Seq<u8>) -> Seq<u8> {
    prefix_before(buffer, 0)
}

/// `prefix_before(buffer, stop)` is the longest prefix of `buffer` that is
/// free of `stop`.
pub proof fn lemma_prefix_before(buffer: Seq<u8>, stop: u8)
    ensures
        prefix_before(buffer, stop).len() <= buffer.len(),
        prefix_before(buffer, stop) == buffer.take(prefix_before(buffer, stop).len() as int),
        forall|i: int| 0 <= i < prefix_before(buffer, stop).len() ==> buffer[i] != stop,
        prefix_before(buffer, stop).len() < buffer.len() ==> buffer[prefix_before(
            buffer,
            stop,
        ).len() as int] == stop,
    decreases buffer.len(),
{
    if buffer.len() == 0 || buffer[0] == stop {
        assert(prefix_before(buffer, stop) =~= buffer.take(0));
    } else {
        let rest = buffer.drop_first();
        lemma_prefix_before(rest, stop);
        let n = prefix_before(rest, stop).len() as int;
        assert(prefix_before(buffer, stop) =~= buffer.take(n + 1)) by {
            assert(rest.take(n) =~= buffer.subrange(1, n + 1));
        }
        assert forall|i: int| 0 <= i < prefix_before(buffer, stop).len() implies buffer[i]
            != stop by {
            if i > 0 {
                assert(rest[i - 1] == buffer[i]);
            }
        }
        if prefix_before(buffer, stop).len() < buffer.len() {
            assert(rest[n] == buffer[n + 1]);
        }
    }
}

/// The number of bytes of `buffer` that come before the first `stop`.
pub fn prefix_len_before(buffer: &[u8], stop: u8) -> (n: usize)
    ensures
        n <= buffer@.len(),
        buffer@.take(n as int) == prefix_before(buffer@, stop),
{
    let mut i: usize = 0;
    while i < buffer.len() && buffer[i] != stop
        invariant
            i <= buffer@.len(),
            forall|k: int| 0 <= k < i ==> buffer@[k] != stop,
        decreases buffer@.len() - i,
    {
        i += 1;
    }
    proof {
        lemma_prefix_before(buffer@, stop);
        let n = prefix_before(buffer@, stop).len() as int;
        if n < i {
            assert(buffer@[n] == stop);
        } else if n > i {
            assert(buffer@[i as int] != stop);
        }
    }
    i
}

/// Cuts a buffer down to the C string it holds.
pub fn c_string_of(buffer: &[u8]) -> (text: Vec<u8>)
    ensures
        text@ == c_string(buffer@),
{
    let n = prefix_len_before(buffer, 0);
    slice_to_vec(slice_subrange(buffer, 0, n))
}

/// Each byte string of a list as a sequence.
pub open spec fn byte_strings(list: Seq<Vec<u8>>) -> Seq<Seq<u8>> {
    list.map_values(|text: Vec<u8>| text@)
}

/// Whether two byte strings hold the same bytes.
pub fn same_bytes(one: &[u8], other: &[u8]) -> (same: bool)
    ensures
        same == (one@ == other@),
{
    if one.len() != other.len() {
        return false;
    }
    let mut i: usize = 0;
    while i < one.len()
        invariant
            i <= one@.len(),
            one@.len() == other@.len(),
            forall|k: int| 0 <= k < i ==> one@[k] == other@[k],
        decreases one@.len() - i,
    {
        if one[i] != other[i] {
            return false;
        }
        i += 1;
    }
    assert(one@ =~= other@);
    true
}

/// Whether the first `n` byte strings of `list` are the byte strings of
/// `other`, in order.
pub(crate) fn same_prefix(list: &[Vec<u8>], n: usize, other: &[Vec<u8>]) -> (same: bool)
    requires
        n <= list@.len(),
    ensures
        same == (byte_strings(list@.take(n as int)) == byte_strings(other@)),
{
    if other.len() != n {
        assert(byte_strings(list@.take(n as int)).len() != byte_strings(other@).len());
        return false;
    }
    let mut i: usize = 0;
    while i < n
        invariant
            i <= n <= list@.len(),
            other@.len() == n,
            forall|k: int| 0 <= k < i ==> list@[k]@ == other@[k]@,
        decreases n - i,
    {
        if !same_bytes(list[i].as_slice(), other[i].as_slice()) {
            assert(byte_strings(list@.take(n as int))[i as int] == list@[i as int]@);
            assert(byte_strings(other@)[i as int] == other@[i as int]@);
            return false;
        }
        i += 1;
    }
    assert(byte_strings(list@.take(n as int)) =~= byte_strings(other@));
    true
}

/// Copies the first `n` byte strings of `list`.
pub(crate) fn copy_prefix(list: &[Vec<u8>], n: usize) -> (copy: Vec<Vec<u8>>)
    requires
        n <= list@.len(),
    ensures
        byte_strings(copy@) == byte_strings(list@.take(n as int)),
{
    let mut copy: Vec<Vec<u8>> = Vec::new();
    let mut i: usize = 0;
    while i < n
        invariant
            i <= n <= list@.len(),
            copy@.len() == i,
            forall|k: int| 0 <= k < i ==> copy@[k]@ == list@[k]@,
        decreases n - i,
    {
        copy.push(slice_to_vec(list[i].as_slice()));
        i += 1;
    }
    assert(byte_strings(copy@) =~= byte_strings(list@.take(n as int)));
    copy
}

} // verus!
