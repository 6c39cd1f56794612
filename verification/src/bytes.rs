use vstd::prelude::*;

verus! {

/// The 16-bit number that two bytes of `bytes` hold from index `at` on, in
/// the byte order given.
pub open spec fn word16(bytes: Seq<u8>, at: int, big_endian: bool) -> u16 {
    if big_endian {
        (bytes[at] * 0x100 + bytes[at + 1]) as u16
    } else {
        (bytes[at] + bytes[at + 1] * 0x100) as u16
    }
}

/// The 32-bit number that four bytes of `bytes` hold from index `at` on.
pub open spec fn word32(bytes: Seq<u8>, at: int, big_endian: bool) -> u32 {
    if big_endian {
        (word16(bytes, at, true) * 0x1_0000 + word16(bytes, at + 2, true)) as u32
    } else {
        (word16(bytes, at, false) + word16(bytes, at + 2, false) * 0x1_0000) as u32
    }
}

/// The 64-bit number that eight bytes of `bytes` hold from index `at` on.
pub open spec fn word64(bytes: Seq<u8>, at: int, big_endian: bool) -> u64 {
    if big_endian {
        (word32(bytes, at, true) * 0x1_0000_0000 + word32(bytes, at + 4, true)) as u64
    } else {
        (word32(bytes, at, false) + word32(bytes, at + 4, false) * 0x1_0000_0000) as u64
    }
}

/// The index of the first zero byte of `bytes` in `[from, to)`, or `to` where
/// that range holds none.
pub open spec fn terminator(bytes: Seq<u8>, from: int, to: int) -> int
    decreases to - from,
{
    if from >= to {
        to
    } else if bytes[from] == 0 {
        from
    } else {
        terminator(bytes, from + 1, to)
    }
}

/// The zero-terminated string that starts at index `from` of `bytes` and ends
/// before index `to`, without its terminator. There is none where the range
/// leaves `bytes` or holds no zero byte.
pub open spec fn string_at(bytes: Seq<u8>, from: int, to: int) -> Option<Seq<u8>> {
    if 0 <= from <= to <= bytes.len() && terminator(bytes, from, to) < to {
        Some(bytes.subrange(from, terminator(bytes, from, to)))
    } else {
        None
    }
}

/// Whether two byte strings hold the same bytes.
pub fn same_bytes(left: &[u8], right: &[u8]) -> (same: bool)
    ensures
        same == (left@ == right@),
{
    if left.len() != right.len() {
        return false;
    }
    let mut index: usize = 0;
    while index < left.len()
        invariant
            left@.len() == right@.len(),
            index <= left@.len(),
            forall|at: int| 0 <= at < index ==> left@[at] == right@[at],
        decreases left@.len() - index,
    {
        if left[index] != right[index] {
            return false;
        }
        index += 1;
    }
    assert(left@ =~= right@);
    true
}

} // verus!
