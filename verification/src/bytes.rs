//! Little-endian integers inside byte buffers.
use vstd::prelude::*;

verus! {

/// The 32-bit little-endian integer that starts at byte `at` of `s`.
pub open spec fn le32(s: Seq<u8>, at: int) -> u32 {
    (s[at] + 0x100 * s[at + 1] + 0x1_0000 * s[at + 2] + 0x100_0000 * s[at + 3]) as u32
}

/// The 64-bit little-endian integer that starts at byte `at` of `s`.
pub open spec fn le64(s: Seq<u8>, at: int) -> u64 {
    (le32(s, at) + 0x1_0000_0000 * le32(s, at + 4)) as u64
}

/// `s` with the little-endian bytes of `v` stored from byte `at` on.
pub open spec fn put32(s: Seq<u8>, at: int, v: u32) -> Seq<u8> {
    s.update(at, (v % 0x100) as u8).update(at + 1, (v / 0x100 % 0x100) as u8).update(
        at + 2,
        (v / 0x1_0000 % 0x100) as u8,
    ).update(at + 3, (v / 0x100_0000) as u8)
}

/// `s` with the little-endian bytes of `v` stored from byte `at` on.
pub open spec fn put64(s: Seq<u8>, at: int, v: u64) -> Seq<u8> {
    put32(put32(s, at, (v % 0x1_0000_0000) as u32), at + 4, (v / 0x1_0000_0000) as u32)
}

/// Reading a stored 32-bit integer gives it back, and no other byte changes.
pub proof fn law_read_back_u32(s: Seq<u8>, at: int, v: u32)
    requires
        0 <= at,
        at + 4 <= s.len(),
    ensures
        le32(put32(s, at, v), at) == v,
        put32(s, at, v).len() == s.len(),
        forall|i: int|
            0 <= i < s.len() && !(at <= i < at + 4) ==> #[trigger] put32(s, at, v)[i] == s[i],
{
    let t = put32(s, at, v);
    assert(t[at] == v % 0x100);
    assert(t[at + 1] == v / 0x100 % 0x100);
    assert(t[at + 2] == v / 0x1_0000 % 0x100);
    assert(t[at + 3] == v / 0x100_0000);
    assert(v % 0x100 + 0x100 * (v / 0x100 % 0x100) + 0x1_0000 * (v / 0x1_0000 % 0x100) + 0x100_0000
        * (v / 0x100_0000) == v);
}

/// Reading a stored 64-bit integer gives it back, and no other byte changes.
pub proof fn law_read_back_u64(s: Seq<u8>, at: int, v: u64)
    requires
        0 <= at,
        at + 8 <= s.len(),
    ensures
        le64(put64(s, at, v), at) == v,
        put64(s, at, v).len() == s.len(),
        forall|i: int|
            0 <= i < s.len() && !(at <= i < at + 8) ==> #[trigger] put64(s, at, v)[i] == s[i],
{
    let low = (v % 0x1_0000_0000) as u32;
    let high = (v / 0x1_0000_0000) as u32;
    let t = put32(s, at, low);
    law_read_back_u32(s, at, low);
    law_read_back_u32(t, at + 4, high);
    let u = put32(t, at + 4, high);
    assert(u[at] == t[at] && u[at + 1] == t[at + 1] && u[at + 2] == t[at + 2] && u[at + 3] == t[at
        + 3]);
    assert(le32(u, at) == low);
}

/// Reads the 32-bit little-endian integer at byte `at`.
pub fn get_u32(data: &[u8], at: usize) -> (v: u32)
    requires
        at + 4 <= data.len(),
    ensures
        v == le32(data@, at as int),
{
    let b0: u32 = data[at] as u32;
    let b1: u32 = data[at + 1] as u32;
    let b2: u32 = data[at + 2] as u32;
    let b3: u32 = data[at + 3] as u32;
    b0 + 0x100 * b1 + 0x1_0000 * b2 + 0x100_0000 * b3
}

/// Reads the 64-bit little-endian integer at byte `at`.
pub fn get_u64(data: &[u8], at: usize) -> (v: u64)
    requires
        at + 8 <= data.len(),
    ensures
        v == le64(data@, at as int),
{
    let low: u64 = get_u32(data, at) as u64;
    let high: u64 = get_u32(data, at + 4) as u64;
    low + 0x1_0000_0000 * high
}

/// Stores `v` little-endian at byte `at`.
pub fn put_u32(data: &mut Vec<u8>, at: usize, v: u32)
    requires
        at + 4 <= old(data).len(),
    ensures
        final(data)@ == put32(old(data)@, at as int, v),
{
    data.set(at, (v % 0x100) as u8);
    data.set(at + 1, (v / 0x100 % 0x100) as u8);
    data.set(at + 2, (v / 0x1_0000 % 0x100) as u8);
    data.set(at + 3, (v / 0x100_0000) as u8);
}

/// Stores `v` little-endian at byte `at`.
pub fn put_u64(data: &mut Vec<u8>, at: usize, v: u64)
    requires
        at + 8 <= old(data).len(),
    ensures
        final(data)@ == put64(old(data)@, at as int, v),
{
    put_u32(data, at, (v % 0x1_0000_0000) as u32);
    put_u32(data, at + 4, (v / 0x1_0000_0000) as u32);
}

/// The bytes of a 32-bit integer are its digits to the base 256, the lowest first.
pub proof fn law_bytes_are_digits_u32(s: Seq<u8>, at: int)
    ensures
        le32(s, at) % 0x100 == s[at],
        le32(s, at) / 0x100 % 0x100 == s[at + 1],
        le32(s, at) / 0x1_0000 % 0x100 == s[at + 2],
        le32(s, at) / 0x100_0000 == s[at + 3],
{
    let low: int = s[at] + 0x100 * s[at + 1] + 0x1_0000 * s[at + 2] + 0x100_0000 * s[at + 3];
    assert(low <= u32::MAX);
}

/// The bytes of a 64-bit integer are those of its lower half and then those of its upper half.
pub proof fn law_bytes_are_digits_u64(s: Seq<u8>, at: int)
    ensures
        le64(s, at) % 0x1_0000_0000 == le32(s, at),
        le64(s, at) / 0x1_0000_0000 == le32(s, at + 4),
{
}

} // verus!
