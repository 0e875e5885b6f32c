use vstd::prelude::*;

verus! {

/// The little-endian 16-bit value stored at `at` and `at + 1`.
pub open spec fn u16_at(s: Seq<u8>, at: int) -> int {
    s[at] as int + 0x100 * (s[at + 1] as int)
}

/// The little-endian 32-bit value stored at `at .. at + 4`.
pub open spec fn u32_at(s: Seq<u8>, at: int) -> int {
    s[at] as int + 0x100 * (s[at + 1] as int) + 0x1_0000 * (s[at + 2] as int) + 0x100_0000 * (
    s[at + 3] as int)
}

/// The little-endian 64-bit value stored at `at .. at + 8`.
pub open spec fn u64_at(s: Seq<u8>, at: int) -> int {
    u32_at(s, at) + 0x1_0000_0000 * u32_at(s, at + 4)
}

pub fn read_u16(data: &[u8], at: usize) -> (v: u16)
    requires
        at + 2 <= data@.len(),
    ensures
        v == u16_at(data@, at as int),
{
    let lo: u16 = data[at] as u16;
    let hi: u16 = data[at + 1] as u16;
    lo + 0x100 * hi
}

pub fn read_u32(data: &[u8], at: usize) -> (v: u32)
    requires
        at + 4 <= data@.len(),
    ensures
        v == u32_at(data@, at as int),
{
    let b0: u32 = data[at] as u32;
    let b1: u32 = data[at + 1] as u32;
    let b2: u32 = data[at + 2] as u32;
    let b3: u32 = data[at + 3] as u32;
    b0 + 0x100 * b1 + 0x1_0000 * b2 + 0x100_0000 * b3
}

pub fn read_u64(data: &[u8], at: usize) -> (v: u64)
    requires
        at + 8 <= data@.len(),
    ensures
        v == u64_at(data@, at as int),
{
    assert(at + 8 <= data.len());
    let lo: u64 = read_u32(data, at) as u64;
    let hi: u64 = read_u32(data, at + 4) as u64;
    lo + 0x1_0000_0000 * hi
}


/// The position of the first occurrence of `byte` at or after `from`, or the
/// length of `s` where there is none. A start beyond the end is returned as
/// it is.
pub open spec fn byte_position(s: Seq<u8>, from: int, byte: u8) -> int
    decreases s.len() - from,
{
    if from >= s.len() || s[from] == byte {
        from
    } else {
        byte_position(s, from + 1, byte)
    }
}

/// `byte_position` finds the first occurrence and nothing before it.
pub proof fn lemma_byte_position(s: Seq<u8>, from: int, byte: u8)
    requires
        0 <= from <= s.len(),
    ensures
        from <= byte_position(s, from, byte) <= s.len(),
        forall|i: int| from <= i < byte_position(s, from, byte) ==> s[i] != byte,
        byte_position(s, from, byte) < s.len() ==> s[byte_position(s, from, byte)] == byte,
    decreases s.len() - from,
{
    if from < s.len() && s[from] != byte {
        lemma_byte_position(s, from + 1, byte);
    }
}

/// A scan never ends before its start.
pub proof fn lemma_byte_position_at_least(s: Seq<u8>, from: int, byte: u8)
    requires
        0 <= from,
    ensures
        byte_position(s, from, byte) >= from,
    decreases s.len() - from,
{
    if from < s.len() && s[from] != byte {
        lemma_byte_position_at_least(s, from + 1, byte);
    }
}

/// Scans for the first occurrence of `byte` at or after `from`.
pub fn find_byte(data: &[u8], from: usize, byte: u8) -> (pos: usize)
    requires
        from <= data@.len(),
    ensures
        pos == byte_position(data@, from as int, byte),
        from <= pos <= data@.len(),
{
    let mut pos: usize = from;
    while pos < data.len() && data[pos] != byte
        invariant
            from <= pos <= data@.len(),
            byte_position(data@, from as int, byte) == byte_position(data@, pos as int, byte),
        decreases data@.len() - pos,
    {
        pos += 1;
    }
    pos
}

/// Tells whether two byte strings are the same.
pub fn bytes_equal(a: &[u8], b: &[u8]) -> (same: bool)
    ensures
        same == (a@ == b@),
{
    if a.len() != b.len() {
        return false;
    }
    let mut i: usize = 0;
    while i < a.len()
        invariant
            i <= a@.len(),
            a@.len() == b@.len(),
            forall|j: int| 0 <= j < i ==> a@[j] == b@[j],
        decreases a@.len() - i,
    {
        if a[i] != b[i] {
            return false;
        }
        i += 1;
    }
    assert(a@ =~= b@);
    true
}

/// `s` begins with `prefix`.
pub open spec fn has_prefix(s: Seq<u8>, prefix: Seq<u8>) -> bool {
    s.len() >= prefix.len() && s.subrange(0, prefix.len() as int) == prefix
}

/// Tells whether `data` begins with `prefix`.
pub fn starts_with(data: &[u8], prefix: &[u8]) -> (b: bool)
    ensures
        b == has_prefix(data@, prefix@),
{
    if data.len() < prefix.len() {
        return false;
    }
    bytes_equal(vstd::slice::slice_subrange(data, 0, prefix.len()), prefix)
}

} // verus!
