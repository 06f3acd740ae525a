//! Little-endian field decoding and the positioned byte cursor.

use vstd::prelude::*;

use crate::error::LasError;

verus! {

/// The unsigned value of the two bytes of `s` at `i`, least significant first.
pub open spec fn spec_u16_le(s: Seq<u8>, i: int) -> int {
    s[i] + 256 * s[i + 1]
}

/// The unsigned value of the four bytes of `s` at `i`, least significant first.
pub open spec fn spec_u32_le(s: Seq<u8>, i: int) -> int {
    spec_u16_le(s, i) + 65536 * spec_u16_le(s, i + 2)
}

/// The unsigned value of the eight bytes of `s` at `i`, least significant first.
pub open spec fn spec_u64_le(s: Seq<u8>, i: int) -> int {
    spec_u32_le(s, i) + 0x1_0000_0000 * spec_u32_le(s, i + 4)
}

/// The two's complement reading of the four bytes of `s` at `i`.
pub open spec fn spec_i32_le(s: Seq<u8>, i: int) -> int {
    let u = spec_u32_le(s, i);
    if u < 0x8000_0000 {
        u
    } else {
        u - 0x1_0000_0000
    }
}

/// The two's complement reading of the byte `b`.
pub open spec fn spec_i8(b: u8) -> int {
    if b < 128 {
        b as int
    } else {
        b - 256
    }
}

/// Reads the unsigned 16-bit little-endian value at `i`.
pub fn le_u16(s: &[u8], i: usize) -> (r: u16)
    requires
        i + 2 <= s@.len(),
    ensures
        r == spec_u16_le(s@, i as int),
{
    s[i] as u16 + 256 * (s[i + 1] as u16)
}

/// Reads the unsigned 32-bit little-endian value at `i`.
pub fn le_u32(s: &[u8], i: usize) -> (r: u32)
    requires
        i + 4 <= s@.len(),
    ensures
        r == spec_u32_le(s@, i as int),
{
    let _len = s.len();
    let lo = le_u16(s, i) as u32;
    let hi = le_u16(s, i + 2) as u32;
    lo + 65536 * hi
}

/// Reads the unsigned 64-bit little-endian value at `i`.
pub fn le_u64(s: &[u8], i: usize) -> (r: u64)
    requires
        i + 8 <= s@.len(),
    ensures
        r == spec_u64_le(s@, i as int),
{
    let _len = s.len();
    let lo = le_u32(s, i) as u64;
    let hi = le_u32(s, i + 4) as u64;
    lo + 0x1_0000_0000 * hi
}

/// Reads the signed 32-bit little-endian value at `i`.
pub fn le_i32(s: &[u8], i: usize) -> (r: i32)
    requires
        i + 4 <= s@.len(),
    ensures
        r == spec_i32_le(s@, i as int),
{
    let u = le_u32(s, i);
    if u < 0x8000_0000 {
        u as i32
    } else {
        let d = (u - 0x8000_0000) as i32;
        d - 0x7fff_ffff - 1
    }
}

/// The byte `b` read as a signed 8-bit value.
pub fn byte_i8(b: u8) -> (r: i8)
    ensures
        r == spec_i8(b),
{
    if b < 128 {
        b as i8
    } else {
        let d = (b - 128) as i8;
        d - 127 - 1
    }
}

/// Copies `buf.len()` bytes of `reader` starting at `*acc` into `buf` and
/// advances `*acc` past them; fails with `UnexpectedEof`, touching nothing,
/// when fewer bytes remain.
pub fn read_mmap_bytes(buf: &mut [u8], reader: &[u8], acc: &mut u64) -> (r: Result<(), LasError>)
    ensures
        r is Ok <==> *old(acc) + old(buf)@.len() <= reader@.len(),
        r is Err ==> r == Err::<(), LasError>(LasError::UnexpectedEof) && *final(acc) == *old(acc)
            && final(buf)@ == old(buf)@,
        r is Ok ==> *final(acc) == *old(acc) + old(buf)@.len() && final(buf)@ == reader@.subrange(
            *old(acc) as int,
            *old(acc) + old(buf)@.len(),
        ),
{
    let n = buf.len();
    let total = reader.len();
    if *acc > total as u64 || (total as u64 - *acc) < n as u64 {
        return Err(LasError::UnexpectedEof);
    }
    let start = *acc as usize;
    let mut i: usize = 0;
    while i < n
        invariant
            n == buf@.len(),
            total == reader@.len(),
            start + n <= reader@.len(),
            0 <= i <= n,
            forall|j: int| 0 <= j < i ==> buf@[j] == reader@[start + j],
        decreases n - i,
    {
        buf[i] = reader[start + i];
        i = i + 1;
    }
    assert(buf@ =~= reader@.subrange(start as int, start + n));
    *acc = *acc + n as u64;
    Ok(())
}

/// The `hi - lo` bytes of `b` from `lo`, with a zero for each place past the
/// end of `b`.
pub open spec fn padded(b: Seq<u8>, lo: int, hi: int) -> Seq<u8> {
    Seq::new((hi - lo) as nat, |j: int| if lo + j < b.len() { b[lo + j] } else { 0u8 })
}

/// Copies `buf.len()` bytes of `reader` starting at `*acc` into `buf`,
/// writing zero for each place past the end of `reader`, and advances `*acc`
/// past them.
pub fn read_mmap_bytes_or_zero(buf: &mut [u8], reader: &[u8], acc: &mut u64)
    requires
        *old(acc) + old(buf)@.len() <= u64::MAX,
    ensures
        final(buf)@ == padded(reader@, *old(acc) as int, *old(acc) + old(buf)@.len()),
        *final(acc) == *old(acc) + old(buf)@.len(),
{
    let n = buf.len();
    let total = reader.len();
    let start = *acc;
    let mut i: usize = 0;
    while i < n
        invariant
            n == buf@.len(),
            total == reader@.len(),
            start + n <= u64::MAX,
            0 <= i <= n,
            forall|j: int|
                0 <= j < i ==> buf@[j] == (if start + j < reader@.len() {
                    reader@[start + j]
                } else {
                    0u8
                }),
        decreases n - i,
    {
        let at = start + i as u64;
        if at < total as u64 {
            buf[i] = reader[at as usize];
        } else {
            buf[i] = 0;
        }
        i = i + 1;
    }
    assert(buf@ =~= padded(reader@, start as int, start + n));
    *acc = start + n as u64;
}

/// `s` without its trailing NUL bytes.
pub open spec fn trim_nul(s: Seq<u8>) -> Seq<u8>
    decreases s.len(),
{
    if s.len() > 0 && s.last() == 0 {
        trim_nul(s.drop_last())
    } else {
        s
    }
}

/// A copy of `s` with its trailing NUL bytes removed.
pub fn trim_trailing_nul(s: &[u8]) -> (r: Vec<u8>)
    ensures
        r@ == trim_nul(s@),
{
    let mut end: usize = s.len();
    assert(s@.subrange(0, end as int) =~= s@);
    while end > 0 && s[end - 1] == 0
        invariant
            end <= s@.len(),
            trim_nul(s@.subrange(0, end as int)) == trim_nul(s@),
        decreases end,
    {
        assert(s@.subrange(0, end as int).drop_last() =~= s@.subrange(0, end - 1));
        end = end - 1;
    }
    let mut r: Vec<u8> = Vec::new();
    let mut i: usize = 0;
    while i < end
        invariant
            end <= s@.len(),
            i <= end,
            r@ == s@.subrange(0, i as int),
        decreases end - i,
    {
        r.push(s[i]);
        i = i + 1;
        assert(r@ =~= s@.subrange(0, i as int));
    }
    assert(trim_nul(s@.subrange(0, end as int)) == s@.subrange(0, end as int));
    r
}

/// The `n` unsigned 32-bit little-endian values that start `s`.
pub fn le_u32_run(s: &[u8], n: usize) -> (r: Vec<u32>)
    requires
        4 * n <= s@.len(),
    ensures
        r@ == Seq::new(n as nat, |k: int| spec_u32_le(s@, 4 * k) as u32),
{
    let mut r: Vec<u32> = Vec::new();
    let len = s.len();
    let mut k: usize = 0;
    while k < n
        invariant
            len == s@.len(),
            4 * n <= s@.len(),
            k <= n,
            r@ == Seq::new(k as nat, |j: int| spec_u32_le(s@, 4 * j) as u32),
        decreases n - k,
    {
        r.push(le_u32(s, 4 * k));
        k = k + 1;
        assert(r@ =~= Seq::new(k as nat, |j: int| spec_u32_le(s@, 4 * j) as u32));
    }
    r
}

/// The `n` unsigned 64-bit little-endian values that start `s`.
pub fn le_u64_run(s: &[u8], n: usize) -> (r: Vec<u64>)
    requires
        8 * n <= s@.len(),
    ensures
        r@ == Seq::new(n as nat, |k: int| spec_u64_le(s@, 8 * k) as u64),
{
    let mut r: Vec<u64> = Vec::new();
    let len = s.len();
    let mut k: usize = 0;
    while k < n
        invariant
            len == s@.len(),
            8 * n <= s@.len(),
            k <= n,
            r@ == Seq::new(k as nat, |j: int| spec_u64_le(s@, 8 * j) as u64),
        decreases n - k,
    {
        r.push(le_u64(s, 8 * k));
        k = k + 1;
        assert(r@ =~= Seq::new(k as nat, |j: int| spec_u64_le(s@, 8 * j) as u64));
    }
    r
}

} // verus!
