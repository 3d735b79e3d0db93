//! Little-endian decoding of the integers that make up ext4's on-disk records.
use vstd::prelude::*;

verus! {

/// The byte at `off`, as an integer.
pub open spec fn u8_at(s: Seq<u8>, off: int) -> u8 {
    s[off]
}

/// The little-endian 16-bit value stored at `off`.
pub open spec fn u16_at(s: Seq<u8>, off: int) -> u16 {
    (s[off] + s[off + 1] * 0x100) as u16
}

/// The little-endian 32-bit value stored at `off`.
pub open spec fn u32_at(s: Seq<u8>, off: int) -> u32 {
    (s[off] + s[off + 1] * 0x100 + s[off + 2] * 0x1_0000 + s[off + 3] * 0x100_0000) as u32
}

/// The little-endian 64-bit value stored at `off`.
pub open spec fn u64_at(s: Seq<u8>, off: int) -> u64 {
    (u32_at(s, off) + u32_at(s, off + 4) * 0x1_0000_0000) as u64
}

/// `s` cut or zero-extended to exactly `n` bytes.
pub open spec fn zero_padded(s: Seq<u8>, n: nat) -> Seq<u8> {
    Seq::new(n, |i: int| if i < s.len() { s[i] } else { 0u8 })
}

pub fn read_u16(bytes: &[u8], off: usize) -> (r: u16)
    requires
        off + 2 <= bytes@.len(),
    ensures
        r == u16_at(bytes@, off as int),
{
    bytes[off] as u16 + bytes[off + 1] as u16 * 0x100
}

pub fn read_u32(bytes: &[u8], off: usize) -> (r: u32)
    requires
        off + 4 <= bytes@.len(),
    ensures
        r == u32_at(bytes@, off as int),
{
    bytes[off] as u32 + bytes[off + 1] as u32 * 0x100 + bytes[off + 2] as u32 * 0x1_0000
        + bytes[off + 3] as u32 * 0x100_0000
}

pub fn read_u64(bytes: &[u8], off: usize) -> (r: u64)
    requires
        off + 8 <= bytes@.len(),
    ensures
        r == u64_at(bytes@, off as int),
{
    let len = bytes.len();
    assert(off + 8 <= len);
    let lo = read_u32(bytes, off);
    let hi = read_u32(bytes, off + 4);
    lo as u64 + hi as u64 * 0x1_0000_0000
}

/// `N` consecutive bytes starting at `off`.
pub fn read_u8_array<const N: usize>(bytes: &[u8], off: usize) -> (a: [u8; N])
    requires
        off + N <= bytes@.len(),
    ensures
        forall|i: int| 0 <= i < N ==> a@[i] == bytes@[off + i],
{
    let mut a = [0u8; N];
    let len = bytes.len();
    let mut i: usize = 0;
    while i < N
        invariant
            i <= N,
            len == bytes@.len(),
            off + N <= bytes@.len(),
            a@.len() == N,
            forall|j: int| 0 <= j < i ==> a@[j] == bytes@[off + j],
        decreases N - i,
    {
        a[i] = bytes[off + i];
        i = i + 1;
    }
    a
}

/// `N` consecutive little-endian 32-bit values starting at `off`.
pub fn read_u32_array<const N: usize>(bytes: &[u8], off: usize) -> (a: [u32; N])
    requires
        off + 4 * N <= bytes@.len(),
    ensures
        forall|i: int| 0 <= i < N ==> a@[i] == u32_at(bytes@, off + 4 * i),
{
    let mut a = [0u32; N];
    let len = bytes.len();
    let mut i: usize = 0;
    while i < N
        invariant
            i <= N,
            len == bytes@.len(),
            off + 4 * N <= bytes@.len(),
            a@.len() == N,
            forall|j: int| 0 <= j < i ==> a@[j] == u32_at(bytes@, off + 4 * j),
        decreases N - i,
    {
        a[i] = read_u32(bytes, off + 4 * i);
        i = i + 1;
    }
    a
}

/// A copy of `bytes` cut or zero-extended to exactly `n` bytes.
pub fn zero_pad(bytes: &[u8], n: usize) -> (r: Vec<u8>)
    ensures
        r@ == zero_padded(bytes@, n as nat),
{
    let mut r: Vec<u8> = Vec::new();
    let mut i: usize = 0;
    while i < n
        invariant
            i <= n,
            r@.len() == i,
            forall|j: int| 0 <= j < i ==> r@[j] == (if j < bytes@.len() { bytes@[j] } else { 0u8 }),
        decreases n - i,
    {
        if i < bytes.len() {
            r.push(bytes[i]);
        } else {
            r.push(0u8);
        }
        i = i + 1;
    }
    assert(r@ =~= zero_padded(bytes@, n as nat));
    r
}

/// A copy of `bytes[from..to]`.
pub fn copy_range(bytes: &[u8], from: usize, to: usize) -> (r: Vec<u8>)
    requires
        from <= to <= bytes@.len(),
    ensures
        r@ == bytes@.subrange(from as int, to as int),
{
    let mut r: Vec<u8> = Vec::new();
    let mut i: usize = from;
    while i < to
        invariant
            from <= i <= to <= bytes@.len(),
            r@ == bytes@.subrange(from as int, i as int),
        decreases to - i,
    {
        r.push(bytes[i]);
        i = i + 1;
        assert(r@ =~= bytes@.subrange(from as int, i as int));
    }
    r
}

/// Byte `k` (0 to 3) of the little-endian encoding of `w`.
pub open spec fn le_byte(w: u32, k: int) -> u8 {
    if k == 0 {
        (w % 0x100) as u8
    } else if k == 1 {
        ((w / 0x100) % 0x100) as u8
    } else if k == 2 {
        ((w / 0x1_0000) % 0x100) as u8
    } else {
        (w / 0x100_0000) as u8
    }
}

/// The words laid out in memory as little-endian bytes.
pub open spec fn words_le_bytes(words: Seq<u32>) -> Seq<u8> {
    Seq::new(4 * words.len(), |i: int| le_byte(words[i / 4], i % 4))
}

/// The words of `words` laid out as little-endian bytes.
pub fn words_to_le_bytes(words: &[u32]) -> (r: Vec<u8>)
    ensures
        r@ == words_le_bytes(words@),
{
    let mut r: Vec<u8> = Vec::new();
    let mut i: usize = 0;
    while i < words.len()
        invariant
            i <= words@.len(),
            r@.len() == 4 * i,
            forall|j: int| 0 <= j < 4 * i ==> r@[j] == le_byte(words@[j / 4], j % 4),
        decreases words@.len() - i,
    {
        let w = words[i];
        r.push((w % 0x100) as u8);
        r.push(((w / 0x100) % 0x100) as u8);
        r.push(((w / 0x1_0000) % 0x100) as u8);
        r.push((w / 0x100_0000) as u8);
        i = i + 1;
    }
    assert(r@ =~= words_le_bytes(words@));
    r
}

} // verus!
