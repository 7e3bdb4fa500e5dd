use vstd::prelude::*;

verus! {

/// The unsigned 32-bit value stored little-endian at `off`.
pub open spec fn le_u32(b: Seq<u8>, off: int) -> int {
    b[off] + b[off + 1] * 0x100 + b[off + 2] * 0x1_0000 + b[off + 3] * 0x100_0000
}

/// The unsigned 64-bit value stored little-endian at `off`.
pub open spec fn le_u64(b: Seq<u8>, off: int) -> int {
    le_u32(b, off) + le_u32(b, off + 4) * 0x1_0000_0000
}

/// The unsigned 16-bit value stored little-endian at `off`.
pub open spec fn le_u16(b: Seq<u8>, off: int) -> int {
    b[off] + b[off + 1] * 0x100
}

/// The two's-complement 32-bit value stored little-endian at `off`.
pub open spec fn le_i32(b: Seq<u8>, off: int) -> int {
    let u = le_u32(b, off);
    if u < 0x8000_0000 { u } else { u - 0x1_0000_0000 }
}

/// The two's-complement 64-bit value stored little-endian at `off`.
pub open spec fn le_i64(b: Seq<u8>, off: int) -> int {
    let u = le_u64(b, off);
    if u < 0x8000_0000_0000_0000 { u } else { u - 0x1_0000_0000_0000_0000 }
}

pub fn read_u16(b: &[u8], off: usize) -> (r: u16)
    requires
        off + 2 <= b@.len(),
    ensures
        r == le_u16(b@, off as int),
{
    b[off] as u16 + (b[off + 1] as u16) * 0x100
}

pub fn read_u32(b: &[u8], off: usize) -> (r: u32)
    requires
        off + 4 <= b@.len(),
    ensures
        r == le_u32(b@, off as int),
{
    b[off] as u32 + (b[off + 1] as u32) * 0x100 + (b[off + 2] as u32) * 0x1_0000 + (b[off + 3]
        as u32) * 0x100_0000
}

pub fn read_u64(b: &[u8], off: usize) -> (r: u64)
    requires
        off + 8 <= b@.len(),
    ensures
        r == le_u64(b@, off as int),
{
    let lo = read_u32(b, off);
    let _len = b.len();
    let hi = read_u32(b, off + 4);
    lo as u64 + (hi as u64) * 0x1_0000_0000
}

pub fn read_i32(b: &[u8], off: usize) -> (r: i32)
    requires
        off + 4 <= b@.len(),
    ensures
        r == le_i32(b@, off as int),
{
    let u = read_u32(b, off);
    if u < 0x8000_0000 {
        u as i32
    } else {
        ((u - 0x8000_0000) as i32) - 0x7fff_ffff - 1
    }
}

pub fn read_i64(b: &[u8], off: usize) -> (r: i64)
    requires
        off + 8 <= b@.len(),
    ensures
        r == le_i64(b@, off as int),
{
    let u = read_u64(b, off);
    if u < 0x8000_0000_0000_0000 {
        u as i64
    } else {
        ((u - 0x8000_0000_0000_0000) as i64) - 0x7fff_ffff_ffff_ffff - 1
    }
}

/// Copies `N` bytes starting at `off` into an array.
pub fn read_bytes<const N: usize>(b: &[u8], off: usize) -> (r: [u8; N])
    requires
        off + N <= b@.len(),
    ensures
        r@ == b@.subrange(off as int, off + N),
{
    let _len = b.len();
    let mut r = [0u8; N];
    let mut i: usize = 0;
    while i < N
        invariant
            i <= N,
            off + N <= b@.len(),
            b@.len() == _len,
            r@.len() == N,
            forall|k: int| 0 <= k < i ==> r@[k] == b@[off + k],
        decreases N - i,
    {
        r[i] = b[off + i];
        i = i + 1;
    }
    assert(r@ =~= b@.subrange(off as int, off + N));
    r
}

} // verus!
