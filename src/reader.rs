//! A cursor over a byte buffer with sequential little-endian reads.

use vstd::prelude::*;
use vstd::slice::{slice_subrange, slice_to_vec};

verus! {

/// The unsigned value of the two bytes at `i` and `i + 1`, little-endian.
pub open spec fn le_u16_at(s: Seq<u8>, i: int) -> int {
    s[i] + 256 * s[i + 1]
}

/// The unsigned value of the four bytes from `i` to `i + 3`, little-endian.
pub open spec fn le_u32_at(s: Seq<u8>, i: int) -> int {
    s[i] + 256 * s[i + 1] + 65536 * s[i + 2] + 16777216 * s[i + 3]
}

/// The four bytes of `x`, least significant first.
pub open spec fn u32_le_bytes(x: u32) -> Seq<u8> {
    seq![
        (x % 256) as u8,
        ((x / 256) % 256) as u8,
        ((x / 65536) % 256) as u8,
        (x / 16777216) as u8,
    ]
}

/// Encoding a `u32` and reading it back gives the same value.
pub proof fn lemma_u32_le_bytes_read(x: u32)
    ensures
        u32_le_bytes(x).len() == 4,
        le_u32_at(u32_le_bytes(x), 0) == x,
{
    let b = u32_le_bytes(x);
    let v = x as int;
    assert(v == v % 256 + 256 * ((v / 256) % 256) + 65536 * ((v / 65536) % 256)
        + 16777216 * (v / 16777216)) by (nonlinear_arith)
        requires
            0 <= v < 0x1_0000_0000,
    ;
}

/// Reading four bytes and encoding the value gives the same bytes.
pub proof fn lemma_le_u32_at_bytes(s: Seq<u8>, i: int)
    requires
        0 <= i,
        i + 4 <= s.len(),
    ensures
        0 <= le_u32_at(s, i) < 0x1_0000_0000,
        u32_le_bytes(le_u32_at(s, i) as u32) == s.subrange(i, i + 4),
{
    let b0 = s[i] as int;
    let b1 = s[i + 1] as int;
    let b2 = s[i + 2] as int;
    let b3 = s[i + 3] as int;
    let v = le_u32_at(s, i);
    assert(v % 256 == b0 && (v / 256) % 256 == b1 && (v / 65536) % 256 == b2 && v / 16777216
        == b3) by (nonlinear_arith)
        requires
            v == b0 + 256 * b1 + 65536 * b2 + 16777216 * b3,
            0 <= b0 < 256,
            0 <= b1 < 256,
            0 <= b2 < 256,
            0 <= b3 < 256,
    ;
    assert(u32_le_bytes(v as u32) =~= s.subrange(i, i + 4));
}

/// A read position over a borrowed byte buffer.
pub struct Cursor<'a> {
    pub data: &'a [u8],
    pub pos: usize,
}

impl<'a> Cursor<'a> {
    /// A cursor at the start of `data`.
    pub fn new(data: &'a [u8]) -> (r: Cursor<'a>)
        ensures
            r.data@ == data@,
            r.pos == 0,
    {
        Cursor { data, pos: 0 }
    }

    /// Moves to the absolute offset `pos`.
    pub fn seek(&mut self, pos: usize)
        requires
            pos <= old(self).data@.len(),
        ensures
            final(self).data@ == old(self).data@,
            final(self).pos == pos,
    {
        self.pos = pos;
    }

    /// Reads one byte.
    pub fn read_u8(&mut self) -> (r: u8)
        requires
            old(self).pos + 1 <= old(self).data@.len(),
        ensures
            final(self).data@ == old(self).data@,
            final(self).pos == old(self).pos + 1,
            r == old(self).data@[old(self).pos as int],
    {
        let r = self.data[self.pos];
        self.pos = self.pos + 1;
        r
    }

    /// Reads a little-endian 16-bit unsigned integer.
    pub fn read_u16_le(&mut self) -> (r: u16)
        requires
            old(self).pos + 2 <= old(self).data@.len(),
        ensures
            final(self).data@ == old(self).data@,
            final(self).pos == old(self).pos + 2,
            r == le_u16_at(old(self).data@, old(self).pos as int),
    {
        let lo = self.data[self.pos] as u16;
        let hi = self.data[self.pos + 1] as u16;
        self.pos = self.pos + 2;
        lo + 256 * hi
    }

    /// Reads a little-endian 32-bit unsigned integer.
    pub fn read_u32_le(&mut self) -> (r: u32)
        requires
            old(self).pos + 4 <= old(self).data@.len(),
        ensures
            final(self).data@ == old(self).data@,
            final(self).pos == old(self).pos + 4,
            r == le_u32_at(old(self).data@, old(self).pos as int),
    {
        let p = self.pos;
        let b0 = self.data[p] as u32;
        let b1 = self.data[p + 1] as u32;
        let b2 = self.data[p + 2] as u32;
        let b3 = self.data[p + 3] as u32;
        self.pos = p + 4;
        b0 + 256 * b1 + 65536 * b2 + 16777216 * b3
    }

    /// Reads `n` raw bytes into a fresh vector.
    pub fn read_bytes(&mut self, n: usize) -> (r: Vec<u8>)
        requires
            old(self).pos + n <= old(self).data@.len(),
        ensures
            final(self).data@ == old(self).data@,
            final(self).pos == old(self).pos + n,
            r@ == old(self).data@.subrange(old(self).pos as int, old(self).pos + n),
    {
        let p = self.pos;
        let len = self.data.len();
        assert(p + n <= len);
        let r = slice_to_vec(slice_subrange(self.data, p, p + n));
        self.pos = p + n;
        r
    }

    /// Reads `N` raw bytes into an array.
    pub fn read_array<const N: usize>(&mut self) -> (r: [u8; N])
        requires
            old(self).pos + N <= old(self).data@.len(),
        ensures
            final(self).data@ == old(self).data@,
            final(self).pos == old(self).pos + N,
            r@ == old(self).data@.subrange(old(self).pos as int, old(self).pos + N),
    {
        let p = self.pos;
        let len = self.data.len();
        let mut r = [0u8; N];
        let mut i: usize = 0;
        while i < N
            invariant
                i <= N,
                p + N <= len,
                len == self.data@.len(),
                r@.len() == N,
                forall|j: int| 0 <= j < i ==> r@[j] == self.data@[p + j],
            decreases N - i,
        {
            r[i] = self.data[p + i];
            i = i + 1;
        }
        self.pos = p + N;
        assert(r@ =~= self.data@.subrange(p as int, p + N));
        r
    }
}

/// Appends every byte of `src` to `out`.
pub fn push_bytes(out: &mut Vec<u8>, src: &[u8])
    ensures
        final(out)@ == old(out)@ + src@,
{
    let mut i: usize = 0;
    while i < src.len()
        invariant
            i <= src@.len(),
            out@ == old(out)@ + src@.subrange(0, i as int),
        decreases src@.len() - i,
    {
        out.push(src[i]);
        i = i + 1;
        assert(out@ =~= old(out)@ + src@.subrange(0, i as int));
    }
    assert(src@.subrange(0, src@.len() as int) =~= src@);
}

/// Appends the four little-endian bytes of `x` to `out`.
pub fn push_u32_le(out: &mut Vec<u8>, x: u32)
    ensures
        final(out)@ == old(out)@ + u32_le_bytes(x),
{
    out.push((x % 256) as u8);
    out.push(((x / 256) % 256) as u8);
    out.push(((x / 65536) % 256) as u8);
    out.push((x / 16777216) as u8);
    assert(out@ =~= old(out)@ + u32_le_bytes(x));
}

} // verus!
