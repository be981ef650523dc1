//! Little-endian integers and byte arrays as byte sequences: the building blocks of every
//! wire record.

use vstd::prelude::*;

verus! {

/// The four bytes of `x`, least significant first.
#[verifier::opaque]
pub open spec fn le32(x: u32) -> Seq<u8> {
    seq![
        (x % 256) as u8,
        (x / 256 % 256) as u8,
        (x / 65536 % 256) as u8,
        (x / 16777216) as u8,
    ]
}

/// The eight bytes of `x`, least significant first.
#[verifier::opaque]
pub open spec fn le64(x: u64) -> Seq<u8> {
    le32((x % 4294967296) as u32) + le32((x / 4294967296) as u32)
}

/// The integer whose little-endian bytes stand at `off .. off + 4` in `b`.
#[verifier::opaque]
pub open spec fn u32_at(b: Seq<u8>, off: int) -> u32 {
    (b[off] as int + 256 * (b[off + 1] as int) + 65536 * (b[off + 2] as int) + 16777216 * (b[off
        + 3] as int)) as u32
}

/// The integer whose little-endian bytes stand at `off .. off + 8` in `b`.
#[verifier::opaque]
pub open spec fn u64_at(b: Seq<u8>, off: int) -> u64 {
    (u32_at(b, off) as int + 4294967296 * (u32_at(b, off + 4) as int)) as u64
}

/// The four bytes of `x`, most significant first.
pub open spec fn be32(x: u32) -> Seq<u8> {
    seq![
        (x / 16777216) as u8,
        (x / 65536 % 256) as u8,
        (x / 256 % 256) as u8,
        (x % 256) as u8,
    ]
}

/// `n` zero bytes.
pub open spec fn zeros(n: nat) -> Seq<u8> {
    Seq::new(n, |i: int| 0u8)
}

/// The array that holds the first `k` of the bytes at `off ..` in `b`, and zeros after them.
pub open spec fn byte_array_upto<const N: usize>(b: Seq<u8>, off: int, k: nat) -> [u8; N]
    decreases k,
{
    if k == 0 {
        vstd::array::spec_array_fill_for_copy_type::<u8, N>(0u8)
    } else {
        vstd::array::spec_array_update(
            byte_array_upto::<N>(b, off, (k - 1) as nat),
            k - 1,
            b[off + k - 1],
        )
    }
}

/// The array that holds the bytes at `off .. off + N` in `b`.
#[verifier::opaque]
pub open spec fn byte_array<const N: usize>(b: Seq<u8>, off: int) -> [u8; N] {
    byte_array_upto::<N>(b, off, N as nat)
}

/// An integer takes four bytes.
pub proof fn lemma_le32_len(x: u32)
    ensures
        le32(x).len() == 4,
{
    reveal(le32);
}

/// An integer takes eight bytes.
pub proof fn lemma_le64_len(x: u64)
    ensures
        le64(x).len() == 8,
{
    reveal(le32);
    reveal(le64);
}

/// The bytes at `off` are those of `x` exactly when `x` is the integer read there.
pub proof fn lemma_u32_at_iff(b: Seq<u8>, off: int, x: u32)
    requires
        0 <= off,
        off + 4 <= b.len(),
    ensures
        b.subrange(off, off + 4) == le32(x) <==> u32_at(b, off) == x,
{
    reveal(le32);
    reveal(u32_at);
    let s = b.subrange(off, off + 4);
    let b0 = b[off] as int;
    let b1 = b[off + 1] as int;
    let b2 = b[off + 2] as int;
    let b3 = b[off + 3] as int;
    let q2 = b2 + 256 * b3;
    let q1 = b1 + 256 * q2;
    let y = b0 + 256 * q1;
    assert(y == u32_at(b, off));
    assert(y / 256 == q1 && y % 256 == b0);
    assert(q1 / 256 == q2 && q1 % 256 == b1);
    assert(q2 / 256 == b3 && q2 % 256 == b2);
    assert(y / 65536 == q2);
    assert(y / 16777216 == b3);
    assert(le32(u32_at(b, off)) =~= s);
    if s == le32(x) {
        assert(s[0] == le32(x)[0]);
        assert(s[1] == le32(x)[1]);
        assert(s[2] == le32(x)[2]);
        assert(s[3] == le32(x)[3]);
        let x0 = (x % 256) as int;
        let r1 = x as int / 256;
        let r2 = x as int / 65536;
        let r3 = x as int / 16777216;
        assert(r1 == (r1 % 256) + 256 * r2);
        assert(r2 == (r2 % 256) + 256 * r3);
        assert(x as int == x0 + 256 * r1);
    }
}

/// The bytes at `off` are those of `x` exactly when `x` is the integer read there.
pub proof fn lemma_u64_at_iff(b: Seq<u8>, off: int, x: u64)
    requires
        0 <= off,
        off + 8 <= b.len(),
    ensures
        b.subrange(off, off + 8) == le64(x) <==> u64_at(b, off) == x,
{
    reveal(le64);
    reveal(u64_at);
    let lo = (x % 4294967296) as u32;
    let hi = (x / 4294967296) as u32;
    lemma_le32_len(lo);
    lemma_le32_len(hi);
    lemma_u32_at_iff(b, off, lo);
    lemma_u32_at_iff(b, off + 4, hi);
    lemma_join(b, off, off + 4, off + 8);
    if b.subrange(off, off + 8) == le64(x) {
        lemma_concat_eq(b.subrange(off, off + 4), b.subrange(off + 4, off + 8), le32(lo), le32(hi));
    }
    if u64_at(b, off) == x {
        let l = u32_at(b, off) as int;
        let h = u32_at(b, off + 4) as int;
        assert(l + 4294967296 * h == x);
        assert(x % 4294967296 == l && x / 4294967296 == h);
    }
}

proof fn lemma_byte_array_upto<const N: usize>(b: Seq<u8>, off: int, k: nat)
    requires
        k <= N,
    ensures
        forall|i: int| 0 <= i < k ==> (#[trigger] byte_array_upto::<N>(b, off, k)@[i]) == b[off + i],
        forall|i: int| k <= i < N ==> (#[trigger] byte_array_upto::<N>(b, off, k)@[i]) == 0u8,
    decreases k,
{
    broadcast use vstd::array::group_array_axioms;

    if k > 0 {
        let prev = byte_array_upto::<N>(b, off, (k - 1) as nat);
        lemma_byte_array_upto::<N>(b, off, (k - 1) as nat);
        assert(byte_array_upto::<N>(b, off, k)@ == prev@.update(k - 1, b[off + k - 1]));
    }
}

/// An array of `N` bytes takes `N` bytes.
pub proof fn lemma_byte_array_len<const N: usize>(a: [u8; N])
    ensures
        a@.len() == N,
{
    broadcast use vstd::array::group_array_axioms;

}

/// The bytes at `off` are those of `a` exactly when `a` is the array read there.
pub proof fn lemma_byte_array_iff<const N: usize>(b: Seq<u8>, off: int, a: [u8; N])
    requires
        0 <= off,
        off + N <= b.len(),
    ensures
        b.subrange(off, off + N) == a@ <==> byte_array::<N>(b, off) == a,
{
    broadcast use vstd::array::group_array_axioms;

    reveal(byte_array);
    let r = byte_array::<N>(b, off);
    lemma_byte_array_upto::<N>(b, off, N as nat);
    assert(r@ =~= b.subrange(off, off + N));
    if b.subrange(off, off + N) == a@ {
        assert forall|i: int| 0 <= i < N implies r[i] == a[i] by {
            assert(r@[i] == a@[i]);
        }
        assert(r =~= a);
    }
}

/// Two adjacent stretches of `b` make one.
pub proof fn lemma_join(b: Seq<u8>, i: int, j: int, k: int)
    requires
        0 <= i <= j <= k <= b.len(),
    ensures
        b.subrange(i, j) + b.subrange(j, k) == b.subrange(i, k),
{
    assert(b.subrange(i, j) + b.subrange(j, k) =~= b.subrange(i, k));
}

/// Two concatenations that are equal and end in parts of one length are equal part by part.
pub proof fn lemma_concat_eq(x1: Seq<u8>, y1: Seq<u8>, x2: Seq<u8>, y2: Seq<u8>)
    requires
        x1 + y1 == x2 + y2,
        y1.len() == y2.len(),
    ensures
        x1 == x2,
        y1 == y2,
{
    let s = x1 + y1;
    assert(x1.len() == x2.len()) by {
        assert((x1 + y1).len() == (x2 + y2).len());
    }
    assert(x1 =~= s.subrange(0, x1.len() as int));
    assert(x2 =~= (x2 + y2).subrange(0, x2.len() as int));
    assert(y1 =~= s.subrange(x1.len() as int, s.len() as int));
    assert(y2 =~= (x2 + y2).subrange(x2.len() as int, (x2 + y2).len() as int));
}

/// Concatenation may be read from either side.
pub proof fn lemma_concat_assoc(a: Seq<u8>, x: Seq<u8>, y: Seq<u8>)
    ensures
        (a + x) + y == a + (x + y),
{
    assert((a + x) + y =~= a + (x + y));
}

/// Appends the little-endian bytes of `x`.
pub fn put_u32(out: &mut Vec<u8>, x: u32)
    ensures
        final(out)@ == old(out)@ + le32(x),
{
    out.push((x % 256) as u8);
    out.push((x / 256 % 256) as u8);
    out.push((x / 65536 % 256) as u8);
    out.push((x / 16777216) as u8);
    proof {
        reveal(le32);
        assert(out@ =~= old(out)@ + le32(x));
    }
}

/// Appends the little-endian bytes of `x`.
pub fn put_u64(out: &mut Vec<u8>, x: u64)
    ensures
        final(out)@ == old(out)@ + le64(x),
{
    let lo: u32 = (x % 4294967296) as u32;
    let hi: u32 = (x / 4294967296) as u32;
    put_u32(out, lo);
    put_u32(out, hi);
    proof {
        reveal(le64);
        lemma_concat_assoc(old(out)@, le32(lo), le32(hi));
    }
}

/// Appends the bytes of `src`.
pub fn put_bytes(out: &mut Vec<u8>, src: &[u8])
    ensures
        final(out)@ == old(out)@ + src@,
{
    let mut i: usize = 0;
    while i < src.len()
        invariant
            i <= src.len(),
            out@ == old(out)@ + src@.subrange(0, i as int),
        decreases src.len() - i,
    {
        out.push(src[i]);
        i = i + 1;
        assert(out@ =~= old(out)@ + src@.subrange(0, i as int));
    }
    assert(src@.subrange(0, src.len() as int) =~= src@);
}

/// Reads the little-endian integer at `off`.
pub fn get_u32(b: &[u8], off: usize) -> (x: u32)
    requires
        off + 4 <= b.len(),
    ensures
        x == u32_at(b@, off as int),
{
    let b0: u32 = b[off] as u32;
    let b1: u32 = b[off + 1] as u32;
    let b2: u32 = b[off + 2] as u32;
    let b3: u32 = b[off + 3] as u32;
    proof {
        reveal(u32_at);
    }
    b0 + 256 * b1 + 65536 * b2 + 16777216 * b3
}

/// Reads the little-endian integer at `off`.
pub fn get_u64(b: &[u8], off: usize) -> (x: u64)
    requires
        off + 8 <= b.len(),
    ensures
        x == u64_at(b@, off as int),
{
    let lo: u64 = get_u32(b, off) as u64;
    let hi: u64 = get_u32(b, off + 4) as u64;
    proof {
        reveal(u64_at);
    }
    lo + 4294967296 * hi
}

/// Reads the `N` bytes at `off` into an array.
pub fn get_array<const N: usize>(b: &[u8], off: usize) -> (a: [u8; N])
    requires
        off + N <= b.len(),
    ensures
        a == byte_array::<N>(b@, off as int),
{
    broadcast use vstd::array::group_array_axioms;

    let mut a: [u8; N] = [0u8; N];
    let mut i: usize = 0;
    while i < N
        invariant
            i <= N,
            off + N <= b.len(),
            forall|j: int| 0 <= j < i ==> a@[j] == b@[off + j],
        decreases N - i,
    {
        a[i] = b[off + i];
        i = i + 1;
    }
    proof {
        assert(b@.subrange(off as int, off + N) =~= a@);
        lemma_byte_array_iff::<N>(b@, off as int, a);
    }
    a
}

} // verus!
