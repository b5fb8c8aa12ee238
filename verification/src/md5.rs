//! The MD5 compression function, on which the container digest's
//! modified finalization is built.

use vstd::prelude::*;

verus! {

use crate::binary::decoder::le_u32;

/// The four-word running state of the compression function.
#[derive(Clone, Copy, Debug, PartialEq, Eq, Structural)]
pub struct Md5State {
    pub a: u32,
    pub b: u32,
    pub c: u32,
    pub d: u32,
}

/// The standard initial state.
pub open spec fn spec_init() -> Md5State {
    Md5State { a: 0x67452301, b: 0xefcdab89, c: 0x98badcfe, d: 0x10325476 }
}

/// The standard initial state.
pub fn init() -> (r: Md5State)
    ensures
        r == spec_init(),
{
    Md5State { a: 0x67452301, b: 0xefcdab89, c: 0x98badcfe, d: 0x10325476 }
}

/// One first-round step: mixes `(b & c) | (!b & d)` into `a`, rotates, and
/// adds `b` — all with wrapping 32-bit arithmetic.
pub open spec fn spec_step_f(a: u32, b: u32, c: u32, d: u32, m: u32, k: u32, s: u32) -> u32
    recommends
        0 < s < 32,
{
    let t = a.wrapping_add((b & c) | (!b & d)).wrapping_add(m).wrapping_add(k);
    b.wrapping_add((t << s) | (t >> ((32 - s) as u32)))
}

fn step_f(a: u32, b: u32, c: u32, d: u32, m: u32, k: u32, s: u32) -> (r: u32)
    requires
        0 < s < 32,
    ensures
        r == spec_step_f(a, b, c, d, m, k, s),
{
    let t = a.wrapping_add((b & c) | (!b & d)).wrapping_add(m).wrapping_add(k);
    b.wrapping_add((t << s) | (t >> 32 - s))
}

/// One second-round step: mixes `(b & d) | (c & !d)` into `a`, rotates, and
/// adds `b` — all with wrapping 32-bit arithmetic.
pub open spec fn spec_step_g(a: u32, b: u32, c: u32, d: u32, m: u32, k: u32, s: u32) -> u32
    recommends
        0 < s < 32,
{
    let t = a.wrapping_add((b & d) | (c & !d)).wrapping_add(m).wrapping_add(k);
    b.wrapping_add((t << s) | (t >> ((32 - s) as u32)))
}

fn step_g(a: u32, b: u32, c: u32, d: u32, m: u32, k: u32, s: u32) -> (r: u32)
    requires
        0 < s < 32,
    ensures
        r == spec_step_g(a, b, c, d, m, k, s),
{
    let t = a.wrapping_add((b & d) | (c & !d)).wrapping_add(m).wrapping_add(k);
    b.wrapping_add((t << s) | (t >> 32 - s))
}

/// One third-round step: mixes `b ^ c ^ d` into `a`, rotates, and
/// adds `b` — all with wrapping 32-bit arithmetic.
pub open spec fn spec_step_h(a: u32, b: u32, c: u32, d: u32, m: u32, k: u32, s: u32) -> u32
    recommends
        0 < s < 32,
{
    let t = a.wrapping_add(b ^ c ^ d).wrapping_add(m).wrapping_add(k);
    b.wrapping_add((t << s) | (t >> ((32 - s) as u32)))
}

fn step_h(a: u32, b: u32, c: u32, d: u32, m: u32, k: u32, s: u32) -> (r: u32)
    requires
        0 < s < 32,
    ensures
        r == spec_step_h(a, b, c, d, m, k, s),
{
    let t = a.wrapping_add(b ^ c ^ d).wrapping_add(m).wrapping_add(k);
    b.wrapping_add((t << s) | (t >> 32 - s))
}

/// One fourth-round step: mixes `c ^ (b | !d)` into `a`, rotates, and
/// adds `b` — all with wrapping 32-bit arithmetic.
pub open spec fn spec_step_i(a: u32, b: u32, c: u32, d: u32, m: u32, k: u32, s: u32) -> u32
    recommends
        0 < s < 32,
{
    let t = a.wrapping_add(c ^ (b | !d)).wrapping_add(m).wrapping_add(k);
    b.wrapping_add((t << s) | (t >> ((32 - s) as u32)))
}

fn step_i(a: u32, b: u32, c: u32, d: u32, m: u32, k: u32, s: u32) -> (r: u32)
    requires
        0 < s < 32,
    ensures
        r == spec_step_i(a, b, c, d, m, k, s),
{
    let t = a.wrapping_add(c ^ (b | !d)).wrapping_add(m).wrapping_add(k);
    b.wrapping_add((t << s) | (t >> 32 - s))
}

/// The compression function applied to the 64-byte block at `base`:
/// sixteen little-endian message words driven through the four rounds'
/// sixty-four steps, then added onto the incoming state.
#[verifier::opaque]
pub open spec fn spec_transform(data: Seq<u8>, base: int, st: Md5State) -> Md5State {
    let m0 = le_u32(data, base + 0);
    let m1 = le_u32(data, base + 4);
    let m2 = le_u32(data, base + 8);
    let m3 = le_u32(data, base + 12);
    let m4 = le_u32(data, base + 16);
    let m5 = le_u32(data, base + 20);
    let m6 = le_u32(data, base + 24);
    let m7 = le_u32(data, base + 28);
    let m8 = le_u32(data, base + 32);
    let m9 = le_u32(data, base + 36);
    let m10 = le_u32(data, base + 40);
    let m11 = le_u32(data, base + 44);
    let m12 = le_u32(data, base + 48);
    let m13 = le_u32(data, base + 52);
    let m14 = le_u32(data, base + 56);
    let m15 = le_u32(data, base + 60);
    let a = st.a;
    let b = st.b;
    let c = st.c;
    let d = st.d;
    let a = spec_step_f(a, b, c, d, m0, 0xd76aa478, 7);
    let d = spec_step_f(d, a, b, c, m1, 0xe8c7b756, 12);
    let c = spec_step_f(c, d, a, b, m2, 0x242070db, 17);
    let b = spec_step_f(b, c, d, a, m3, 0xc1bdceee, 22);
    let a = spec_step_f(a, b, c, d, m4, 0xf57c0faf, 7);
    let d = spec_step_f(d, a, b, c, m5, 0x4787c62a, 12);
    let c = spec_step_f(c, d, a, b, m6, 0xa8304613, 17);
    let b = spec_step_f(b, c, d, a, m7, 0xfd469501, 22);
    let a = spec_step_f(a, b, c, d, m8, 0x698098d8, 7);
    let d = spec_step_f(d, a, b, c, m9, 0x8b44f7af, 12);
    let c = spec_step_f(c, d, a, b, m10, 0xffff5bb1, 17);
    let b = spec_step_f(b, c, d, a, m11, 0x895cd7be, 22);
    let a = spec_step_f(a, b, c, d, m12, 0x6b901122, 7);
    let d = spec_step_f(d, a, b, c, m13, 0xfd987193, 12);
    let c = spec_step_f(c, d, a, b, m14, 0xa679438e, 17);
    let b = spec_step_f(b, c, d, a, m15, 0x49b40821, 22);
    let a = spec_step_g(a, b, c, d, m1, 0xf61e2562, 5);
    let d = spec_step_g(d, a, b, c, m6, 0xc040b340, 9);
    let c = spec_step_g(c, d, a, b, m11, 0x265e5a51, 14);
    let b = spec_step_g(b, c, d, a, m0, 0xe9b6c7aa, 20);
    let a = spec_step_g(a, b, c, d, m5, 0xd62f105d, 5);
    let d = spec_step_g(d, a, b, c, m10, 0x02441453, 9);
    let c = spec_step_g(c, d, a, b, m15, 0xd8a1e681, 14);
    let b = spec_step_g(b, c, d, a, m4, 0xe7d3fbc8, 20);
    let a = spec_step_g(a, b, c, d, m9, 0x21e1cde6, 5);
    let d = spec_step_g(d, a, b, c, m14, 0xc33707d6, 9);
    let c = spec_step_g(c, d, a, b, m3, 0xf4d50d87, 14);
    let b = spec_step_g(b, c, d, a, m8, 0x455a14ed, 20);
    let a = spec_step_g(a, b, c, d, m13, 0xa9e3e905, 5);
    let d = spec_step_g(d, a, b, c, m2, 0xfcefa3f8, 9);
    let c = spec_step_g(c, d, a, b, m7, 0x676f02d9, 14);
    let b = spec_step_g(b, c, d, a, m12, 0x8d2a4c8a, 20);
    let a = spec_step_h(a, b, c, d, m5, 0xfffa3942, 4);
    let d = spec_step_h(d, a, b, c, m8, 0x8771f681, 11);
    let c = spec_step_h(c, d, a, b, m11, 0x6d9d6122, 16);
    let b = spec_step_h(b, c, d, a, m14, 0xfde5380c, 23);
    let a = spec_step_h(a, b, c, d, m1, 0xa4beea44, 4);
    let d = spec_step_h(d, a, b, c, m4, 0x4bdecfa9, 11);
    let c = spec_step_h(c, d, a, b, m7, 0xf6bb4b60, 16);
    let b = spec_step_h(b, c, d, a, m10, 0xbebfbc70, 23);
    let a = spec_step_h(a, b, c, d, m13, 0x289b7ec6, 4);
    let d = spec_step_h(d, a, b, c, m0, 0xeaa127fa, 11);
    let c = spec_step_h(c, d, a, b, m3, 0xd4ef3085, 16);
    let b = spec_step_h(b, c, d, a, m6, 0x04881d05, 23);
    let a = spec_step_h(a, b, c, d, m9, 0xd9d4d039, 4);
    let d = spec_step_h(d, a, b, c, m12, 0xe6db99e5, 11);
    let c = spec_step_h(c, d, a, b, m15, 0x1fa27cf8, 16);
    let b = spec_step_h(b, c, d, a, m2, 0xc4ac5665, 23);
    let a = spec_step_i(a, b, c, d, m0, 0xf4292244, 6);
    let d = spec_step_i(d, a, b, c, m7, 0x432aff97, 10);
    let c = spec_step_i(c, d, a, b, m14, 0xab9423a7, 15);
    let b = spec_step_i(b, c, d, a, m5, 0xfc93a039, 21);
    let a = spec_step_i(a, b, c, d, m12, 0x655b59c3, 6);
    let d = spec_step_i(d, a, b, c, m3, 0x8f0ccc92, 10);
    let c = spec_step_i(c, d, a, b, m10, 0xffeff47d, 15);
    let b = spec_step_i(b, c, d, a, m1, 0x85845dd1, 21);
    let a = spec_step_i(a, b, c, d, m8, 0x6fa87e4f, 6);
    let d = spec_step_i(d, a, b, c, m15, 0xfe2ce6e0, 10);
    let c = spec_step_i(c, d, a, b, m6, 0xa3014314, 15);
    let b = spec_step_i(b, c, d, a, m13, 0x4e0811a1, 21);
    let a = spec_step_i(a, b, c, d, m4, 0xf7537e82, 6);
    let d = spec_step_i(d, a, b, c, m11, 0xbd3af235, 10);
    let c = spec_step_i(c, d, a, b, m2, 0x2ad7d2bb, 15);
    let b = spec_step_i(b, c, d, a, m9, 0xeb86d391, 21);
    Md5State {
        a: st.a.wrapping_add(a),
        b: st.b.wrapping_add(b),
        c: st.c.wrapping_add(c),
        d: st.d.wrapping_add(d),
    }
}

/// Reads the little-endian 32-bit word at byte offset `i`.
fn word_at(data: &[u8], i: usize) -> (r: u32)
    requires
        i + 4 <= data@.len(),
    ensures
        r == le_u32(data@, i as int),
{
    let total = data.len();
    assert(i + 4 <= total);
    vstd::bytes::u32_from_le_bytes(vstd::slice::slice_subrange(data, i, i + 4))
}

/// The compression function applied to the 64-byte block at `base`.
pub fn transform(data: &[u8], base: usize, st: Md5State) -> (r: Md5State)
    requires
        base + 64 <= data@.len(),
    ensures
        r == spec_transform(data@, base as int, st),
{
    proof {
        reveal(crate::md5::spec_transform);
    }
    let total = data.len();
    assert(base + 64 <= total);
    let m0 = word_at(data, base + 0);
    let m1 = word_at(data, base + 4);
    let m2 = word_at(data, base + 8);
    let m3 = word_at(data, base + 12);
    let m4 = word_at(data, base + 16);
    let m5 = word_at(data, base + 20);
    let m6 = word_at(data, base + 24);
    let m7 = word_at(data, base + 28);
    let m8 = word_at(data, base + 32);
    let m9 = word_at(data, base + 36);
    let m10 = word_at(data, base + 40);
    let m11 = word_at(data, base + 44);
    let m12 = word_at(data, base + 48);
    let m13 = word_at(data, base + 52);
    let m14 = word_at(data, base + 56);
    let m15 = word_at(data, base + 60);
    let mut a = st.a;
    let mut b = st.b;
    let mut c = st.c;
    let mut d = st.d;
    a = step_f(a, b, c, d, m0, 0xd76aa478, 7);
    d = step_f(d, a, b, c, m1, 0xe8c7b756, 12);
    c = step_f(c, d, a, b, m2, 0x242070db, 17);
    b = step_f(b, c, d, a, m3, 0xc1bdceee, 22);
    a = step_f(a, b, c, d, m4, 0xf57c0faf, 7);
    d = step_f(d, a, b, c, m5, 0x4787c62a, 12);
    c = step_f(c, d, a, b, m6, 0xa8304613, 17);
    b = step_f(b, c, d, a, m7, 0xfd469501, 22);
    a = step_f(a, b, c, d, m8, 0x698098d8, 7);
    d = step_f(d, a, b, c, m9, 0x8b44f7af, 12);
    c = step_f(c, d, a, b, m10, 0xffff5bb1, 17);
    b = step_f(b, c, d, a, m11, 0x895cd7be, 22);
    a = step_f(a, b, c, d, m12, 0x6b901122, 7);
    d = step_f(d, a, b, c, m13, 0xfd987193, 12);
    c = step_f(c, d, a, b, m14, 0xa679438e, 17);
    b = step_f(b, c, d, a, m15, 0x49b40821, 22);
    a = step_g(a, b, c, d, m1, 0xf61e2562, 5);
    d = step_g(d, a, b, c, m6, 0xc040b340, 9);
    c = step_g(c, d, a, b, m11, 0x265e5a51, 14);
    b = step_g(b, c, d, a, m0, 0xe9b6c7aa, 20);
    a = step_g(a, b, c, d, m5, 0xd62f105d, 5);
    d = step_g(d, a, b, c, m10, 0x02441453, 9);
    c = step_g(c, d, a, b, m15, 0xd8a1e681, 14);
    b = step_g(b, c, d, a, m4, 0xe7d3fbc8, 20);
    a = step_g(a, b, c, d, m9, 0x21e1cde6, 5);
    d = step_g(d, a, b, c, m14, 0xc33707d6, 9);
    c = step_g(c, d, a, b, m3, 0xf4d50d87, 14);
    b = step_g(b, c, d, a, m8, 0x455a14ed, 20);
    a = step_g(a, b, c, d, m13, 0xa9e3e905, 5);
    d = step_g(d, a, b, c, m2, 0xfcefa3f8, 9);
    c = step_g(c, d, a, b, m7, 0x676f02d9, 14);
    b = step_g(b, c, d, a, m12, 0x8d2a4c8a, 20);
    a = step_h(a, b, c, d, m5, 0xfffa3942, 4);
    d = step_h(d, a, b, c, m8, 0x8771f681, 11);
    c = step_h(c, d, a, b, m11, 0x6d9d6122, 16);
    b = step_h(b, c, d, a, m14, 0xfde5380c, 23);
    a = step_h(a, b, c, d, m1, 0xa4beea44, 4);
    d = step_h(d, a, b, c, m4, 0x4bdecfa9, 11);
    c = step_h(c, d, a, b, m7, 0xf6bb4b60, 16);
    b = step_h(b, c, d, a, m10, 0xbebfbc70, 23);
    a = step_h(a, b, c, d, m13, 0x289b7ec6, 4);
    d = step_h(d, a, b, c, m0, 0xeaa127fa, 11);
    c = step_h(c, d, a, b, m3, 0xd4ef3085, 16);
    b = step_h(b, c, d, a, m6, 0x04881d05, 23);
    a = step_h(a, b, c, d, m9, 0xd9d4d039, 4);
    d = step_h(d, a, b, c, m12, 0xe6db99e5, 11);
    c = step_h(c, d, a, b, m15, 0x1fa27cf8, 16);
    b = step_h(b, c, d, a, m2, 0xc4ac5665, 23);
    a = step_i(a, b, c, d, m0, 0xf4292244, 6);
    d = step_i(d, a, b, c, m7, 0x432aff97, 10);
    c = step_i(c, d, a, b, m14, 0xab9423a7, 15);
    b = step_i(b, c, d, a, m5, 0xfc93a039, 21);
    a = step_i(a, b, c, d, m12, 0x655b59c3, 6);
    d = step_i(d, a, b, c, m3, 0x8f0ccc92, 10);
    c = step_i(c, d, a, b, m10, 0xffeff47d, 15);
    b = step_i(b, c, d, a, m1, 0x85845dd1, 21);
    a = step_i(a, b, c, d, m8, 0x6fa87e4f, 6);
    d = step_i(d, a, b, c, m15, 0xfe2ce6e0, 10);
    c = step_i(c, d, a, b, m6, 0xa3014314, 15);
    b = step_i(b, c, d, a, m13, 0x4e0811a1, 21);
    a = step_i(a, b, c, d, m4, 0xf7537e82, 6);
    d = step_i(d, a, b, c, m11, 0xbd3af235, 10);
    c = step_i(c, d, a, b, m2, 0x2ad7d2bb, 15);
    b = step_i(b, c, d, a, m9, 0xeb86d391, 21);
    Md5State {
        a: st.a.wrapping_add(a),
        b: st.b.wrapping_add(b),
        c: st.c.wrapping_add(c),
        d: st.d.wrapping_add(d),
    }
}

/// The state after the first `n` 64-byte blocks starting at `base`.
pub open spec fn spec_blocks(data: Seq<u8>, base: int, n: int, st: Md5State) -> Md5State
    decreases n,
{
    if n <= 0 {
        st
    } else {
        spec_transform(data, base + 64 * (n - 1), spec_blocks(data, base, n - 1, st))
    }
}

} // verus!
