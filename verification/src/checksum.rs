//! The container's 128-bit integrity digest: a modified MD5 over the
//! buffer's bytes from offset 0x14 (just past the header's magic and
//! checksum fields) to the end.
//!
//! Two deliberate deviations from textbook MD5 are reproduced exactly,
//! never corrected: the injected bit-length counts only the body bytes
//! and, in the final block, is placed as literal data rather than as a
//! trailing length field; and the final word slot receives
//! `(bit_length >> 2) | 1` instead of a true high length word.

use vstd::prelude::*;

verus! {

use crate::md5::{init, spec_blocks, spec_init, spec_transform, transform};

/// The first `n` bytes of the padding sequence: one 0x80 marker byte
/// followed by zeros.
pub open spec fn spec_padding(n: int) -> Seq<u8> {
    Seq::new(n as nat, |i: int| if i == 0 { 0x80u8 } else { 0u8 })
}

/// The digest of `data`'s body, the bytes from offset 0x14 to the end.
///
/// Every full 64-byte block of the body is compressed as in standard
/// MD5. Finalization branches on the occupied length `l` of the final
/// partial block, mirroring standard MD5's two padding cases:
/// * `l >= 56`: the padded tail is compressed, and then a second block —
///   the same bytes with the first word replaced by the body bit-length
///   and the last word by `(bits >> 2) | 1` — is compressed.
/// * `l < 56`: one block holds the tail, then the 4-byte bit-length as
///   literal data, then the marker-and-zeros padding, with
///   `(bits >> 2) | 1` in the final word slot.
///
/// Note: implementations disagree on whether the short case places the
/// bit-length before or after the tail bytes; this crate places it after
/// the tail, and its reference digests in the test suite are derived from
/// that convention.
pub open spec fn spec_checksum(data: Seq<u8>) -> Seq<u32>
    recommends
        data.len() >= 20,
{
    let body_len = data.len() - 20;
    let bits = ((8 * body_len) % 0x100000000) as u32;
    let nb = body_len / 64;
    let l = body_len % 64;
    let st = spec_blocks(data, 20, nb, spec_init());
    let tail = data.subrange(20 + 64 * nb, data.len() as int);
    if l >= 56 {
        let block1 = tail + spec_padding(64 - l);
        let st2 = spec_transform(block1, 0, st);
        let block2 = vstd::bytes::spec_u32_to_le_bytes(bits) + block1.subrange(4, 60)
            + vstd::bytes::spec_u32_to_le_bytes((bits >> 2) | 1);
        let st3 = spec_transform(block2, 0, st2);
        seq![st3.a, st3.b, st3.c, st3.d]
    } else {
        let block = tail + vstd::bytes::spec_u32_to_le_bytes(bits) + spec_padding(56 - l)
            + vstd::bytes::spec_u32_to_le_bytes((bits >> 2) | 1);
        let st2 = spec_transform(block, 0, st);
        seq![st2.a, st2.b, st2.c, st2.d]
    }
}

/// Computes the container's integrity digest over `module`, whose first
/// 0x14 bytes (magic and stored checksum) are excluded. This is the value
/// stored in the header's checksum field; the caller compares them — the
/// structural parse does not enforce the match.
pub fn checksum(module: &[u8]) -> (r: [u32; 4])
    requires
        module@.len() >= 20,
    ensures
        r@ == spec_checksum(module@),
{
    let total = module.len();
    let body_len = total - 20;
    let nb = body_len / 64;
    let l = body_len % 64;
    let body_mod: u32 = (body_len % 0x2000_0000) as u32;
    let bits: u32 = body_mod * 8;
    proof {
        vstd::arithmetic::div_mod::lemma_fundamental_div_mod(body_len as int, 64);
        vstd::arithmetic::div_mod::lemma_fundamental_div_mod(body_len as int, 0x2000_0000);
        vstd::arithmetic::div_mod::lemma_mod_multiples_vanish(
            body_len as int / 0x2000_0000,
            8 * (body_len as int % 0x2000_0000),
            0x100000000,
        );
        assert(8 * (body_len as int) == 0x100000000 * (body_len as int / 0x2000_0000) + 8 * (
        body_len as int % 0x2000_0000));
        assert(bits == ((8 * (module@.len() - 20)) % 0x100000000) as u32);
    }
    let mut st = init();
    let mut i: usize = 0;
    while i < nb
        invariant
            total == module@.len(),
            20 <= total,
            body_len == total - 20,
            nb == body_len / 64,
            64 * nb <= body_len,
            i <= nb,
            st == spec_blocks(module@, 20, i as int, spec_init()),
        decreases nb - i,
    {
        assert(20 + 64 * i + 64 <= total);
        st = transform(module, 20 + 64 * i, st);
        i = i + 1;
        proof {
            assert(st == spec_blocks(module@, 20, i as int, spec_init()));
        }
    }
    let tail_start = 20 + nb * 64;
    let ghost ts = tail_start as int;
    proof {
        vstd::arithmetic::div_mod::lemma_fundamental_div_mod(body_len as int, 64);
        assert(tail_start + l == total);
    }
    let mut block: Vec<u8> = Vec::new();
    let mut k: usize = 0;
    while k < l
        invariant
            total == module@.len(),
            ts == tail_start as int,
            tail_start + l == total,
            k <= l,
            block@ == module@.subrange(ts, ts + k),
        decreases l - k,
    {
        block.push(*vstd::slice::slice_index_get(module, tail_start + k));
        k = k + 1;
        proof {
            assert(block@ =~= module@.subrange(ts, ts + k));
        }
    }
    let ghost tail = module@.subrange(ts, total as int);
    proof {
        assert(block@ =~= tail);
    }
    let bits_le = vstd::bytes::u32_to_le_bytes(bits);
    let last_le = vstd::bytes::u32_to_le_bytes((bits >> 2) | 1);
    if l >= 56 {
        let pad_len = 64 - l;
        let mut p: usize = 0;
        while p < pad_len
            invariant
                pad_len == 64 - l,
                l <= 63,
                p <= pad_len,
                block@ == tail + spec_padding(p as int),
                tail.len() == l,
            decreases pad_len - p,
        {
            let byte: u8 = if p == 0 {
                0x80
            } else {
                0
            };
            block.push(byte);
            p = p + 1;
            proof {
                assert(block@ =~= tail + spec_padding(p as int));
            }
        }
        let ghost block1 = tail + spec_padding(64 - l);
        proof {
            assert(block@ =~= block1);
            assert(block@.len() == 64);
        }
        let st2 = transform(block.as_slice(), 0, st);
        let mut block2: Vec<u8> = Vec::new();
        block2.push(bits_le[0]);
        block2.push(bits_le[1]);
        block2.push(bits_le[2]);
        block2.push(bits_le[3]);
        let mut q: usize = 4;
        while q < 60
            invariant
                4 <= q <= 60,
                block@.len() == 64,
                block2@ == vstd::bytes::spec_u32_to_le_bytes(bits) + block@.subrange(4, q as int),
            decreases 60 - q,
        {
            block2.push(block[q]);
            q = q + 1;
            proof {
                assert(block2@ =~= vstd::bytes::spec_u32_to_le_bytes(bits) + block@.subrange(
                    4,
                    q as int,
                ));
            }
        }
        block2.push(last_le[0]);
        block2.push(last_le[1]);
        block2.push(last_le[2]);
        block2.push(last_le[3]);
        proof {
            assert(block2@ =~= vstd::bytes::spec_u32_to_le_bytes(bits) + block1.subrange(4, 60)
                + vstd::bytes::spec_u32_to_le_bytes((bits >> 2) | 1));
            assert(block2@.len() == 64);
        }
        let st3 = transform(block2.as_slice(), 0, st2);
        let out = [st3.a, st3.b, st3.c, st3.d];
        proof {
            assert(out@ =~= seq![st3.a, st3.b, st3.c, st3.d]);
        }
        out
    } else {
        block.push(bits_le[0]);
        block.push(bits_le[1]);
        block.push(bits_le[2]);
        block.push(bits_le[3]);
        proof {
            assert(block@ =~= tail + vstd::bytes::spec_u32_to_le_bytes(bits));
        }
        let ghost before_pad = tail + vstd::bytes::spec_u32_to_le_bytes(bits);
        let pad_len = 56 - l;
        let mut p: usize = 0;
        while p < pad_len
            invariant
                pad_len == 56 - l,
                l <= 55,
                p <= pad_len,
                before_pad == tail + vstd::bytes::spec_u32_to_le_bytes(bits),
                before_pad.len() == l + 4,
                block@ == before_pad + spec_padding(p as int),
            decreases pad_len - p,
        {
            let byte: u8 = if p == 0 {
                0x80
            } else {
                0
            };
            block.push(byte);
            p = p + 1;
            proof {
                assert(block@ =~= before_pad + spec_padding(p as int));
            }
        }
        block.push(last_le[0]);
        block.push(last_le[1]);
        block.push(last_le[2]);
        block.push(last_le[3]);
        proof {
            assert(block@ =~= tail + vstd::bytes::spec_u32_to_le_bytes(bits) + spec_padding(
                56 - (l as int),
            ) + vstd::bytes::spec_u32_to_le_bytes((bits >> 2) | 1));
            assert(block@.len() == 64);
        }
        let st2 = transform(block.as_slice(), 0, st);
        let out = [st2.a, st2.b, st2.c, st2.d];
        proof {
            assert(out@ =~= seq![st2.a, st2.b, st2.c, st2.d]);
        }
        out
    }
}

} // verus!
