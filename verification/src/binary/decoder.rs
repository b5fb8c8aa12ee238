//! A bounds-checked cursor over an immutable byte buffer.
//!
//! Every offset embedded in a DXBC container is untrusted input, so every
//! read is checked against the cursor's *current scope bound*, not just the
//! buffer's total length: a malformed chunk or nested record can never read
//! into, or past, neighboring data.

use vstd::prelude::*;

verus! {

use crate::binary::error::Error;

/// The little-endian 16-bit value stored at byte offset `i` of `data`.
pub open spec fn le_u16(data: Seq<u8>, i: int) -> u16 {
    vstd::bytes::spec_u16_from_le_bytes(data.subrange(i, i + 2))
}

/// The little-endian 32-bit value stored at byte offset `i` of `data`.
pub open spec fn le_u32(data: Seq<u8>, i: int) -> u32 {
    vstd::bytes::spec_u32_from_le_bytes(data.subrange(i, i + 4))
}

/// The position of the first zero byte at or after `off` and before
/// `bound`, if any.
pub open spec fn nul_scan(data: Seq<u8>, off: int, bound: int) -> Option<int>
    decreases bound - off,
{
    if off < 0 || off >= bound || bound > data.len() {
        None
    } else if data[off] == 0 {
        Some(off)
    } else {
        nul_scan(data, off + 1, bound)
    }
}

/// The characters that the UTF-8 encoded bytes `bytes` stand for, or
/// `None` when `bytes` is not valid UTF-8.
pub uninterp spec fn utf8_decode(bytes: Seq<u8>) -> Option<Seq<char>>;

/// The decoded zero-terminated string that starts at `off`, scanning for
/// its terminator no further than `bound`: `None` when no terminator is
/// found or the bytes are not valid UTF-8.
pub open spec fn str_at(data: Seq<u8>, off: int, bound: int) -> Option<Seq<char>> {
    match nul_scan(data, off, bound) {
        Some(j) => utf8_decode(data.subrange(off, j)),
        None => None,
    }
}

/// Relies on `String::from_utf8`: returns the string holding exactly the
/// given bytes when they are valid UTF-8, and otherwise reports (via
/// `FromUtf8Error::utf8_error` and `Utf8Error::valid_up_to`) how many
/// leading bytes were still valid.
#[verifier::external_body]
fn string_from_utf8(bytes: Vec<u8>) -> (r: Result<String, usize>)
    ensures
        r is Ok <==> utf8_decode(bytes@) is Some,
        r matches Ok(s) ==> Some(s@) == utf8_decode(bytes@),
        r matches Err(k) ==> k <= bytes@.len(),
{
    String::from_utf8(bytes).map_err(|e| e.utf8_error().valid_up_to())
}

/// Integer addition clipped to the address space: offsets that cannot be
/// represented land on `usize::MAX`, where every read fails.
pub open spec fn spec_sat_add(a: int, b: int) -> int {
    if a + b <= usize::MAX as int {
        a + b
    } else {
        usize::MAX as int
    }
}

/// Adds two offsets, clipping to `usize::MAX` instead of overflowing.
pub fn sat_add(a: usize, b: usize) -> (r: usize)
    ensures
        r as int == spec_sat_add(a as int, b as int),
{
    match a.checked_add(b) {
        Some(v) => v,
        None => usize::MAX,
    }
}

/// The ghost state of a [`Decoder`]: the underlying bytes, the cursor
/// offset, and the exclusive scope bound.
pub ghost struct DecoderModel {
    pub data: Seq<u8>,
    pub offset: int,
    pub bound: int,
}

impl DecoderModel {
    /// The bytes between the cursor and the scope bound.
    pub open spec fn remaining(self) -> int {
        self.bound - self.offset
    }

    /// Whether a read of `width` bytes stays within the scope.
    pub open spec fn can_read(self, width: int) -> bool {
        0 <= self.offset && width <= self.remaining()
    }

    /// The model after consuming `width` bytes.
    pub open spec fn advanced(self, width: int) -> DecoderModel {
        DecoderModel { data: self.data, offset: self.offset + width, bound: self.bound }
    }

    /// The model with the cursor placed at `n`.
    pub open spec fn at(self, n: int) -> DecoderModel {
        DecoderModel { data: self.data, offset: n, bound: self.bound }
    }

    /// The model of a scoped sub-view of `len` bytes: the bound shrinks to
    /// `offset + len` unless the current bound is already tighter.
    pub open spec fn scoped(self, len: int) -> DecoderModel {
        DecoderModel {
            data: self.data,
            offset: self.offset,
            bound: if self.offset + len < self.bound {
                self.offset + len
            } else {
                self.bound
            },
        }
    }

    /// Whether the cursor stands exactly at the scope bound.
    pub open spec fn eof(self) -> bool {
        self.offset == self.bound
    }
}

/// A transient cursor over a region of an immutable byte buffer.
///
/// All reads are checked against the scope bound. `seek` yields a sibling
/// view without moving this cursor; `seek_mut` moves it in place;
/// `scoped_decoder` restricts the bound so a chunk or nested record cannot
/// read outside its declared length.
#[derive(Clone, Copy)]
pub struct Decoder<'a> {
    data: &'a [u8],
    offset: usize,
    bound: usize,
}

impl<'a> View for Decoder<'a> {
    type V = DecoderModel;

    closed spec fn view(&self) -> DecoderModel {
        DecoderModel { data: self.data@, offset: self.offset as int, bound: self.bound as int }
    }
}

impl<'a> Decoder<'a> {
    /// The scope bound never extends past the underlying buffer.
    pub open spec fn wf(self) -> bool {
        self@.bound <= self@.data.len()
    }

    /// A decoder over all of `data`, with the cursor at the start.
    pub fn new(data: &'a [u8]) -> (r: Decoder<'a>)
        ensures
            r.wf(),
            r@.data == data@,
            r@.offset == 0,
            r@.bound == data@.len(),
    {
        Decoder { data, offset: 0, bound: data.len() }
    }

    /// The absolute cursor position, for diagnostics.
    pub fn get_offset(&self) -> (r: usize)
        ensures
            r == self@.offset,
    {
        self.offset
    }

    /// The absolute position of the scope bound.
    pub fn scope_end(&self) -> (r: usize)
        ensures
            r == self@.bound,
    {
        self.bound
    }

    /// Whether the cursor stands exactly at the scope bound.
    pub fn eof(&self) -> (r: bool)
        ensures
            r == self@.eof(),
    {
        self.offset == self.bound
    }

    /// A sibling view at absolute offset `n`, sharing this decoder's bytes
    /// and bound. The calling decoder's own cursor never changes.
    pub fn seek(&self, n: usize) -> (r: Decoder<'a>)
        ensures
            r@ == self@.at(n as int),
            self.wf() ==> r.wf(),
    {
        Decoder { data: self.data, offset: n, bound: self.bound }
    }

    /// Moves this decoder's cursor in place: the cursor is always exactly
    /// `n` afterwards.
    pub fn seek_mut(&mut self, n: usize)
        ensures
            final(self)@ == old(self)@.at(n as int),
            old(self).wf() ==> final(self).wf(),
    {
        self.offset = n;
    }

    /// A new decoder whose bound is `min(current bound, current offset +
    /// len)`, sandboxing a chunk or nested record of declared length `len`.
    pub fn scoped_decoder(&self, len: usize) -> (r: Decoder<'a>)
        ensures
            r@ == self@.scoped(len as int),
            self.wf() ==> r.wf(),
    {
        let bound = if self.offset < self.bound && len < self.bound - self.offset {
            self.offset + len
        } else {
            self.bound
        };
        Decoder { data: self.data, offset: self.offset, bound }
    }

    /// Reads one byte and advances the cursor by 1; fails with
    /// `StreamExpected` at the current offset when no byte remains in
    /// scope, leaving the cursor in place.
    pub fn read_u8(&mut self) -> (r: Result<u8, Error>)
        requires
            old(self).wf(),
        ensures
            final(self).wf(),
            old(self)@.can_read(1) ==> (r matches Ok(b) && b == old(self)@.data[old(self)@.offset]
                && final(self)@ == old(self)@.advanced(1)),
            !old(self)@.can_read(1) ==> (r matches Err(e)
                && e == Error::StreamExpected(old(self)@.offset as usize) && final(self)@ == old(self)@),
    {
        if self.offset < self.bound {
            let b = *vstd::slice::slice_index_get(self.data, self.offset);
            self.offset = self.offset + 1;
            Ok(b)
        } else {
            Err(Error::StreamExpected(self.offset))
        }
    }

    /// Reads a little-endian 16-bit value and advances the cursor by 2;
    /// fails with `StreamExpected` at the current offset when fewer than 2
    /// bytes remain in scope, leaving the cursor in place.
    pub fn read_u16(&mut self) -> (r: Result<u16, Error>)
        requires
            old(self).wf(),
        ensures
            final(self).wf(),
            old(self)@.can_read(2) ==> (r matches Ok(v)
                && v == le_u16(old(self)@.data, old(self)@.offset)
                && final(self)@ == old(self)@.advanced(2)),
            !old(self)@.can_read(2) ==> (r matches Err(e)
                && e == Error::StreamExpected(old(self)@.offset as usize) && final(self)@ == old(self)@),
    {
        if self.offset < self.bound && 2 <= self.bound - self.offset {
            let s = vstd::slice::slice_subrange(self.data, self.offset, self.offset + 2);
            let v = vstd::bytes::u16_from_le_bytes(s);
            self.offset = self.offset + 2;
            Ok(v)
        } else {
            Err(Error::StreamExpected(self.offset))
        }
    }

    /// Reads a little-endian 32-bit value and advances the cursor by 4;
    /// fails with `StreamExpected` at the current offset when fewer than 4
    /// bytes remain in scope, leaving the cursor in place.
    pub fn read_u32(&mut self) -> (r: Result<u32, Error>)
        requires
            old(self).wf(),
        ensures
            final(self).wf(),
            old(self)@.can_read(4) ==> (r matches Ok(v)
                && v == le_u32(old(self)@.data, old(self)@.offset)
                && final(self)@ == old(self)@.advanced(4)),
            !old(self)@.can_read(4) ==> (r matches Err(e)
                && e == Error::StreamExpected(old(self)@.offset as usize) && final(self)@ == old(self)@),
    {
        if self.offset < self.bound && 4 <= self.bound - self.offset {
            let s = vstd::slice::slice_subrange(self.data, self.offset, self.offset + 4);
            let v = vstd::bytes::u32_from_le_bytes(s);
            self.offset = self.offset + 4;
            Ok(v)
        } else {
            Err(Error::StreamExpected(self.offset))
        }
    }

    /// Returns the `n` bytes at the cursor as a borrowed slice and advances
    /// by `n`; fails with `LimitReached` at the current offset when `n`
    /// exceeds the remaining scoped bytes, leaving the cursor in place.
    pub fn bytes(&mut self, n: usize) -> (r: Result<&'a [u8], Error>)
        requires
            old(self).wf(),
        ensures
            final(self).wf(),
            old(self)@.can_read(n as int) ==> (r matches Ok(s)
                && s@ == old(self)@.data.subrange(
                    old(self)@.offset,
                    old(self)@.offset + n,
                ) && final(self)@ == old(self)@.advanced(n as int)),
            !old(self)@.can_read(n as int) ==> (r matches Err(e)
                && e == Error::LimitReached(old(self)@.offset as usize) && final(self)@ == old(self)@),
    {
        if self.offset <= self.bound && n <= self.bound - self.offset {
            let s = vstd::slice::slice_subrange(self.data, self.offset, self.offset + n);
            self.offset = self.offset + n;
            Ok(s)
        } else {
            Err(Error::LimitReached(self.offset))
        }
    }

    /// Returns the `n` little-endian 32-bit words at the cursor and
    /// advances by `4 * n` bytes; fails with `LimitReached` at the current
    /// offset when the words exceed the remaining scoped bytes, leaving the
    /// cursor in place.
    pub fn words(&mut self, n: usize) -> (r: Result<Vec<u32>, Error>)
        requires
            old(self).wf(),
        ensures
            final(self).wf(),
            old(self)@.can_read(4 * n as int) ==> (r matches Ok(v) && v@.len() == n && (forall|k:
                int|
                0 <= k < n ==> v@[k] == le_u32(old(self)@.data, old(self)@.offset + 4 * k))
                && final(self)@ == old(self)@.advanced(4 * n as int)),
            !old(self)@.can_read(4 * n as int) ==> (r matches Err(e)
                && e == Error::LimitReached(old(self)@.offset as usize) && final(self)@ == old(self)@),
    {
        let need = match n.checked_mul(4) {
            Some(m) => m,
            None => {
                return Err(Error::LimitReached(self.offset));
            },
        };
        if self.offset <= self.bound && need <= self.bound - self.offset {
            let mut v: Vec<u32> = Vec::new();
            let mut i: usize = 0;
            while i < n
                invariant
                    self == old(self),
                    old(self).wf(),
                    0 <= i <= n,
                    need == 4 * n,
                    self@.offset + need <= self@.bound,
                    v@.len() == i,
                    forall|k: int|
                        0 <= k < i ==> v@[k] == le_u32(self@.data, self@.offset + 4 * k),
                decreases n - i,
            {
                let s = vstd::slice::slice_subrange(
                    self.data,
                    self.offset + 4 * i,
                    self.offset + 4 * i + 4,
                );
                let w = vstd::bytes::u32_from_le_bytes(s);
                v.push(w);
                i = i + 1;
            }
            self.offset = self.offset + need;
            Ok(v)
        } else {
            Err(Error::LimitReached(self.offset))
        }
    }

    /// Scans from the cursor to a zero terminator within the current scope
    /// and decodes the bytes before it as UTF-8, leaving the cursor just
    /// past the terminator. Fails with `StreamExpected` when no terminator
    /// stands before the scope bound, and with `DecodeStrFailed` (carrying
    /// the count of leading bytes that were valid) on an invalid encoding;
    /// on failure the cursor does not move.
    pub fn str(&mut self) -> (r: Result<String, Error>)
        requires
            old(self).wf(),
        ensures
            final(self).wf(),
            nul_scan(old(self)@.data, old(self)@.offset, old(self)@.bound) is None ==> (r
                matches Err(e) && e == Error::StreamExpected(old(self)@.offset as usize) && final(self)@
                == old(self)@),
            nul_scan(old(self)@.data, old(self)@.offset, old(self)@.bound) matches Some(j) ==> {
                &&& str_at(old(self)@.data, old(self)@.offset, old(self)@.bound) matches Some(cs)
                    ==> (r matches Ok(s) && s@ == cs && final(self)@ == old(self)@.at(j + 1))
                &&& str_at(old(self)@.data, old(self)@.offset, old(self)@.bound) is None ==> (r
                    matches Err(Error::DecodeStrFailed(eo, c)) && eo == old(self)@.offset as usize
                    && c <= j - old(self)@.offset && final(self)@ == old(self)@)
            },
    {
        let ghost d = self@.data;
        let ghost b0 = self@.bound;
        let o0 = self.offset;
        let mut j = self.offset;
        let mut found = false;
        while !found && j < self.bound
            invariant
                self == old(self),
                old(self).wf(),
                o0 == self@.offset,
                d == self@.data,
                b0 == self@.bound,
                o0 <= j,
                !found ==> nul_scan(d, o0 as int, b0) == nul_scan(d, j as int, b0),
                found ==> j < self.bound && nul_scan(d, o0 as int, b0) == Some(j as int),
            decreases self.bound - j + (if found { 0int } else { 1int }),
        {
            let byte = *vstd::slice::slice_index_get(self.data, j);
            if byte == 0 {
                found = true;
            } else {
                assert(nul_scan(d, j as int, b0) == nul_scan(d, j as int + 1, b0));
                j = j + 1;
            }
        }
        if !found {
            assert(nul_scan(d, o0 as int, b0) is None);
            return Err(Error::StreamExpected(o0));
        }
        let mut bs: Vec<u8> = Vec::new();
        let mut k = o0;
        while k < j
            invariant
                self == old(self),
                old(self).wf(),
                o0 == self@.offset,
                d == self@.data,
                b0 == self@.bound,
                o0 <= k <= j,
                j < self.bound,
                bs@ == d.subrange(o0 as int, k as int),
            decreases j - k,
        {
            let byte = *vstd::slice::slice_index_get(self.data, k);
            bs.push(byte);
            proof {
                assert(bs@ =~= d.subrange(o0 as int, k as int + 1));
            }
            k = k + 1;
        }
        assert(bs@ == d.subrange(o0 as int, j as int));
        match string_from_utf8(bs) {
            Ok(s) => {
                self.offset = j + 1;
                Ok(s)
            },
            Err(c) => Err(Error::DecodeStrFailed(o0, c)),
        }
    }
}

/// Law: a bounded view of length `len` carved out of `m` spans exactly
/// `len` bytes. It reaches `eof` exactly when `len` bytes have been
/// consumed through it, and once there, even a one-byte read is out of
/// scope — no matter how many bytes remain under the parent's own bound.
pub proof fn lemma_scoped_consumption(m: DecoderModel, len: int, k: int)
    requires
        0 <= m.offset,
        0 <= len,
        m.offset + len <= m.bound,
        0 <= k <= len,
    ensures
        m.scoped(len).remaining() == len,
        m.scoped(len).advanced(k).eof() <==> k == len,
        !m.scoped(len).advanced(len).can_read(1),
        m.offset + len < m.bound ==> m.advanced(len).can_read(1),
{
}

} // verus!
