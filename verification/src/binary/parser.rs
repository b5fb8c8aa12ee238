//! The chunk-dispatch loop: reads the container header and chunk table,
//! derives a bounded view per chunk, dispatches recognized chunk kinds to
//! their parsers, and drives a [`Consumer`] through an event protocol with
//! cooperative stop/error control flow.

use vstd::prelude::*;

verus! {

use crate::binary::decoder::{le_u32, sat_add, Decoder};
use crate::binary::error::Error;
use crate::dr::rdef::RdefChunk;
use crate::dr::{DxbcHeader, ShexHeader};

/// The terminal state of a parse: exactly one is observed per call.
#[derive(Debug, PartialEq, Eq)]
pub enum State {
    /// Parsing completed.
    Complete,
    /// The consumer requested to stop the parse.
    ConsumerStopRequested,
    /// The consumer errored out with the given error.
    ConsumerError(Box<Error>),
    /// The header's magic tag is not the expected one.
    HeaderIncorrect,
    /// A chunk failed structural validation.
    ChunkIncorrect,
    /// A bounds or format failure while decoding.
    DecoderError(Error),
}

/// What a consumer hook asks the parser to do next.
#[derive(Debug, PartialEq, Eq)]
pub enum Action {
    /// Keep parsing.
    Continue,
    /// End the chunk loop; `finalize` is skipped.
    Stop,
    /// End the chunk loop with a consumer-supplied error; `finalize` is
    /// skipped.
    Error(Box<Error>),
}

/// The capability set a caller implements to receive parse events.
///
/// One hook exists per recognized chunk or record kind; each returns an
/// [`Action`] that the parser interprets as continue/stop/error control
/// flow. Hooks a consumer does not care about keep their default bodies
/// and answer `Continue`. The signature and statistics chunks and the
/// instruction stream are opaque to this crate, so their hooks receive the
/// chunk's bounded decoder view and may parse it as they see fit.
pub trait Consumer {
    /// Interpreted by the contracts: a consumer for which this holds
    /// answers `Continue` from every hook, and keeps doing so. Consumers
    /// that may stop or fail leave the default, which promises nothing.
    open spec fn continues(&self) -> bool {
        false
    }

    /// Called once before anything is decoded.
    fn initialize(&mut self) -> (r: Action)
        ensures
            old(self).continues() ==> r is Continue && final(self).continues(),
    ;

    /// Called once after the chunk loop completes without early
    /// termination; skipped on every other path.
    fn finalize(&mut self) -> (r: Action)
        ensures
            old(self).continues() ==> r is Continue && final(self).continues(),
    ;

    /// The decoded container header.
    fn consume_header(&mut self, header: &DxbcHeader) -> (r: Action)
        ensures
            old(self).continues() ==> r is Continue && final(self).continues(),
    {
        Action::Continue
    }

    /// A decoded resource-definition chunk.
    fn consume_rdef(&mut self, rdef: &RdefChunk) -> (r: Action)
        ensures
            old(self).continues() ==> r is Continue && final(self).continues(),
    {
        Action::Continue
    }

    /// An input-signature chunk, as its bounded view.
    fn consume_isgn(&mut self, chunk: Decoder<'_>) -> (r: Action)
        ensures
            old(self).continues() ==> r is Continue && final(self).continues(),
    {
        Action::Continue
    }

    /// An output-signature chunk, as its bounded view.
    fn consume_osgn(&mut self, chunk: Decoder<'_>) -> (r: Action)
        ensures
            old(self).continues() ==> r is Continue && final(self).continues(),
    {
        Action::Continue
    }

    /// The decoded header record of a shader-bytecode chunk.
    fn consume_shex(&mut self, shex: &ShexHeader) -> (r: Action)
        ensures
            old(self).continues() ==> r is Continue && final(self).continues(),
    {
        Action::Continue
    }

    /// A statistics chunk, as its bounded view.
    fn consume_stat(&mut self, chunk: Decoder<'_>) -> (r: Action)
        ensures
            old(self).continues() ==> r is Continue && final(self).continues(),
    {
        Action::Continue
    }

    /// One instruction record of a shader-bytecode chunk: its byte offset
    /// relative to the chunk body's start, and a view bounded to the
    /// record.
    fn consume_instruction(&mut self, offset: u32, instruction: Decoder<'_>) -> (r: Action)
        ensures
            old(self).continues() ==> r is Continue && final(self).continues(),
    {
        Action::Continue
    }

    /// A diagnostic: the chunk at `offset` carries an unrecognized tag and
    /// was skipped. Skipping is not an error; the loop advances to the
    /// next table entry.
    fn log_unknown_chunk(&mut self, offset: u32, tag: &[u8])
        ensures
            old(self).continues() ==> final(self).continues(),
    {
    }
}

/// Maps a hook's action onto the parse control flow.
fn try_consume(action: Action) -> (r: Result<(), State>)
    ensures
        r is Ok <==> action is Continue,
        action is Stop ==> r == Err::<(), State>(State::ConsumerStopRequested),
        action matches Action::Error(e) ==> r == Err::<(), State>(State::ConsumerError(e)),
{
    match action {
        Action::Continue => Ok(()),
        Action::Stop => Err(State::ConsumerStopRequested),
        Action::Error(err) => Err(State::ConsumerError(err)),
    }
}

/// The expected magic tag at the start of every container.
pub open spec fn spec_dxbc_magic() -> Seq<u8> {
    seq![0x44u8, 0x58u8, 0x42u8, 0x43u8]
}

/// Whether the first four bytes of `t` are `a, b, c, d`.
fn tag_eq(t: &[u8], a: u8, b: u8, c: u8, d: u8) -> (r: bool)
    requires
        t@.len() == 4,
    ensures
        r == (t@ == seq![a, b, c, d]),
{
    let r = *vstd::slice::slice_index_get(t, 0) == a && *vstd::slice::slice_index_get(t, 1) == b
        && *vstd::slice::slice_index_get(t, 2) == c && *vstd::slice::slice_index_get(t, 3) == d;
    proof {
        if r {
            assert(t@ =~= seq![a, b, c, d]);
        }
    }
    r
}

/// The top-level parser: owns the decoder over the caller's buffer and the
/// consumer it drives.
pub struct Parser<'d, C: Consumer> {
    decoder: Decoder<'d>,
    consumer: C,
}

impl<'d, C: Consumer> Parser<'d, C> {
    /// The bytes being parsed.
    pub closed spec fn spec_data(self) -> Seq<u8> {
        self.decoder@.data
    }

    /// The consumer being driven.
    pub closed spec fn spec_consumer(self) -> C {
        self.consumer
    }

    /// A parser that has not consumed anything yet.
    pub closed spec fn ready(self) -> bool {
        &&& self.decoder.wf()
        &&& self.decoder@.offset == 0
        &&& self.decoder@.bound == self.decoder@.data.len()
    }

    /// A parser over `binary`, driving `consumer`.
    pub fn new(binary: &'d [u8], consumer: C) -> (r: Parser<'d, C>)
        ensures
            r.ready(),
            r.spec_data() == binary@,
            r.spec_consumer() == consumer,
    {
        Parser { decoder: Decoder::new(binary), consumer }
    }

    /// Gives the consumer back, with whatever it recorded.
    pub fn into_consumer(self) -> (r: C)
        ensures
            r == self.spec_consumer(),
    {
        self.consumer
    }

    /// A borrow of the consumer.
    pub fn consumer(&self) -> (r: &C)
        ensures
            r == self.spec_consumer(),
    {
        &self.consumer
    }

    /// Decodes the fixed-size header region at the cursor and validates
    /// the magic tag. On a mismatch the terminal state is
    /// `HeaderIncorrect`; a short buffer fails the 32-byte read instead.
    fn parse_header(&mut self) -> (r: Result<DxbcHeader, State>)
        requires
            old(self).decoder.wf(),
        ensures
            final(self).decoder.wf(),
            final(self).consumer == old(self).consumer,
            final(self).decoder@.data == old(self).decoder@.data,
            final(self).decoder@.bound == old(self).decoder@.bound,
            old(self).decoder@.can_read(32) && old(self).decoder@.data.subrange(
                old(self).decoder@.offset,
                old(self).decoder@.offset + 4,
            ) == spec_dxbc_magic() ==> (r matches Ok(h) && {
                &&& h.magic@ == spec_dxbc_magic()
                &&& h.checksum@.len() == 4
                &&& forall|k: int|
                    0 <= k < 4 ==> h.checksum@[k] == le_u32(
                        old(self).decoder@.data,
                        old(self).decoder@.offset + 4 + 4 * k,
                    )
                &&& h.reserved == le_u32(old(self).decoder@.data, old(self).decoder@.offset + 20)
                &&& h.size == le_u32(old(self).decoder@.data, old(self).decoder@.offset + 24)
                &&& h.chunk_count == le_u32(
                    old(self).decoder@.data,
                    old(self).decoder@.offset + 28,
                )
                &&& final(self).decoder@ == old(self).decoder@.advanced(32)
            }),
            old(self).decoder@.can_read(32) && old(self).decoder@.data.subrange(
                old(self).decoder@.offset,
                old(self).decoder@.offset + 4,
            ) != spec_dxbc_magic() ==> r == Err::<DxbcHeader, State>(State::HeaderIncorrect),
            !old(self).decoder@.can_read(32) ==> r == Err::<DxbcHeader, State>(
                State::DecoderError(Error::LimitReached(old(self).decoder@.offset as usize)),
            ),
    {
        let ghost d = self.decoder@.data;
        let ghost o = self.decoder@.offset;
        let s = match self.decoder.bytes(32) {
            Ok(s) => s,
            Err(e) => {
                return Err(State::DecoderError(e));
            },
        };
        let m0 = *vstd::slice::slice_index_get(s, 0);
        let m1 = *vstd::slice::slice_index_get(s, 1);
        let m2 = *vstd::slice::slice_index_get(s, 2);
        let m3 = *vstd::slice::slice_index_get(s, 3);
        if !(m0 == 0x44 && m1 == 0x58 && m2 == 0x42 && m3 == 0x43) {
            proof {
                assert(d.subrange(o, o + 4) =~= s@.subrange(0, 4));
                if d.subrange(o, o + 4) == spec_dxbc_magic() {
                    assert(d.subrange(o, o + 4)[0] == 0x44u8);
                    assert(false);
                }
            }
            return Err(State::HeaderIncorrect);
        }
        let c0 = vstd::bytes::u32_from_le_bytes(vstd::slice::slice_subrange(s, 4, 8));
        let c1 = vstd::bytes::u32_from_le_bytes(vstd::slice::slice_subrange(s, 8, 12));
        let c2 = vstd::bytes::u32_from_le_bytes(vstd::slice::slice_subrange(s, 12, 16));
        let c3 = vstd::bytes::u32_from_le_bytes(vstd::slice::slice_subrange(s, 16, 20));
        let reserved = vstd::bytes::u32_from_le_bytes(vstd::slice::slice_subrange(s, 20, 24));
        let size = vstd::bytes::u32_from_le_bytes(vstd::slice::slice_subrange(s, 24, 28));
        let chunk_count = vstd::bytes::u32_from_le_bytes(vstd::slice::slice_subrange(s, 28, 32));
        let h = DxbcHeader { magic: [m0, m1, m2, m3], checksum: [c0, c1, c2, c3], reserved, size, chunk_count };
        proof {
            assert(d.subrange(o, o + 4) =~= s@.subrange(0, 4));
            assert(d.subrange(o, o + 4) =~= spec_dxbc_magic());
            assert(h.magic@ =~= spec_dxbc_magic());
            assert(s@.subrange(4, 8) =~= d.subrange(o + 4, o + 8));
            assert(s@.subrange(8, 12) =~= d.subrange(o + 8, o + 12));
            assert(s@.subrange(12, 16) =~= d.subrange(o + 12, o + 16));
            assert(s@.subrange(16, 20) =~= d.subrange(o + 16, o + 20));
            assert(s@.subrange(20, 24) =~= d.subrange(o + 20, o + 24));
            assert(s@.subrange(24, 28) =~= d.subrange(o + 24, o + 28));
            assert(s@.subrange(28, 32) =~= d.subrange(o + 28, o + 32));
            assert(h.checksum@ =~= seq![c0, c1, c2, c3]);
        }
        Ok(h)
    }

    /// Runs the parse: `initialize`, the header and its chunk-offset
    /// table, one dispatch per table entry in order, and — only when no
    /// hook ended the loop early and every decode succeeded — `finalize`.
    ///
    /// Law: with a consumer that keeps answering `Continue`, the parse
    /// never reports a consumer-initiated terminal state: it completes
    /// unless the bytes themselves are rejected. Law: a full-size header
    /// whose magic tag is wrong always yields `HeaderIncorrect`, and
    /// nothing else does.
    pub fn parse(&mut self) -> (r: Result<(), State>)
        requires
            old(self).ready(),
        ensures
            old(self).spec_consumer().continues() ==> !(r matches Err(
                State::ConsumerStopRequested,
            )) && !(r matches Err(State::ConsumerError(_))),
            r matches Err(State::HeaderIncorrect) ==> old(self).spec_data().len() >= 32 && old(
                self,
            ).spec_data().subrange(0, 4) != spec_dxbc_magic(),
            old(self).spec_consumer().continues() && old(self).spec_data().len() >= 32 && old(
                self,
            ).spec_data().subrange(0, 4) != spec_dxbc_magic() ==> r matches Err(
                State::HeaderIncorrect,
            ),
            old(self).spec_consumer().continues() && old(self).spec_data().len() >= 32 && old(
                self,
            ).spec_data().subrange(0, 4) == spec_dxbc_magic() && le_u32(
                old(self).spec_data(),
                28,
            ) == 0 ==> r is Ok,
            old(self).spec_consumer().continues() && old(self).spec_data().len() < 32 ==> r
                == Err::<(), State>(State::DecoderError(Error::LimitReached(0))),
    {
        match try_consume(self.consumer.initialize()) {
            Ok(u) => u,
            Err(s) => {
                return Err(s);
            },
        };
        let header = match self.parse_header() {
            Ok(h) => h,
            Err(s) => {
                return Err(s);
            },
        };
        match try_consume(self.consumer.consume_header(&header)) {
            Ok(u) => u,
            Err(s) => {
                return Err(s);
            },
        };
        let chunk_offsets = match self.decoder.words(header.chunk_count as usize) {
            Ok(v) => v,
            Err(e) => {
                return Err(State::DecoderError(e));
            },
        };
        let mut ci: usize = 0;
        while ci < chunk_offsets.len()
            invariant
                self.decoder.wf(),
                old(self).spec_consumer().continues() ==> self.consumer.continues(),
                old(self).spec_data().len() >= 32,
                old(self).spec_data().subrange(0, 4) == spec_dxbc_magic(),
                chunk_offsets@.len() == le_u32(old(self).spec_data(), 28),
                ci <= chunk_offsets@.len(),
            decreases chunk_offsets@.len() - ci,
        {
            let chunk_offset = chunk_offsets[ci];
            self.decoder.seek_mut(chunk_offset as usize);
            let fourcc = match self.decoder.bytes(4) {
                Ok(s) => s,
                Err(e) => {
                    return Err(State::DecoderError(e));
                },
            };
            let chunk_length = match self.decoder.read_u32() {
                Ok(v) => v,
                Err(e) => {
                    return Err(State::DecoderError(e));
                },
            };
            let mut chunk_decoder = self.decoder.scoped_decoder(chunk_length as usize);
            if tag_eq(fourcc, 0x52, 0x44, 0x45, 0x46) {
                // RDEF
                let rdef = match RdefChunk::parse(&mut chunk_decoder) {
                    Ok(v) => v,
                    Err(s) => {
                        return Err(s);
                    },
                };
                match try_consume(self.consumer.consume_rdef(&rdef)) {
                    Ok(u) => u,
                    Err(s) => {
                        return Err(s);
                    },
                };
            } else if tag_eq(fourcc, 0x49, 0x53, 0x47, 0x4e) {
                // ISGN
                match try_consume(self.consumer.consume_isgn(chunk_decoder)) {
                    Ok(u) => u,
                    Err(s) => {
                        return Err(s);
                    },
                };
            } else if tag_eq(fourcc, 0x4f, 0x53, 0x47, 0x4e) {
                // OSGN
                match try_consume(self.consumer.consume_osgn(chunk_decoder)) {
                    Ok(u) => u,
                    Err(s) => {
                        return Err(s);
                    },
                };
            } else if tag_eq(fourcc, 0x53, 0x48, 0x45, 0x58) || tag_eq(
                fourcc,
                0x53,
                0x48,
                0x44,
                0x52,
            ) {
                // SHEX or its older SHDR spelling
                let body_start = chunk_decoder.get_offset();
                let shex = match ShexHeader::parse(&mut chunk_decoder) {
                    Ok(v) => v,
                    Err(s) => {
                        return Err(s);
                    },
                };
                match try_consume(self.consumer.consume_shex(&shex)) {
                    Ok(u) => u,
                    Err(s) => {
                        return Err(s);
                    },
                };
                let stream_bytes = match (shex.instruction_length as usize).checked_mul(4) {
                    Some(v) => v,
                    None => usize::MAX,
                };
                let mut instr = chunk_decoder.scoped_decoder(stream_bytes);
                while !instr.eof()
                    invariant
                        instr.wf(),
                        self.decoder.wf(),
                        old(self).spec_consumer().continues() ==> self.consumer.continues(),
                        old(self).spec_data().len() >= 32,
                        old(self).spec_data().subrange(0, 4) == spec_dxbc_magic(),
                        le_u32(old(self).spec_data(), 28) != 0,
                        body_start <= instr@.offset,
                        instr@.offset <= instr@.bound,
                    decreases instr@.bound - instr@.offset,
                {
                    let rec_start = instr.get_offset();
                    let token0 = match instr.read_u32() {
                        Ok(v) => v,
                        Err(e) => {
                            return Err(State::DecoderError(e));
                        },
                    };
                    let len_dw = (token0 >> 24) & 0x7f;
                    if len_dw == 0 {
                        // a record that claims zero length can never
                        // advance the stream
                        return Err(State::ChunkIncorrect);
                    }
                    assert((token0 >> 24) & 0x7f <= 0x7f) by (bit_vector);
                    let rec_bytes = (len_dw as usize) * 4;
                    let record = instr.seek(rec_start).scoped_decoder(rec_bytes);
                    let rel = #[verifier::truncate] ((rec_start - body_start) as u32);
                    match try_consume(self.consumer.consume_instruction(rel, record)) {
                        Ok(u) => u,
                        Err(s) => {
                            return Err(s);
                        },
                    };
                    // a record that overruns the stream scope consumes
                    // the whole scope
                    let next = sat_add(rec_start, rec_bytes);
                    let end = instr.scope_end();
                    instr.seek_mut(if next > end { end } else { next });
                }
            } else if tag_eq(fourcc, 0x53, 0x54, 0x41, 0x54) {
                // STAT
                match try_consume(self.consumer.consume_stat(chunk_decoder)) {
                    Ok(u) => u,
                    Err(s) => {
                        return Err(s);
                    },
                };
            } else {
                self.consumer.log_unknown_chunk(chunk_offset, fourcc);
            }
            ci = ci + 1;
        }
        match try_consume(self.consumer.finalize()) {
            Ok(u) => u,
            Err(s) => {
                return Err(s);
            },
        };
        Ok(())
    }
}

} // verus!
