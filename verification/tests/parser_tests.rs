use dxbc::binary::decoder::Decoder;
use dxbc::binary::error::Error;
use dxbc::binary::parser::{Action, Consumer, Parser, State};
use dxbc::dr::rdef::RdefChunk;
use dxbc::dr::{DxbcHeader, ShexHeader};

fn push_u32(v: &mut Vec<u8>, x: u32) {
    v.extend_from_slice(&x.to_le_bytes());
}

fn container(magic: &[u8; 4], chunks: &[(&[u8; 4], Vec<u8>)]) -> Vec<u8> {
    let n = chunks.len() as u32;
    let mut out = Vec::new();
    out.extend_from_slice(magic);
    for _ in 0..5 {
        push_u32(&mut out, 0); // stored checksum and reserved word
    }
    push_u32(&mut out, 0); // total size, patched below
    push_u32(&mut out, n);
    let table_at = out.len();
    for _ in 0..n {
        push_u32(&mut out, 0);
    }
    let mut offsets = Vec::new();
    for (tag, body) in chunks {
        offsets.push(out.len() as u32);
        out.extend_from_slice(&tag[..]);
        push_u32(&mut out, body.len() as u32);
        out.extend_from_slice(body);
    }
    for (i, off) in offsets.iter().enumerate() {
        out[table_at + 4 * i..table_at + 4 * i + 4].copy_from_slice(&off.to_le_bytes());
    }
    let size = out.len() as u32;
    out[24..28].copy_from_slice(&size.to_le_bytes());
    out
}

fn rdef_minimal_major4() -> Vec<u8> {
    let mut b = Vec::new();
    push_u32(&mut b, 0); // constant-buffer count
    push_u32(&mut b, 0); // constant-buffer offset
    push_u32(&mut b, 0); // binding count
    push_u32(&mut b, 0); // binding offset
    b.push(0); // minor
    b.push(4); // major
    b.extend_from_slice(&0xFFFEu16.to_le_bytes()); // vertex
    push_u32(&mut b, 0); // flags
    push_u32(&mut b, 28); // author offset
    b.extend_from_slice(b"x\0");
    b
}

#[derive(Default)]
struct Recorder {
    initialized: u32,
    finalized: u32,
    headers: u32,
    rdef_dumps: Vec<String>,
    authors: Vec<String>,
    cb_counts: Vec<usize>,
    bind_counts: Vec<usize>,
    rd11_present: Vec<bool>,
    shex_headers: Vec<(u8, u8, u32)>,
    instructions: Vec<u32>,
    unknown_tags: Vec<(u32, Vec<u8>)>,
    header_fields: Vec<([u32; 4], u32, u32)>,
}

impl Consumer for Recorder {
    fn initialize(&mut self) -> Action {
        self.initialized += 1;
        Action::Continue
    }

    fn finalize(&mut self) -> Action {
        self.finalized += 1;
        Action::Continue
    }

    fn consume_header(&mut self, header: &DxbcHeader) -> Action {
        self.headers += 1;
        self.header_fields.push((header.checksum, header.size, header.chunk_count));
        Action::Continue
    }

    fn consume_rdef(&mut self, rdef: &RdefChunk) -> Action {
        self.rdef_dumps.push(format!("{:?}", rdef));
        self.authors.push(rdef.author.clone());
        self.cb_counts.push(rdef.constant_buffers.len());
        self.bind_counts.push(rdef.resource_bindings.len());
        self.rd11_present.push(rdef.rd11.is_some());
        Action::Continue
    }

    fn consume_shex(&mut self, shex: &ShexHeader) -> Action {
        self.shex_headers.push((shex.minor, shex.major, shex.instruction_length));
        Action::Continue
    }

    fn consume_instruction(&mut self, offset: u32, _instruction: Decoder<'_>) -> Action {
        self.instructions.push(offset);
        Action::Continue
    }

    fn log_unknown_chunk(&mut self, offset: u32, tag: &[u8]) {
        self.unknown_tags.push((offset, tag.to_vec()));
    }
}

#[test]
fn minimal_rdef_container_parses_end_to_end() {
    let data = container(b"DXBC", &[(b"RDEF", rdef_minimal_major4())]);
    let mut parser = Parser::new(&data, Recorder::default());
    assert_eq!(parser.parse(), Ok(()));
    let r = parser.into_consumer();
    assert_eq!(r.initialized, 1);
    assert_eq!(r.headers, 1);
    assert_eq!(r.authors, vec!["x".to_string()]);
    assert_eq!(r.cb_counts, vec![0]);
    assert_eq!(r.bind_counts, vec![0]);
    assert_eq!(r.rd11_present, vec![false]);
    assert_eq!(r.finalized, 1);
}

#[test]
fn wrong_magic_yields_header_incorrect_with_no_chunk_visited() {
    let data = container(b"XBCD", &[(b"RDEF", rdef_minimal_major4())]);
    let mut parser = Parser::new(&data, Recorder::default());
    assert_eq!(parser.parse(), Err(State::HeaderIncorrect));
    let r = parser.into_consumer();
    assert_eq!(r.initialized, 1);
    assert_eq!(r.headers, 0);
    assert_eq!(r.authors.len(), 0);
    assert_eq!(r.finalized, 0);
}

#[test]
fn unknown_chunk_tag_is_skipped_not_fatal() {
    let data = container(
        b"DXBC",
        &[(b"XFOO", vec![1, 2, 3, 4]), (b"RDEF", rdef_minimal_major4())],
    );
    let mut parser = Parser::new(&data, Recorder::default());
    assert_eq!(parser.parse(), Ok(()));
    let r = parser.into_consumer();
    assert_eq!(r.unknown_tags.len(), 1);
    assert_eq!(r.unknown_tags[0].1, b"XFOO".to_vec());
    // the loop advanced to the next table entry
    assert_eq!(r.authors, vec!["x".to_string()]);
    assert_eq!(r.finalized, 1);
}

#[test]
fn repeated_parses_extract_identical_values() {
    let data = container(b"DXBC", &[(b"RDEF", rdef_minimal_major4())]);
    let mut first = Parser::new(&data, Recorder::default());
    assert_eq!(first.parse(), Ok(()));
    let mut second = Parser::new(&data, Recorder::default());
    assert_eq!(second.parse(), Ok(()));
    assert_eq!(first.into_consumer().rdef_dumps, second.into_consumer().rdef_dumps);
}

#[test]
fn shader_bytecode_chunk_iterates_instruction_records() {
    let mut body = Vec::new();
    // version word: program type in the high half, major and minor nibbles
    push_u32(&mut body, (0xFFFEu32 << 16) | (5 << 4));
    push_u32(&mut body, 2); // declared instruction stream length, in words
    // two one-word records; the length field sits in bits 24..31
    push_u32(&mut body, (1 << 24) | 0x17);
    push_u32(&mut body, (1 << 24) | 0x2a);
    let data = container(b"DXBC", &[(b"SHEX", body)]);
    let mut parser = Parser::new(&data, Recorder::default());
    assert_eq!(parser.parse(), Ok(()));
    let r = parser.into_consumer();
    assert_eq!(r.shex_headers, vec![(0u8, 5u8, 2u32)]);
    // offsets are relative to the chunk body's start
    assert_eq!(r.instructions, vec![8, 12]);
    assert_eq!(r.finalized, 1);
}

#[test]
fn signature_and_statistics_chunks_reach_their_hooks() {
    let data = container(
        b"DXBC",
        &[
            (b"ISGN", vec![0; 8]),
            (b"OSGN", vec![0; 8]),
            (b"STAT", vec![0; 8]),
        ],
    );
    let mut parser = Parser::new(&data, Recorder::default());
    assert_eq!(parser.parse(), Ok(()));
    let r = parser.into_consumer();
    assert_eq!(r.unknown_tags.len(), 0);
    assert_eq!(r.finalized, 1);
}

struct StopAtHeader {
    finalized: u32,
}

impl Consumer for StopAtHeader {
    fn initialize(&mut self) -> Action {
        Action::Continue
    }

    fn finalize(&mut self) -> Action {
        self.finalized += 1;
        Action::Continue
    }

    fn consume_header(&mut self, _header: &DxbcHeader) -> Action {
        Action::Stop
    }
}

#[test]
fn stop_from_a_hook_ends_the_parse_and_skips_finalize() {
    let data = container(b"DXBC", &[(b"RDEF", rdef_minimal_major4())]);
    let mut parser = Parser::new(&data, StopAtHeader { finalized: 0 });
    assert_eq!(parser.parse(), Err(State::ConsumerStopRequested));
    assert_eq!(parser.into_consumer().finalized, 0);
}

struct FailingInit;

impl Consumer for FailingInit {
    fn initialize(&mut self) -> Action {
        Action::Error(Box::new(Error::LimitReached(7)))
    }

    fn finalize(&mut self) -> Action {
        Action::Continue
    }
}

#[test]
fn consumer_error_is_threaded_through_unmodified() {
    let data = container(b"DXBC", &[(b"RDEF", rdef_minimal_major4())]);
    let mut parser = Parser::new(&data, FailingInit);
    match parser.parse() {
        Err(State::ConsumerError(e)) => assert_eq!(*e, Error::LimitReached(7)),
        other => panic!("expected a consumer error, got {:?}", other),
    }
}

#[test]
fn truncated_buffer_is_a_decoder_error_not_header_incorrect() {
    let data = b"DXBC\x01\x02".to_vec();
    let mut parser = Parser::new(&data, Recorder::default());
    assert_eq!(
        parser.parse(),
        Err(State::DecoderError(Error::LimitReached(0)))
    );
}

#[test]
fn header_fields_are_decoded_little_endian() {
    let mut data = container(b"DXBC", &[(b"RDEF", rdef_minimal_major4())]);
    // give the stored checksum a recognizable value
    data[4..8].copy_from_slice(&0x0403_0201u32.to_le_bytes());
    data[8..12].copy_from_slice(&0x0807_0605u32.to_le_bytes());
    let mut parser = Parser::new(&data, Recorder::default());
    assert_eq!(parser.parse(), Ok(()));
    let r = parser.into_consumer();
    assert_eq!(r.header_fields.len(), 1);
    let (stored, size, chunk_count) = r.header_fields[0];
    assert_eq!(stored[0], 0x0403_0201);
    assert_eq!(stored[1], 0x0807_0605);
    assert_eq!(size, data.len() as u32);
    assert_eq!(chunk_count, 1);
}

#[test]
fn corrupt_chunk_offset_fails_bounds_instead_of_escaping_its_scope() {
    // the RDEF chunk declares its constant-buffer array far past its own
    // declared length; the scoped view rejects the read even though the
    // container holds more bytes after the chunk
    let mut rdef = rdef_minimal_major4();
    rdef[0..4].copy_from_slice(&1u32.to_le_bytes()); // one constant buffer
    rdef[4..8].copy_from_slice(&4096u32.to_le_bytes()); // far outside the chunk
    let data = container(b"DXBC", &[(b"RDEF", rdef), (b"XPAD", vec![0; 4096])]);
    let mut parser = Parser::new(&data, Recorder::default());
    match parser.parse() {
        Err(State::DecoderError(_)) => {}
        other => panic!("expected a bounds failure, got {:?}", other),
    }
}
