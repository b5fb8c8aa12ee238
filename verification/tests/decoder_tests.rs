use dxbc::binary::decoder::Decoder;
use dxbc::binary::error::Error;

fn sample() -> Vec<u8> {
    vec![0x10, 0x32, 0x54, 0x76, 0x98, 0xba, 0xdc, 0xfe, 0x01, 0x02]
}

#[test]
fn read_u8_advances_and_returns_bytes() {
    let data = sample();
    let mut d = Decoder::new(&data);
    assert_eq!(d.read_u8(), Ok(0x10));
    assert_eq!(d.read_u8(), Ok(0x32));
    assert_eq!(d.get_offset(), 2);
}

#[test]
fn read_u16_and_u32_are_little_endian() {
    let data = sample();
    let mut d = Decoder::new(&data);
    assert_eq!(d.read_u16(), Ok(0x3210));
    let mut d2 = Decoder::new(&data);
    assert_eq!(d2.read_u32(), Ok(0x76543210));
    assert_eq!(d2.read_u32(), Ok(0xfedcba98));
}

#[test]
fn read_past_end_fails_stream_expected() {
    let data = vec![1u8, 2];
    let mut d = Decoder::new(&data);
    assert_eq!(d.read_u32(), Err(Error::StreamExpected(0)));
    // the cursor did not move on failure
    assert_eq!(d.get_offset(), 0);
    assert_eq!(d.read_u16(), Ok(0x0201));
    assert_eq!(d.read_u8(), Err(Error::StreamExpected(2)));
}

#[test]
fn bytes_and_words_report_limit_reached() {
    let data = sample();
    let mut d = Decoder::new(&data);
    let s = d.bytes(4).unwrap();
    assert_eq!(s, &[0x10, 0x32, 0x54, 0x76]);
    assert_eq!(d.bytes(7), Err(Error::LimitReached(4)));
    let w = d.words(1).unwrap();
    assert_eq!(w, vec![0xfedcba98]);
    assert_eq!(d.words(1), Err(Error::LimitReached(8)));
}

#[test]
fn seek_never_moves_the_calling_cursor() {
    let data = sample();
    let mut d = Decoder::new(&data);
    d.read_u32().unwrap();
    let sibling = d.seek(1);
    assert_eq!(d.get_offset(), 4);
    assert_eq!(sibling.get_offset(), 1);
}

#[test]
fn seek_mut_always_sets_the_cursor() {
    let data = sample();
    let mut d = Decoder::new(&data);
    d.seek_mut(7);
    assert_eq!(d.get_offset(), 7);
    // even past the scope bound
    d.seek_mut(100);
    assert_eq!(d.get_offset(), 100);
}

#[test]
fn bounded_view_reaches_eof_after_exactly_its_length() {
    let data = sample();
    let mut d = Decoder::new(&data);
    d.seek_mut(2);
    let mut scoped = d.scoped_decoder(4);
    assert!(!scoped.eof());
    scoped.read_u16().unwrap();
    assert!(!scoped.eof());
    scoped.read_u16().unwrap();
    assert!(scoped.eof());
    // further reads fail although the parent buffer has bytes left
    assert_eq!(scoped.bytes(1), Err(Error::LimitReached(6)));
    assert_eq!(scoped.read_u8(), Err(Error::StreamExpected(6)));
    let mut parent = d.seek(6);
    assert_eq!(parent.read_u8(), Ok(0xdc));
}

#[test]
fn scoped_decoder_never_extends_the_parent_scope() {
    let data = sample();
    let d = Decoder::new(&data);
    let outer = d.scoped_decoder(4);
    let mut inner = outer.scoped_decoder(100);
    assert_eq!(inner.bytes(5), Err(Error::LimitReached(0)));
    assert_eq!(inner.bytes(4).unwrap(), &[0x10, 0x32, 0x54, 0x76]);
}

#[test]
fn str_decodes_multibyte_utf8_and_skips_terminator() {
    let mut data = "héllo".as_bytes().to_vec();
    data.push(0);
    data.push(0x21);
    let mut d = Decoder::new(&data);
    let s = d.str().unwrap();
    assert_eq!(s, "héllo");
    assert_eq!(d.read_u8(), Ok(0x21));
}

#[test]
fn str_without_terminator_fails_stream_expected() {
    let data = vec![0x61u8, 0x62, 0x63];
    let mut d = Decoder::new(&data);
    assert_eq!(d.str(), Err(Error::StreamExpected(0)));
    assert_eq!(d.get_offset(), 0);
}

#[test]
fn str_with_invalid_utf8_reports_valid_prefix_length() {
    let data = vec![0x61u8, 0xff, 0x62, 0x00];
    let mut d = Decoder::new(&data);
    assert_eq!(d.str(), Err(Error::DecodeStrFailed(0, 1)));
}

#[test]
fn str_respects_the_scope_bound() {
    // the terminator lies beyond a 2-byte scope
    let data = vec![0x61u8, 0x62, 0x00];
    let d = Decoder::new(&data);
    let mut scoped = d.scoped_decoder(2);
    assert_eq!(scoped.str(), Err(Error::StreamExpected(0)));
}
