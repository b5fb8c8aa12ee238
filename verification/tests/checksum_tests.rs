use dxbc::checksum;

fn payload_long() -> Vec<u8> {
    // the final partial block holds 57 bytes, at least 56
    (0..20 + 57).map(|i: usize| ((i * 7 + 3) & 0xff) as u8).collect()
}

fn payload_short() -> Vec<u8> {
    // one full 64-byte block, then a final partial block of 10 bytes
    (0..20 + 64 + 10).map(|i: usize| ((i * 13 + 1) & 0xff) as u8).collect()
}

#[test]
fn digest_matches_reference_for_long_final_block() {
    let digest = checksum(&payload_long());
    assert_eq!(digest, [0xa314c138, 0x8a06dc45, 0x212d2526, 0x3d35fb91]);
}

#[test]
fn digest_matches_reference_for_short_final_block() {
    let digest = checksum(&payload_short());
    assert_eq!(digest, [0x21ece2fc, 0xd5f79c92, 0x183833d7, 0x45802e86]);
}

#[test]
fn digest_is_deterministic() {
    let p = payload_long();
    assert_eq!(checksum(&p), checksum(&p));
    let q = payload_short();
    assert_eq!(checksum(&q), checksum(&q));
}

#[test]
fn digest_depends_on_every_body_byte() {
    let p = payload_long();
    let mut q = p.clone();
    *q.last_mut().unwrap() ^= 1;
    assert_ne!(checksum(&p), checksum(&q));
}

#[test]
fn digest_handles_an_empty_final_block() {
    // the body is an exact multiple of 64 bytes: the final partial block
    // is empty and finalization takes the short-tail path
    let data: Vec<u8> = (0..20 + 64).map(|i: usize| ((i * 3 + 5) & 0xff) as u8).collect();
    assert_eq!(checksum(&data), [0x24b4311d, 0xc1d9b63d, 0x394d7652, 0x69a8942d]);
}

#[test]
fn digest_handles_a_final_block_of_exactly_fifty_six_bytes() {
    // the boundary between the two finalization cases
    let data: Vec<u8> = (0..20 + 56).map(|i: usize| ((i * 11 + 9) & 0xff) as u8).collect();
    assert_eq!(checksum(&data), [0xbeddb54c, 0x3b0dc179, 0x45d6f1f2, 0xa2b61b00]);
}
