use bytes::BytesMut;
use mio::{Ready, Token};
use sourcestats::stream::{StreamState, READABLE, WRITABLE};

/// A frame whose length field is `len` (big-endian), filled with `fill`.
fn frame(len: u16, fill: u8) -> Vec<u8> {
    let mut f = vec![(len >> 8) as u8, len as u8];
    f.resize(len as usize, fill);
    f
}

#[test]
fn readiness_bits_match_mio() {
    assert_eq!(Ready::readable().as_usize(), READABLE);
    assert_eq!(Ready::writable().as_usize(), WRITABLE);
}

#[test]
fn new_stream_is_not_interested_in_writing() {
    let s = StreamState::new(Token(7));
    let mut expected = Ready::all();
    expected.remove(Ready::writable());
    assert_eq!(s.interest, expected.as_usize());
    assert_eq!(s.token, Token(7));
    assert_eq!(s.rx.len(), 0);
    assert_eq!(s.pending_bytes().len(), 0);
}

#[test]
fn take_packets_splits_whole_frames() {
    let mut s = StreamState::new(Token(2));
    let mut bytes = frame(30, 0x11);
    bytes.extend(frame(24, 0x22));
    bytes.extend(&frame(40, 0x33)[..10]);
    s.receive(&bytes);
    let packets = s.take_packets();
    assert_eq!(packets.len(), 2);
    // The length field is part of the frame, so it starts the key id.
    assert_eq!(packets[0].key_id, 0x001e_1111_1111_1111);
    assert_eq!(packets[0].nonce.len(), 16);
    assert_eq!(&packets[0].data[..], &[0x11u8; 6][..]);
    assert_eq!(packets[0].token, Token(2));
    assert_eq!(packets[1].key_id, 0x0018_2222_2222_2222);
    assert_eq!(packets[1].data.len(), 0);
    assert_eq!(&s.rx[..], &frame(40, 0x33)[..10]);
}

#[test]
fn take_packets_waits_for_incomplete_frame() {
    let mut s = StreamState::new(Token(2));
    s.receive(&frame(30, 1)[..29]);
    assert_eq!(s.take_packets().len(), 0);
    assert_eq!(s.rx.len(), 29);
}

#[test]
fn take_packets_keeps_two_bytes_or_fewer() {
    let mut s = StreamState::new(Token(2));
    s.receive(&[0u8, 5]);
    assert_eq!(s.take_packets().len(), 0);
    assert_eq!(&s.rx[..], &[0u8, 5][..]);
}

#[test]
fn take_packets_needs_two_bytes_beyond_the_length() {
    // Thirty bytes of a thirty-byte frame are not enough: the check asks
    // for the length plus two.
    let mut s = StreamState::new(Token(2));
    let mut bytes = frame(30, 1);
    bytes.push(9);
    s.receive(&bytes);
    assert_eq!(s.take_packets().len(), 0);
    s.receive(&[8]);
    let packets = s.take_packets();
    assert_eq!(packets.len(), 1);
    assert_eq!(&s.rx[..], &[9u8, 8][..]);
}

#[test]
fn take_packets_drops_buffer_on_short_length() {
    let mut s = StreamState::new(Token(2));
    let mut bytes = frame(30, 1);
    bytes.extend_from_slice(&[0, 23, 1, 2, 3]);
    bytes.extend(frame(30, 2));
    s.receive(&bytes);
    let packets = s.take_packets();
    assert_eq!(packets.len(), 1);
    assert_eq!(s.rx.len(), 0);
}

#[test]
fn frames_do_not_depend_on_read_boundaries() {
    let mut bytes = frame(30, 1);
    bytes.extend(frame(26, 2));
    bytes.extend(frame(50, 3));
    bytes.extend_from_slice(&[0, 60, 4]);
    let mut whole = StreamState::new(Token(1));
    whole.receive(&bytes);
    let all_at_once: Vec<i64> = whole.take_packets().iter().map(|p| p.key_id).collect();
    for cut in 0..bytes.len() {
        let mut parts = StreamState::new(Token(1));
        parts.receive(&bytes[..cut]);
        let mut ids: Vec<i64> = parts.take_packets().iter().map(|p| p.key_id).collect();
        parts.receive(&bytes[cut..]);
        ids.extend(parts.take_packets().iter().map(|p| p.key_id));
        assert_eq!(ids, all_at_once);
        assert_eq!(&parts.rx[..], &whole.rx[..]);
    }
    assert_eq!(all_at_once.len(), 3);
}

#[test]
fn write_queues_bytes_and_asks_for_writability() {
    let mut s = StreamState::new(Token(1));
    let before = s.interest;
    s.write(BytesMut::from(&b"abc"[..]));
    s.write(BytesMut::from(&b"de"[..]));
    assert_eq!(s.pending_bytes(), &b"abcde"[..]);
    assert_eq!(s.interest, before | WRITABLE);
}

#[test]
fn written_drops_bytes_and_clears_writability_when_empty() {
    let mut s = StreamState::new(Token(1));
    let before = s.interest;
    s.write(BytesMut::from(&b"abcde"[..]));
    assert!(!s.written(2));
    assert_eq!(s.pending_bytes(), &b"cde"[..]);
    assert_eq!(s.interest, before | WRITABLE);
    assert!(s.written(3));
    assert_eq!(s.pending_bytes().len(), 0);
    assert_eq!(s.interest, before);
}

#[test]
fn written_with_nothing_pending_reregisters() {
    let mut s = StreamState::new(Token(1));
    let before = s.interest;
    assert!(s.written(0));
    assert_eq!(s.interest, before);
}
