use bytes::BytesMut;
use sourcestats::message::{DecryptError, Message, MessageType};

fn key() -> Vec<u8> {
    (0u8..32).collect()
}

fn nonce_field() -> BytesMut {
    // Twelve nonce bytes followed by four bytes the nonce does not use.
    let mut field: Vec<u8> = (0u8..12).collect();
    field.extend_from_slice(&[0xaa, 0xbb, 0xcc, 0xdd]);
    BytesMut::from(&field[..])
}

// ChaCha20-Poly1305 of [0, 0, 0, 1] ++ "hello" under key 0..32 and nonce 0..12.
const SEALED_PLAYER_UPDATE: [u8; 25] = [
    137, 251, 8, 1, 65, 114, 201, 44, 216, 178, 57, 179, 104, 64, 87, 149, 255, 109, 6, 5, 240,
    73, 74, 102, 83,
];

// ChaCha20-Poly1305 of "payload" under key 0..32 and nonce 0..12.
const SEALED_PAYLOAD: [u8; 23] = [
    249, 154, 113, 108, 70, 118, 193, 114, 150, 65, 104, 150, 177, 118, 142, 138, 100, 230, 191,
    202, 94, 126, 32,
];

fn nonce12() -> [u8; 12] {
    let mut n = [0u8; 12];
    for i in 0..12 {
        n[i] = i as u8;
    }
    n
}

#[test]
fn message_type_from_number() {
    assert!(MessageType::from(1) == MessageType::PlayerUpdate);
    assert!(MessageType::from(0) == MessageType::UNKNOWN);
    assert!(MessageType::from(2) == MessageType::UNKNOWN);
    assert!(MessageType::from(-1) == MessageType::UNKNOWN);
    assert!(MessageType::from(i32::MAX) == MessageType::UNKNOWN);
}

#[test]
fn message_type_order_follows_numbers() {
    assert!(MessageType::UNKNOWN < MessageType::PlayerUpdate);
}

#[test]
fn seal_matches_known_answer() {
    let sealed = Message::seal(&key(), nonce12(), BytesMut::from(&b"payload"[..])).unwrap();
    assert_eq!(&sealed[..], &SEALED_PAYLOAD[..]);
}

#[test]
fn decrypt_known_player_update_with_bad_body() {
    // The known answer opens to the player update type followed by "hello",
    // which holds no Cap'n Proto message.
    let data = BytesMut::from(&SEALED_PLAYER_UPDATE[..]);
    assert!(matches!(
        Message::decrypt(&key(), nonce_field(), data),
        Err(DecryptError::DeserializeError(_))
    ));
}

#[test]
fn decrypt_with_wrong_key_is_cryptography_error() {
    let mut other = key();
    other[0] ^= 1;
    let data = BytesMut::from(&SEALED_PLAYER_UPDATE[..]);
    assert!(matches!(
        Message::decrypt(&other, nonce_field(), data),
        Err(DecryptError::CryptographyError)
    ));
}

#[test]
fn decrypt_with_short_key_is_cryptography_error() {
    let short: Vec<u8> = (0u8..31).collect();
    let data = BytesMut::from(&SEALED_PLAYER_UPDATE[..]);
    assert!(matches!(
        Message::decrypt(&short, nonce_field(), data),
        Err(DecryptError::CryptographyError)
    ));
}

#[test]
fn decrypt_tampered_data_is_cryptography_error() {
    let mut tampered = SEALED_PLAYER_UPDATE;
    tampered[3] ^= 0x80;
    let data = BytesMut::from(&tampered[..]);
    assert!(matches!(
        Message::decrypt(&key(), nonce_field(), data),
        Err(DecryptError::CryptographyError)
    ));
}

#[test]
fn decrypt_ignores_nonce_bytes_past_twelve() {
    let mut field = nonce_field();
    field[13] = 0;
    field[15] = 0;
    let data = BytesMut::from(&SEALED_PLAYER_UPDATE[..]);
    assert!(matches!(
        Message::decrypt(&key(), field, data),
        Err(DecryptError::DeserializeError(_))
    ));
}

#[test]
fn decrypt_unknown_type_is_invalid_message() {
    let plaintext = [0u8, 0, 0, 2, 9, 9];
    let sealed = Message::seal(&key(), nonce12(), BytesMut::from(&plaintext[..])).unwrap();
    assert!(matches!(
        Message::decrypt(&key(), nonce_field(), sealed),
        Err(DecryptError::InvalidMessage)
    ));
}

#[test]
fn decrypt_reads_type_big_endian() {
    // 1 << 24 in network order is not the player update type.
    let plaintext = [1u8, 0, 0, 0];
    let sealed = Message::seal(&key(), nonce12(), BytesMut::from(&plaintext[..])).unwrap();
    assert!(matches!(
        Message::decrypt(&key(), nonce_field(), sealed),
        Err(DecryptError::InvalidMessage)
    ));
}

#[test]
fn decrypt_checked_refuses_short_plaintext() {
    let plaintext = [0u8, 0, 1];
    let sealed = Message::seal(&key(), nonce12(), BytesMut::from(&plaintext[..])).unwrap();
    assert!(Message::decrypt_checked(&key(), nonce_field(), sealed).is_none());
}

#[test]
fn decrypt_checked_agrees_with_decrypt() {
    let data = BytesMut::from(&SEALED_PLAYER_UPDATE[..]);
    assert!(matches!(
        Message::decrypt_checked(&key(), nonce_field(), data),
        Some(Err(DecryptError::DeserializeError(_)))
    ));
    let data = BytesMut::from(&SEALED_PLAYER_UPDATE[..]);
    assert!(matches!(
        Message::decrypt_checked(&key()[..31], nonce_field(), data),
        Some(Err(DecryptError::CryptographyError))
    ));
}

#[test]
fn seal_with_short_key_fails() {
    let r = Message::seal(&key()[..16], nonce12(), BytesMut::from(&b"x"[..]));
    assert!(matches!(r, Err(DecryptError::CryptographyError)));
}

#[test]
fn encrypt_then_open_gives_payload() {
    let (nonce, sealed) = Message::encrypt(&key(), BytesMut::from(&b"payload"[..])).unwrap();
    assert_eq!(sealed.len(), 7 + 16);
    let again = Message::seal(&key(), nonce, BytesMut::from(&b"payload"[..])).unwrap();
    assert_eq!(&sealed[..], &again[..]);
}

#[test]
fn encrypt_does_not_prefix_message_type() {
    // The sealed plaintext is the payload alone, so a payload that does not
    // start with the player update type does not decrypt to one.
    let (nonce, sealed) = Message::encrypt(&key(), BytesMut::from(&b"payload"[..])).unwrap();
    let mut field = BytesMut::from(&nonce[..]);
    field.extend_from_slice(&[0, 0, 0, 0]);
    assert!(matches!(
        Message::decrypt(&key(), field, sealed),
        Err(DecryptError::InvalidMessage)
    ));
}

#[test]
fn encrypt_with_bad_key_is_cryptography_error() {
    let r = Message::encrypt(&[1u8, 2, 3], BytesMut::from(&b"payload"[..]));
    assert!(matches!(r, Err(DecryptError::CryptographyError)));
}

#[test]
fn encrypt_uses_fresh_nonces() {
    let (a, _) = Message::encrypt(&key(), BytesMut::from(&b"p"[..])).unwrap();
    let (b, _) = Message::encrypt(&key(), BytesMut::from(&b"p"[..])).unwrap();
    assert_ne!(a, b);
}

#[test]
fn decrypt_error_from_outside_errors() {
    assert!(matches!(
        DecryptError::from(ring::error::Unspecified),
        DecryptError::CryptographyError
    ));
    assert!(matches!(
        DecryptError::from(capnp::Error::failed("x".to_string())),
        DecryptError::DeserializeError(_)
    ));
}

#[test]
fn decrypt_with_short_nonce_and_bad_key_is_cryptography_error() {
    let data = BytesMut::from(&SEALED_PLAYER_UPDATE[..]);
    let short_nonce = BytesMut::from(&[1u8, 2, 3][..]);
    assert!(matches!(
        Message::decrypt(&key()[..8], short_nonce, data),
        Err(DecryptError::CryptographyError)
    ));
}

#[test]
fn decrypt_checked_refuses_short_nonce_with_good_key() {
    let data = BytesMut::from(&SEALED_PLAYER_UPDATE[..]);
    let short_nonce = BytesMut::from(&[1u8, 2, 3][..]);
    assert!(Message::decrypt_checked(&key(), short_nonce, data).is_none());
}
