//! Encrypted messages between game servers and the daemon.  A message is
//! sealed with ChaCha20-Poly1305 under the server's key; the plaintext
//! starts with the message type as a big-endian `i32`, followed by the
//! message in its Cap'n Proto packed encoding.
use vstd::prelude::*;
use bytes::BytesMut;
use ring::error::Unspecified;
use crate::buffer::{
    buf_as_slice, buf_len, buf_split_to, buf_advance, bytes_view, max_buffer_len,
};
use crate::crypto::{
    aead_open, aead_seal, fill_random, max_sealed_input_len, AeadKey, KEY_LEN, NONCE_LEN, TAG_LEN,
};
use crate::codec::packed_player_update;
use crate::player_update::PlayerUpdate;
use crate::wire::{be_i32, read_be_i32};

verus! {

#[verifier::external_type_specification]
#[verifier::external_body]
pub struct ExCapnpError(capnp::Error);

/// The kinds of message, by the number that stands for them on the wire.
#[derive(PartialEq, Eq, Structural, PartialOrd, Debug, Clone, Copy)]
pub enum MessageType {
    UNKNOWN,
    PlayerUpdate,
}

/// The message type that the number `i` stands for: 1 is a player update,
/// every other number is unknown.
pub open spec fn message_type_of(i: i32) -> MessageType {
    if i == 1 {
        MessageType::PlayerUpdate
    } else {
        MessageType::UNKNOWN
    }
}

impl From<i32> for MessageType {
    fn from(i: i32) -> (t: MessageType) {
        if i == 1 {
            MessageType::PlayerUpdate
        } else {
            MessageType::UNKNOWN
        }
    }
}

impl vstd::std_specs::convert::FromSpecImpl<i32> for MessageType {
    open spec fn obeys_from_spec() -> bool {
        true
    }

    open spec fn from_spec(i: i32) -> MessageType {
        message_type_of(i)
    }
}

/// A decoded message.
pub enum Message {
    PlayerUpdate(PlayerUpdate),
}

/// Why a message could not be read (or sealed).
#[derive(Debug)]
pub enum DecryptError {
    CryptographyError,
    InvalidMessage,
    DeserializeError(capnp::Error),
}

impl From<Unspecified> for DecryptError {
    fn from(e: Unspecified) -> (r: DecryptError) {
        DecryptError::CryptographyError
    }
}

impl vstd::std_specs::convert::FromSpecImpl<Unspecified> for DecryptError {
    open spec fn obeys_from_spec() -> bool {
        true
    }

    open spec fn from_spec(e: Unspecified) -> DecryptError {
        DecryptError::CryptographyError
    }
}

impl From<capnp::Error> for DecryptError {
    fn from(e: capnp::Error) -> (r: DecryptError) {
        DecryptError::DeserializeError(e)
    }
}

impl vstd::std_specs::convert::FromSpecImpl<capnp::Error> for DecryptError {
    open spec fn obeys_from_spec() -> bool {
        true
    }

    open spec fn from_spec(e: capnp::Error) -> DecryptError {
        DecryptError::DeserializeError(e)
    }
}

/// The plaintext that opening `data` under `key` with the first twelve
/// bytes of the nonce field gives, or nothing when it cannot be opened
/// (a key that is not 32 bytes long, or a ciphertext that does not check out).
pub open spec fn opened_plaintext(key: Seq<u8>, nonce: Seq<u8>, data: Seq<u8>) -> Option<Seq<u8>> {
    if key.len() == KEY_LEN {
        aead_open(key, nonce.take(NONCE_LEN as int), data)
    } else {
        None
    }
}

/// `r` is what decrypting gives when opening gave `opened`: a
/// cryptography error when nothing could be opened; for a player update,
/// the update packed in the bytes after the four type bytes, or a
/// deserialize error carrying the error that reading them stopped at; an
/// invalid message for every other type.
pub open spec fn decrypt_result(r: Result<Message, DecryptError>, opened: Option<Seq<u8>>) -> bool {
    match opened {
        None => r matches Err(DecryptError::CryptographyError),
        Some(p) => if message_type_of(be_i32(p)) == MessageType::PlayerUpdate {
            match packed_player_update(p.skip(4)) {
                Ok(u) => r matches Ok(Message::PlayerUpdate(m)) && m@ == u,
                Err(e) => r matches Err(DecryptError::DeserializeError(e2)) && e2 == e,
            }
        } else {
            r matches Err(DecryptError::InvalidMessage)
        },
    }
}

/// A plaintext is a player update exactly when its first four bytes are
/// 0, 0, 0, 1 (the number 1, big-endian); every other start is an
/// unknown type.
pub proof fn lemma_player_update_type_bytes(p: Seq<u8>)
    requires
        p.len() >= 4,
    ensures
        (message_type_of(be_i32(p)) == MessageType::PlayerUpdate) <==> (p[0] == 0 && p[1] == 0
            && p[2] == 0 && p[3] == 1),
{
    let (b0, b1, b2, b3) = (p[0], p[1], p[2], p[3]);
    assert(((((b0 as u32) << 24u32) | ((b1 as u32) << 16u32) | ((b2 as u32) << 8u32) | (b3 as u32))
        as i32 == 1i32) <==> (b0 == 0u8 && b1 == 0u8 && b2 == 0u8 && b3 == 1u8)) by (bit_vector);
}

/// The four bytes that name the player update type on the wire.
pub open spec fn player_update_tag() -> Seq<u8> {
    seq![0u8, 0u8, 0u8, 1u8]
}

/// A player update sealed with its type in front decrypts to the update
/// packed in its body: when `sealed` opens, under `key` and the first
/// twelve bytes of `nonce_field`, to the type followed by `body` (as it
/// does for what `Message::seal` gives), decrypting gives the update that
/// `body` holds, or a deserialize error with the error that reading it met.
pub proof fn lemma_decrypt_sealed(
    key: Seq<u8>,
    nonce_field: Seq<u8>,
    sealed: Seq<u8>,
    body: Seq<u8>,
    r: Result<Message, DecryptError>,
)
    requires
        key.len() == KEY_LEN,
        aead_open(key, nonce_field.take(NONCE_LEN as int), sealed) == Some(player_update_tag() + body),
        decrypt_result(r, opened_plaintext(key, nonce_field, sealed)),
    ensures
        match packed_player_update(body) {
            Ok(u) => r matches Ok(Message::PlayerUpdate(m)) && m@ == u,
            Err(e) => r matches Err(DecryptError::DeserializeError(e2)) && e2 == e,
        },
{
    let p = player_update_tag() + body;
    assert(p[0] == 0u8 && p[1] == 0u8 && p[2] == 0u8 && p[3] == 1u8);
    let (b0, b1, b2, b3) = (p[0], p[1], p[2], p[3]);
    assert(((b0 as u32) << 24u32) | ((b1 as u32) << 16u32) | ((b2 as u32) << 8u32) | (b3 as u32)
        == 1u32) by (bit_vector)
        requires
            b0 == 0u8 && b1 == 0u8 && b2 == 0u8 && b3 == 1u8,
    ;
    assert(be_i32(p) == 1i32);
    assert(p.skip(4) =~= body);
}

/// The first twelve bytes of a nonce field.
fn nonce_array(field: &[u8]) -> (nonce: [u8; 12])
    requires
        field@.len() >= NONCE_LEN,
    ensures
        nonce@ == field@.take(NONCE_LEN as int),
{
    let mut nonce = [0u8; 12];
    let mut i: usize = 0;
    while i < NONCE_LEN
        invariant
            i <= NONCE_LEN,
            field@.len() >= NONCE_LEN,
            nonce@.len() == NONCE_LEN,
            forall|j: int| 0 <= j < i ==> nonce@[j] == field@[j],
        decreases NONCE_LEN - i,
    {
        nonce[i] = field[i];
        i = i + 1;
    }
    assert(nonce@ =~= field@.take(NONCE_LEN as int));
    nonce
}

/// Opens `data`: the key is checked first, then the nonce is taken from
/// the nonce field.  On success the buffer holds exactly the plaintext,
/// and sealing it again gives `data` back.
fn open_plaintext(key: &[u8], nonce: &BytesMut, data: BytesMut) -> (r: Result<
    BytesMut,
    DecryptError,
>)
    requires
        key@.len() == KEY_LEN ==> bytes_view(*nonce).len() >= NONCE_LEN,
    ensures
        match opened_plaintext(key@, bytes_view(*nonce), bytes_view(data)) {
            None => r matches Err(DecryptError::CryptographyError),
            Some(p) => r matches Ok(b) && bytes_view(b) == p && aead_seal(
                key@,
                bytes_view(*nonce).take(NONCE_LEN as int),
                p,
            ) == bytes_view(data),
        },
{
    let mut data = data;
    let key = match AeadKey::new(key) {
        Ok(k) => k,
        Err(e) => return Err(DecryptError::from(e)),
    };
    let nonce = nonce_array(buf_as_slice(nonce));
    match key.open_in_place(nonce, &mut data) {
        Ok(plaintext_len) => {
            let plaintext = buf_split_to(&mut data, plaintext_len);
            Ok(plaintext)
        },
        Err(e) => Err(DecryptError::from(e)),
    }
}

/// Reads the message type from the first four bytes of a plaintext, and
/// decodes the player update that follows it.
fn parse_plaintext(plaintext: BytesMut) -> (r: Result<Message, DecryptError>)
    requires
        bytes_view(plaintext).len() >= 4,
    ensures
        decrypt_result(r, Some(bytes_view(plaintext))),
{
    let mut buf = plaintext;
    let message_id: MessageType = MessageType::from(read_be_i32(buf_as_slice(&buf)));
    buf_advance(&mut buf, 4);
    match message_id {
        MessageType::PlayerUpdate => match PlayerUpdate::from_capnp(buf_as_slice(&buf)) {
            Ok(update) => Ok(Message::PlayerUpdate(update)),
            Err(e) => Err(DecryptError::from(e)),
        },
        _ => Err(DecryptError::InvalidMessage),
    }
}

impl Message {
    /// Opens a message sealed under `key` with the first twelve bytes of
    /// `nonce`, reads its type, and decodes it.
    pub fn decrypt(key: &[u8], nonce: BytesMut, data: BytesMut) -> (r: Result<
        Message,
        DecryptError,
    >)
        requires
            key@.len() == KEY_LEN ==> bytes_view(nonce).len() >= NONCE_LEN,
            opened_plaintext(key@, bytes_view(nonce), bytes_view(data)) matches Some(p) ==> p.len()
                >= 4,
        ensures
            decrypt_result(r, opened_plaintext(key@, bytes_view(nonce), bytes_view(data))),
            r is Ok ==> (opened_plaintext(key@, bytes_view(nonce), bytes_view(data)) matches Some(p)
                && aead_seal(key@, bytes_view(nonce).take(NONCE_LEN as int), p) == bytes_view(data)),
    {
        let plaintext = open_plaintext(key, &nonce, data)?;
        parse_plaintext(plaintext)
    }

    /// `Message::decrypt` for every input: `None` exactly where decrypting
    /// cannot go on, a good key with a nonce field shorter than a nonce or
    /// an opened plaintext too short to hold a message type.
    pub fn decrypt_checked(key: &[u8], nonce: BytesMut, data: BytesMut) -> (r: Option<
        Result<Message, DecryptError>,
    >)
        ensures
            r is None <==> (key@.len() == KEY_LEN && (bytes_view(nonce).len() < NONCE_LEN || (
            opened_plaintext(key@, bytes_view(nonce), bytes_view(data)) matches Some(p) && p.len()
                < 4))),
            r matches Some(res) ==> decrypt_result(
                res,
                opened_plaintext(key@, bytes_view(nonce), bytes_view(data)),
            ),
            r matches Some(Ok(_)) ==> (opened_plaintext(
                key@,
                bytes_view(nonce),
                bytes_view(data),
            ) matches Some(p) && aead_seal(key@, bytes_view(nonce).take(NONCE_LEN as int), p)
                == bytes_view(data)),
    {
        if key.len() != KEY_LEN {
            return Some(Message::decrypt(key, nonce, data));
        }
        if buf_len(&nonce) < NONCE_LEN {
            return None;
        }
        let probe = crate::buffer::buf_from_slice(buf_as_slice(&data));
        match open_plaintext(key, &nonce, probe) {
            Ok(plaintext) => {
                if buf_len(&plaintext) < 4 {
                    None
                } else {
                    Some(Message::decrypt(key, nonce, data))
                }
            },
            Err(_) => Some(Message::decrypt(key, nonce, data)),
        }
    }

    /// Seals an encoded message under `key` with the given nonce.
    pub fn seal(key: &[u8], nonce: [u8; 12], payload: BytesMut) -> (r: Result<
        BytesMut,
        DecryptError,
    >)
        requires
            bytes_view(payload).len() + TAG_LEN <= max_buffer_len(),
        ensures
            r is Ok <==> (key@.len() == KEY_LEN && bytes_view(payload).len()
                <= max_sealed_input_len()),
            r matches Ok(sealed) ==> {
                &&& bytes_view(sealed) == aead_seal(key@, nonce@, bytes_view(payload))
                &&& aead_open(key@, nonce@, bytes_view(sealed)) == Some(bytes_view(payload))
            },
            r matches Err(e) ==> e is CryptographyError,
    {
        let mut buf = payload;
        let key = match AeadKey::new(key) {
            Ok(k) => k,
            Err(e) => return Err(DecryptError::from(e)),
        };
        match key.seal_in_place(nonce, &mut buf) {
            Ok(()) => Ok(buf),
            Err(e) => Err(DecryptError::from(e)),
        }
    }

    /// Seals an encoded message under `key` with a fresh random nonce, and
    /// returns the nonce with the sealed bytes.
    pub fn encrypt(key: &[u8], payload: BytesMut) -> (r: Result<([u8; 12], BytesMut), DecryptError>)
        requires
            bytes_view(payload).len() + TAG_LEN <= max_buffer_len(),
        ensures
            !(key@.len() == KEY_LEN && bytes_view(payload).len() <= max_sealed_input_len())
                ==> r matches Err(DecryptError::CryptographyError),
            r matches Ok((nonce, sealed)) ==> {
                &&& key@.len() == KEY_LEN
                &&& bytes_view(sealed) == aead_seal(key@, nonce@, bytes_view(payload))
                &&& aead_open(key@, nonce@, bytes_view(sealed)) == Some(bytes_view(payload))
            },
            r matches Err(e) ==> e is CryptographyError,
    {
        let mut nonce = [0u8; 12];
        if key.len() != KEY_LEN {
            return Err(DecryptError::CryptographyError);
        }
        match fill_random(&mut nonce) {
            Ok(()) => {},
            Err(e) => return Err(DecryptError::from(e)),
        }
        let sealed = Message::seal(key, nonce, payload)?;
        Ok((nonce, sealed))
    }
}

} // verus!
