//! ChaCha20-Poly1305 sealing and opening with `ring`, and nonces from the
//! system's random number generator.
use vstd::prelude::*;
use bytes::BytesMut;
use ring::aead::{Aad, LessSafeKey, Nonce, UnboundKey, CHACHA20_POLY1305};
use ring::error::Unspecified;
use ring::rand::{SecureRandom, SystemRandom};
use crate::buffer::{bytes_view, max_buffer_len};

verus! {

#[verifier::external_type_specification]
#[verifier::external_body]
pub struct ExUnspecified(ring::error::Unspecified);

/// Length of a ChaCha20-Poly1305 key.
pub const KEY_LEN: usize = 32;

/// Length of a ChaCha20-Poly1305 nonce.
pub const NONCE_LEN: usize = 12;

/// Length of the authentication tag that sealing appends.
pub const TAG_LEN: usize = 16;

/// The longest plaintext that `ring` seals with ChaCha20-Poly1305
/// (64 bytes times one less than 2^32 blocks; every `usize` on a 32-bit
/// target is below it).
pub open spec fn max_sealed_input_len() -> int {
    274877906880
}

/// What ChaCha20-Poly1305 opening (decrypting and checking the tag, with
/// no associated data) gives for a 32-byte key, a 12-byte nonce and a
/// ciphertext with its tag: the plaintext, or nothing when the tag does
/// not check out or the input is too short or too long.
pub uninterp spec fn aead_open(key: Seq<u8>, nonce: Seq<u8>, ciphertext: Seq<u8>) -> Option<Seq<u8>>;

/// What ChaCha20-Poly1305 sealing (encrypting and appending the tag, with
/// no associated data) gives for a 32-byte key, a 12-byte nonce and a
/// plaintext.
pub uninterp spec fn aead_seal(key: Seq<u8>, nonce: Seq<u8>, plaintext: Seq<u8>) -> Seq<u8>;

#[verifier::external_type_specification]
#[verifier::external_body]
pub struct ExLessSafeKey(ring::aead::LessSafeKey);

/// `UnboundKey::new(&CHACHA20_POLY1305, key)`, made into a `LessSafeKey`.
/// Claimed: it succeeds exactly when the key is 32 bytes long.
#[verifier::external_body]
fn chacha_key(key: &[u8]) -> (r: Result<LessSafeKey, Unspecified>)
    ensures
        r is Ok <==> key@.len() == KEY_LEN,
{
    Ok(LessSafeKey::new(UnboundKey::new(&CHACHA20_POLY1305, key)?))
}

/// A ChaCha20-Poly1305 key, with the bytes it was made from.  `AeadKey::new`
/// is the only way to make one, so the key always is the one made from
/// `key_bytes()`.
pub struct AeadKey {
    key: LessSafeKey,
    bytes: Ghost<Seq<u8>>,
}

impl AeadKey {
    /// The bytes the key was made from.
    pub closed spec fn key_bytes(&self) -> Seq<u8> {
        self.bytes@
    }

    /// Makes a key from its bytes; fails unless there are 32 of them.
    pub fn new(key: &[u8]) -> (r: Result<AeadKey, Unspecified>)
        ensures
            r is Ok <==> key@.len() == KEY_LEN,
            r matches Ok(k) ==> k.key_bytes() == key@,
    {
        let k = chacha_key(key)?;
        Ok(AeadKey { key: k, bytes: Ghost(key@) })
    }

    /// `LessSafeKey::open_in_place` with empty associated data, and the
    /// nonce given as `Nonce::assume_unique_for_key`.
    /// Claimed (the key being the one made from `self.key_bytes()`): it
    /// fails exactly when opening fails; on success it returns the
    /// plaintext's length, which is the input's length less the tag, and
    /// the plaintext stands at the front of the buffer, and sealing it
    /// again under the same key and nonce gives back the input (the tag
    /// authenticates the ciphertext, and ChaCha20-Poly1305 is
    /// deterministic); the buffer keeps its length.  What the rest of the
    /// buffer holds afterwards is left unsaid.
    #[verifier::external_body]
    pub fn open_in_place(&self, nonce: [u8; 12], data: &mut BytesMut) -> (r: Result<
        usize,
        Unspecified,
    >)
        ensures
            bytes_view(*final(data)).len() == bytes_view(*old(data)).len(),
            r is Ok <==> aead_open(self.key_bytes(), nonce@, bytes_view(*old(data))) is Some,
            r matches Ok(n) ==> {
                &&& n + TAG_LEN == bytes_view(*old(data)).len()
                &&& bytes_view(*final(data)).take(n as int) == aead_open(
                    self.key_bytes(),
                    nonce@,
                    bytes_view(*old(data)),
                ).unwrap()
                &&& aead_seal(self.key_bytes(), nonce@, bytes_view(*final(data)).take(n as int))
                    == bytes_view(*old(data))
            },
    {
        let nonce = Nonce::assume_unique_for_key(nonce);
        self.key.open_in_place(nonce, Aad::empty(), &mut data[..]).map(|plaintext| plaintext.len())
    }

    /// `LessSafeKey::seal_in_place_append_tag` with empty associated data,
    /// and the nonce given as `Nonce::assume_unique_for_key`.
    /// Claimed (the key being the one made from `self.key_bytes()`): it
    /// succeeds exactly when the plaintext is not longer than ring
    /// accepts; on success the buffer holds the sealed bytes, 16 bytes
    /// longer than the plaintext, and opening them with the same key and
    /// nonce gives the plaintext back; on failure the buffer is unchanged.
    #[verifier::external_body]
    pub fn seal_in_place(&self, nonce: [u8; 12], data: &mut BytesMut) -> (r: Result<(), Unspecified>)
        requires
            bytes_view(*old(data)).len() + TAG_LEN <= max_buffer_len(),
        ensures
            r is Ok <==> bytes_view(*old(data)).len() <= max_sealed_input_len(),
            r is Ok ==> {
                &&& bytes_view(*final(data)) == aead_seal(
                    self.key_bytes(),
                    nonce@,
                    bytes_view(*old(data)),
                )
                &&& bytes_view(*final(data)).len() == bytes_view(*old(data)).len() + TAG_LEN
                &&& aead_open(self.key_bytes(), nonce@, bytes_view(*final(data))) == Some(
                    bytes_view(*old(data)),
                )
            },
            r is Err ==> bytes_view(*final(data)) == bytes_view(*old(data)),
    {
        let nonce = Nonce::assume_unique_for_key(nonce);
        self.key.seal_in_place_append_tag(nonce, Aad::empty(), data)
    }
}

/// `SystemRandom::fill`: fills the array with random bytes from the
/// operating system, or fails.  Nothing is claimed of the bytes.
#[verifier::external_body]
pub fn fill_random(dest: &mut [u8; 12]) -> (r: Result<(), Unspecified>) {
    SystemRandom::new().fill(&mut dest[..])
}

} // verus!
