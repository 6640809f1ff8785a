//! The frame that a game server sends to the daemon: an eight-byte key id,
//! a sixteen-byte nonce field and the encrypted message.
use vstd::prelude::*;
use bytes::BytesMut;
use mio::Token;
use crate::buffer::{
    buf_as_slice, buf_extend, buf_len, buf_split_to, buf_take, buf_unsplit, buf_with_capacity,
    bytes_view, max_buffer_len,
};
use crate::wire::{
    be_i64, i64_be_bytes, lemma_be_i64_bytes_roundtrip, lemma_i64_be_roundtrip, read_be_i64,
    write_be_i64,
};

verus! {

#[verifier::external_type_specification]
#[verifier::external_body]
pub struct ExToken(mio::Token);

/// Length of the key id and nonce fields that start every packet.
pub const PACKET_HEADER_LEN: usize = 24;

/// A packet received from a connection, tagged with the connection's token.
pub struct Packet {
    pub key_id: i64,
    pub nonce: BytesMut,
    pub data: BytesMut,
    pub token: Token,
}

/// What a packet holds, as plain values.
pub struct PacketModel {
    pub key_id: i64,
    pub nonce: Seq<u8>,
    pub data: Seq<u8>,
    pub token: Token,
}

impl View for Packet {
    type V = PacketModel;

    open spec fn view(&self) -> PacketModel {
        PacketModel {
            key_id: self.key_id,
            nonce: bytes_view(self.nonce),
            data: bytes_view(self.data),
            token: self.token,
        }
    }
}

/// The packet that the bytes `buf` (at least 24 of them) encode.
pub open spec fn packet_of(token: Token, buf: Seq<u8>) -> PacketModel {
    PacketModel {
        key_id: be_i64(buf),
        nonce: buf.subrange(8, 24),
        data: buf.skip(24),
        token,
    }
}

/// The bytes of a packet: key id in network order, nonce field, data.
pub open spec fn packet_bytes(p: PacketModel) -> Seq<u8> {
    i64_be_bytes(p.key_id) + p.nonce + p.data
}

impl Packet {
    /// Splits a received frame into key id, nonce field and data.
    pub fn from_buf(token: Token, buf: BytesMut) -> (p: Packet)
        requires
            bytes_view(buf).len() >= PACKET_HEADER_LEN,
        ensures
            p@ == packet_of(token, bytes_view(buf)),
    {
        let ghost whole = bytes_view(buf);
        let mut buf = buf;
        let key_bytes = buf_split_to(&mut buf, 8);
        let key_id = read_be_i64(buf_as_slice(&key_bytes));
        let nonce = buf_split_to(&mut buf, 16);
        let data = buf_take(&mut buf);
        proof {
            assert(bytes_view(key_bytes) == whole.take(8));
            assert(be_i64(whole.take(8)) == be_i64(whole));
            assert(bytes_view(nonce) =~= whole.subrange(8, 24));
            assert(bytes_view(data) =~= whole.skip(24));
        }
        Packet { key_id, nonce, data, token }
    }

    /// The bytes of the packet: key id in network order, then the nonce
    /// field, then the data.
    pub fn serialize(self) -> (buf: BytesMut)
        requires
            PACKET_HEADER_LEN + bytes_view(self.data).len() <= max_buffer_len(),
            8 + bytes_view(self.nonce).len() + bytes_view(self.data).len() <= max_buffer_len(),
        ensures
            bytes_view(buf) == packet_bytes(self@),
    {
        let ghost model = self@;
        let data_len = buf_len(&self.data);
        let mut buf = buf_with_capacity(PACKET_HEADER_LEN + data_len);
        let len = write_be_i64(self.key_id);
        buf_extend(&mut buf, &len);
        buf_unsplit(&mut buf, self.nonce);
        buf_unsplit(&mut buf, self.data);
        buf
    }
}

/// Reading a packet back from its bytes gives the packet again, when its
/// nonce field has the sixteen bytes that the format gives it.
pub proof fn lemma_packet_parse_serialize(p: PacketModel)
    requires
        p.nonce.len() == 16,
    ensures
        packet_of(p.token, packet_bytes(p)) == p,
{
    let b = packet_bytes(p);
    lemma_i64_be_roundtrip(p.key_id);
    assert(b.take(8) =~= i64_be_bytes(p.key_id));
    assert(be_i64(b) == be_i64(b.take(8)));
    assert(b.subrange(8, 24) =~= p.nonce);
    assert(b.skip(24) =~= p.data);
}

/// Writing out a packet read from a frame gives the frame's bytes again.
pub proof fn lemma_packet_serialize_parse(token: Token, buf: Seq<u8>)
    requires
        buf.len() >= PACKET_HEADER_LEN,
    ensures
        packet_bytes(packet_of(token, buf)) == buf,
{
    lemma_be_i64_bytes_roundtrip(buf.take(8));
    assert(be_i64(buf.take(8)) == be_i64(buf));
    assert(packet_bytes(packet_of(token, buf)) =~= buf);
}


/// A packet read from a frame holds the frame's bytes where the format
/// puts them: the key id is bytes 0..8 read big-endian, the nonce field
/// is bytes 8..24, and the data is every byte from 24 on.
pub proof fn lemma_packet_fields_from_bytes(token: Token, buf: Seq<u8>)
    requires
        buf.len() >= PACKET_HEADER_LEN,
    ensures
        packet_of(token, buf).key_id as u64 == ((buf[0] as u64) << 56u64) | ((buf[1] as u64)
            << 48u64) | ((buf[2] as u64) << 40u64) | ((buf[3] as u64) << 32u64) | ((buf[4] as u64)
            << 24u64) | ((buf[5] as u64) << 16u64) | ((buf[6] as u64) << 8u64) | (buf[7] as u64),
        packet_of(token, buf).nonce.len() == 16,
        forall|i: int| 0 <= i < 16 ==> packet_of(token, buf).nonce[i] == #[trigger] buf[8 + i],
        packet_of(token, buf).data.len() == buf.len() - 24,
        forall|i: int|
            0 <= i < buf.len() - 24 ==> packet_of(token, buf).data[i] == #[trigger] buf[24 + i],
        packet_of(token, buf).token == token,
{
    let u = ((buf[0] as u64) << 56u64) | ((buf[1] as u64) << 48u64) | ((buf[2] as u64) << 40u64)
        | ((buf[3] as u64) << 32u64) | ((buf[4] as u64) << 24u64) | ((buf[5] as u64) << 16u64) | ((
    buf[6] as u64) << 8u64) | (buf[7] as u64);
    assert(u as i64 as u64 == u) by (bit_vector);
}

} // verus!
