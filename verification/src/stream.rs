//! The state of one connection to a game server: the bytes received and
//! not yet framed, the bytes waiting to be written, and the readiness the
//! event loop is asked to report.  Frames on the stream start with their
//! length as a big-endian `u16`; that length counts the frame's own bytes
//! from its first byte on.
use vstd::prelude::*;
use bytes::BytesMut;
use mio::{Ready, Token};
use crate::buffer::{
    buf_advance, buf_as_slice, buf_clear, buf_extend, buf_len, buf_split_to, buf_unsplit,
    buf_with_capacity, bytes_view, max_buffer_len,
};
use crate::packet::{packet_of, Packet, PACKET_HEADER_LEN};
use crate::wire::{be_u16, read_be_u16};

verus! {

/// The bit of `mio::Ready` that stands for readability.
pub const READABLE: usize = 1;

/// The bit of `mio::Ready` that stands for writability.
pub const WRITABLE: usize = 2;

/// Size of the buffers a new connection starts with.
pub const BUFFER_CAPACITY: usize = 4096;

/// `Ready::insert`: the readiness with the bits of `other` added.
pub open spec fn ready_insert(ready: usize, other: usize) -> usize {
    ready | other
}

/// `Ready::remove`: the readiness with the bits of `other` taken away.
pub open spec fn ready_remove(ready: usize, other: usize) -> usize {
    ready & !other
}

/// `Ready::contains`: every bit of `other` is in `ready`.
pub open spec fn ready_contains(ready: usize, other: usize) -> bool {
    ready & other == other
}

/// `Ready::all().as_usize()`.  Claimed: the readable and the writable
/// bits are set (the other bits that `mio` sets depend on the platform
/// and are left unsaid).
#[verifier::external_body]
pub fn ready_all() -> (bits: usize)
    ensures
        ready_contains(bits, READABLE),
        ready_contains(bits, WRITABLE),
{
    Ready::all().as_usize()
}

/// Asking for writability and dropping it again once everything is
/// written gives back the interest the connection had before.
pub proof fn lemma_write_interest_restored(interest: usize)
    requires
        !ready_contains(interest, WRITABLE),
    ensures
        ready_remove(ready_insert(interest, WRITABLE), WRITABLE) == interest,
{
    assert(interest & 2usize != 2usize ==> (interest | 2usize) & !2usize == interest) by (bit_vector);
}

/// Splits received bytes into whole frames, in order, and the bytes left
/// over.  A frame whose length field is below the packet header's length
/// makes the rest of the buffer be dropped; an incomplete frame waits for
/// more bytes.
pub open spec fn frames(rx: Seq<u8>) -> (Seq<Seq<u8>>, Seq<u8>)
    decreases rx.len(),
{
    if rx.len() <= 2 {
        (Seq::empty(), rx)
    } else {
        let n = be_u16(rx) as int;
        if n < PACKET_HEADER_LEN {
            (Seq::empty(), Seq::empty())
        } else if rx.len() - 2 >= n {
            let rest = frames(rx.skip(n));
            (seq![rx.take(n)] + rest.0, rest.1)
        } else {
            (Seq::empty(), rx)
        }
    }
}

/// The length field of a frame, read from its first two bytes.
proof fn lemma_length_field(rx: Seq<u8>)
    requires
        rx.len() >= 2,
    ensures
        be_u16(rx) as int == rx[0] as int * 256 + rx[1] as int,
{
    let (a, b) = (rx[0], rx[1]);
    assert((((a as u16) << 8u16) | (b as u16)) as int == a as int * 256 + b as int) by (bit_vector);
}

/// Framing, on the bytes: with more than two bytes received and the first
/// two reading `n` (big-endian), a length below 24 drops everything; a
/// length of at least 24 with `n + 2` bytes present makes the first `n`
/// bytes the first frame, the rest being framed the same way; otherwise
/// nothing is framed yet and every byte waits.
pub proof fn lemma_frames_by_length_field(rx: Seq<u8>)
    requires
        rx.len() > 2,
    ensures
        ({
            let n = rx[0] as int * 256 + rx[1] as int;
            &&& n < 24 ==> frames(rx).0.len() == 0 && frames(rx).1.len() == 0
            &&& 24 <= n && n + 2 <= rx.len() ==> {
                &&& frames(rx).0.len() >= 1
                &&& frames(rx).0[0] == rx.subrange(0, n)
                &&& frames(rx).0.drop_first() == frames(rx.subrange(n, rx.len() as int)).0
                &&& frames(rx).1 == frames(rx.subrange(n, rx.len() as int)).1
            }
            &&& 24 <= n && n + 2 > rx.len() ==> frames(rx).0.len() == 0 && frames(rx).1 == rx
        }),
{
    lemma_length_field(rx);
    let n = rx[0] as int * 256 + rx[1] as int;
    if 24 <= n && n + 2 <= rx.len() {
        assert(rx.take(n) =~= rx.subrange(0, n));
        assert(rx.skip(n) =~= rx.subrange(n, rx.len() as int));
        assert(frames(rx).0.drop_first() =~= frames(rx.skip(n)).0);
    }
}

/// The frames one after another.
pub open spec fn concat(fs: Seq<Seq<u8>>) -> Seq<u8>
    decreases fs.len(),
{
    if fs.len() == 0 {
        Seq::empty()
    } else {
        fs[0] + concat(fs.drop_first())
    }
}

/// No byte was dropped: the frames and the leftover bytes make up `rx`.
pub open spec fn frames_lossless(rx: Seq<u8>) -> bool {
    concat(frames(rx).0) + frames(rx).1 == rx
}

/// Every frame taken from a stream is at least a packet header long, and
/// its length field gives its own length.
pub proof fn lemma_frames_well_formed(rx: Seq<u8>)
    ensures
        forall|i: int|
            0 <= i < frames(rx).0.len() ==> {
                &&& (#[trigger] frames(rx).0[i]).len() >= PACKET_HEADER_LEN
                &&& be_u16(frames(rx).0[i]) as int == frames(rx).0[i].len()
            },
    decreases rx.len(),
{
    if rx.len() > 2 {
        let n = be_u16(rx) as int;
        if n >= PACKET_HEADER_LEN && rx.len() - 2 >= n {
            lemma_frames_well_formed(rx.skip(n));
            let f = rx.take(n);
            assert(f[0] == rx[0] && f[1] == rx[1]);
            assert(be_u16(f) == be_u16(rx));
            assert forall|i: int| 0 <= i < frames(rx).0.len() implies {
                &&& (#[trigger] frames(rx).0[i]).len() >= PACKET_HEADER_LEN
                &&& be_u16(frames(rx).0[i]) as int == frames(rx).0[i].len()
            } by {
                if i > 0 {
                    assert(frames(rx).0[i] == frames(rx.skip(n)).0[i - 1]);
                }
            }
        }
    }
}

/// The frames taken from a stream are its first bytes, in order; and
/// unless a malformed length dropped the rest, the frames followed by the
/// bytes left over are the whole stream.
pub proof fn lemma_frames_prefix(rx: Seq<u8>)
    ensures
        concat(frames(rx).0) == rx.take(concat(frames(rx).0).len() as int),
        concat(frames(rx).0).len() <= rx.len(),
        frames(rx).1 == Seq::<u8>::empty() || frames_lossless(rx),
    decreases rx.len(),
{
    if rx.len() <= 2 {
        assert(concat(frames(rx).0) =~= Seq::<u8>::empty());
        assert(concat(frames(rx).0) + frames(rx).1 =~= rx);
    } else {
        let n = be_u16(rx) as int;
        if n < PACKET_HEADER_LEN {
            assert(concat(frames(rx).0) =~= Seq::<u8>::empty());
        } else if rx.len() - 2 >= n {
            let r = rx.skip(n);
            lemma_frames_prefix(r);
            let fs = frames(rx).0;
            assert(fs.drop_first() =~= frames(r).0);
            assert(concat(fs) == rx.take(n) + concat(frames(r).0));
            assert(concat(fs) =~= rx.take(concat(fs).len() as int));
            if frames(rx).1 != Seq::<u8>::empty() {
                assert(concat(fs) + frames(rx).1 =~= rx.take(n) + (concat(frames(r).0) + frames(r).1));
                assert(rx.take(n) + r =~= rx);
            }
        } else {
            assert(concat(frames(rx).0) =~= Seq::<u8>::empty());
            assert(concat(frames(rx).0) + frames(rx).1 =~= rx);
        }
    }
}

/// Where a stream arrives in two parts, and the first part loses no byte,
/// the frames of the whole are the first part's frames followed by the
/// frames of its leftover bytes joined to the second part: how the bytes
/// are split between reads changes no frame.
pub proof fn lemma_frames_append(a: Seq<u8>, b: Seq<u8>)
    requires
        frames_lossless(a),
    ensures
        frames(a + b) == (frames(a).0 + frames(frames(a).1 + b).0, frames(frames(a).1 + b).1),
    decreases a.len(),
{
    if a.len() <= 2 {
        assert(frames(a).0 + frames(frames(a).1 + b).0 =~= frames(frames(a).1 + b).0);
    } else {
        let n = be_u16(a) as int;
        let ab = a + b;
        assert(ab[0] == a[0] && ab[1] == a[1]);
        assert(be_u16(ab) == be_u16(a));
        if n < PACKET_HEADER_LEN {
            assert(concat(frames(a).0) =~= Seq::<u8>::empty());
            assert(concat(frames(a).0) + frames(a).1 =~= Seq::<u8>::empty());
            assert(false);
        } else if a.len() - 2 >= n {
            let r = a.skip(n);
            let fr = frames(r);
            assert(frames(a).0.drop_first() =~= fr.0);
            assert(concat(frames(a).0) == a.take(n) + concat(fr.0));
            assert(a.take(n) + (concat(fr.0) + fr.1) =~= concat(frames(a).0) + frames(a).1);
            assert(a.take(n) + r =~= a);
            assert(concat(fr.0) + fr.1 =~= r);
            lemma_frames_append(r, b);
            assert(ab.take(n) =~= a.take(n));
            assert(ab.skip(n) =~= r + b);
            assert(frames(ab).0 =~= seq![a.take(n)] + (fr.0 + frames(fr.1 + b).0));
            assert(frames(a).0 + frames(frames(a).1 + b).0 =~= seq![a.take(n)] + (fr.0 + frames(
                fr.1 + b,
            ).0));
        } else {
            assert(frames(a).0 + frames(frames(a).1 + b).0 =~= frames(frames(a).1 + b).0);
        }
    }
}

/// The buffered state of one connection.
pub struct StreamState {
    pub token: Token,
    pub interest: usize,
    pub rx: BytesMut,
    pub tx: BytesMut,
}

impl StreamState {
    /// Bytes received and not yet split into frames.
    pub open spec fn received(&self) -> Seq<u8> {
        bytes_view(self.rx)
    }

    /// Bytes waiting to be written.
    pub open spec fn pending(&self) -> Seq<u8> {
        bytes_view(self.tx)
    }

    /// A fresh connection: empty buffers, and every readiness but
    /// writability of interest.
    pub fn new(token: Token) -> (s: StreamState)
        ensures
            s.token == token,
            ready_contains(s.interest, READABLE),
            !ready_contains(s.interest, WRITABLE),
            s.received() == Seq::<u8>::empty(),
            s.pending() == Seq::<u8>::empty(),
    {
        let all = ready_all();
        let interest = all & !WRITABLE;
        assert(interest & 1 == 1 && interest & 2 != 2) by (bit_vector)
            requires
                all & 1 == 1,
                interest == all & !2usize,
        ;
        StreamState {
            token,
            interest,
            rx: buf_with_capacity(BUFFER_CAPACITY),
            tx: buf_with_capacity(BUFFER_CAPACITY),
        }
    }

    /// Appends bytes read from the socket to the receive buffer.
    pub fn receive(&mut self, chunk: &[u8])
        requires
            old(self).received().len() + chunk@.len() <= max_buffer_len(),
        ensures
            final(self).received() == old(self).received() + chunk@,
            final(self).pending() == old(self).pending(),
            final(self).token == old(self).token,
            final(self).interest == old(self).interest,
    {
        buf_extend(&mut self.rx, chunk);
    }

    /// Takes every whole frame out of the receive buffer, as packets in the
    /// order they arrived, and keeps what is left over.
    pub fn take_packets(&mut self) -> (packets: Vec<Packet>)
        ensures
            packets@.len() == frames(old(self).received()).0.len(),
            forall|i: int|
                0 <= i < packets@.len() ==> #[trigger] packets@[i]@ == packet_of(
                    old(self).token,
                    frames(old(self).received()).0[i],
                ),
            final(self).received() == frames(old(self).received()).1,
            final(self).pending() == old(self).pending(),
            final(self).token == old(self).token,
            final(self).interest == old(self).interest,
    {
        let ghost start = bytes_view(self.rx);
        let ghost mut done: Seq<Seq<u8>> = Seq::empty();
        let ghost token = self.token;
        let ghost tx = bytes_view(self.tx);
        let ghost interest = self.interest;
        let mut packets: Vec<Packet> = Vec::new();
        while buf_len(&self.rx) > 2
            invariant_except_break
                frames(start).0 == done + frames(bytes_view(self.rx)).0,
                frames(start).1 == frames(bytes_view(self.rx)).1,
                packets@.len() == done.len(),
                forall|i: int|
                    0 <= i < packets@.len() ==> #[trigger] packets@[i]@ == packet_of(
                        self.token,
                        done[i],
                    ),
            invariant
                self.token == token,
                self.interest == interest,
                bytes_view(self.tx) == tx,
            ensures
                frames(start).0 == done,
                frames(start).1 == bytes_view(self.rx),
                packets@.len() == done.len(),
                forall|i: int|
                    0 <= i < packets@.len() ==> #[trigger] packets@[i]@ == packet_of(
                        self.token,
                        done[i],
                    ),
            decreases bytes_view(self.rx).len(),
        {
            let ghost cur = bytes_view(self.rx);
            let msg_len = read_be_u16(buf_as_slice(&self.rx)) as usize;
            if msg_len < PACKET_HEADER_LEN {
                buf_clear(&mut self.rx);
                assert(frames(cur) == (Seq::<Seq<u8>>::empty(), Seq::<u8>::empty()));
                assert(frames(bytes_view(self.rx)) == (Seq::<Seq<u8>>::empty(), Seq::<u8>::empty()));
                assert(done + frames(bytes_view(self.rx)).0 =~= done);
            } else if buf_len(&self.rx) - 2 >= msg_len {
                let frame = buf_split_to(&mut self.rx, msg_len);
                let packet = Packet::from_buf(self.token, frame);
                packets.push(packet);
                proof {
                    let rest = frames(cur.skip(msg_len as int));
                    assert(frames(cur).0 == seq![cur.take(msg_len as int)] + rest.0);
                    assert(done + frames(cur).0 =~= done.push(cur.take(msg_len as int)) + rest.0);
                    done = done.push(cur.take(msg_len as int));
                }
            } else {
                assert(frames(cur) == (Seq::<Seq<u8>>::empty(), cur));
                assert(done + frames(cur).0 =~= done);
                break;
            }
        }
        proof {
            if bytes_view(self.rx).len() <= 2 {
                assert(frames(bytes_view(self.rx)).0 =~= Seq::<Seq<u8>>::empty());
                assert(done + frames(bytes_view(self.rx)).0 =~= done);
            }
        }
        packets
    }

    /// The bytes waiting to be written.
    pub fn pending_bytes(&self) -> (s: &[u8])
        ensures
            s@ == self.pending(),
    {
        buf_as_slice(&self.tx)
    }

    /// Records that the first `count` pending bytes were written.  Once
    /// nothing is pending, writability is no longer of interest, and the
    /// result says that the connection must be registered again.
    pub fn written(&mut self, count: usize) -> (reregister: bool)
        requires
            count <= old(self).pending().len(),
        ensures
            final(self).pending() == old(self).pending().skip(count as int),
            reregister == (final(self).pending().len() == 0),
            final(self).interest == (if reregister {
                ready_remove(old(self).interest, WRITABLE)
            } else {
                old(self).interest
            }),
            final(self).received() == old(self).received(),
            final(self).token == old(self).token,
    {
        if buf_len(&self.tx) > 0 {
            buf_advance(&mut self.tx, count);
        } else {
            assert(bytes_view(self.tx).skip(count as int) =~= bytes_view(self.tx));
        }
        if buf_len(&self.tx) == 0 {
            self.interest = self.interest & !WRITABLE;
            true
        } else {
            false
        }
    }

    /// Queues bytes to be written, and makes writability of interest.  The
    /// connection must then be registered again.
    pub fn write(&mut self, buf: BytesMut)
        requires
            old(self).pending().len() + bytes_view(buf).len() <= max_buffer_len(),
        ensures
            final(self).pending() == old(self).pending() + bytes_view(buf),
            final(self).interest == ready_insert(old(self).interest, WRITABLE),
            final(self).received() == old(self).received(),
            final(self).token == old(self).token,
    {
        buf_unsplit(&mut self.tx, buf);
        self.interest = self.interest | WRITABLE;
    }
}

} // verus!
