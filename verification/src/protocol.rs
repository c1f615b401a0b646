//! Length-prefixed frames: a four-byte big-endian length, then that many bytes
//! of payload.
//!
//! [`Protocol`] is one end of a connection as far as framing goes. It never
//! touches a socket: the caller hands it the bytes that arrived, in whatever
//! pieces they arrived, and sends the bytes that it queued.

use crate::error::ProtocolError;
use byteorder::{BigEndian, ReadBytesExt, WriteBytesExt};
use vstd::prelude::*;
use vstd::slice::{slice_subrange, slice_to_vec};

verus! {

/// The four bytes of `n`, most significant first.
pub open spec fn be_bytes(n: u32) -> Seq<u8> {
    seq![
        (n / 0x100_0000) as u8,
        ((n / 0x1_0000) % 0x100) as u8,
        ((n / 0x100) % 0x100) as u8,
        (n % 0x100) as u8,
    ]
}

/// The number that the first four bytes of `bytes` spell, most significant
/// first.
pub open spec fn be_value(bytes: Seq<u8>) -> int
    recommends
        bytes.len() >= 4,
{
    bytes[0] * 0x100_0000 + bytes[1] * 0x1_0000 + bytes[2] * 0x100 + bytes[3]
}

/// The longest payload that a frame can carry: the largest length that its
/// four-byte prefix can declare.
pub const MAX_PAYLOAD: u32 = u32::MAX;

/// The bytes of the frame that carries `payload`: its length, then the
/// payload. Only a payload whose length the prefix can hold has a frame.
pub open spec fn frame(payload: Seq<u8>) -> Seq<u8>
    recommends
        payload.len() <= MAX_PAYLOAD,
{
    be_bytes(payload.len() as u32) + payload
}

/// What a write says of a message that is longer than a frame can carry.
pub open spec fn too_long_text() -> Seq<char> {
    "message is longer than a frame can carry"@
}

/// How many bytes a reader still needs after `received` before the frame it is
/// reading is whole: the rest of the prefix first, then the rest of the
/// payload. Zero when the frame is whole.
pub open spec fn missing(received: Seq<u8>) -> int {
    if received.len() < 4 {
        4 - received.len()
    } else if received.len() < 4 + be_value(received) {
        4 + be_value(received) - received.len()
    } else {
        0
    }
}

/// The payload of the frame at the front of `received`, once it is whole.
pub open spec fn payload_of(received: Seq<u8>) -> Seq<u8>
    recommends
        missing(received) == 0,
{
    received.subrange(4, 4 + be_value(received))
}

/// What a reader holds after `chunk` arrived: all of it, or, where the frame
/// ends inside the chunk, the bytes up to the frame's end. A reader whose
/// frame is whole takes nothing.
pub open spec fn absorb(received: Seq<u8>, chunk: Seq<u8>) -> Seq<u8> {
    let all = received + chunk;
    if missing(received) == 0 {
        received
    } else if all.len() >= 4 && all.len() >= 4 + be_value(all) {
        all.take(4 + be_value(all))
    } else {
        all
    }
}

/// What a reader holds after the chunks arrived one after the other.
pub open spec fn absorb_all(received: Seq<u8>, chunks: Seq<Seq<u8>>) -> Seq<u8>
    decreases chunks.len(),
{
    if chunks.len() == 0 {
        received
    } else {
        absorb_all(absorb(received, chunks[0]), chunks.drop_first())
    }
}

/// Reading back the bytes of a number gives the number.
pub proof fn lemma_be_value_of_bytes(n: u32)
    ensures
        be_bytes(n).len() == 4,
        be_value(be_bytes(n)) == n,
{
}

/// Whatever the bytes, the number they spell fits in 32 bits.
pub proof fn lemma_be_value_bounds(bytes: Seq<u8>)
    ensures
        0 <= be_value(bytes) <= u32::MAX,
{
}

/// A frame is whole, and its payload is what was framed.
pub proof fn lemma_frame_is_whole(payload: Seq<u8>)
    requires
        payload.len() <= MAX_PAYLOAD,
    ensures
        frame(payload).len() == 4 + payload.len(),
        be_value(frame(payload)) == payload.len(),
        missing(frame(payload)) == 0,
        payload_of(frame(payload)) == payload,
{
    let n = payload.len() as u32;
    assert(n == payload.len());
    lemma_be_value_of_bytes(n);
    let f = frame(payload);
    assert(f[0] == be_bytes(n)[0] && f[1] == be_bytes(n)[1] && f[2] == be_bytes(n)[2] && f[3]
        == be_bytes(n)[3]);
    assert(be_value(f) == be_value(be_bytes(n)));
    assert(payload_of(f) =~= payload);
}

/// No part of a frame that stops short of its end is whole: a reader never
/// takes a payload before the declared length has arrived in full.
pub proof fn lemma_part_of_frame_is_not_whole(payload: Seq<u8>, k: int)
    requires
        payload.len() <= MAX_PAYLOAD,
        0 <= k < 4 + payload.len(),
    ensures
        missing(frame(payload).take(k)) == (if k < 4 {
            4 - k
        } else {
            4 + payload.len() - k
        }),
        missing(frame(payload).take(k)) > 0,
{
    lemma_frame_is_whole(payload);
    let f = frame(payload);
    let part = f.take(k);
    if k >= 4 {
        assert(part[0] == f[0] && part[1] == f[1] && part[2] == f[2] && part[3] == f[3]);
        assert(be_value(part) == be_value(f));
    }
}

/// Frame integrity: however the stream is cut into chunks, and whatever
/// follows the frame on it, a reader that starts empty and is given the chunks
/// in order ends up with exactly the frame, and the payload it reads from it
/// is the payload that was written.
pub proof fn lemma_frame_survives_any_split(
    payload: Seq<u8>,
    tail: Seq<u8>,
    chunks: Seq<Seq<u8>>,
)
    requires
        payload.len() <= MAX_PAYLOAD,
        chunks.flatten() == frame(payload) + tail,
    ensures
        absorb_all(Seq::<u8>::empty(), chunks) == frame(payload),
        missing(absorb_all(Seq::<u8>::empty(), chunks)) == 0,
        payload_of(absorb_all(Seq::<u8>::empty(), chunks)) == payload,
{
    lemma_frame_is_whole(payload);
    assert(Seq::<u8>::empty() + chunks.flatten() =~= frame(payload) + tail);
    lemma_absorb_all_reaches_frame(payload, tail, Seq::<u8>::empty(), chunks);
}

proof fn lemma_absorb_all_reaches_frame(
    payload: Seq<u8>,
    tail: Seq<u8>,
    received: Seq<u8>,
    chunks: Seq<Seq<u8>>,
)
    requires
        payload.len() <= MAX_PAYLOAD,
        received == frame(payload) || (received.len() < 4 + payload.len() && received
            + chunks.flatten() == frame(payload) + tail),
    ensures
        absorb_all(received, chunks) == frame(payload),
    decreases chunks.len(),
{
    lemma_frame_is_whole(payload);
    let f = frame(payload);
    let stream = f + tail;
    let total = 4 + payload.len();
    if chunks.len() == 0 {
        if received != f {
            assert(chunks.flatten() =~= Seq::<u8>::empty());
            assert(received + chunks.flatten() =~= received);
            assert(stream.len() >= total);
        }
    } else {
        let chunk = chunks[0];
        let rest = chunks.drop_first();
        let next = absorb(received, chunk);
        if received == f {
            assert(next == f);
        } else {
            let all = received + chunk;
            assert(chunks.flatten() =~= chunk + rest.flatten());
            assert(all + rest.flatten() =~= stream);
            assert(received =~= f.take(received.len() as int)) by {
                assert(received =~= stream.take(received.len() as int));
            }
            lemma_part_of_frame_is_not_whole(payload, received.len() as int);
            if all.len() >= 4 {
                assert(all[0] == stream[0] && all[1] == stream[1] && all[2] == stream[2]
                    && all[3] == stream[3]);
                assert(stream[0] == f[0] && stream[1] == f[1] && stream[2] == f[2] && stream[3]
                    == f[3]);
                assert(be_value(all) == be_value(f));
            }
            if all.len() >= 4 && all.len() >= total {
                assert(all.take(total as int) =~= f) by {
                    assert(all.take(total as int) =~= stream.take(total as int));
                }
                assert(next == f);
            } else {
                assert(next == all);
            }
        }
        lemma_absorb_all_reaches_frame(payload, tail, next, rest);
    }
}

/// Appends the big-endian bytes of `n` to `out`, through
/// `byteorder::WriteBytesExt::write_u32::<BigEndian>` on a `Vec<u8>`. The
/// contract claims that exactly the four bytes of `n` are added, most
/// significant first, and that nothing else in `out` changes.
#[verifier::external_body]
fn put_u32(out: &mut Vec<u8>, n: u32)
    ensures
        final(out)@ == old(out)@ + be_bytes(n),
{
    let _ = out.write_u32::<BigEndian>(n);
}

/// Reads a big-endian `u32` from the front of `bytes`, through
/// `byteorder::ReadBytesExt::read_u32::<BigEndian>` on a byte slice. The
/// contract claims that the call fails exactly when fewer than four bytes are
/// there, and otherwise gives the number that the first four bytes spell.
#[verifier::external_body]
fn get_u32(bytes: &[u8]) -> (n: Option<u32>)
    ensures
        bytes@.len() < 4 ==> n is None,
        bytes@.len() >= 4 ==> n == Some(be_value(bytes@) as u32),
{
    let mut reader = bytes;
    reader.read_u32::<BigEndian>().ok()
}

/// One end of a connection, as far as framing goes.
pub struct Protocol {
    /// The bytes of the frame that is being read, as far as they have arrived.
    inbound: Vec<u8>,
    /// The frames that were written and not yet handed out for sending.
    outbound: Vec<u8>,
}

impl Protocol {
    /// The bytes of the frame that is being read, as far as they have arrived.
    pub closed spec fn inbound(&self) -> Seq<u8> {
        self.inbound@
    }

    /// The bytes that wait to be sent.
    pub closed spec fn outbound(&self) -> Seq<u8> {
        self.outbound@
    }

    /// A connection on which nothing has arrived and nothing waits.
    pub fn new() -> (protocol: Self)
        ensures
            protocol.inbound() == Seq::<u8>::empty(),
            protocol.outbound() == Seq::<u8>::empty(),
    {
        Protocol { inbound: Vec::new(), outbound: Vec::new() }
    }

    /// Queues the frame that carries `message` behind what already waits. A
    /// message that is longer than a frame can carry is refused, and nothing
    /// is queued for it: no frame is ever written whose prefix differs from
    /// the length of its payload.
    pub fn write_message(&mut self, message: &[u8]) -> (written: Result<(), ProtocolError>)
        ensures
            message@.len() <= MAX_PAYLOAD ==> written is Ok && final(self).outbound() == old(
                self,
            ).outbound() + frame(message@),
            message@.len() > MAX_PAYLOAD ==> {
                &&& written matches Err(ProtocolError::SocketWriteError(cause))
                &&& cause@ == too_long_text()
                &&& final(self).outbound() == old(self).outbound()
            },
            final(self).inbound() == old(self).inbound(),
    {
        if message.len() > MAX_PAYLOAD as usize {
            return Err(
                ProtocolError::SocketWriteError(
                    "message is longer than a frame can carry".to_string(),
                ),
            );
        }
        let prefix: u32 = message.len() as u32;
        put_u32(&mut self.outbound, prefix);
        self.outbound.extend_from_slice(message);
        assert(self.outbound@ =~= old(self).outbound@ + frame(message@));
        Ok(())
    }

    /// Hands out the bytes that wait to be sent, and leaves none waiting. The
    /// caller writes them to the socket in one piece and flushes.
    pub fn take_outbound(&mut self) -> (bytes: Vec<u8>)
        ensures
            bytes@ == old(self).outbound(),
            final(self).outbound() == Seq::<u8>::empty(),
            final(self).inbound() == old(self).inbound(),
    {
        let mut bytes: Vec<u8> = Vec::new();
        std::mem::swap(&mut bytes, &mut self.outbound);
        bytes
    }

    /// How many more bytes the frame that is being read needs. The caller
    /// reads at most that many from the socket, so that it never takes bytes
    /// that belong to what follows the frame.
    pub fn missing(&self) -> (n: usize)
        ensures
            n == missing(self.inbound()),
    {
        let have: usize = self.inbound.len();
        if have < 4 {
            return 4 - have;
        }
        match get_u32(self.inbound.as_slice()) {
            Some(declared) => {
                let total: u64 = 4 + declared as u64;
                if (have as u64) < total {
                    (total - have as u64) as usize
                } else {
                    0
                }
            },
            None => 0,
        }
    }

    /// The length that the prefix declares, once the prefix is there. A caller
    /// that wants a ceiling on frames tests it before it reads on.
    pub fn declared(&self) -> (len: Option<u32>)
        ensures
            self.inbound().len() < 4 ==> len is None,
            self.inbound().len() >= 4 ==> len == Some(be_value(self.inbound()) as u32),
    {
        get_u32(self.inbound.as_slice())
    }

    /// Takes from the front of `chunk` what belongs to the frame that is being
    /// read, and says how many bytes that was.
    pub fn receive(&mut self, chunk: &[u8]) -> (taken: usize)
        ensures
            final(self).inbound() == absorb(old(self).inbound(), chunk@),
            final(self).inbound() == old(self).inbound() + chunk@.take(taken as int),
            taken <= chunk@.len(),
            final(self).outbound() == old(self).outbound(),
    {
        let ghost before = self.inbound@;
        let ghost all = before + chunk@;
        let need: usize = self.missing();
        let first: usize = if need < chunk.len() { need } else { chunk.len() };
        self.inbound.extend_from_slice(slice_subrange(chunk, 0, first));
        assert(self.inbound@ =~= before + chunk@.take(first as int));
        assert(self.inbound@ =~= all.take(before.len() + first));
        let more: usize = self.missing();
        let rest: usize = chunk.len() - first;
        let second: usize = if more < rest { more } else { rest };
        self.inbound.extend_from_slice(slice_subrange(chunk, first, first + second));
        assert(self.inbound@ =~= before + chunk@.take(first + second));
        assert(self.inbound@ =~= all.take(before.len() + first + second));
        assert(all.take(all.len() as int) =~= all);
        assert(self.inbound@ =~= absorb(before, chunk@));
        first + second
    }

    /// Ends the read of one frame: its payload if the frame is whole, and the
    /// reader is then ready for the next frame. If the stream ended before
    /// that, the read fails and the reader keeps what it has.
    pub fn read_message(&mut self) -> (message: Result<Vec<u8>, ProtocolError>)
        ensures
            missing(old(self).inbound()) == 0 ==> message is Ok
                && message->Ok_0@ == payload_of(old(self).inbound())
                && final(self).inbound() == Seq::<u8>::empty(),
            missing(old(self).inbound()) != 0 ==> message is Err
                && message->Err_0 is SocketReadError
                && final(self).inbound() == old(self).inbound(),
            final(self).outbound() == old(self).outbound(),
    {
        if self.missing() != 0 {
            return Err(ProtocolError::SocketReadError(end_of_stream_text()));
        }
        let declared: u32 = match get_u32(self.inbound.as_slice()) {
            Some(n) => n,
            None => 0,
        };
        let have: usize = self.inbound.len();
        proof {
            lemma_be_value_bounds(self.inbound@);
            assert(have >= 4 + be_value(self.inbound@));
        }
        let end: usize = 4 + declared as usize;
        let payload = slice_to_vec(slice_subrange(self.inbound.as_slice(), 4, end));
        self.inbound = Vec::new();
        Ok(payload)
    }
}

/// What a failed read says when the stream ended inside a frame.
pub fn end_of_stream_text() -> (text: String)
    ensures
        text@ == "failed to fill whole buffer"@,
{
    "failed to fill whole buffer".to_string()
}

} // verus!
