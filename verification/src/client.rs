//! The client's end of a connection to the daemon: one command out, at most
//! one response back.

use crate::commands::{command_bytes, encode_command, Command};
use crate::error::{ClientError, ProtocolError};
use crate::protocol::{
    absorb, frame, missing, payload_of, too_long_text, Protocol, MAX_PAYLOAD,
};
use vstd::prelude::*;

verus! {

/// A connection to the daemon, seen from the client.
pub struct Client {
    protocol: Protocol,
}

impl Client {
    /// The bytes of the response, as far as they have arrived.
    pub closed spec fn inbound(&self) -> Seq<u8> {
        self.protocol.inbound()
    }

    /// The bytes that wait to be sent.
    pub closed spec fn outbound(&self) -> Seq<u8> {
        self.protocol.outbound()
    }

    /// Connects to the daemon's socket at `socket_path`.
    ///
    /// `exists` says whether anything is at that path. Where nothing is, the
    /// daemon is not running: the call fails with
    /// [`ClientError::SocketNotFound`] and `connect` is not called, so that it
    /// need not even be callable then. Otherwise `connect` makes the
    /// connection, and its failure comes back as
    /// [`ClientError::SocketConnectError`].
    pub fn new<F>(socket_path: &str, exists: bool, connect: F) -> (client: Result<Self, ClientError>)
        where F: FnOnce() -> Result<(), String>
        requires
            exists ==> connect.requires(()),
        ensures
            !exists ==> (client matches Err(ClientError::SocketNotFound(path)) && path@
                == socket_path@),
            exists ==> match client {
                Ok(client) => {
                    &&& connect.ensures((), Ok(()))
                    &&& client.inbound() == Seq::<u8>::empty()
                    &&& client.outbound() == Seq::<u8>::empty()
                },
                Err(error) => {
                    &&& error matches ClientError::SocketConnectError(cause)
                    &&& connect.ensures((), Err(cause))
                },
            },
    {
        if !exists {
            return Err(ClientError::SocketNotFound(socket_path.to_string()));
        }
        let outcome = connect();
        match outcome {
            Ok(done) => {
                assert(outcome == Ok::<(), String>(()));
                Ok(Client { protocol: Protocol::new() })
            },
            Err(cause) => Err(ClientError::SocketConnectError(cause)),
        }
    }

    /// Queues `command` as one frame. A command whose bytes are more than a
    /// frame can carry is refused, and nothing is queued for it.
    pub fn send(&mut self, command: &Command) -> (sent: Result<(), ClientError>)
        ensures
            command_bytes(command@).len() <= MAX_PAYLOAD ==> sent is Ok && final(self).outbound()
                == old(self).outbound() + frame(command_bytes(command@)),
            command_bytes(command@).len() > MAX_PAYLOAD ==> {
                &&& sent matches Err(ClientError::Protocol(ProtocolError::SocketWriteError(cause)))
                &&& cause@ == too_long_text()
                &&& final(self).outbound() == old(self).outbound()
            },
            final(self).inbound() == old(self).inbound(),
    {
        let message = encode_command(command);
        match self.protocol.write_message(message.as_slice()) {
            Ok(done) => Ok(()),
            Err(error) => Err(ClientError::Protocol(error)),
        }
    }

    /// Hands out the bytes that wait to be sent, and leaves none waiting.
    pub fn take_outbound(&mut self) -> (bytes: Vec<u8>)
        ensures
            bytes@ == old(self).outbound(),
            final(self).outbound() == Seq::<u8>::empty(),
            final(self).inbound() == old(self).inbound(),
    {
        self.protocol.take_outbound()
    }

    /// How many more bytes the response needs before it is whole.
    pub fn missing(&self) -> (n: usize)
        ensures
            n == missing(self.inbound()),
    {
        self.protocol.missing()
    }

    /// Takes from the front of `chunk` what belongs to the response, and says
    /// how many bytes that was.
    pub fn receive(&mut self, chunk: &[u8]) -> (taken: usize)
        ensures
            final(self).inbound() == absorb(old(self).inbound(), chunk@),
            final(self).inbound() == old(self).inbound() + chunk@.take(taken as int),
            taken <= chunk@.len(),
            final(self).outbound() == old(self).outbound(),
    {
        self.protocol.receive(chunk)
    }

    /// The response: the payload of the frame that arrived. An empty payload
    /// is a response too; it acknowledges the request and says nothing more.
    /// Where the stream ended before the frame was whole, the read fails.
    pub fn read(&mut self) -> (message: Result<Vec<u8>, ClientError>)
        ensures
            missing(old(self).inbound()) == 0 ==> message is Ok
                && message->Ok_0@ == payload_of(old(self).inbound())
                && final(self).inbound() == Seq::<u8>::empty(),
            missing(old(self).inbound()) != 0 ==> (message matches Err(
                ClientError::Protocol(ProtocolError::SocketReadError(_)),
            )) && final(self).inbound() == old(self).inbound(),
            final(self).outbound() == old(self).outbound(),
    {
        match self.protocol.read_message() {
            Ok(message) => Ok(message),
            Err(error) => Err(ClientError::Protocol(error)),
        }
    }
}

} // verus!
