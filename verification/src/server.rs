//! The server's end: what it does with each connection that it accepted.

use crate::commands::{decode_command, parse_command, Command, CommandView, DecodeError};
use crate::error::{ProtocolError, ServerError};
use crate::protocol::{frame, missing, payload_of, too_long_text, Protocol, MAX_PAYLOAD};
use vstd::prelude::*;

verus! {

/// Why a connection was dropped without an answer.
#[derive(Debug, PartialEq, Eq)]
pub enum ListenError {
    /// The request did not arrive whole.
    Read(ProtocolError),
    /// The request is no command.
    Decode(DecodeError),
    /// The response could not be queued.
    Write(ProtocolError),
}

/// The daemon's socket.
pub struct Server {
    socket_path: String,
}

impl Server {
    /// The path of the socket.
    pub closed spec fn path(&self) -> Seq<char> {
        self.socket_path@
    }

    /// Sets up the socket at `socket_path`. `bind` removes what an earlier
    /// run left at the path and binds the socket; its failure comes back with
    /// the path beside it.
    pub fn new<F>(socket_path: &str, bind: F) -> (server: Result<Self, ServerError>)
        where F: FnOnce() -> Result<(), String>
        requires
            bind.requires(()),
        ensures
            match server {
                Ok(server) => bind.ensures((), Ok(())) && server.path() == socket_path@,
                Err(ServerError::SocketCreationError(path, cause)) => path@ == socket_path@
                    && bind.ensures((), Err(cause)),
            },
    {
        let outcome = bind();
        match outcome {
            Ok(done) => {
                assert(outcome == Ok::<(), String>(()));
                Ok(Server { socket_path: socket_path.to_string() })
            },
            Err(cause) => Err(ServerError::SocketCreationError(socket_path.to_string(), cause)),
        }
    }

    /// Serves one connection on which the client's bytes have arrived.
    ///
    /// The request is read as one frame and decoded as a command. A request
    /// that is not whole, or is no command, drops the connection: `handler`
    /// is not called, nothing is written, and the error says why. Otherwise
    /// `handler` is called once with the command, and the response that it
    /// gives, if any, is queued as one frame. A response that is longer than
    /// a frame can carry is not queued, and the error says so.
    ///
    /// The handler needs to accept only the command that the request decodes
    /// to: for any other request it is not called.
    pub fn listen<H>(&self, connection: &mut Protocol, handler: H) -> (served: Result<
        (),
        ListenError,
    >)
        where H: FnOnce(Command) -> Option<Vec<u8>>
        requires
            missing(old(connection).inbound()) == 0 ==> forall|command: Command|
                parse_command(payload_of(old(connection).inbound())) == Ok::<
                    CommandView,
                    DecodeError,
                >(command@) ==> handler.requires((command,)),
        ensures
            missing(old(connection).inbound()) != 0 ==> {
                &&& served matches Err(ListenError::Read(ProtocolError::SocketReadError(_)))
                &&& final(connection).inbound() == old(connection).inbound()
                &&& final(connection).outbound() == old(connection).outbound()
            },
            missing(old(connection).inbound()) == 0 ==> {
                &&& final(connection).inbound() == Seq::<u8>::empty()
                &&& match parse_command(payload_of(old(connection).inbound())) {
                    Err(error) => {
                        &&& served == Err::<(), ListenError>(ListenError::Decode(error))
                        &&& final(connection).outbound() == old(connection).outbound()
                    },
                    Ok(request) => exists|command: Command, response: Option<Vec<u8>>|
                        {
                            &&& command@ == request
                            &&& handler.ensures((command,), response)
                            &&& answered(
                                old(connection).outbound(),
                                final(connection).outbound(),
                                response,
                                served,
                            )
                        },
                }
            },
    {
        let message = match connection.read_message() {
            Ok(message) => message,
            Err(error) => { return Err(ListenError::Read(error)); },
        };
        let command = match decode_command(message.as_slice()) {
            Ok(command) => command,
            Err(error) => { return Err(ListenError::Decode(error)); },
        };
        let ghost asked = command;
        let response = handler(command);
        let served = match &response {
            Some(payload) => match connection.write_message(payload.as_slice()) {
                Ok(done) => Ok(()),
                Err(error) => Err(ListenError::Write(error)),
            },
            None => {
                assert(connection.outbound() =~= old(connection).outbound() + response_bytes(
                    response,
                ));
                Ok(())
            },
        };
        assert(asked@ == parse_command(payload_of(old(connection).inbound()))->Ok_0);
        assert(handler.ensures((asked,), response));
        assert(answered(old(connection).outbound(), connection.outbound(), response, served));
        served
    }
}

/// The bytes that answer a request: one frame for a response, nothing where
/// the handler gave none.
pub open spec fn response_bytes(response: Option<Vec<u8>>) -> Seq<u8> {
    match response {
        Some(payload) => frame(payload@),
        None => Seq::empty(),
    }
}

/// Whether a response is longer than a frame can carry.
pub open spec fn response_too_long(response: Option<Vec<u8>>) -> bool {
    response matches Some(payload) && payload@.len() > MAX_PAYLOAD
}

/// What holds of the answer to a request that was handled: the response is
/// queued as one frame and the connection was served, or the response is too
/// long, nothing is queued, and the error says so.
pub open spec fn answered(
    before: Seq<u8>,
    after: Seq<u8>,
    response: Option<Vec<u8>>,
    served: Result<(), ListenError>,
) -> bool {
    if response_too_long(response) {
        &&& served matches Err(ListenError::Write(ProtocolError::SocketWriteError(cause)))
        &&& cause@ == too_long_text()
        &&& after == before
    } else {
        &&& served is Ok
        &&& after == before + response_bytes(response)
    }
}

} // verus!
