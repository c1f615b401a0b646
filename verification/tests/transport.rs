use glue::client::Client;
use glue::coffee::DaemonState;
use glue::commands::{encode_command, Coffee, Command, DecodeError};
use glue::configuration::Configuration;
use glue::daemon::dispatch;
use glue::error::{ClientError, ProtocolError, ServerError};
use glue::protocol::Protocol;
use glue::server::{ListenError, Server};
use glue::wayland::RegistryEvent;
use std::cell::Cell;

fn status_json(inhibited: bool) -> Vec<u8> {
    let mut object = serde_json::Map::new();
    object.insert("inhibited".to_string(), serde_json::Value::Bool(inhibited));
    serde_json::to_vec(&serde_json::Value::Object(object)).unwrap()
}

fn inhibited_of(payload: &[u8]) -> bool {
    let value: serde_json::Value = serde_json::from_slice(payload).unwrap();
    value.get("inhibited").unwrap().as_bool().unwrap()
}

fn ready_state() -> DaemonState {
    let mut state = DaemonState::new(&Configuration::default());
    state.registry_event(&RegistryEvent::Global {
        name: 1,
        interface: "wl_compositor".to_string(),
        version: 4,
    });
    state.registry_event(&RegistryEvent::Global {
        name: 2,
        interface: "zwp_idle_inhibit_manager_v1".to_string(),
        version: 1,
    });
    state
}

fn exchange(state: &mut DaemonState, command: Command, wire_calls: &Cell<usize>) -> Vec<u8> {
    let config = Configuration::default();
    let server = Server::new("/tmp/glue.sock", || Ok(())).unwrap();
    let mut client = Client::new("/tmp/glue.sock", true, || Ok(())).unwrap();
    assert_eq!(client.send(&command), Ok(()));
    let request = client.take_outbound();

    let mut connection = Protocol::new();
    for piece in request.chunks(3) {
        assert_eq!(connection.receive(piece), piece.len());
    }
    let served = server.listen(&mut connection, |command| {
        let reply = dispatch(command, state, &config, |_| {
            wire_calls.set(wire_calls.get() + 1);
            Ok(())
        });
        Some(status_json(reply.status.inhibited))
    });
    assert_eq!(served, Ok(()));
    let response = connection.take_outbound();

    let mut offset = 0;
    while client.missing() > 0 {
        let end = response.len().min(offset + 5);
        let taken = client.receive(&response[offset..end]);
        assert!(taken > 0);
        offset += taken;
    }
    assert_eq!(offset, response.len());
    client.read().unwrap()
}

#[test]
fn drink_then_get_over_the_wire() {
    let mut state = ready_state();
    let wire_calls = Cell::new(0);
    let answer = exchange(&mut state, Command::Coffee(Coffee::Drink), &wire_calls);
    assert_eq!(answer, b"{\"inhibited\":true}".to_vec());
    assert!(inhibited_of(&answer));
    assert_eq!(wire_calls.get(), 1);
    let answer = exchange(&mut state, Command::Coffee(Coffee::Get), &wire_calls);
    assert!(inhibited_of(&answer));
    assert_eq!(wire_calls.get(), 1);
}

#[test]
fn missing_socket_is_not_found() {
    let called = Cell::new(false);
    let client = Client::new("/tmp/no-such.sock", false, || {
        called.set(true);
        Ok(())
    });
    assert!(matches!(client, Err(ClientError::SocketNotFound(path)) if path == "/tmp/no-such.sock"));
    assert!(!called.get());
}

#[test]
fn refused_connection_is_a_connect_error() {
    let client = Client::new("/tmp/glue.sock", true, || Err("connection refused".to_string()));
    assert!(
        matches!(client, Err(ClientError::SocketConnectError(cause)) if cause == "connection refused")
    );
}

#[test]
fn client_frames_the_command() {
    let mut client = Client::new("/tmp/glue.sock", true, || Ok(())).unwrap();
    assert_eq!(client.send(&Command::Coffee(Coffee::Relax)), Ok(()));
    assert_eq!(client.take_outbound(), vec![0, 0, 0, 8, 0, 0, 0, 0, 1, 0, 0, 0]);
    assert_eq!(client.take_outbound(), Vec::<u8>::new());
}

#[test]
fn empty_response_is_an_acknowledgement() {
    let mut client = Client::new("/tmp/glue.sock", true, || Ok(())).unwrap();
    assert_eq!(client.receive(&[0, 0, 0, 0]), 4);
    assert_eq!(client.read(), Ok(Vec::new()));
}

#[test]
fn response_cut_short_is_a_protocol_error() {
    let mut client = Client::new("/tmp/glue.sock", true, || Ok(())).unwrap();
    client.receive(&[0, 0, 0, 5, 1, 2]);
    assert!(matches!(
        client.read(),
        Err(ClientError::Protocol(ProtocolError::SocketReadError(_)))
    ));
}

#[test]
fn bind_failure_names_the_path() {
    let server = Server::new("/run/glue.sock", || Err("permission denied".to_string()));
    assert!(matches!(
        server,
        Err(ServerError::SocketCreationError(path, cause))
            if path == "/run/glue.sock" && cause == "permission denied"
    ));
}

#[test]
fn malformed_request_is_dropped_without_calling_the_handler() {
    let server = Server::new("/tmp/glue.sock", || Ok(())).unwrap();
    let called = Cell::new(false);
    let mut connection = Protocol::new();
    connection.receive(&[0, 0, 0, 4, 9, 0, 0, 0]);
    let served = server.listen(&mut connection, |_| {
        called.set(true);
        None
    });
    assert_eq!(served, Err(ListenError::Decode(DecodeError::UnknownVariant)));
    assert!(!called.get());
    assert_eq!(connection.take_outbound(), Vec::<u8>::new());
}

#[test]
fn truncated_request_is_dropped_without_calling_the_handler() {
    let server = Server::new("/tmp/glue.sock", || Ok(())).unwrap();
    let called = Cell::new(false);
    let mut connection = Protocol::new();
    let bytes = encode_command(&Command::Coffee(Coffee::Get));
    connection.receive(&[0, 0, 0, 8]);
    connection.receive(&bytes[..5]);
    let served = server.listen(&mut connection, |_| {
        called.set(true);
        None
    });
    assert!(matches!(served, Err(ListenError::Read(ProtocolError::SocketReadError(_)))));
    assert!(!called.get());
}

#[test]
fn handler_may_answer_nothing() {
    let server = Server::new("/tmp/glue.sock", || Ok(())).unwrap();
    let mut connection = Protocol::new();
    let framed = {
        let mut protocol = Protocol::new();
        protocol.write_message(&encode_command(&Command::Coffee(Coffee::Get))).unwrap();
        protocol.take_outbound()
    };
    connection.receive(&framed);
    let seen = Cell::new(None);
    let served = server.listen(&mut connection, |command| {
        seen.set(Some(command == Command::Coffee(Coffee::Get)));
        None
    });
    assert_eq!(served, Ok(()));
    assert_eq!(seen.get(), Some(true));
    assert_eq!(connection.take_outbound(), Vec::<u8>::new());
}
