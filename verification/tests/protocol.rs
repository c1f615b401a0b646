use byteorder::{BigEndian, ByteOrder};
use glue::error::ProtocolError;
use glue::protocol::Protocol;

fn framed(payload: &[u8]) -> Vec<u8> {
    let mut protocol = Protocol::new();
    assert_eq!(protocol.write_message(payload), Ok(()));
    protocol.take_outbound()
}

fn read_in_chunks(bytes: &[u8], chunk: usize) -> Result<Vec<u8>, ProtocolError> {
    let mut protocol = Protocol::new();
    for piece in bytes.chunks(chunk) {
        let taken = protocol.receive(piece);
        assert_eq!(taken, piece.len());
    }
    protocol.read_message()
}

#[test]
fn frame_has_big_endian_prefix() {
    assert_eq!(framed(b"hi"), vec![0, 0, 0, 2, b'h', b'i']);
    let long = vec![7u8; 0x0102_03];
    let bytes = framed(&long);
    assert_eq!(&bytes[..4], &[0x00, 0x01, 0x02, 0x03]);
    assert_eq!(bytes.len(), 4 + long.len());
    assert_eq!(BigEndian::read_u32(&bytes[..4]) as usize, long.len());
}

#[test]
fn empty_payload_is_a_frame() {
    assert_eq!(framed(b""), vec![0, 0, 0, 0]);
    assert_eq!(read_in_chunks(&[0, 0, 0, 0], 1), Ok(Vec::new()));
}

#[test]
fn frame_survives_every_split() {
    let payload: Vec<u8> = (0..=40u8).collect();
    let bytes = framed(&payload);
    for chunk in 1..=bytes.len() {
        assert_eq!(read_in_chunks(&bytes, chunk), Ok(payload.clone()));
    }
}

#[test]
fn frames_queue_one_after_the_other() {
    let mut protocol = Protocol::new();
    assert_eq!(protocol.write_message(b"a"), Ok(()));
    assert_eq!(protocol.write_message(b"bc"), Ok(()));
    assert_eq!(protocol.take_outbound(), vec![0, 0, 0, 1, b'a', 0, 0, 0, 2, b'b', b'c']);
    assert_eq!(protocol.take_outbound(), Vec::<u8>::new());
}

#[test]
fn reader_asks_for_prefix_then_payload() {
    let mut protocol = Protocol::new();
    assert_eq!(protocol.missing(), 4);
    assert_eq!(protocol.declared(), None);
    assert_eq!(protocol.receive(&[0, 0]), 2);
    assert_eq!(protocol.missing(), 2);
    assert_eq!(protocol.receive(&[1, 2]), 2);
    assert_eq!(protocol.declared(), Some(0x0102));
    assert_eq!(protocol.missing(), 0x0102);
}

#[test]
fn reader_stops_at_the_end_of_the_frame() {
    let mut protocol = Protocol::new();
    let taken = protocol.receive(&[0, 0, 0, 2, 9, 8, 7, 6]);
    assert_eq!(taken, 6);
    assert_eq!(protocol.missing(), 0);
    assert_eq!(protocol.receive(&[5]), 0);
    assert_eq!(protocol.read_message(), Ok(vec![9, 8]));
    assert_eq!(protocol.missing(), 4);
}

#[test]
fn truncated_frame_is_a_read_error() {
    let mut protocol = Protocol::new();
    assert!(matches!(protocol.read_message(), Err(ProtocolError::SocketReadError(_))));
    protocol.receive(&[0, 0]);
    assert!(matches!(protocol.read_message(), Err(ProtocolError::SocketReadError(_))));
    protocol.receive(&[0, 3, 1, 2]);
    assert!(matches!(protocol.read_message(), Err(ProtocolError::SocketReadError(_))));
    assert_eq!(protocol.missing(), 1);
    protocol.receive(&[3]);
    assert_eq!(protocol.read_message(), Ok(vec![1, 2, 3]));
}
