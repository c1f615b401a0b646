use glue::commands::{decode_command, encode_command, Coffee, Command, DecodeError, Notification};

fn all_commands() -> Vec<Command> {
    vec![
        Command::Coffee(Coffee::Drink),
        Command::Coffee(Coffee::Relax),
        Command::Coffee(Coffee::Toggle),
        Command::Coffee(Coffee::Get),
        Command::Notification(Notification::Test(String::new())),
        Command::Notification(Notification::Test("hello".to_string())),
        Command::Notification(Notification::Test("gr\u{fc}\u{df}e \u{2615}".to_string())),
    ]
}

#[test]
fn command_round_trip() {
    for command in all_commands() {
        let bytes = encode_command(&command);
        assert_eq!(decode_command(&bytes), Ok(command));
    }
}

#[test]
fn command_round_trip_ignores_what_follows() {
    for command in all_commands() {
        let mut bytes = encode_command(&command);
        bytes.extend_from_slice(&[0xff, 0x00, 0x7f]);
        assert_eq!(decode_command(&bytes), Ok(command));
    }
}

#[test]
fn coffee_bytes_are_two_indices() {
    assert_eq!(encode_command(&Command::Coffee(Coffee::Drink)), vec![0, 0, 0, 0, 0, 0, 0, 0]);
    assert_eq!(encode_command(&Command::Coffee(Coffee::Relax)), vec![0, 0, 0, 0, 1, 0, 0, 0]);
    assert_eq!(encode_command(&Command::Coffee(Coffee::Toggle)), vec![0, 0, 0, 0, 2, 0, 0, 0]);
    assert_eq!(encode_command(&Command::Coffee(Coffee::Get)), vec![0, 0, 0, 0, 3, 0, 0, 0]);
}

#[test]
fn notification_bytes_carry_length_and_text() {
    let command = Command::Notification(Notification::Test("hi".to_string()));
    assert_eq!(
        encode_command(&command),
        vec![1, 0, 0, 0, 0, 0, 0, 0, 2, 0, 0, 0, 0, 0, 0, 0, b'h', b'i']
    );
}

#[test]
fn encoding_is_what_bincode_gives_for_the_parts() {
    assert_eq!(
        encode_command(&Command::Coffee(Coffee::Toggle)),
        bincode::serialize(&(0u32, 2u32)).unwrap()
    );
    assert_eq!(
        encode_command(&Command::Notification(Notification::Test("caf\u{e9}".to_string()))),
        bincode::serialize(&(1u32, 0u32, "caf\u{e9}")).unwrap()
    );
}

#[test]
fn decoding_reads_what_bincode_wrote() {
    let bytes = bincode::serialize(&(1u32, 0u32, "wake up")).unwrap();
    assert_eq!(
        decode_command(&bytes),
        Ok(Command::Notification(Notification::Test("wake up".to_string())))
    );
    let bytes = bincode::serialize(&(0u32, 3u32)).unwrap();
    assert_eq!(decode_command(&bytes), Ok(Command::Coffee(Coffee::Get)));
}

#[test]
fn short_input_is_truncated() {
    assert_eq!(decode_command(&[]), Err(DecodeError::Truncated));
    assert_eq!(decode_command(&[0, 0, 0]), Err(DecodeError::Truncated));
    assert_eq!(decode_command(&[0, 0, 0, 0, 1, 0]), Err(DecodeError::Truncated));
    assert_eq!(decode_command(&[1, 0, 0, 0, 0, 0, 0, 0]), Err(DecodeError::Truncated));
    assert_eq!(
        decode_command(&[1, 0, 0, 0, 0, 0, 0, 0, 3, 0, 0, 0, 0, 0, 0, 0, b'a', b'b']),
        Err(DecodeError::Truncated)
    );
    assert_eq!(
        decode_command(&[1, 0, 0, 0, 0, 0, 0, 0, 0xff, 0xff, 0xff, 0xff, 0xff, 0xff, 0xff, 0xff]),
        Err(DecodeError::Truncated)
    );
}

#[test]
fn unknown_index_is_rejected() {
    assert_eq!(decode_command(&[2, 0, 0, 0]), Err(DecodeError::UnknownVariant));
    assert_eq!(decode_command(&[2, 0, 0, 0, 0, 0, 0, 0]), Err(DecodeError::UnknownVariant));
    assert_eq!(decode_command(&[0, 1, 0, 0, 0, 0, 0, 0]), Err(DecodeError::UnknownVariant));
    assert_eq!(decode_command(&[0, 0, 0, 0, 4, 0, 0, 0]), Err(DecodeError::UnknownVariant));
    assert_eq!(decode_command(&[0, 0, 0, 0, 0, 0, 0, 1]), Err(DecodeError::UnknownVariant));
    assert_eq!(decode_command(&[1, 0, 0, 0, 1, 0, 0, 0]), Err(DecodeError::UnknownVariant));
}

#[test]
fn text_that_is_not_utf8_is_rejected() {
    assert_eq!(
        decode_command(&[1, 0, 0, 0, 0, 0, 0, 0, 2, 0, 0, 0, 0, 0, 0, 0, 0xc3, 0x28]),
        Err(DecodeError::InvalidText)
    );
}
