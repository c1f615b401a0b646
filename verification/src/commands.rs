//! The requests that a client sends to the daemon, and their bytes on the
//! wire.
//!
//! A command travels as a variant index of four little-endian bytes, then the
//! index of the inner variant in the same form, then, for a text, its length
//! in bytes as eight little-endian bytes and the text itself in UTF-8.

use vstd::prelude::*;
use vstd::slice::slice_subrange;
use vstd::utf8::{
    decode_utf8, encode_utf8, encode_utf8_decode_utf8, encode_utf8_valid_utf8, valid_utf8,
};

verus! {

/// What a client can ask of the idle inhibitor.
#[derive(Debug, Clone, Copy, PartialEq, Eq, Structural)]
pub enum Coffee {
    /// Keep the system awake.
    Drink,
    /// Let the system idle again.
    Relax,
    /// Switch to the other state.
    Toggle,
    /// Report the state and change nothing.
    Get,
}

/// Requests that only show a desktop notification.
#[derive(Debug, PartialEq, Eq)]
pub enum Notification {
    /// Show a notification with this text.
    Test(String),
}

/// One request of a client.
#[derive(Debug, PartialEq, Eq)]
pub enum Command {
    Coffee(Coffee),
    Notification(Notification),
}

impl From<Coffee> for Command {
    fn from(val: Coffee) -> (command: Self) {
        Command::Coffee(val)
    }
}

impl vstd::std_specs::convert::FromSpecImpl<Coffee> for Command {
    open spec fn obeys_from_spec() -> bool {
        true
    }

    open spec fn from_spec(val: Coffee) -> Self {
        Command::Coffee(val)
    }
}

impl From<Notification> for Command {
    fn from(val: Notification) -> (command: Self) {
        Command::Notification(val)
    }
}

impl vstd::std_specs::convert::FromSpecImpl<Notification> for Command {
    open spec fn obeys_from_spec() -> bool {
        true
    }

    open spec fn from_spec(val: Notification) -> Self {
        Command::Notification(val)
    }
}

/// A [`Notification`] as contracts see it.
pub ghost enum NotificationView {
    Test(Seq<char>),
}

/// A [`Command`] as contracts see it.
pub ghost enum CommandView {
    Coffee(Coffee),
    Notification(NotificationView),
}

impl View for Notification {
    type V = NotificationView;

    open spec fn view(&self) -> NotificationView {
        match self {
            Notification::Test(text) => NotificationView::Test(text@),
        }
    }
}

impl View for Command {
    type V = CommandView;

    open spec fn view(&self) -> CommandView {
        match self {
            Command::Coffee(coffee) => CommandView::Coffee(*coffee),
            Command::Notification(notification) => CommandView::Notification(notification@),
        }
    }
}

/// Why bytes are not the encoding of a command.
#[derive(Debug, Clone, Copy, PartialEq, Eq, Structural)]
pub enum DecodeError {
    /// The bytes end before the command does.
    Truncated,
    /// A variant index names no variant.
    UnknownVariant,
    /// The text is not UTF-8.
    InvalidText,
}

/// The four bytes of `n`, least significant first.
pub open spec fn le_bytes_u32(n: u32) -> Seq<u8> {
    seq![
        (n % 0x100) as u8,
        ((n / 0x100) % 0x100) as u8,
        ((n / 0x1_0000) % 0x100) as u8,
        (n / 0x100_0000) as u8,
    ]
}

/// The number that the first four bytes of `bytes` spell, least significant
/// first.
pub open spec fn le_value_u32(bytes: Seq<u8>) -> int
    recommends
        bytes.len() >= 4,
{
    bytes[0] + bytes[1] * 0x100 + bytes[2] * 0x1_0000 + bytes[3] * 0x100_0000
}

/// The eight bytes of `n`, least significant first.
pub open spec fn le_bytes_u64(n: u64) -> Seq<u8> {
    le_bytes_u32((n % 0x1_0000_0000) as u32) + le_bytes_u32((n / 0x1_0000_0000) as u32)
}

/// The number that the first eight bytes of `bytes` spell, least significant
/// first.
pub open spec fn le_value_u64(bytes: Seq<u8>) -> int
    recommends
        bytes.len() >= 8,
{
    le_value_u32(bytes) + le_value_u32(bytes.skip(4)) * 0x1_0000_0000
}

/// The index under which a [`Coffee`] request travels.
pub open spec fn coffee_index(coffee: Coffee) -> u32 {
    match coffee {
        Coffee::Drink => 0,
        Coffee::Relax => 1,
        Coffee::Toggle => 2,
        Coffee::Get => 3,
    }
}

/// The [`Coffee`] request that travels under `index`, if there is one.
pub open spec fn coffee_of_index(index: int) -> Option<Coffee> {
    if index == 0 {
        Some(Coffee::Drink)
    } else if index == 1 {
        Some(Coffee::Relax)
    } else if index == 2 {
        Some(Coffee::Toggle)
    } else if index == 3 {
        Some(Coffee::Get)
    } else {
        None
    }
}

/// A text on the wire: the length of its UTF-8 form in eight bytes, then that
/// form.
pub open spec fn text_bytes(text: Seq<char>) -> Seq<u8> {
    le_bytes_u64(encode_utf8(text).len() as u64) + encode_utf8(text)
}

/// The bytes of a command on the wire.
pub open spec fn command_bytes(command: CommandView) -> Seq<u8> {
    match command {
        CommandView::Coffee(coffee) => le_bytes_u32(0) + le_bytes_u32(coffee_index(coffee)),
        CommandView::Notification(NotificationView::Test(text)) => le_bytes_u32(1) + le_bytes_u32(
            0,
        ) + text_bytes(text),
    }
}

/// What the bytes of a text say: the text, or why there is none. Bytes that
/// follow the text are not looked at.
pub open spec fn parse_text(bytes: Seq<u8>) -> Result<Seq<char>, DecodeError> {
    if bytes.len() < 8 {
        Err(DecodeError::Truncated)
    } else if le_value_u64(bytes) > bytes.len() - 8 {
        Err(DecodeError::Truncated)
    } else if !valid_utf8(bytes.subrange(8, 8 + le_value_u64(bytes))) {
        Err(DecodeError::InvalidText)
    } else {
        Ok(decode_utf8(bytes.subrange(8, 8 + le_value_u64(bytes))))
    }
}

/// What bytes say as a command: the command, or why they are none. Bytes that
/// follow the command are not looked at.
pub open spec fn parse_command(bytes: Seq<u8>) -> Result<CommandView, DecodeError> {
    if bytes.len() < 8 {
        if bytes.len() >= 4 && le_value_u32(bytes) > 1 {
            Err(DecodeError::UnknownVariant)
        } else {
            Err(DecodeError::Truncated)
        }
    } else if le_value_u32(bytes) == 0 {
        match coffee_of_index(le_value_u32(bytes.skip(4))) {
            Some(coffee) => Ok(CommandView::Coffee(coffee)),
            None => Err(DecodeError::UnknownVariant),
        }
    } else if le_value_u32(bytes) == 1 {
        if le_value_u32(bytes.skip(4)) != 0 {
            Err(DecodeError::UnknownVariant)
        } else {
            match parse_text(bytes.skip(8)) {
                Ok(text) => Ok(CommandView::Notification(NotificationView::Test(text))),
                Err(error) => Err(error),
            }
        }
    } else {
        Err(DecodeError::UnknownVariant)
    }
}

/// Reading back the little-endian bytes of a number gives the number.
pub proof fn lemma_le_value_of_bytes_u32(n: u32)
    ensures
        le_bytes_u32(n).len() == 4,
        le_value_u32(le_bytes_u32(n)) == n,
{
}

/// Reading back the little-endian bytes of a number gives the number.
pub proof fn lemma_le_value_of_bytes_u64(n: u64)
    ensures
        le_bytes_u64(n).len() == 8,
        le_value_u64(le_bytes_u64(n)) == n,
{
    let low = (n % 0x1_0000_0000) as u32;
    let high = (n / 0x1_0000_0000) as u32;
    let bytes = le_bytes_u64(n);
    lemma_le_value_of_bytes_u32(low);
    lemma_le_value_of_bytes_u32(high);
    lemma_le_value_reads_front_u32(le_bytes_u32(low), le_bytes_u32(high));
    assert(bytes.skip(4) =~= le_bytes_u32(high));
}

/// The value of a number's bytes does not depend on what follows them.
pub proof fn lemma_le_value_reads_front_u32(front: Seq<u8>, back: Seq<u8>)
    requires
        front.len() >= 4,
    ensures
        le_value_u32(front + back) == le_value_u32(front),
{
    let all = front + back;
    assert(all[0] == front[0] && all[1] == front[1] && all[2] == front[2] && all[3] == front[3]);
}

/// The value of a number's bytes does not depend on what follows them.
pub proof fn lemma_le_value_reads_front_u64(front: Seq<u8>, back: Seq<u8>)
    requires
        front.len() >= 8,
    ensures
        le_value_u64(front + back) == le_value_u64(front),
{
    let all = front + back;
    lemma_le_value_reads_front_u32(front, back);
    assert(all.skip(4) =~= front.skip(4) + back);
    lemma_le_value_reads_front_u32(front.skip(4), back);
}

/// A text is read back from its bytes, whatever follows them.
pub proof fn lemma_text_round_trip(text: Seq<char>, tail: Seq<u8>)
    requires
        encode_utf8(text).len() <= u64::MAX,
    ensures
        parse_text(text_bytes(text) + tail) == Ok::<Seq<char>, DecodeError>(text),
{
    let body = encode_utf8(text);
    let prefix = le_bytes_u64(body.len() as u64);
    let all = text_bytes(text) + tail;
    lemma_le_value_of_bytes_u64(body.len() as u64);
    assert(all =~= prefix + (body + tail));
    lemma_le_value_reads_front_u64(prefix, body + tail);
    assert(le_value_u64(all) == body.len());
    assert(all.subrange(8, 8 + body.len() as int) =~= body);
    encode_utf8_valid_utf8(text);
    encode_utf8_decode_utf8(text);
}

/// Round trip: the bytes of a command are read back as that command, whatever
/// follows them. The one condition is that the text's length in bytes fits in
/// the eight bytes that carry it, as every text in memory does.
pub proof fn lemma_command_round_trip(command: CommandView, tail: Seq<u8>)
    requires
        command matches CommandView::Notification(NotificationView::Test(text))
            ==> encode_utf8(text).len() <= u64::MAX,
    ensures
        parse_command(command_bytes(command) + tail) == Ok::<CommandView, DecodeError>(command),
{
    let all = command_bytes(command) + tail;
    match command {
        CommandView::Coffee(coffee) => {
            let tag = le_bytes_u32(0);
            let inner = le_bytes_u32(coffee_index(coffee));
            lemma_le_value_of_bytes_u32(0);
            lemma_le_value_of_bytes_u32(coffee_index(coffee));
            assert(all =~= tag + (inner + tail));
            lemma_le_value_reads_front_u32(tag, inner + tail);
            assert(all.skip(4) =~= inner + tail);
            lemma_le_value_reads_front_u32(inner, tail);
        },
        CommandView::Notification(NotificationView::Test(text)) => {
            let tag = le_bytes_u32(1);
            let inner = le_bytes_u32(0);
            lemma_le_value_of_bytes_u32(1);
            lemma_le_value_of_bytes_u32(0);
            assert(all =~= tag + (inner + (text_bytes(text) + tail)));
            lemma_le_value_reads_front_u32(tag, inner + (text_bytes(text) + tail));
            assert(all.skip(4) =~= inner + (text_bytes(text) + tail));
            lemma_le_value_reads_front_u32(inner, text_bytes(text) + tail);
            assert(all.skip(8) =~= text_bytes(text) + tail);
            lemma_text_round_trip(text, tail);
        },
    }
}

/// Encodes a `u32` through `bincode::serialize`. The contract claims what
/// bincode's default configuration does with a fixed-width integer: four
/// bytes, least significant first, and no failure.
#[verifier::external_body]
fn serialize_u32(n: u32) -> (bytes: Vec<u8>)
    ensures
        bytes@ == le_bytes_u32(n),
{
    bincode::serialize(&n).unwrap_or_default()
}

/// Encodes a text through `bincode::serialize`. The contract claims that the
/// result is the byte length of the text as eight little-endian bytes,
/// followed by the text in UTF-8, and that the call does not fail.
#[verifier::external_body]
fn serialize_text(text: &str) -> (bytes: Vec<u8>)
    ensures
        bytes@ == text_bytes(text@),
{
    bincode::serialize(text).unwrap_or_default()
}

/// Decodes a `u32` from the front of `bytes` through `bincode::deserialize`.
/// The contract claims that the call fails exactly when fewer than four bytes
/// are there, reads the first four as a little-endian number, and ignores what
/// follows them.
#[verifier::external_body]
fn deserialize_u32(bytes: &[u8]) -> (n: Option<u32>)
    ensures
        bytes@.len() < 4 ==> n is None,
        bytes@.len() >= 4 ==> n == Some(le_value_u32(bytes@) as u32),
{
    bincode::deserialize::<u32>(bytes).ok()
}

/// Decodes a `u64` from the front of `bytes` through `bincode::deserialize`.
/// The contract claims that the call fails exactly when fewer than eight bytes
/// are there, reads the first eight as a little-endian number, and ignores
/// what follows them.
#[verifier::external_body]
fn deserialize_u64(bytes: &[u8]) -> (n: Option<u64>)
    ensures
        bytes@.len() < 8 ==> n is None,
        bytes@.len() >= 8 ==> n == Some(le_value_u64(bytes@) as u64),
{
    bincode::deserialize::<u64>(bytes).ok()
}

/// Decodes a text from the front of `bytes` through `bincode::deserialize`.
/// The contract claims that the call succeeds exactly when the eight-byte
/// length is there, that many bytes follow it and they are UTF-8; that the
/// text is then what those bytes decode to; and that later bytes are ignored.
#[verifier::external_body]
fn deserialize_text(bytes: &[u8]) -> (text: Option<String>)
    ensures
        match text {
            Some(text) => parse_text(bytes@) == Ok::<Seq<char>, DecodeError>(text@),
            None => parse_text(bytes@) is Err,
        },
{
    bincode::deserialize::<String>(bytes).ok()
}

/// The bytes under which `command` travels.
pub fn encode_command(command: &Command) -> (bytes: Vec<u8>)
    ensures
        bytes@ == command_bytes(command@),
{
    match command {
        Command::Coffee(coffee) => {
            let index: u32 = match coffee {
                Coffee::Drink => 0,
                Coffee::Relax => 1,
                Coffee::Toggle => 2,
                Coffee::Get => 3,
            };
            let mut bytes = serialize_u32(0);
            let inner = serialize_u32(index);
            bytes.extend_from_slice(inner.as_slice());
            bytes
        },
        Command::Notification(Notification::Test(text)) => {
            let mut bytes = serialize_u32(1);
            let inner = serialize_u32(0);
            let body = serialize_text(text.as_str());
            bytes.extend_from_slice(inner.as_slice());
            bytes.extend_from_slice(body.as_slice());
            bytes
        },
    }
}

/// Reads a text from the front of `bytes`.
pub fn decode_text(bytes: &[u8]) -> (text: Result<String, DecodeError>)
    ensures
        match text {
            Ok(text) => parse_text(bytes@) == Ok::<Seq<char>, DecodeError>(text@),
            Err(error) => parse_text(bytes@) == Err::<Seq<char>, DecodeError>(error),
        },
{
    let len: u64 = match deserialize_u64(bytes) {
        Some(len) => len,
        None => { return Err(DecodeError::Truncated); },
    };
    proof {
        lemma_le_value_bounds_u64(bytes@);
    }
    if len > (bytes.len() - 8) as u64 {
        return Err(DecodeError::Truncated);
    }
    match deserialize_text(bytes) {
        Some(text) => Ok(text),
        None => Err(DecodeError::InvalidText),
    }
}

/// Reads a command from the front of `bytes`. Bytes that are no command give
/// an error, whatever they are.
pub fn decode_command(bytes: &[u8]) -> (command: Result<Command, DecodeError>)
    ensures
        match command {
            Ok(command) => parse_command(bytes@) == Ok::<CommandView, DecodeError>(command@),
            Err(error) => parse_command(bytes@) == Err::<CommandView, DecodeError>(error),
        },
{
    let tag: u32 = match deserialize_u32(bytes) {
        Some(tag) => tag,
        None => { return Err(DecodeError::Truncated); },
    };
    proof {
        lemma_le_value_bounds_u32(bytes@);
    }
    if tag > 1 {
        return Err(DecodeError::UnknownVariant);
    }
    if bytes.len() < 8 {
        return Err(DecodeError::Truncated);
    }
    let after_tag = slice_subrange(bytes, 4, bytes.len());
    assert(after_tag@ =~= bytes@.skip(4));
    let inner: u32 = match deserialize_u32(after_tag) {
        Some(inner) => inner,
        None => { return Err(DecodeError::Truncated); },
    };
    proof {
        lemma_le_value_bounds_u32(after_tag@);
    }
    if tag == 0 {
        if inner == 0 {
            Ok(Command::Coffee(Coffee::Drink))
        } else if inner == 1 {
            Ok(Command::Coffee(Coffee::Relax))
        } else if inner == 2 {
            Ok(Command::Coffee(Coffee::Toggle))
        } else if inner == 3 {
            Ok(Command::Coffee(Coffee::Get))
        } else {
            Err(DecodeError::UnknownVariant)
        }
    } else {
        if inner != 0 {
            return Err(DecodeError::UnknownVariant);
        }
        let rest = slice_subrange(bytes, 8, bytes.len());
        assert(rest@ =~= bytes@.skip(8));
        match decode_text(rest) {
            Ok(text) => Ok(Command::Notification(Notification::Test(text))),
            Err(error) => Err(error),
        }
    }
}

/// Whatever the bytes, the number they spell fits in 32 bits.
pub proof fn lemma_le_value_bounds_u32(bytes: Seq<u8>)
    ensures
        0 <= le_value_u32(bytes) <= u32::MAX,
{
}

/// Whatever the bytes, the number they spell fits in 64 bits.
pub proof fn lemma_le_value_bounds_u64(bytes: Seq<u8>)
    ensures
        0 <= le_value_u64(bytes) <= u64::MAX,
{
    lemma_le_value_bounds_u32(bytes);
    lemma_le_value_bounds_u32(bytes.skip(4));
}

} // verus!
