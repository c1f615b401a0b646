//! The programs that the daemon starts when it starts.

use crate::configuration::Configuration;
use crate::error::ParseError;
use crate::start::{parse_line, CommandBuilder, CommandBuilderView};
use crate::text::views;
use vstd::prelude::*;

verus! {

/// Why the programs of the autostart list were not all started.
#[derive(Debug, PartialEq, Eq)]
pub enum AutoStartError {
    /// A line of the list names no program.
    Parse(ParseError),
    /// A program could not be started: the cause.
    Spawn(String),
}

/// What holds of one line of the list: a line that holds no word is refused,
/// and any other is handed to `spawn` as a program and its arguments, whose
/// answer decides.
pub open spec fn spawn_outcome<S: Fn(String, Vec<String>) -> Result<(), String>>(
    line: Seq<char>,
    spawn: S,
    result: Result<(), AutoStartError>,
) -> bool {
    match parse_line(line) {
        None => {
            &&& result matches Err(AutoStartError::Parse(ParseError::Command(text)))
            &&& text@ == line
        },
        Some(command) => exists|name: String, arguments: Vec<String>, outcome: Result<(), String>|
            {
                &&& name@ == command.name
                &&& views(arguments@) == command.arguments()
                &&& #[trigger] spawn.ensures((name, arguments), outcome)
                &&& match outcome {
                    Ok(_) => result is Ok,
                    Err(cause) => result == Err::<(), AutoStartError>(AutoStartError::Spawn(cause)),
                }
            },
    }
}

/// What holds of a list that was worked through up to line `count`: the
/// lines before it were started, and either the list ended there with
/// success, or that line gave the error.
pub open spec fn autostart_stops_at<S: Fn(String, Vec<String>) -> Result<(), String>>(
    lines: Seq<Seq<char>>,
    spawn: S,
    count: int,
    result: Result<(), AutoStartError>,
) -> bool {
    &&& 0 <= count <= lines.len()
    &&& forall|j: int| 0 <= j < count ==> spawn_outcome(#[trigger] lines[j], spawn, Ok(()))
    &&& if result is Ok {
        count == lines.len()
    } else {
        count < lines.len() && spawn_outcome(lines[count], spawn, result)
    }
}

/// Whether the first `count` lines were started.
pub open spec fn autostarted<S: Fn(String, Vec<String>) -> Result<(), String>>(
    lines: Seq<Seq<char>>,
    count: int,
    spawn: S,
) -> bool {
    forall|j: int| 0 <= j < count ==> spawn_outcome(#[trigger] lines[j], spawn, Ok(()))
}

/// Whether `spawn` accepts the program and the arguments of `command`.
pub open spec fn can_spawn<S: Fn(String, Vec<String>) -> Result<(), String>>(
    command: CommandBuilderView,
    spawn: S,
) -> bool {
    forall|name: String, arguments: Vec<String>|
        name@ == command.name && views(arguments@) == command.arguments()
            ==> #[trigger] spawn.requires((name, arguments))
}

/// Whether the list can be worked through: `spawn` accepts each line that is
/// reached, which is the case where all lines before it were started, if the
/// line names a program. A line behind one that fails is not reached, and
/// `spawn` need not accept anything for it.
pub open spec fn can_autostart<S: Fn(String, Vec<String>) -> Result<(), String>>(
    lines: Seq<Seq<char>>,
    spawn: S,
) -> bool {
    forall|i: int|
        0 <= i < lines.len() && autostarted(lines, i, spawn) && parse_line(#[trigger] lines[i])
            is Some ==> can_spawn(parse_line(lines[i])->Some_0, spawn)
}

/// Starts the programs of the configuration's autostart list in order,
/// through `spawn`, and stops at the first line that names no program or
/// cannot be started. An empty list succeeds.
pub fn auto_start<S>(config: &Configuration, spawn: &S) -> (result: Result<(), AutoStartError>)
    where S: Fn(String, Vec<String>) -> Result<(), String>
    requires
        can_autostart(views(config.autostart@), *spawn),
    ensures
        exists|count: int| #[trigger]
            autostart_stops_at(views(config.autostart@), *spawn, count, result),
        config.autostart@.len() == 0 ==> result is Ok,
{
    let ghost lines = views(config.autostart@);
    let mut i: usize = 0;
    while i < config.autostart.len()
        invariant
            i <= config.autostart@.len(),
            lines == views(config.autostart@),
            can_autostart(lines, *spawn),
            autostarted(lines, i as int, *spawn),
        decreases config.autostart@.len() - i,
    {
        assert(lines[i as int] == config.autostart@[i as int]@);
        let command = match CommandBuilder::parse(config.autostart[i].as_str()) {
            Ok(command) => command,
            Err(error) => {
                let result = Err(AutoStartError::Parse(error));
                assert(autostart_stops_at(lines, *spawn, i as int, result));
                return result;
            },
        };
        let name = command.name();
        let arguments = command.arguments();
        let outcome = spawn(name, arguments);
        assert(spawn.ensures((name, arguments), outcome));
        match outcome {
            Ok(done) => {
                assert(spawn_outcome(lines[i as int], *spawn, Ok(())));
            },
            Err(cause) => {
                let result = Err(AutoStartError::Spawn(cause));
                assert(spawn_outcome(lines[i as int], *spawn, result));
                assert(autostart_stops_at(lines, *spawn, i as int, result));
                return result;
            },
        }
        i = i + 1;
    }
    assert(autostart_stops_at(lines, *spawn, config.autostart@.len() as int, Ok(())));
    Ok(())
}

} // verus!
