//! Command lines: a program's name and its arguments, and the rule that no
//! program is started twice.

use crate::error::{CommandError, GlueError, ParseError};
use crate::text::{
    copy_texts, decimal_up_to, from_utf8, parse_u32, views, words, words_of,
};
use vstd::utf8::{decode_utf8, valid_utf8};
use vstd::prelude::*;
use crate::eww::{open, open_arguments, WindowName};
use vstd::string::StringExecFns;

verus! {

/// A program and its arguments.
#[derive(Debug)]
pub struct CommandBuilder {
    name: String,
    args: Option<Vec<String>>,
}

/// A [`CommandBuilder`] as contracts see it.
pub ghost struct CommandBuilderView {
    pub name: Seq<char>,
    pub args: Option<Seq<Seq<char>>>,
}

impl View for CommandBuilder {
    type V = CommandBuilderView;

    closed spec fn view(&self) -> CommandBuilderView {
        CommandBuilderView {
            name: self.name@,
            args: match self.args {
                Some(args) => Some(views(args@)),
                None => None,
            },
        }
    }
}

/// `words`, each with a blank in front of it, one after the other.
pub open spec fn blank_before_each(words: Seq<Seq<char>>) -> Seq<char>
    decreases words.len(),
{
    if words.len() == 0 {
        Seq::empty()
    } else {
        blank_before_each(words.drop_last()) + seq![' '] + words.last()
    }
}

impl CommandBuilderView {
    /// The arguments, none where none were given.
    pub open spec fn arguments(self) -> Seq<Seq<char>> {
        match self.args {
            Some(args) => args,
            None => Seq::empty(),
        }
    }

    /// The command line: the name, then each argument behind a blank.
    pub open spec fn line(self) -> Seq<char> {
        self.name + blank_before_each(self.arguments())
    }
}

/// What a text says as a command line: its first word is the program, the
/// others are the arguments. A text without a word is none.
pub open spec fn parse_line(text: Seq<char>) -> Option<CommandBuilderView> {
    if words_of(text).len() == 0 {
        None
    } else {
        Some(
            CommandBuilderView {
                name: words_of(text)[0],
                args: Some(words_of(text).drop_first()),
            },
        )
    }
}

impl CommandBuilder {
    /// The program `command`, without arguments.
    pub fn new(command: &str) -> (builder: Self)
        ensures
            builder@ == (CommandBuilderView { name: command@, args: None }),
    {
        CommandBuilder { name: command.to_string(), args: None }
    }

    /// Adds `args` behind the arguments that are there.
    pub fn args(self, args: Vec<&str>) -> (builder: Self)
        ensures
            builder@.name == self@.name,
            builder@.args == Some(self@.arguments() + Seq::new(args@.len(), |i: int| args@[i]@)),
    {
        let ghost added = Seq::new(args@.len(), |i: int| args@[i]@);
        let CommandBuilder { name, args: current } = self;
        let mut all: Vec<String> = match current {
            Some(current) => current,
            None => Vec::new(),
        };
        let ghost before = views(all@);
        assert(before =~= self@.arguments());
        let mut i: usize = 0;
        while i < args.len()
            invariant
                i <= args@.len(),
                added == Seq::new(args@.len(), |i: int| args@[i]@),
                views(all@) == before + added.take(i as int),
            decreases args@.len() - i,
        {
            let ghost old_all = all@;
            all.push(args[i].to_string());
            assert(views(all@) =~= views(old_all).push(args@[i as int]@));
            assert(added.take(i + 1) =~= added.take(i as int).push(args@[i as int]@));
            i = i + 1;
        }
        assert(added.take(args@.len() as int) =~= added);
        CommandBuilder { name, args: Some(all) }
    }

    /// The program's name.
    pub fn name(&self) -> (name: String)
        ensures
            name@ == self@.name,
    {
        self.name.clone()
    }

    /// The arguments, none where none were given.
    pub fn arguments(&self) -> (arguments: Vec<String>)
        ensures
            views(arguments@) == self@.arguments(),
    {
        match &self.args {
            Some(args) => copy_texts(args),
            None => {
                let arguments: Vec<String> = Vec::new();
                assert(views(arguments@) =~= Seq::<Seq<char>>::empty());
                arguments
            },
        }
    }

    /// The command line: the name, then each argument behind a blank.
    pub fn command(&self) -> (line: String)
        ensures
            line@ == self@.line(),
    {
        let mut line = self.name.clone();
        match &self.args {
            Some(args) => {
                let mut i: usize = 0;
                assert(views(args@).take(0) =~= Seq::<Seq<char>>::empty());
                while i < args.len()
                    invariant
                        i <= args@.len(),
                        line@ == self.name@ + blank_before_each(views(args@).take(i as int)),
                    decreases args@.len() - i,
                {
                    let ghost done = views(args@).take(i as int);
                    let ghost next = views(args@).take(i + 1);
                    assert(next.drop_last() =~= done);
                    assert(next.last() == args@[i as int]@);
                    line.append(" ");
                    line.append(args[i].as_str());
                    proof {
                        reveal_strlit(" ");
                        assert(" "@ =~= seq![' ']);
                        assert(line@ =~= self.name@ + blank_before_each(next));
                    }
                    i = i + 1;
                }
                assert(views(args@).take(args@.len() as int) =~= views(args@));
            },
            None => {
                assert(line@ =~= self@.line());
            },
        }
        line
    }

    /// Starts the program unless it runs already. `pid` is the caller's own
    /// process, `pidof` lists the running instances of a program by name, and
    /// `run` hands a command line to the window manager.
    pub fn start<P, R>(&self, pid: u32, pidof: &P, run: &R) -> (started: Result<(), CommandError>)
        where P: Fn(String) -> Result<Vec<u8>, String>, R: Fn(String) -> Result<(), String>
        requires
            can_start(self@, pid, *pidof, *run),
        ensures
            start_outcome(self@, pid, *pidof, *run, started),
    {
        start_program(self, pid, pidof, run)
    }

    /// Reads `value` as a command line: its first word is the program, the
    /// others are its arguments. A text that holds no word is refused with
    /// the text.
    pub fn parse(value: &str) -> (builder: Result<Self, ParseError>)
        ensures
            match builder {
                Ok(builder) => parse_line(value@) == Some(builder@),
                Err(error) => {
                    &&& parse_line(value@) is None
                    &&& error matches ParseError::Command(text)
                    &&& text@ == value@
                },
            },
    {
        let found = words(value);
        if found.len() == 0 {
            return Err(ParseError::Command(value.to_string()));
        }
        let name = found[0].clone();
        let mut args: Vec<String> = Vec::new();
        let mut i: usize = 1;
        assert(views(args@) =~= views(found@).drop_first().take(0));
        while i < found.len()
            invariant
                1 <= i <= found@.len(),
                views(args@) == views(found@).drop_first().take(i - 1),
            decreases found@.len() - i,
        {
            let ghost old_args = args@;
            args.push(found[i].clone());
            assert(views(args@) =~= views(old_args).push(found@[i as int]@));
            assert(views(found@).drop_first().take(i as int) =~= views(found@).drop_first().take(
                i - 1,
            ).push(found@[i as int]@));
            i = i + 1;
        }
        assert(views(found@).drop_first().take(found@.len() - 1) =~= views(found@).drop_first());
        Ok(CommandBuilder { name, args: Some(args) })
    }
}

impl TryFrom<&str> for CommandBuilder {
    type Error = ParseError;

    fn try_from(value: &str) -> (builder: Result<Self, ParseError>)
        ensures
            match builder {
                Ok(builder) => parse_line(value@) == Some(builder@),
                Err(error) => {
                    &&& parse_line(value@) is None
                    &&& error matches ParseError::Command(text)
                    &&& text@ == value@
                },
            },
    {
        CommandBuilder::parse(value)
    }
}

impl vstd::std_specs::convert::TryFromSpecImpl<&str> for CommandBuilder {
    open spec fn obeys_try_from_spec() -> bool {
        false
    }

    open spec fn try_from_spec(value: &str) -> Result<Self, ParseError> {
        arbitrary()
    }
}

/// Whether `word` spells the number of a process other than `pid`.
pub open spec fn is_other_process(word: Seq<char>, pid: u32) -> bool {
    decimal_up_to(word, u32::MAX as nat) is Some && decimal_up_to(word, u32::MAX as nat) != Some(
        pid as nat,
    )
}

/// Whether one of `words` spells the number of a process other than `pid`.
pub open spec fn names_other_process(words: Seq<Seq<char>>, pid: u32) -> bool {
    exists|i: int| 0 <= i < words.len() && is_other_process(#[trigger] words[i], pid)
}

/// What the list of running instances says: whether the program runs in a
/// process other than `pid`. An empty list says no; a list that is no text is
/// an error; words that are no process numbers are passed over.
pub open spec fn instances_say(listed: Seq<u8>, pid: u32) -> Result<bool, CommandError> {
    if listed.len() == 0 {
        Ok(false)
    } else if !valid_utf8(listed) {
        Err(CommandError::Pidof)
    } else {
        Ok(names_other_process(words_of(decode_utf8(listed)), pid))
    }
}

/// Reads the list of the running instances of a program, as `pidof` prints
/// it, and says whether the program runs in a process other than `pid`.
pub fn other_instance_runs(listed: Vec<u8>, pid: u32) -> (running: Result<bool, CommandError>)
    ensures
        running == instances_say(listed@, pid),
{
    if listed.len() == 0 {
        return Ok(false);
    }
    let ghost bytes = listed@;
    let text = match from_utf8(listed) {
        Some(text) => text,
        None => { return Err(CommandError::Pidof); },
    };
    let found = words(text.as_str());
    let mut i: usize = 0;
    while i < found.len()
        invariant
            i <= found@.len(),
            bytes == listed@,
            bytes.len() != 0,
            valid_utf8(bytes),
            views(found@) == words_of(decode_utf8(bytes)),
            forall|k: int| 0 <= k < i ==> !is_other_process(#[trigger] views(found@)[k], pid),
        decreases found@.len() - i,
    {
        assert(views(found@)[i as int] == found@[i as int]@);
        match parse_u32(found[i].as_str()) {
            Some(other) => {
                if other != pid {
                    assert(is_other_process(views(found@)[i as int], pid));
                    return Ok(true);
                }
            },
            None => {},
        }
        i = i + 1;
    }
    Ok(false)
}

/// What holds of a check for running instances: `pidof` was asked once for
/// the program's name, and the result is what its answer says.
pub open spec fn running_outcome<P: Fn(String) -> Result<Vec<u8>, String>>(
    command: CommandBuilderView,
    pid: u32,
    pidof: P,
    running: Result<bool, CommandError>,
) -> bool {
    exists|name: String, listed: Result<Vec<u8>, String>|
        {
            &&& name@ == command.name
            &&& #[trigger] pidof.ensures((name,), listed)
            &&& running == match listed {
                Ok(listed) => instances_say(listed@, pid),
                Err(_) => Err(CommandError::Pidof),
            }
        }
}

/// What holds of a run of the command line: `run` was given the line once,
/// and its failure comes back as a failed dispatch.
pub open spec fn run_outcome<R: Fn(String) -> Result<(), String>>(
    command: CommandBuilderView,
    run: R,
    ran: Result<(), CommandError>,
) -> bool {
    exists|line: String, outcome: Result<(), String>|
        {
            &&& line@ == command.line()
            &&& #[trigger] run.ensures((line,), outcome)
            &&& match outcome {
                Ok(_) => ran is Ok,
                Err(cause) => ran == Err::<(), CommandError>(CommandError::HyprlandDispatch(cause)),
            }
        }
}

/// What holds of a start: the program is run exactly if it is found not to
/// run in another process, and a program that runs already is an error.
pub open spec fn start_outcome<
    P: Fn(String) -> Result<Vec<u8>, String>,
    R: Fn(String) -> Result<(), String>,
>(
    command: CommandBuilderView,
    pid: u32,
    pidof: P,
    run: R,
    started: Result<(), CommandError>,
) -> bool {
    exists|running: Result<bool, CommandError>|
        {
            &&& #[trigger] running_outcome(command, pid, pidof, running)
            &&& match running {
                Err(error) => started == Err::<(), CommandError>(error),
                Ok(true) => started == Err::<(), CommandError>(CommandError::AlreadyRunning),
                Ok(false) => run_outcome(command, run, started),
            }
        }
}

/// Whether `pidof` can be asked for the instances of the program: it accepts
/// the program's name.
pub open spec fn can_list<P: Fn(String) -> Result<Vec<u8>, String>>(
    command: CommandBuilderView,
    pidof: P,
) -> bool {
    forall|name: String| name@ == command.name ==> #[trigger] pidof.requires((name,))
}

/// Whether `run` can be handed the command line: it accepts the line.
pub open spec fn can_run<R: Fn(String) -> Result<(), String>>(
    command: CommandBuilderView,
    run: R,
) -> bool {
    forall|line: String| line@ == command.line() ==> #[trigger] run.requires((line,))
}

/// Whether the program can be started: `pidof` can be asked, and `run` can be
/// handed the line wherever the answer of `pidof` says that the program does
/// not run. Where it runs already, or the answer is an error, `run` is not
/// called and need not accept anything.
pub open spec fn can_start<
    P: Fn(String) -> Result<Vec<u8>, String>,
    R: Fn(String) -> Result<(), String>,
>(command: CommandBuilderView, pid: u32, pidof: P, run: R) -> bool {
    &&& can_list(command, pidof)
    &&& running_outcome(command, pid, pidof, Ok(false)) ==> can_run(command, run)
}

/// Asks `pidof` for the running instances of the program and says whether it
/// runs in a process other than `pid`, the caller's own.
pub fn try_already_running<P>(command: &CommandBuilder, pid: u32, pidof: &P) -> (running: Result<
    bool,
    CommandError,
>)
    where P: Fn(String) -> Result<Vec<u8>, String>
    requires
        can_list(command@, *pidof),
    ensures
        running_outcome(command@, pid, *pidof, running),
{
    let name = command.name.clone();
    let listed = pidof(name);
    let running = match listed {
        Ok(listed) => other_instance_runs(listed, pid),
        Err(_) => Err(CommandError::Pidof),
    };
    assert(pidof.ensures((name,), listed));
    running
}

/// Hands the command line to the window manager through `run`.
pub fn hyprrun<R>(command: &CommandBuilder, run: &R) -> (ran: Result<(), CommandError>)
    where R: Fn(String) -> Result<(), String>
    requires
        can_run(command@, *run),
    ensures
        run_outcome(command@, *run, ran),
{
    let line = command.command();
    let outcome = run(line);
    assert(run.ensures((line,), outcome));
    match outcome {
        Ok(done) => Ok(()),
        Err(cause) => Err(CommandError::HyprlandDispatch(cause)),
    }
}

/// Starts the program unless it runs already.
pub fn start_program<P, R>(command: &CommandBuilder, pid: u32, pidof: &P, run: &R) -> (started:
    Result<(), CommandError>)
    where P: Fn(String) -> Result<Vec<u8>, String>, R: Fn(String) -> Result<(), String>
    requires
        can_start(command@, pid, *pidof, *run),
    ensures
        start_outcome(command@, pid, *pidof, *run, started),
{
    let running = try_already_running(command, pid, pidof);
    let started = match running {
        Err(error) => Err(error),
        Ok(true) => Err(CommandError::AlreadyRunning),
        Ok(false) => hyprrun(command, run),
    };
    assert(running_outcome(command@, pid, *pidof, running));
    started
}

/// What holds of one command line of a list: a line that holds no word is
/// refused with the line, and any other line is started.
pub open spec fn line_outcome<
    P: Fn(String) -> Result<Vec<u8>, String>,
    R: Fn(String) -> Result<(), String>,
>(line: Seq<char>, pid: u32, pidof: P, run: R, result: Result<(), GlueError>) -> bool {
    match parse_line(line) {
        None => {
            &&& result matches Err(GlueError::Parse(ParseError::Command(text)))
            &&& text@ == line
        },
        Some(command) => match result {
            Ok(_) => start_outcome(command, pid, pidof, run, Ok(())),
            Err(GlueError::Command(error)) => start_outcome(command, pid, pidof, run, Err(error)),
            Err(_) => false,
        },
    }
}

/// The texts of `lines`, in order.
pub open spec fn line_views(lines: Seq<&str>) -> Seq<Seq<char>> {
    Seq::new(lines.len(), |i: int| lines[i]@)
}

/// What holds of a list of command lines that was worked through up to line
/// `count`: the lines before it were started, and either the list ended
/// there with success, or that line gave the error.
pub open spec fn stops_at<
    P: Fn(String) -> Result<Vec<u8>, String>,
    R: Fn(String) -> Result<(), String>,
>(lines: Seq<Seq<char>>, count: int, pid: u32, pidof: P, run: R, result: Result<
    (),
    GlueError,
>) -> bool {
    &&& 0 <= count <= lines.len()
    &&& forall|j: int| 0 <= j < count ==> line_outcome(#[trigger] lines[j], pid, pidof, run, Ok(()))
    &&& if result is Ok {
        count == lines.len()
    } else {
        count < lines.len() && line_outcome(lines[count], pid, pidof, run, result)
    }
}

/// Whether the lines can be worked through: each line that is reached, which
/// is the case where all lines before it were started, can be started if it
/// names a program. A line behind one that fails is not reached, and the
/// closures need not accept anything for it.
pub open spec fn can_run_lines<
    P: Fn(String) -> Result<Vec<u8>, String>,
    R: Fn(String) -> Result<(), String>,
>(lines: Seq<Seq<char>>, pid: u32, pidof: P, run: R) -> bool {
    forall|i: int|
        0 <= i < lines.len() && lines_started(lines, i, pid, pidof, run) && parse_line(
            #[trigger] lines[i],
        ) is Some ==> can_start(parse_line(lines[i])->Some_0, pid, pidof, run)
}

/// Whether the first `count` lines were started.
pub open spec fn lines_started<
    P: Fn(String) -> Result<Vec<u8>, String>,
    R: Fn(String) -> Result<(), String>,
>(lines: Seq<Seq<char>>, count: int, pid: u32, pidof: P, run: R) -> bool {
    forall|j: int| 0 <= j < count ==> line_outcome(#[trigger] lines[j], pid, pidof, run, Ok(()))
}

/// Starts the programs of `commands` in order, each unless it runs already,
/// and stops at the first that cannot be read or started: the lines before it
/// were started, the lines after it are not looked at.
pub fn run_commands<P, R>(commands: Vec<&str>, pid: u32, pidof: &P, run: &R) -> (result: Result<
    (),
    GlueError,
>)
    where P: Fn(String) -> Result<Vec<u8>, String>, R: Fn(String) -> Result<(), String>
    requires
        can_run_lines(line_views(commands@), pid, *pidof, *run),
    ensures
        exists|count: int| #[trigger] stops_at(line_views(commands@), count, pid, *pidof, *run, result),
        result is Ok ==> forall|j: int|
            0 <= j < commands@.len() ==> line_outcome(
                #[trigger] line_views(commands@)[j],
                pid,
                *pidof,
                *run,
                Ok(()),
            ),
{
    let ghost lines = line_views(commands@);
    let mut i: usize = 0;
    while i < commands.len()
        invariant
            i <= commands@.len(),
            lines == line_views(commands@),
            can_run_lines(lines, pid, *pidof, *run),
            lines_started(lines, i as int, pid, *pidof, *run),
        decreases commands@.len() - i,
    {
        assert(lines[i as int] == commands@[i as int]@);
        let command = match CommandBuilder::parse(commands[i]) {
            Ok(command) => command,
            Err(error) => {
                let result = Err(GlueError::Parse(error));
                assert(line_outcome(lines[i as int], pid, *pidof, *run, result));
                assert(stops_at(lines, i as int, pid, *pidof, *run, result));
                return result;
            },
        };
        match command.start(pid, pidof, run) {
            Ok(done) => {
                assert(start_outcome(command@, pid, *pidof, *run, Ok(())));
            },
            Err(error) => {
                let result = Err(GlueError::Command(error));
                assert(line_outcome(lines[i as int], pid, *pidof, *run, result));
                assert(stops_at(lines, i as int, pid, *pidof, *run, result));
                return result;
            },
        }
        i = i + 1;
    }
    assert(stops_at(lines, commands@.len() as int, pid, *pidof, *run, Ok(())));
    Ok(())
}

/// The command lines that bring the desktop up: the bar of the widget shell,
/// then the daemon of the program called `bin_name`.
pub fn start(bin_name: &str) -> (commands: Vec<String>)
    ensures
        commands@.len() == 2,
        commands@[0]@ == "eww open bar"@,
        commands@[1]@ == bin_name@ + " daemon"@,
{
    let mut daemon = bin_name.to_string();
    daemon.append(" daemon");
    let mut commands: Vec<String> = Vec::new();
    commands.push("eww open bar".to_string());
    commands.push(daemon);
    commands
}

/// The command lines that lock the screen.
pub fn lock() -> (commands: Vec<String>)
    ensures
        commands@.len() == 1,
        commands@[0]@ == "hyprlock"@,
{
    let mut commands: Vec<String> = Vec::new();
    commands.push("hyprlock".to_string());
    commands
}

/// The arguments with which the widget shell opens its bar again, using the
/// configuration in `eww_config` where one is given.
pub fn wake_up(eww_config: Option<String>) -> (arguments: Vec<String>)
    ensures
        arguments@.len() == open_arguments(
            WindowName::Bar,
            match eww_config {
                Some(config) => Some(config@),
                None => None,
            },
        ).len(),
        forall|i: int|
            0 <= i < arguments@.len() ==> (#[trigger] arguments@[i])@ == open_arguments(
                WindowName::Bar,
                match eww_config {
                    Some(config) => Some(config@),
                    None => None,
                },
            )[i],
{
    open(&WindowName::Bar, eww_config)
}

} // verus!
