//! What the daemon does with a command.

use crate::coffee::{
    coffeinate, decoffeinate, drink_outcome, relax_outcome, toggle, toggle_outcome, CoffeeResponse,
    DaemonState, IdleState, TimerChange,
};
use crate::commands::{Coffee, Command, CommandView, Notification, NotificationView};
use crate::configuration::Configuration;
use crate::error::CoffeeError;
use crate::text::is_ascii_alphanumeric;
use crate::wayland::{Request, WaylandClientError, WaylandClientView};
use rand::distr::Alphanumeric;
use rand::Rng;
use vstd::prelude::*;
use vstd::string::StringExecFns;

verus! {

/// A desktop notification that is to be shown.
#[derive(Debug, PartialEq, Eq)]
pub struct Notice {
    pub summary: String,
    pub body: String,
}

/// What the caller does after a command, once it has let go of the state:
/// it shows the notice, runs and signals the timers, logs the error, sends
/// the status to the client and the response to the widget shell.
#[derive(Debug)]
pub struct Reply {
    /// What the idle inhibitor reports after the command. It is the payload
    /// of the response, whatever the command was.
    pub status: IdleState,
    /// What the widget shell shows for the idle inhibitor.
    pub response: CoffeeResponse,
    /// The notification that the command asked for.
    pub notice: Option<Notice>,
    /// What the command changed about the timers, or why it failed.
    pub outcome: Result<TimerChange, CoffeeError>,
}

/// The summary of the notification that a test command shows.
pub open spec fn test_summary() -> Seq<char> {
    "Glue Test"@
}

/// The request that `command` sends to the display server, if it sends one.
/// A status request and a test notification send none, and neither does a
/// command that asks for the state that holds already.
pub open spec fn request_of(before: WaylandClientView, command: CommandView) -> Option<Request> {
    match command {
        CommandView::Coffee(Coffee::Drink) => if before.inhibit_sends() {
            Some(Request::CreateInhibitor)
        } else {
            None
        },
        CommandView::Coffee(Coffee::Relax) => if before.release_sends() {
            Some(Request::DestroyInhibitor)
        } else {
            None
        },
        CommandView::Coffee(Coffee::Toggle) => before.toggle_request(),
        CommandView::Coffee(Coffee::Get) => None,
        CommandView::Notification(_) => None,
    }
}

/// The state of the idle inhibitor after a `command` that went through.
pub open spec fn wayland_after(before: WaylandClientView, command: CommandView) -> WaylandClientView {
    match command {
        CommandView::Coffee(Coffee::Drink) => before.inhibit(),
        CommandView::Coffee(Coffee::Relax) => before.release(),
        CommandView::Coffee(Coffee::Toggle) => before.toggle(),
        CommandView::Coffee(Coffee::Get) => before,
        CommandView::Notification(_) => before,
    }
}

/// The state of the idle inhibitor after the commands, served one after the
/// other, each of which went through.
pub open spec fn wayland_after_all(
    before: WaylandClientView,
    commands: Seq<CommandView>,
) -> WaylandClientView
    decreases commands.len(),
{
    if commands.len() == 0 {
        before
    } else {
        wayland_after(wayland_after_all(before, commands.drop_last()), commands.last())
    }
}

/// How many of the commands are toggles.
pub open spec fn toggles_among(commands: Seq<CommandView>) -> nat
    decreases commands.len(),
{
    if commands.len() == 0 {
        0
    } else {
        toggles_among(commands.drop_last()) + (if commands.last() == CommandView::Coffee(
            Coffee::Toggle,
        ) {
            1nat
        } else {
            0nat
        })
    }
}

/// Whether `command` is a toggle or changes nothing about the inhibitor.
pub open spec fn toggles_or_keeps(command: CommandView) -> bool {
    match command {
        CommandView::Coffee(Coffee::Toggle) => true,
        CommandView::Coffee(Coffee::Get) => true,
        CommandView::Notification(_) => true,
        _ => false,
    }
}

/// Requests that arrive at the same time are served one after the other,
/// since each needs the state for itself. In whatever order toggles, status
/// requests and test notifications are served, a system that was not
/// inhibited, and in which an inhibitor can be created, ends up inhibited
/// exactly if the number of toggles is odd, provided that each request to the
/// display server goes through.
pub proof fn lemma_toggles_in_any_order(before: WaylandClientView, commands: Seq<CommandView>)
    requires
        before.ready(),
        !before.idle_inhibitor,
        forall|i: int| 0 <= i < commands.len() ==> toggles_or_keeps(#[trigger] commands[i]),
    ensures
        wayland_after_all(before, commands).ready(),
        wayland_after_all(before, commands).idle_inhibitor == (toggles_among(commands) % 2 == 1),
    decreases commands.len(),
{
    if commands.len() > 0 {
        let front = commands.drop_last();
        assert forall|i: int| 0 <= i < front.len() implies toggles_or_keeps(
            #[trigger] front[i],
        ) by {
            assert(front[i] == commands[i]);
        }
        lemma_toggles_in_any_order(before, front);
        assert(toggles_or_keeps(commands[commands.len() - 1]));
    }
}

/// The notification that `command` asks for.
pub open spec fn notice_of(command: CommandView, notice: Option<Notice>) -> bool {
    match command {
        CommandView::Notification(NotificationView::Test(text)) => {
            &&& notice matches Some(notice)
            &&& notice.summary@ == test_summary()
            &&& notice.body@ == text
        },
        CommandView::Coffee(_) => notice is None,
    }
}

/// Carries out one command on the shared state and says what the caller owes
/// the outside world for it.
///
/// A request to the idle inhibitor goes through `wire`, which is called at
/// most once, and only with the request that the command sends: a status
/// request or a test notification never calls it. The status in the reply is
/// read from the inhibitor after the command, so that it is what the
/// inhibitor reports and never a guess. A command that fails leaves the
/// state as it was and is still answered, with the status that held before.
pub fn dispatch<F>(
    command: Command,
    state: &mut DaemonState,
    config: &Configuration,
    wire: F,
) -> (reply: Reply)
    where F: FnOnce(Request) -> Result<(), WaylandClientError>
    requires
        request_of(old(state)@.wayland, command@) matches Some(request) ==> wire.requires(
            (request,),
        ),
    ensures
        old(state)@.wf() ==> final(state)@.wf(),
        reply.outcome is Ok ==> final(state)@.wayland == wayland_after(
            old(state)@.wayland,
            command@,
        ),
        reply.outcome is Err ==> final(state)@ == old(state)@,
        request_of(old(state)@.wayland, command@) is None ==> reply.outcome is Ok,
        reply.status == final(state)@.idle(),
        reply.response.inhibited == reply.status.inhibited,
        reply.response.icon == (if reply.status.inhibited {
            config.coffee.coffee
        } else {
            config.coffee.relax
        }),
        notice_of(command@, reply.notice),
        match command@ {
            CommandView::Coffee(Coffee::Drink) => drink_outcome(
                old(state)@,
                final(state)@,
                wire,
                reply.outcome,
            ),
            CommandView::Coffee(Coffee::Relax) => relax_outcome(
                old(state)@,
                final(state)@,
                wire,
                reply.outcome,
            ),
            CommandView::Coffee(Coffee::Toggle) => toggle_outcome(
                old(state)@,
                final(state)@,
                wire,
                reply.outcome,
            ),
            _ => {
                &&& final(state)@ == old(state)@
                &&& reply.outcome == Ok::<TimerChange, CoffeeError>(
                    TimerChange { canceled: None, started: None },
                )
            },
        },
{
    let mut notice: Option<Notice> = None;
    let outcome = match command {
        Command::Coffee(coffee) => match coffee {
            Coffee::Drink => coffeinate(state, wire),
            Coffee::Relax => decoffeinate(state, wire),
            Coffee::Toggle => toggle(state, wire),
            Coffee::Get => Ok(TimerChange { canceled: None, started: None }),
        },
        Command::Notification(notification) => match notification {
            Notification::Test(text) => {
                notice = Some(Notice { summary: "Glue Test".to_string(), body: text });
                Ok(TimerChange { canceled: None, started: None })
            },
        },
    };
    let status = state.idle_state();
    let response = CoffeeResponse::new(config, &status);
    Reply { status, response, notice, outcome }
}

/// How many characters the name of a daemon has.
pub const DAEMON_ID_LEN: usize = 12;

/// Draws `length` letters and digits at random, through
/// `rand::Rng::sample_iter` with `rand::distr::Alphanumeric` on the thread's
/// generator, which takes its seed from the operating system. The contract
/// claims only what holds of every draw: the length, and that each character
/// is an ASCII letter or digit.
#[verifier::external_body]
fn sample_alphanumeric(length: usize) -> (drawn: String)
    ensures
        drawn@.len() == length,
        forall|i: int| 0 <= i < drawn@.len() ==> is_ascii_alphanumeric(#[trigger] drawn@[i]),
{
    rand::rng().sample_iter(&Alphanumeric).take(length).map(char::from).collect()
}

/// A name for this run of the daemon: twelve letters and digits, drawn at
/// random, so that two runs hardly ever share one.
pub fn daemon_id() -> (id: String)
    ensures
        id@.len() == DAEMON_ID_LEN,
        forall|i: int| 0 <= i < id@.len() ==> is_ascii_alphanumeric(#[trigger] id@[i]),
{
    sample_alphanumeric(DAEMON_ID_LEN)
}

/// The file into which the daemon with the name `daemon_id` logs.
pub fn log_file(daemon_id: &str) -> (path: String)
    ensures
        path@ == "/tmp/glue/glue-"@ + daemon_id@ + ".log"@,
{
    let mut path = "/tmp/glue/glue-".to_string();
    path.append(daemon_id);
    path.append(".log");
    path
}

} // verus!
