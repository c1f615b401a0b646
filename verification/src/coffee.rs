//! Keeping the system awake: the state that the daemon's activities share,
//! the transitions of the idle inhibitor and the reminder that goes with
//! them.
//!
//! Every function here runs to its end without waiting for anything, so that
//! a caller who holds the state's lock for the length of one call sees each
//! transition as a whole.

use crate::configuration::Configuration;
use crate::error::CoffeeError;
use crate::utils::{
    timer_fires, timer_step, CancelableTimer, TimerEvent, TimerState, TimerTask, TimerView,
};
use crate::wayland::{
    Binding, RegistryEvent, Request, WaylandClient, WaylandClientError, WaylandClientView,
    WaylandIdle,
};
use std::time::Duration;
use vstd::prelude::*;

verus! {

/// Whether the system is kept from idling, as clients are told.
#[derive(Debug, Clone, Copy, PartialEq, Eq, Structural)]
pub struct IdleState {
    pub inhibited: bool,
}

impl From<WaylandIdle> for IdleState {
    fn from(value: WaylandIdle) -> (state: Self) {
        IdleState { inhibited: value.inhibited }
    }
}

impl vstd::std_specs::convert::FromSpecImpl<WaylandIdle> for IdleState {
    open spec fn obeys_from_spec() -> bool {
        true
    }

    open spec fn from_spec(value: WaylandIdle) -> Self {
        IdleState { inhibited: value.inhibited }
    }
}

impl From<&WaylandIdle> for IdleState {
    fn from(value: &WaylandIdle) -> (state: Self) {
        IdleState { inhibited: value.inhibited }
    }
}

impl vstd::std_specs::convert::FromSpecImpl<&WaylandIdle> for IdleState {
    open spec fn obeys_from_spec() -> bool {
        true
    }

    open spec fn from_spec(value: &WaylandIdle) -> Self {
        IdleState { inhibited: value.inhibited }
    }
}

impl From<&DaemonState> for IdleState {
    fn from(val: &DaemonState) -> (state: Self) {
        val.idle_state()
    }
}

impl vstd::std_specs::convert::FromSpecImpl<&DaemonState> for IdleState {
    open spec fn obeys_from_spec() -> bool {
        true
    }

    open spec fn from_spec(val: &DaemonState) -> Self {
        val@.idle()
    }
}

/// What a command changed about the reminder timers. The caller signals the
/// task of the cancelled timer, if it likes, and runs the task of the started
/// one.
#[derive(Debug)]
pub struct TimerChange {
    /// The number of the timer that is no longer armed.
    pub canceled: Option<u64>,
    /// The task of the timer that was armed.
    pub started: Option<TimerTask>,
}

/// The state that all activities of the daemon share.
pub struct DaemonState {
    /// What is known of the display server's idle inhibitor.
    wayland_idle: WaylandClient,
    /// After how long a reminder is due. `None`: never.
    notification: Option<Duration>,
    /// The timer that is armed.
    idle_notify: Option<CancelableTimer>,
    /// The number that the next timer gets.
    timers: u64,
}

/// A [`DaemonState`] as contracts see it.
pub ghost struct DaemonStateView {
    pub wayland: WaylandClientView,
    pub notification: Option<Duration>,
    pub timer: Option<TimerView>,
    pub timers: u64,
}

impl View for DaemonState {
    type V = DaemonStateView;

    closed spec fn view(&self) -> DaemonStateView {
        DaemonStateView {
            wayland: self.wayland_idle@,
            notification: self.notification,
            timer: match self.idle_notify {
                Some(timer) => Some(timer@),
                None => None,
            },
            timers: self.timers,
        }
    }
}

impl DaemonStateView {
    /// What the state needs to be valid.
    pub open spec fn wf(self) -> bool {
        self.wayland.wf()
    }

    /// The status that clients are told.
    pub open spec fn idle(self) -> IdleState {
        IdleState { inhibited: self.wayland.idle_inhibitor }
    }

    /// The number of the timer after the next one.
    pub open spec fn following_timer(self) -> u64 {
        if self.timers == u64::MAX {
            0
        } else {
            (self.timers + 1) as u64
        }
    }

    /// The timers after the system went from idling to inhibited: where a
    /// reminder is configured, a new running timer takes the place of
    /// whatever was armed.
    pub open spec fn armed(self) -> Self {
        match self.notification {
            Some(duration) => DaemonStateView {
                timer: Some(TimerView { id: self.timers, duration, state: TimerState::Running }),
                timers: self.following_timer(),
                ..self
            },
            None => self,
        }
    }

    /// What arming changes about the timers.
    pub open spec fn armed_change(self) -> TimerChange {
        match self.notification {
            Some(duration) => TimerChange {
                canceled: match self.timer {
                    Some(timer) => Some(timer.id),
                    None => None,
                },
                started: Some(TimerTask { id: self.timers, duration }),
            },
            None => TimerChange { canceled: None, started: None },
        }
    }

    /// The timers after the inhibitor was released: none is armed.
    pub open spec fn disarmed(self) -> Self {
        DaemonStateView { timer: None, ..self }
    }

    /// What disarming changes about the timers.
    pub open spec fn disarmed_change(self) -> TimerChange {
        TimerChange {
            canceled: match self.timer {
                Some(timer) => Some(timer.id),
                None => None,
            },
            started: None,
        }
    }

    /// The state after the delay of timer `id` ran out: the armed timer takes
    /// note if it is the one, and nothing else changes.
    pub open spec fn elapsed(self, id: u64) -> Self {
        match self.timer {
            Some(timer) if timer.id == id => DaemonStateView {
                timer: Some(
                    TimerView { state: timer_step(timer.state, TimerEvent::Elapsed), ..timer },
                ),
                ..self
            },
            _ => self,
        }
    }

    /// The delay for which the reminder of timer `id` is due now, if it is:
    /// only the timer that is armed fires, and only while it runs.
    pub open spec fn due(self, id: u64) -> Option<Duration> {
        match self.timer {
            Some(timer) if timer.id == id && timer_fires(timer.state, TimerEvent::Elapsed) => Some(
                timer.duration,
            ),
            _ => None,
        }
    }
}

impl DaemonState {
    /// The state of a daemon that has just started: nothing is known of the
    /// display server, no timer is armed, and the reminder delay is the
    /// configured one.
    pub fn new(config: &Configuration) -> (state: Self)
        ensures
            state@.wf(),
            state@.wayland == (WaylandClientView {
                compositor: None,
                surface: false,
                idle_manager: None,
                idle_inhibitor: false,
            }),
            state@.notification == config.coffee.notification,
            state@.timer is None,
            state@.timers == 0,
    {
        DaemonState {
            wayland_idle: WaylandClient::new(),
            idle_notify: None,
            notification: config.coffee.notification,
            timers: 0,
        }
    }

    /// Takes note of a registry event of the display server and says what is
    /// to be bound.
    pub fn registry_event(&mut self, event: &RegistryEvent) -> (binding: Binding)
        ensures
            old(self)@.wf() ==> final(self)@.wf(),
            binding == old(self)@.wayland.binding(event@),
            final(self)@ == (DaemonStateView {
                wayland: old(self)@.wayland.event(event@),
                ..old(self)@
            }),
    {
        self.wayland_idle.event(event)
    }

    /// The status that clients are told: what the idle inhibitor reports now.
    pub fn idle_state(&self) -> (state: IdleState)
        ensures
            state == self@.idle(),
    {
        match self.wayland_idle.get() {
            Ok(idle) => IdleState { inhibited: idle.inhibited },
            Err(_) => IdleState { inhibited: false },
        }
    }

    /// The delay of timer `id` ran out. Gives the delay if the reminder is to
    /// be shown now, which is the case exactly when that timer is the armed
    /// one and is running. A timer that was cancelled or replaced in the
    /// meantime stays silent.
    pub fn timer_elapsed(&mut self, id: u64) -> (due: Option<Duration>)
        ensures
            due == old(self)@.due(id),
            final(self)@ == old(self)@.elapsed(id),
    {
        let mut slot = self.idle_notify.take();
        let due = match &mut slot {
            Some(timer) => {
                if timer.number() == id {
                    if timer.expire() {
                        Some(timer.delay())
                    } else {
                        None
                    }
                } else {
                    None
                }
            },
            None => None,
        };
        self.idle_notify = slot;
        due
    }
}

/// What a client is told, and the widget shell shown, about the idle
/// inhibitor.
#[derive(Debug, Clone, Copy, PartialEq, Eq, Structural)]
pub struct CoffeeResponse {
    pub inhibited: bool,
    pub icon: char,
}

impl CoffeeResponse {
    /// The response for `state`: the configured icon of that state beside it.
    pub fn new(configuration: &Configuration, state: &IdleState) -> (response: Self)
        ensures
            response.inhibited == state.inhibited,
            response.icon == (if state.inhibited {
                configuration.coffee.coffee
            } else {
                configuration.coffee.relax
            }),
    {
        CoffeeResponse {
            inhibited: state.inhibited,
            icon: if state.inhibited {
                configuration.coffee.coffee
            } else {
                configuration.coffee.relax
            },
        }
    }
}

/// What a client shows for the daemon's answer, and what it returns.
///
/// A daemon that could not be reached is shown as a system that may idle, and
/// the error is handed on. An answer without a payload acknowledges the
/// request: nothing is shown. Any other answer is shown as it is.
pub fn client(configuration: &Configuration, answer: Result<Option<WaylandIdle>, CoffeeError>) -> (report:
    (Option<CoffeeResponse>, Result<(), CoffeeError>))
    ensures
        match answer {
            Err(error) => {
                &&& report.0 == Some(
                    CoffeeResponse { inhibited: false, icon: configuration.coffee.relax },
                )
                &&& report.1 == Err::<(), CoffeeError>(error)
            },
            Ok(None) => report.0 is None && report.1 is Ok,
            Ok(Some(state)) => {
                &&& report.0 == Some(
                    CoffeeResponse {
                        inhibited: state.inhibited,
                        icon: if state.inhibited {
                            configuration.coffee.coffee
                        } else {
                            configuration.coffee.relax
                        },
                    },
                )
                &&& report.1 is Ok
            },
        },
{
    match answer {
        Err(error) => {
            let default_state = WaylandIdle { inhibited: false };
            let shown = CoffeeResponse::new(configuration, &IdleState::from(default_state));
            (Some(shown), Err(error))
        },
        Ok(None) => (None, Ok(())),
        Ok(Some(state)) => {
            let shown = CoffeeResponse::new(configuration, &IdleState::from(state));
            (Some(shown), Ok(()))
        },
    }
}

/// Timer cancellation: once the inhibitor is released, no timer is due any
/// more, whichever delay runs out afterwards.
pub proof fn lemma_released_state_is_silent(before: DaemonStateView, id: u64)
    ensures
        before.disarmed().due(id) is None,
        before.disarmed().elapsed(id) == before.disarmed(),
{
}

/// Only the timer that is armed fires, only while it runs, and only once.
pub proof fn lemma_one_timer_fires_once(state: DaemonStateView, id: u64)
    ensures
        state.due(id) is Some ==> state.timer is Some && state.timer->Some_0.id == id
            && state.timer->Some_0.state == TimerState::Running,
        state.elapsed(id).due(id) is None,
{
}

/// A timer that was replaced stays silent: after arming, the only timer that
/// can be due is the new one.
pub proof fn lemma_replaced_timer_is_silent(before: DaemonStateView, id: u64)
    requires
        before.notification is Some,
        id != before.timers,
    ensures
        before.armed().due(id) is None,
        before.armed().due(before.timers) == before.notification,
{
}

/// What holds after a request to keep the system awake, of the state before
/// and after it, of the `wire` that carries requests to the display server,
/// and of the result.
///
/// Where no request is sent, nothing changes and the call succeeds. Where one
/// is sent, the result is the wire's: on success the system is inhibited and
/// the reminder is armed, on failure the whole state stays as it was.
pub open spec fn drink_outcome<F: FnOnce(Request) -> Result<(), WaylandClientError>>(
    before: DaemonStateView,
    after: DaemonStateView,
    wire: F,
    result: Result<TimerChange, CoffeeError>,
) -> bool {
    match result {
        Ok(change) => if before.wayland.inhibit_sends() {
            &&& wire.ensures((Request::CreateInhibitor,), Ok(()))
            &&& after == (DaemonStateView { wayland: before.wayland.inhibit(), ..before.armed() })
            &&& change == before.armed_change()
        } else {
            &&& after == before
            &&& change == (TimerChange { canceled: None, started: None })
        },
        Err(error) => {
            &&& before.wayland.inhibit_sends()
            &&& error matches CoffeeError::WaylandError(cause)
            &&& wire.ensures((Request::CreateInhibitor,), Err(cause))
            &&& after == before
        },
    }
}

/// What holds after a request to let the system idle again.
///
/// Where no inhibitor exists, no request is sent and the call succeeds. Where
/// one is sent, the result is the wire's. On success the system may idle and
/// no timer is armed any more; on failure the whole state stays as it was.
pub open spec fn relax_outcome<F: FnOnce(Request) -> Result<(), WaylandClientError>>(
    before: DaemonStateView,
    after: DaemonStateView,
    wire: F,
    result: Result<TimerChange, CoffeeError>,
) -> bool {
    match result {
        Ok(change) => {
            &&& before.wayland.release_sends() ==> wire.ensures(
                (Request::DestroyInhibitor,),
                Ok(()),
            )
            &&& after == (DaemonStateView {
                wayland: before.wayland.release(),
                ..before.disarmed()
            })
            &&& change == before.disarmed_change()
        },
        Err(error) => {
            &&& before.wayland.release_sends()
            &&& error matches CoffeeError::WaylandError(cause)
            &&& wire.ensures((Request::DestroyInhibitor,), Err(cause))
            &&& after == before
        },
    }
}

/// What holds after a request to switch to the other state: what holds after
/// a release where the system was kept awake, and what holds after a request
/// to keep it awake where it was not.
pub open spec fn toggle_outcome<F: FnOnce(Request) -> Result<(), WaylandClientError>>(
    before: DaemonStateView,
    after: DaemonStateView,
    wire: F,
    result: Result<TimerChange, CoffeeError>,
) -> bool {
    if before.idle().inhibited {
        relax_outcome(before, after, wire, result)
    } else {
        drink_outcome(before, after, wire, result)
    }
}

/// Keeps the system awake.
///
/// The inhibitor is asked to inhibit. `wire` is called only if that sends a
/// request to the display server, and its failure is the failure of the
/// call: the state is then left as it is, the status and the timers alike. A
/// reminder is armed only when the system really went from idling to
/// inhibited, so that a repeated call arms no second timer.
///
/// `wire` needs to accept the request only where one is sent.
pub fn coffeinate<F>(state: &mut DaemonState, wire: F) -> (result: Result<TimerChange, CoffeeError>)
    where F: FnOnce(Request) -> Result<(), WaylandClientError>
    requires
        old(state)@.wayland.inhibit_sends() ==> wire.requires((Request::CreateInhibitor,)),
    ensures
        old(state)@.wf() ==> final(state)@.wf(),
        result is Ok ==> final(state)@.wayland == old(state)@.wayland.inhibit(),
        result is Err ==> final(state)@ == old(state)@,
        !old(state)@.wayland.inhibit_sends() ==> result is Ok,
        drink_outcome(old(state)@, final(state)@, wire, result),
{
    let before: bool = state.idle_state().inhibited;
    let outcome = state.wayland_idle.inhibit(wire);
    match outcome {
        Ok(done) => {
            assert(outcome == Ok::<(), WaylandClientError>(()));
        },
        Err(cause) => { return Err(CoffeeError::WaylandError(cause)); },
    }
    let after: bool = state.idle_state().inhibited;
    if before || !after {
        return Ok(TimerChange { canceled: None, started: None });
    }
    match state.notification {
        Some(duration) => {
            let canceled: Option<u64> = match &state.idle_notify {
                Some(timer) => Some(timer.number()),
                None => None,
            };
            let mut timer = CancelableTimer::new(state.timers, duration);
            let started = timer.start();
            state.idle_notify = Some(timer);
            state.timers = if state.timers == u64::MAX {
                0
            } else {
                state.timers + 1
            };
            Ok(TimerChange { canceled, started })
        },
        None => Ok(TimerChange { canceled: None, started: None }),
    }
}

/// Lets the system idle again.
///
/// The inhibitor is asked to release. `wire` is called only if an inhibitor
/// exists, and its failure is the failure of the call: the state is then
/// left as it is, the status and the timers alike. Otherwise the armed timer,
/// if there is one, is not armed any more. Where nothing was inhibited the
/// call succeeds and changes nothing but that.
///
/// `wire` needs to accept the request only where one is sent.
pub fn decoffeinate<F>(state: &mut DaemonState, wire: F) -> (result: Result<
    TimerChange,
    CoffeeError,
>)
    where F: FnOnce(Request) -> Result<(), WaylandClientError>
    requires
        old(state)@.wayland.release_sends() ==> wire.requires((Request::DestroyInhibitor,)),
    ensures
        old(state)@.wf() ==> final(state)@.wf(),
        result is Ok ==> final(state)@.wayland == old(state)@.wayland.release()
            && !final(state)@.idle().inhibited,
        result is Err ==> final(state)@ == old(state)@,
        !old(state)@.idle().inhibited ==> result is Ok,
        relax_outcome(old(state)@, final(state)@, wire, result),
{
    let outcome = state.wayland_idle.release(wire);
    match outcome {
        Ok(done) => {
            assert(outcome == Ok::<(), WaylandClientError>(()));
        },
        Err(cause) => { return Err(CoffeeError::WaylandError(cause)); },
    }
    let canceled: Option<u64> = match &state.idle_notify {
        Some(timer) => Some(timer.number()),
        None => None,
    };
    state.idle_notify = None;
    Ok(TimerChange { canceled, started: None })
}

/// Switches to the other state: lets the system idle where it is kept awake,
/// and keeps it awake where it is not. The status is the one that the
/// inhibitor reports at the time of the call. A request that fails leaves the
/// state as it is.
///
/// `wire` needs to accept only the request that is sent.
pub fn toggle<F>(state: &mut DaemonState, wire: F) -> (result: Result<TimerChange, CoffeeError>)
    where F: FnOnce(Request) -> Result<(), WaylandClientError>
    requires
        old(state)@.wayland.toggle_request() matches Some(request) ==> wire.requires(
            (request,),
        ),
    ensures
        old(state)@.wf() ==> final(state)@.wf(),
        result is Ok ==> final(state)@.wayland == old(state)@.wayland.toggle(),
        result is Err ==> final(state)@ == old(state)@,
        toggle_outcome(old(state)@, final(state)@, wire, result),
{
    if state.idle_state().inhibited {
        decoffeinate(state, wire)
    } else {
        coffeinate(state, wire)
    }
}

} // verus!
