//! A timer that can be cancelled before it fires.
//!
//! The timer itself does not wait. The caller runs the delay and tells the
//! timer when it is over; the timer answers whether the reminder is still
//! wanted.

use std::time::Duration;
use vstd::prelude::*;

verus! {

/// Where a timer stands.
#[derive(Debug, Clone, Copy, PartialEq, Eq, Structural)]
pub enum TimerState {
    /// Created, and not started yet.
    Idle,
    /// The delay is running.
    Running,
    /// The delay ran out and the reminder was due.
    Expired,
    /// Cancelled: the reminder is not wanted any more.
    Canceled,
}

/// What can happen to a timer.
#[derive(Debug, Clone, Copy, PartialEq, Eq, Structural)]
pub enum TimerEvent {
    Start,
    Cancel,
    Elapsed,
}

/// The state of a timer after `event`.
pub open spec fn timer_step(state: TimerState, event: TimerEvent) -> TimerState {
    match event {
        TimerEvent::Start => match state {
            TimerState::Canceled => TimerState::Canceled,
            _ => TimerState::Running,
        },
        TimerEvent::Cancel => TimerState::Canceled,
        TimerEvent::Elapsed => match state {
            TimerState::Running => TimerState::Expired,
            other => other,
        },
    }
}

/// Whether `event` makes a timer in `state` fire: only a running timer fires,
/// and only when its delay is over.
pub open spec fn timer_fires(state: TimerState, event: TimerEvent) -> bool {
    state == TimerState::Running && event == TimerEvent::Elapsed
}

/// The state of a timer after the events, taken in order.
pub open spec fn timer_run(state: TimerState, events: Seq<TimerEvent>) -> TimerState
    decreases events.len(),
{
    if events.len() == 0 {
        state
    } else {
        timer_run(timer_step(state, events[0]), events.drop_first())
    }
}

/// Whether the timer fires at any of the events, taken in order.
pub open spec fn timer_ever_fires(state: TimerState, events: Seq<TimerEvent>) -> bool
    decreases events.len(),
{
    if events.len() == 0 {
        false
    } else {
        timer_fires(state, events[0]) || timer_ever_fires(
            timer_step(state, events[0]),
            events.drop_first(),
        )
    }
}

/// Timer cancellation: a cancelled timer stays cancelled and never fires,
/// whatever happens to it afterwards.
pub proof fn lemma_canceled_timer_never_fires(events: Seq<TimerEvent>)
    ensures
        timer_run(TimerState::Canceled, events) == TimerState::Canceled,
        !timer_ever_fires(TimerState::Canceled, events),
    decreases events.len(),
{
    if events.len() > 0 {
        lemma_canceled_timer_never_fires(events.drop_first());
    }
}

/// Timer cancellation: a timer that is cancelled before its delay is over
/// never fires, whatever state it was in and whatever happens afterwards.
pub proof fn lemma_cancel_suppresses_expiry(state: TimerState, events: Seq<TimerEvent>)
    ensures
        !timer_ever_fires(state, seq![TimerEvent::Cancel] + events),
{
    let all = seq![TimerEvent::Cancel] + events;
    assert(all[0] == TimerEvent::Cancel);
    assert(all.drop_first() =~= events);
    lemma_canceled_timer_never_fires(events);
}

/// A timer fires at most once between two starts.
pub proof fn lemma_timer_fires_once(state: TimerState)
    ensures
        !timer_fires(timer_step(state, TimerEvent::Elapsed), TimerEvent::Elapsed),
{
}

/// A delayed reminder that can be cancelled.
#[derive(Debug)]
pub struct CancelableTimer {
    id: u64,
    duration: Duration,
    state: TimerState,
}

/// What the caller runs for a started timer: it waits for `duration`, then
/// reports that the delay of timer `id` is over.
#[derive(Debug)]
pub struct TimerTask {
    pub id: u64,
    pub duration: Duration,
}

/// A [`CancelableTimer`] as contracts see it.
pub ghost struct TimerView {
    pub id: u64,
    pub duration: Duration,
    pub state: TimerState,
}

impl View for CancelableTimer {
    type V = TimerView;

    open spec fn view(&self) -> TimerView {
        TimerView { id: self.id(), duration: self.duration(), state: self.state() }
    }
}

impl CancelableTimer {
    /// The number that tells this timer from others.
    pub closed spec fn id(&self) -> u64 {
        self.id
    }

    /// The delay after which the reminder is due.
    pub closed spec fn duration(&self) -> Duration {
        self.duration
    }

    /// Where the timer stands.
    pub closed spec fn state(&self) -> TimerState {
        self.state
    }

    /// A timer that has not been started.
    pub fn new(id: u64, duration: Duration) -> (timer: Self)
        ensures
            timer.id() == id,
            timer.duration() == duration,
            timer.state() == TimerState::Idle,
    {
        CancelableTimer { id, duration, state: TimerState::Idle }
    }

    /// Starts the delay, and hands out the task that the caller runs for it.
    /// A cancelled timer does not start again.
    pub fn start(&mut self) -> (task: Option<TimerTask>)
        ensures
            final(self).state() == timer_step(old(self).state(), TimerEvent::Start),
            final(self).id() == old(self).id(),
            final(self).duration() == old(self).duration(),
            old(self).state() == TimerState::Canceled <==> task is None,
            task matches Some(task) ==> task.id == old(self).id() && task.duration == old(
                self,
            ).duration(),
    {
        match self.state {
            TimerState::Canceled => None,
            _ => {
                self.state = TimerState::Running;
                Some(TimerTask { id: self.id, duration: self.duration })
            },
        }
    }

    /// Cancels the timer. It can be called at any time and any number of
    /// times; a reminder that was already due is not taken back.
    pub fn cancel(&mut self)
        ensures
            final(self).state() == timer_step(old(self).state(), TimerEvent::Cancel),
            final(self).state() == TimerState::Canceled,
            final(self).id() == old(self).id(),
            final(self).duration() == old(self).duration(),
    {
        self.state = TimerState::Canceled;
    }

    /// The delay is over. Says whether the reminder is due now: it is exactly
    /// when the timer was running.
    pub fn expire(&mut self) -> (fire: bool)
        ensures
            fire == timer_fires(old(self).state(), TimerEvent::Elapsed),
            final(self).state() == timer_step(old(self).state(), TimerEvent::Elapsed),
            final(self).id() == old(self).id(),
            final(self).duration() == old(self).duration(),
    {
        match self.state {
            TimerState::Running => {
                self.state = TimerState::Expired;
                true
            },
            _ => false,
        }
    }

    /// The number that tells this timer from others.
    pub fn number(&self) -> (id: u64)
        ensures
            id == self.id(),
    {
        self.id
    }

    /// The delay after which the reminder is due.
    pub fn delay(&self) -> (duration: Duration)
        ensures
            duration == self.duration(),
    {
        self.duration
    }
}

} // verus!
