//! The battery as the daemon watches it: it notes each reading, and says what
//! is to be shown when the reading changed.

use crate::battery::{
    battery_icon, capacity_of_file, icon_for, icons_usable, state_of_file, BatteryStatus,
};
use crate::error::BatteryError;
use crate::configuration::{BatteryEvent, Configuration};
use vstd::prelude::*;

verus! {

/// Something that the daemon reacts to.
#[derive(Debug)]
pub enum Event {
    Battery(BatteryEvent),
}

/// The battery as it is shown.
#[derive(Debug, Clone, Copy, PartialEq, Eq, Structural)]
pub struct BatteryState {
    pub status: BatteryStatus,
    pub capacity: u8,
    pub icon: char,
}

/// The battery as the daemon watches it.
#[derive(Debug)]
pub struct Battery {
    charging_states: Vec<char>,
    full: char,
    charging: char,
    empty: char,
    path: String,
    status: BatteryStatus,
    capacity: u8,
    events: Vec<Event>,
}

/// A [`Battery`] as contracts see it.
pub ghost struct BatteryView {
    pub charging_states: Seq<char>,
    pub full: char,
    pub charging: char,
    pub empty: char,
    pub path: Seq<char>,
    pub status: BatteryStatus,
    pub capacity: u8,
    pub events: Seq<BatteryEvent>,
}

/// The battery events among `events`, in order.
pub open spec fn battery_events(events: Seq<Event>) -> Seq<BatteryEvent> {
    Seq::new(
        events.len(),
        |i: int|
            match events[i] {
                Event::Battery(event) => event,
            },
    )
}

impl View for Battery {
    type V = BatteryView;

    closed spec fn view(&self) -> BatteryView {
        BatteryView {
            charging_states: self.charging_states@,
            full: self.full,
            charging: self.charging,
            empty: self.empty,
            path: self.path@,
            status: self.status,
            capacity: self.capacity,
            events: battery_events(self.events@),
        }
    }
}

/// Whether `event` is due at this state and charge and has a text to show.
pub open spec fn event_notifies(event: BatteryEvent, status: BatteryStatus, capacity: u8) -> bool {
    event.state == status && event.charge == capacity && event.notify is Some
}

/// The texts of the events that are due at this state and charge, in the
/// order of the events.
pub open spec fn due_notices(events: Seq<BatteryEvent>, status: BatteryStatus, capacity: u8) -> Seq<
    Seq<char>,
>
    decreases events.len(),
{
    if events.len() == 0 {
        Seq::empty()
    } else if event_notifies(events.last(), status, capacity) {
        due_notices(events.drop_last(), status, capacity).push(events.last().notify->Some_0@)
    } else {
        due_notices(events.drop_last(), status, capacity)
    }
}

impl BatteryView {
    /// The icon of the battery as it is.
    pub open spec fn icon(self) -> char {
        battery_icon(
            self.status,
            self.capacity,
            self.charging_states,
            self.full,
            self.charging,
            self.empty,
        )
    }

    /// Whether a reading differs from what was noted.
    pub open spec fn differs(self, capacity: u8, status: BatteryStatus) -> bool {
        self.status != status || self.capacity != capacity
    }
}

/// What is to be done after a reading that differs from the one before: the
/// notifications to show, and the state to push to the widget shell.
#[derive(Debug)]
pub struct BatteryChange {
    pub notices: Vec<String>,
    pub state: BatteryState,
}

impl Battery {
    /// The battery before its first reading: empty, at no charge, with the
    /// icons, the path and the events of the configuration.
    pub fn new(config: &Configuration) -> (battery: Self)
        ensures
            battery@.charging_states == config.battery.charging_states@,
            battery@.full == config.battery.full,
            battery@.charging == config.battery.charging,
            battery@.empty == config.battery.empty,
            battery@.path == config.battery.path@,
            battery@.status == BatteryStatus::Empty,
            battery@.capacity == 0,
            battery@.events.len() == (match config.event {
                Some(events) => events.battery@.len(),
                None => 0,
            }),
            forall|i: int|
                0 <= i < battery@.events.len() ==> same_event(
                    #[trigger] battery@.events[i],
                    config.event->Some_0.battery@[i],
                ),
    {
        let mut events: Vec<Event> = Vec::new();
        match &config.event {
            Some(all_events) => {
                let mut i: usize = 0;
                while i < all_events.battery.len()
                    invariant
                        i <= all_events.battery@.len(),
                        events@.len() == i,
                        forall|k: int|
                            0 <= k < i ==> same_event(
                                #[trigger] battery_events(events@)[k],
                                all_events.battery@[k],
                            ),
                    decreases all_events.battery@.len() - i,
                {
                    let ghost before = events@;
                    let copy = copy_event(&all_events.battery[i]);
                    events.push(Event::Battery(copy));
                    assert forall|k: int| 0 <= k < i + 1 implies same_event(
                        #[trigger] battery_events(events@)[k],
                        all_events.battery@[k],
                    ) by {
                        if k < i {
                            assert(battery_events(events@)[k] == battery_events(before)[k]);
                        }
                    }
                    i = i + 1;
                }
            },
            None => {},
        }
        Battery {
            charging_states: config.battery.charging_states.clone(),
            full: config.battery.full,
            charging: config.battery.charging,
            empty: config.battery.empty,
            path: config.battery.path.clone(),
            status: BatteryStatus::Empty,
            capacity: 0,
            events,
        }
    }

    /// Reads the charge and the state from the contents of the battery's
    /// `capacity` and `status` files. The charge is read first: where both
    /// files are bad, the error is the charge's.
    pub fn read_state(raw_capacity: &str, raw_status: &str) -> (reading: Result<
        (u8, BatteryStatus),
        BatteryError,
    >)
        ensures
            match reading {
                Ok((capacity, status)) => {
                    &&& capacity_of_file(raw_capacity@) == Some(capacity as nat)
                    &&& state_of_file(raw_status@) == Some(status)
                },
                Err(BatteryError::ParseCapacity(_)) => capacity_of_file(raw_capacity@) is None,
                Err(BatteryError::UnknownState(_)) => capacity_of_file(raw_capacity@) is Some
                    && state_of_file(raw_status@) is None,
                Err(BatteryError::ReadFile(_, _)) => false,
            },
    {
        let capacity = crate::battery::Battery::read_capacity(raw_capacity)?;
        let status = crate::battery::Battery::read_state(raw_status)?;
        Ok((capacity, status))
    }

    /// The directory from which the battery is read.
    pub fn path(&self) -> (path: String)
        ensures
            path@ == self@.path,
    {
        self.path.clone()
    }

    /// The icon of the battery as it is.
    pub fn icon(&self) -> (icon: char)
        requires
            self@.status == BatteryStatus::Discharging ==> icons_usable(
                self@.charging_states.len(),
            ),
        ensures
            icon == self@.icon(),
    {
        icon_for(
            self.status,
            self.capacity,
            &self.charging_states,
            self.full,
            self.charging,
            self.empty,
        )
    }

    /// The texts of the events that are due as the battery is, in the order
    /// of the events.
    pub fn event(&self) -> (notices: Vec<String>)
        ensures
            crate::text::views(notices@) == due_notices(
                self@.events,
                self@.status,
                self@.capacity,
            ),
    {
        let mut notices: Vec<String> = Vec::new();
        let mut i: usize = 0;
        let ghost events = battery_events(self.events@);
        assert(events.take(0) =~= Seq::<BatteryEvent>::empty());
        assert(crate::text::views(notices@) =~= Seq::<Seq<char>>::empty());
        while i < self.events.len()
            invariant
                i <= self.events@.len(),
                events == battery_events(self.events@),
                crate::text::views(notices@) == due_notices(
                    events.take(i as int),
                    self.status,
                    self.capacity,
                ),
            decreases self.events@.len() - i,
        {
            let ghost next = events.take(i + 1);
            assert(next.drop_last() =~= events.take(i as int));
            match &self.events[i] {
                Event::Battery(event) => {
                    assert(next.last() == *event);
                    if event.state == self.status && event.charge == self.capacity {
                        match &event.notify {
                            Some(text) => {
                                let ghost before = notices@;
                                notices.push(text.clone());
                                assert(crate::text::views(notices@) =~= crate::text::views(
                                    before,
                                ).push(text@));
                            },
                            None => {},
                        }
                    }
                },
            }
            i = i + 1;
        }
        assert(events.take(self.events@.len() as int) =~= events);
        notices
    }

    /// Takes note of a reading. Where it differs from the one before, the
    /// result says what is to be shown; where it does not, nothing happens.
    pub fn update(&mut self, capacity: u8, status: BatteryStatus) -> (change: Option<BatteryChange>)
        requires
            status == BatteryStatus::Discharging ==> icons_usable(
                old(self)@.charging_states.len(),
            ),
        ensures
            final(self)@ == (BatteryView { status, capacity, ..old(self)@ }),
            match change {
                Some(change) => {
                    &&& old(self)@.differs(capacity, status)
                    &&& change.state == (BatteryState {
                        status,
                        capacity,
                        icon: final(self)@.icon(),
                    })
                    &&& crate::text::views(change.notices@) == due_notices(
                        old(self)@.events,
                        status,
                        capacity,
                    )
                },
                None => !old(self)@.differs(capacity, status),
            },
    {
        if self.status != status || self.capacity != capacity {
            self.capacity = capacity;
            self.status = status;
            let notices = self.event();
            let state = BatteryState { status: self.status, capacity: self.capacity, icon: self.icon() };
            Some(BatteryChange { notices, state })
        } else {
            None
        }
    }
}

/// Whether two events are due at the same state and charge, show the same
/// text, and run the same command and hooks.
pub open spec fn same_event(left: BatteryEvent, right: BatteryEvent) -> bool {
    &&& left.charge == right.charge
    &&& left.state == right.state
    &&& notify_text(left) == notify_text(right)
    &&& shell_text(left) == shell_text(right)
    &&& hook_texts(left) == hook_texts(right)
}

/// The shell command of an event, if it has one.
pub open spec fn shell_text(event: BatteryEvent) -> Option<Seq<char>> {
    match event.shell {
        Some(text) => Some(text@),
        None => None,
    }
}

/// The hooks of an event, if it has any.
pub open spec fn hook_texts(event: BatteryEvent) -> Option<Seq<Seq<char>>> {
    match event.hooks {
        Some(hooks) => Some(crate::text::views(hooks@)),
        None => None,
    }
}

/// A copy of `event`.
pub fn copy_event(event: &BatteryEvent) -> (copy: BatteryEvent)
    ensures
        same_event(copy, *event),
{
    BatteryEvent {
        charge: event.charge,
        state: event.state,
        notify: match &event.notify {
            Some(text) => Some(text.clone()),
            None => None,
        },
        shell: match &event.shell {
            Some(text) => Some(text.clone()),
            None => None,
        },
        hooks: match &event.hooks {
            Some(hooks) => Some(crate::text::copy_texts(hooks)),
            None => None,
        },
    }
}

/// The text of the notification of an event, if it has one.
pub open spec fn notify_text(event: BatteryEvent) -> Option<Seq<char>> {
    match event.notify {
        Some(text) => Some(text@),
        None => None,
    }
}

} // verus!
