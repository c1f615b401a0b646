//! The battery: its state as the kernel reports it, and the icon that shows
//! it.

use crate::configuration::Configuration;
use crate::error::BatteryError;
use crate::text::{decimal_up_to, parse_u8, same_text, trim_end, trimmed_end};
use vstd::prelude::*;

verus! {

/// The charging state of the battery.
#[derive(Debug, Clone, Copy, PartialEq, Eq, Structural)]
pub enum BatteryStatus {
    Charging,
    Discharging,
    Empty,
    Full,
    NotCharging,
}

/// The name under which the kernel reports `status`.
pub open spec fn status_name(status: BatteryStatus) -> Seq<char> {
    match status {
        BatteryStatus::Charging => "Charging"@,
        BatteryStatus::Discharging => "Discharging"@,
        BatteryStatus::Empty => "Empty"@,
        BatteryStatus::Full => "Full"@,
        BatteryStatus::NotCharging => "Not charging"@,
    }
}

/// The state that the kernel reports under `name`, if it is one.
pub open spec fn status_of_name(name: Seq<char>) -> Option<BatteryStatus> {
    if name == "Charging"@ {
        Some(BatteryStatus::Charging)
    } else if name == "Discharging"@ {
        Some(BatteryStatus::Discharging)
    } else if name == "Empty"@ {
        Some(BatteryStatus::Empty)
    } else if name == "Full"@ {
        Some(BatteryStatus::Full)
    } else if name == "Not charging"@ {
        Some(BatteryStatus::NotCharging)
    } else {
        None
    }
}

/// A state is read back from its name.
pub proof fn lemma_status_name_round_trip(status: BatteryStatus)
    ensures
        status_of_name(status_name(status)) == Some(status),
{
    reveal_strlit("Charging");
    reveal_strlit("Discharging");
    reveal_strlit("Empty");
    reveal_strlit("Full");
    reveal_strlit("Not charging");
    assert("Charging"@.len() == 8);
    assert("Discharging"@.len() == 11);
    assert("Empty"@.len() == 5);
    assert("Full"@.len() == 4);
    assert("Not charging"@.len() == 12);
}

impl BatteryStatus {
    /// Reads a state from the name under which the kernel reports it. Any
    /// other text is refused with the text.
    pub fn parse(value: &str) -> (status: Result<Self, BatteryError>)
        ensures
            match status {
                Ok(status) => status_of_name(value@) == Some(status),
                Err(error) => {
                    &&& status_of_name(value@) is None
                    &&& error matches BatteryError::UnknownState(text)
                    &&& text@ == value@
                },
            },
    {
        if same_text(value, "Charging") {
            Ok(BatteryStatus::Charging)
        } else if same_text(value, "Discharging") {
            Ok(BatteryStatus::Discharging)
        } else if same_text(value, "Empty") {
            Ok(BatteryStatus::Empty)
        } else if same_text(value, "Full") {
            Ok(BatteryStatus::Full)
        } else if same_text(value, "Not charging") {
            Ok(BatteryStatus::NotCharging)
        } else {
            Err(BatteryError::UnknownState(value.to_string()))
        }
    }

    /// The name under which the kernel reports the state.
    pub fn name(&self) -> (name: String)
        ensures
            name@ == status_name(*self),
    {
        match self {
            BatteryStatus::Charging => "Charging".to_string(),
            BatteryStatus::Discharging => "Discharging".to_string(),
            BatteryStatus::Empty => "Empty".to_string(),
            BatteryStatus::Full => "Full".to_string(),
            BatteryStatus::NotCharging => "Not charging".to_string(),
        }
    }
}

impl TryFrom<&str> for BatteryStatus {
    type Error = BatteryError;

    fn try_from(value: &str) -> (status: Result<Self, BatteryError>)
        ensures
            match status {
                Ok(status) => status_of_name(value@) == Some(status),
                Err(error) => {
                    &&& status_of_name(value@) is None
                    &&& error matches BatteryError::UnknownState(text)
                    &&& text@ == value@
                },
            },
    {
        BatteryStatus::parse(value)
    }
}

impl vstd::std_specs::convert::TryFromSpecImpl<&str> for BatteryStatus {
    open spec fn obeys_try_from_spec() -> bool {
        false
    }

    open spec fn try_from_spec(value: &str) -> Result<Self, BatteryError> {
        arbitrary()
    }
}

/// Whether `count` icons can show a discharging battery: the count, as far
/// as one byte holds it, is at least 1 and at most 100.
pub open spec fn icons_usable(count: nat) -> bool {
    1 <= count % 256 <= 100
}

/// Whether `count` icons can show a discharging battery. A caller that takes
/// the icons from a configuration asks before it asks for an icon.
pub fn icons_fit(count: usize) -> (usable: bool)
    ensures
        usable == icons_usable(count as nat),
{
    let low: usize = count % 256;
    1 <= low && low <= 100
}

/// The place of the icon that shows a discharging battery at `capacity`
/// percent among `count` icons: each icon stands for an equal share of a
/// hundred percent.
pub open spec fn icon_index(capacity: u8, count: nat) -> int
    recommends
        icons_usable(count),
{
    (capacity as int) / (100int / ((count % 256) as int))
}

/// The icon that shows the battery in `status` at `capacity` percent.
pub open spec fn battery_icon(
    status: BatteryStatus,
    capacity: u8,
    charging_states: Seq<char>,
    full: char,
    charging: char,
    empty: char,
) -> char
    recommends
        status == BatteryStatus::Discharging ==> icons_usable(charging_states.len()),
{
    match status {
        BatteryStatus::NotCharging => full,
        BatteryStatus::Full => full,
        BatteryStatus::Discharging => if icon_index(capacity, charging_states.len())
            < charging_states.len() {
            charging_states[icon_index(capacity, charging_states.len())]
        } else {
            charging_states.last()
        },
        BatteryStatus::Charging => charging,
        BatteryStatus::Empty => empty,
    }
}

/// The icon that shows the battery in `status` at `capacity` percent, from
/// the given icons.
pub fn icon_for(
    status: BatteryStatus,
    capacity: u8,
    charging_states: &Vec<char>,
    full: char,
    charging: char,
    empty: char,
) -> (icon: char)
    requires
        status == BatteryStatus::Discharging ==> icons_usable(charging_states@.len()),
    ensures
        icon == battery_icon(status, capacity, charging_states@, full, charging, empty),
{
    match status {
        BatteryStatus::NotCharging => full,
        BatteryStatus::Full => full,
        BatteryStatus::Discharging => {
            let count: u8 = (charging_states.len() % 256) as u8;
            assert(100int / (count as int) >= 1) by (nonlinear_arith)
                requires
                    1 <= count <= 100,
            ;
            let share: u8 = 100 / count;
            let index: usize = (capacity / share) as usize;
            if index < charging_states.len() {
                charging_states[index]
            } else {
                charging_states[charging_states.len() - 1]
            }
        },
        BatteryStatus::Charging => charging,
        BatteryStatus::Empty => empty,
    }
}

/// What the battery's `status` file says: the state that its text names,
/// white space at the end aside.
pub open spec fn state_of_file(content: Seq<char>) -> Option<BatteryStatus> {
    status_of_name(trimmed_end(content))
}

/// What the battery's `capacity` file says: the number that its text spells,
/// white space at the end aside, if it is at most 255.
pub open spec fn capacity_of_file(content: Seq<char>) -> Option<nat> {
    decimal_up_to(trimmed_end(content), u8::MAX as nat)
}

/// The battery as it is shown.
#[derive(Debug, Clone, Copy, PartialEq, Eq, Structural)]
pub struct Battery {
    pub state: BatteryStatus,
    pub capacity: u8,
    pub icon: char,
}

impl Battery {
    /// The battery as the contents of its `status` and `capacity` files
    /// describe it, with the icon that the configuration gives that state.
    /// The state is read first: where both files are bad, the error is the
    /// state's.
    pub fn try_new(config: &Configuration, status: &str, capacity: &str) -> (battery: Result<
        Self,
        BatteryError,
    >)
        requires
            state_of_file(status@) == Some(BatteryStatus::Discharging) ==> icons_usable(
                config.battery.charging_states@.len(),
            ),
        ensures
            match battery {
                Ok(battery) => {
                    &&& state_of_file(status@) == Some(battery.state)
                    &&& capacity_of_file(capacity@) == Some(battery.capacity as nat)
                    &&& battery.icon == battery_icon(
                        battery.state,
                        battery.capacity,
                        config.battery.charging_states@,
                        config.battery.full,
                        config.battery.charging,
                        config.battery.empty,
                    )
                },
                Err(BatteryError::UnknownState(text)) => state_of_file(status@) is None && text@
                    == trimmed_end(status@),
                Err(BatteryError::ParseCapacity(_)) => state_of_file(status@) is Some
                    && capacity_of_file(capacity@) is None,
                Err(BatteryError::ReadFile(_, _)) => false,
            },
    {
        let state = Self::read_state(status)?;
        let capacity = Self::read_capacity(capacity)?;
        let icon = Self::icon(&state, capacity, config);
        Ok(Battery { state, capacity, icon })
    }

    /// The icon that the configuration gives the battery in `state` at
    /// `capacity` percent.
    pub fn icon(state: &BatteryStatus, capacity: u8, config: &Configuration) -> (icon: char)
        requires
            *state == BatteryStatus::Discharging ==> icons_usable(
                config.battery.charging_states@.len(),
            ),
        ensures
            icon == battery_icon(
                *state,
                capacity,
                config.battery.charging_states@,
                config.battery.full,
                config.battery.charging,
                config.battery.empty,
            ),
    {
        icon_for(
            *state,
            capacity,
            &config.battery.charging_states,
            config.battery.full,
            config.battery.charging,
            config.battery.empty,
        )
    }

    /// Reads the state from the content of the battery's `status` file.
    pub fn read_state(content: &str) -> (state: Result<BatteryStatus, BatteryError>)
        ensures
            match state {
                Ok(state) => state_of_file(content@) == Some(state),
                Err(error) => {
                    &&& state_of_file(content@) is None
                    &&& error matches BatteryError::UnknownState(text)
                    &&& text@ == trimmed_end(content@)
                },
            },
    {
        let name = trim_end(content);
        BatteryStatus::parse(name.as_str())
    }

    /// Reads the charge from the content of the battery's `capacity` file.
    pub fn read_capacity(content: &str) -> (capacity: Result<u8, BatteryError>)
        ensures
            match capacity {
                Ok(capacity) => capacity_of_file(content@) == Some(capacity as nat),
                Err(error) => capacity_of_file(content@) is None
                    && error is ParseCapacity,
            },
    {
        let number = trim_end(content);
        match parse_u8(number.as_str()) {
            Ok(capacity) => Ok(capacity),
            Err(cause) => Err(BatteryError::ParseCapacity(cause)),
        }
    }
}

} // verus!
