//! The battery icons on their own, for callers that configure nothing else.

use crate::configuration::default_charging_states;
use vstd::prelude::*;

verus! {

/// The icons of the battery.
#[derive(Debug)]
pub struct Battery {
    /// The icons of a discharging battery, from empty to full.
    pub charging_states: Vec<char>,
    pub full: char,
    pub charging: char,
    pub empty: char,
}

impl Default for Battery {
    fn default() -> (battery: Self)
        ensures
            battery.charging_states@ == default_charging_states(),
            battery.full == '\u{f1425}',
            battery.charging == '\u{f0084}',
            battery.empty == '\u{f244}',
    {
        let mut charging_states: Vec<char> = Vec::new();
        charging_states.push('\u{f244}');
        charging_states.push('\u{f243}');
        charging_states.push('\u{f242}');
        charging_states.push('\u{f241}');
        charging_states.push('\u{f240}');
        assert(charging_states@ =~= default_charging_states());
        Battery { charging_states, full: '\u{f1425}', charging: '\u{f0084}', empty: '\u{f244}' }
    }
}

/// The configuration of the battery icons.
#[derive(Debug)]
pub struct Config {
    pub battery: Battery,
}

impl Default for Config {
    fn default() -> (config: Self)
        ensures
            config.battery.charging_states@ == default_charging_states(),
            config.battery.full == '\u{f1425}',
            config.battery.charging == '\u{f0084}',
            config.battery.empty == '\u{f244}',
    {
        Config { battery: Battery::default() }
    }
}

impl Config {
    /// The configuration that holds where nothing is configured.
    pub fn load() -> (config: Config)
        ensures
            config.battery.charging_states@ == default_charging_states(),
            config.battery.full == '\u{f1425}',
            config.battery.charging == '\u{f0084}',
            config.battery.empty == '\u{f244}',
    {
        Config::default()
    }
}

} // verus!
