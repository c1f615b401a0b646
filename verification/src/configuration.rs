//! What the user can configure, and the values that hold where nothing is
//! configured.

use crate::battery::BatteryStatus;
use std::time::Duration;
use vstd::prelude::*;

verus! {

/// How much is logged.
#[derive(Debug, Clone, Copy, PartialEq, Eq, Structural)]
pub enum LevelFilter {
    Off,
    Error,
    Warn,
    Info,
    Debug,
    Trace,
}

/// The log level that `count` repetitions of the debug flag ask for.
pub open spec fn level_of_count(count: u8) -> LevelFilter {
    if count == 0 {
        LevelFilter::Off
    } else if count == 1 {
        LevelFilter::Error
    } else if count == 2 {
        LevelFilter::Info
    } else if count == 3 {
        LevelFilter::Debug
    } else {
        LevelFilter::Trace
    }
}

/// The log level that `count` repetitions of the debug flag ask for.
pub fn log_level(count: u8) -> (level: LevelFilter)
    ensures
        level == level_of_count(count),
{
    match count {
        0 => LevelFilter::Off,
        1 => LevelFilter::Error,
        2 => LevelFilter::Info,
        3 => LevelFilter::Debug,
        _ => LevelFilter::Trace,
    }
}

/// The icons of the battery and the place where its state is read.
#[derive(Debug)]
pub struct Battery {
    /// The icons of a discharging battery, from empty to full.
    pub charging_states: Vec<char>,
    pub full: char,
    pub charging: char,
    pub empty: char,
    /// The directory that holds the battery's `status` and `capacity`.
    pub path: String,
}

/// The icons of a discharging battery where none are configured.
pub open spec fn default_charging_states() -> Seq<char> {
    seq!['\u{f244}', '\u{f243}', '\u{f242}', '\u{f241}', '\u{f240}']
}

/// The battery directory where none is configured.
pub open spec fn default_battery_path() -> Seq<char> {
    "/sys/class/power_supply/BAT0"@
}

impl Default for Battery {
    fn default() -> (battery: Self)
        ensures
            battery.charging_states@ == default_charging_states(),
            battery.full == '\u{f1425}',
            battery.charging == '\u{f0084}',
            battery.empty == '\u{f244}',
            battery.path@ == default_battery_path(),
    {
        let mut charging_states: Vec<char> = Vec::new();
        charging_states.push('\u{f244}');
        charging_states.push('\u{f243}');
        charging_states.push('\u{f242}');
        charging_states.push('\u{f241}');
        charging_states.push('\u{f240}');
        assert(charging_states@ =~= default_charging_states());
        Battery {
            charging_states,
            full: '\u{f1425}',
            charging: '\u{f0084}',
            empty: '\u{f244}',
            path: "/sys/class/power_supply/BAT0".to_string(),
        }
    }
}

/// The icons of the idle inhibitor, and the delay of its reminder.
#[derive(Debug)]
pub struct Coffee {
    /// Shown while the system is kept awake.
    pub coffee: char,
    /// Shown while the system may idle.
    pub relax: char,
    /// After how long a reminder is shown that the system is still kept
    /// awake. `None`: never.
    pub notification: Option<Duration>,
}

impl Default for Coffee {
    fn default() -> (coffee: Self)
        ensures
            coffee.coffee == '\u{ec15}',
            coffee.relax == '\u{f04b2}',
            coffee.notification is None,
    {
        Coffee { coffee: '\u{ec15}', relax: '\u{f04b2}', notification: None }
    }
}

/// Settings of the program as a whole.
#[derive(Debug)]
pub struct General {
    pub log_level: LevelFilter,
    /// The directory of the widget shell's configuration.
    pub eww_config: Option<String>,
}

impl Default for General {
    fn default() -> (general: Self)
        ensures
            general.log_level == LevelFilter::Info,
            general.eww_config is None,
    {
        General { log_level: LevelFilter::Info, eww_config: None }
    }
}

/// Settings for the window manager.
#[derive(Debug)]
pub struct Hyprland {
    /// How many workspaces are always shown.
    pub default_spaces: usize,
}

impl Default for Hyprland {
    fn default() -> (hyprland: Self)
        ensures
            hyprland.default_spaces == 5,
    {
        Hyprland { default_spaces: 5 }
    }
}

/// What is done when the battery reaches a state and a charge.
#[derive(Debug)]
pub struct BatteryEvent {
    pub charge: u8,
    pub state: BatteryStatus,
    /// The text of the notification to show.
    pub notify: Option<String>,
    /// A shell command to run.
    pub shell: Option<String>,
    /// Hooks to call.
    pub hooks: Option<Vec<String>>,
}

/// The configured events.
#[derive(Debug)]
pub struct Events {
    pub battery: Vec<BatteryEvent>,
}

/// Everything the user can configure.
#[derive(Debug)]
pub struct Configuration {
    /// The programs that the daemon starts when it starts.
    pub autostart: Vec<String>,
    pub battery: Battery,
    pub battery_path: Option<String>,
    pub coffee: Coffee,
    pub general: General,
    pub hyprland: Hyprland,
    pub event: Option<Events>,
}

impl Default for Configuration {
    fn default() -> (configuration: Self)
        ensures
            configuration.autostart@.len() == 0,
            configuration.battery.charging_states@ == default_charging_states(),
            configuration.battery.full == '\u{f1425}',
            configuration.battery.charging == '\u{f0084}',
            configuration.battery.empty == '\u{f244}',
            configuration.battery.path@ == default_battery_path(),
            configuration.battery_path is None,
            configuration.coffee.coffee == '\u{ec15}',
            configuration.coffee.relax == '\u{f04b2}',
            configuration.coffee.notification is None,
            configuration.general.log_level == LevelFilter::Info,
            configuration.general.eww_config is None,
            configuration.hyprland.default_spaces == 5,
            configuration.event is None,
    {
        Configuration {
            autostart: Vec::new(),
            battery: Battery::default(),
            battery_path: None,
            coffee: Coffee::default(),
            general: General::default(),
            hyprland: Hyprland::default(),
            event: None,
        }
    }
}

impl Configuration {
    /// The configuration that holds where the user configured nothing.
    pub fn load() -> (configuration: Self)
        ensures
            configuration.autostart@.len() == 0,
            configuration.battery.charging_states@ == default_charging_states(),
            configuration.battery.full == '\u{f1425}',
            configuration.battery.charging == '\u{f0084}',
            configuration.battery.empty == '\u{f244}',
            configuration.battery.path@ == default_battery_path(),
            configuration.battery_path is None,
            configuration.coffee.coffee == '\u{ec15}',
            configuration.coffee.relax == '\u{f04b2}',
            configuration.coffee.notification is None,
            configuration.general.log_level == LevelFilter::Info,
            configuration.general.eww_config is None,
            configuration.hyprland.default_spaces == 5,
            configuration.event is None,
    {
        Configuration::default()
    }
}

} // verus!
