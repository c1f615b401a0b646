//! What the widget shell is told: the variables it shows and the windows it
//! opens.

use crate::audio::AudioSettings;
use crate::brightness::BrightnessSettings;
use crate::coffee::CoffeeResponse;
use crate::mic::MicState;
use crate::monitor::BatteryState;
use vstd::prelude::*;
use vstd::string::StringExecFns;

verus! {

/// A variable of the widget shell, with the value that it is to show.
#[derive(Debug)]
pub enum EwwVariable {
    Workspace(String),
    Audio(AudioSettings),
    Mic(MicState),
    Coffee(CoffeeResponse),
    Brightness(BrightnessSettings),
    Battery(BatteryState),
}

/// The name under which the widget shell knows `variable`.
pub open spec fn variable_name(variable: EwwVariable) -> Seq<char> {
    match variable {
        EwwVariable::Workspace(_) => "workspace"@,
        EwwVariable::Audio(_) => "audio"@,
        EwwVariable::Mic(_) => "mic"@,
        EwwVariable::Coffee(_) => "coffee"@,
        EwwVariable::Brightness(_) => "bright"@,
        EwwVariable::Battery(_) => "battery"@,
    }
}

impl EwwVariable {
    /// The name under which the widget shell knows the variable.
    pub fn name(&self) -> (name: &'static str)
        ensures
            name@ == variable_name(*self),
    {
        match self {
            EwwVariable::Workspace(_) => "workspace",
            EwwVariable::Audio(_) => "audio",
            EwwVariable::Mic(_) => "mic",
            EwwVariable::Coffee(_) => "coffee",
            EwwVariable::Brightness(_) => "bright",
            EwwVariable::Battery(_) => "battery",
        }
    }
}

/// The arguments with which the widget shell is told that `variable` is
/// `value`: `update`, then the variable's name, an equals sign and the value.
pub fn eww_update(variable: &EwwVariable, value: &str) -> (arguments: Vec<String>)
    ensures
        arguments@.len() == 2,
        arguments@[0]@ == "update"@,
        arguments@[1]@ == variable_name(*variable) + "="@ + value@,
{
    let mut argument = variable.name().to_string();
    argument.append("=");
    argument.append(value);
    let mut arguments: Vec<String> = Vec::new();
    arguments.push("update".to_string());
    arguments.push(argument);
    arguments
}

/// A window of the widget shell.
#[derive(Debug, Clone, Copy, PartialEq, Eq, Structural)]
pub enum WindowName {
    Bar,
}

/// The name under which the widget shell knows `window`.
pub open spec fn window_name(window: WindowName) -> Seq<char> {
    match window {
        WindowName::Bar => "bar"@,
    }
}

impl WindowName {
    /// The name under which the widget shell knows the window.
    pub fn name(&self) -> (name: &'static str)
        ensures
            name@ == window_name(*self),
    {
        match self {
            WindowName::Bar => "bar",
        }
    }
}

/// The arguments that open a window, as texts: `open`, the configuration
/// directory where one is given, the two flags, and the window's name.
pub open spec fn open_arguments(window: WindowName, config: Option<Seq<char>>) -> Seq<Seq<char>> {
    match config {
        Some(config) => seq![
            "open"@,
            "--config="@ + config,
            "--force-wayland"@,
            "--restart"@,
            window_name(window),
        ],
        None => seq!["open"@, "--force-wayland"@, "--restart"@, window_name(window)],
    }
}

/// The arguments with which the widget shell opens `window_name`, using the
/// configuration in `config` where one is given.
pub fn open(window_name: &WindowName, config: Option<String>) -> (arguments: Vec<String>)
    ensures
        arguments@.len() == open_arguments(
            *window_name,
            match config {
                Some(config) => Some(config@),
                None => None,
            },
        ).len(),
        forall|i: int|
            0 <= i < arguments@.len() ==> (#[trigger] arguments@[i])@ == open_arguments(
                *window_name,
                match config {
                    Some(config) => Some(config@),
                    None => None,
                },
            )[i],
{
    let mut arguments: Vec<String> = Vec::new();
    arguments.push("open".to_string());
    match config {
        Some(config) => {
            let mut flag = "--config=".to_string();
            flag.append(config.as_str());
            arguments.push(flag);
        },
        None => {},
    }
    arguments.push("--force-wayland".to_string());
    arguments.push("--restart".to_string());
    arguments.push(window_name.name().to_string());
    arguments
}

} // verus!
