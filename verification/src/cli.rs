//! The subcommands of the command line, as the program understands them once
//! the arguments are parsed.

use crate::commands::Coffee;
use vstd::prelude::*;

verus! {

/// What can be asked about the workspaces.
#[derive(Debug, Clone, Copy, PartialEq, Eq, Structural)]
pub enum WorkspaceCommand {
    /// Push the workspaces to the widget shell.
    Update { default_spaces: usize },
}

/// What can be asked of the speakers.
#[derive(Debug, Clone, Copy, PartialEq, Eq, Structural)]
pub enum AudioCommand {
    /// Set the volume, in percent.
    SetTo { percent: u8 },
    Get,
    Mute,
    Increase,
    Decrease,
}

/// What can be asked of the microphone.
#[derive(Debug, Clone, Copy, PartialEq, Eq, Structural)]
pub enum MicCommand {
    Mute,
    Get,
}

/// What can be asked of the battery.
#[derive(Debug, Clone, Copy, PartialEq, Eq, Structural)]
pub enum BatteryCommand {
    Get,
}

/// What can be asked of the idle inhibitor.
#[derive(Debug, Clone, Copy, PartialEq, Eq, Structural)]
pub enum CoffeeCommand {
    Drink,
    Relax,
    Toggle,
    Get,
}

/// What can be asked of the screen's brightness.
#[derive(Debug, Clone, Copy, PartialEq, Eq, Structural)]
pub enum BrightnessCommand {
    Get,
    /// Set the brightness, in percent.
    SetTo { percent: u32 },
    Increase,
    Decrease,
}

/// What can be asked of the media player.
#[derive(Debug, Clone, Copy, PartialEq, Eq, Structural)]
pub enum MediaSubcommand {
    Toggle,
    Pause,
    Play,
    Next,
    Previous,
    Status,
}

impl From<CoffeeCommand> for Coffee {
    fn from(value: CoffeeCommand) -> (coffee: Self) {
        match value {
            CoffeeCommand::Drink => Coffee::Drink,
            CoffeeCommand::Relax => Coffee::Relax,
            CoffeeCommand::Toggle => Coffee::Toggle,
            CoffeeCommand::Get => Coffee::Get,
        }
    }
}

impl vstd::std_specs::convert::FromSpecImpl<CoffeeCommand> for Coffee {
    open spec fn obeys_from_spec() -> bool {
        true
    }

    open spec fn from_spec(value: CoffeeCommand) -> Self {
        match value {
            CoffeeCommand::Drink => Coffee::Drink,
            CoffeeCommand::Relax => Coffee::Relax,
            CoffeeCommand::Toggle => Coffee::Toggle,
            CoffeeCommand::Get => Coffee::Get,
        }
    }
}

} // verus!
