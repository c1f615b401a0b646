//! The microphone: muted or not.

use vstd::prelude::*;

verus! {

/// Whether the microphone is muted.
#[derive(Debug, Clone, Copy, PartialEq, Eq, Structural)]
pub enum MicState {
    Muted,
    Unmuted,
}

/// The other state.
pub open spec fn mic_toggled(state: MicState) -> MicState {
    match state {
        MicState::Muted => MicState::Unmuted,
        MicState::Unmuted => MicState::Muted,
    }
}

/// The icon of a state.
pub open spec fn mic_icon(state: MicState) -> char {
    match state {
        MicState::Muted => '\u{f131}',
        MicState::Unmuted => '\u{f130}',
    }
}

/// The argument that sets a state: `1` mutes, `0` does not.
pub open spec fn mic_argument(state: MicState) -> Seq<char> {
    match state {
        MicState::Muted => "1"@,
        MicState::Unmuted => "0"@,
    }
}

impl MicState {
    /// The other state.
    pub fn toggle(&self) -> (toggled: Self)
        ensures
            toggled == mic_toggled(*self),
    {
        match self {
            MicState::Muted => MicState::Unmuted,
            MicState::Unmuted => MicState::Muted,
        }
    }

    /// The icon of the state.
    pub fn icon(&self) -> (icon: char)
        ensures
            icon == mic_icon(*self),
    {
        match self {
            MicState::Muted => '\u{f131}',
            MicState::Unmuted => '\u{f130}',
        }
    }

    /// The argument that sets the state: `1` mutes, `0` does not.
    pub fn argument(&self) -> (argument: &'static str)
        ensures
            argument@ == mic_argument(*self),
    {
        match self {
            MicState::Muted => "1",
            MicState::Unmuted => "0",
        }
    }

    /// The state that the report of the volume names: muted exactly if the
    /// report says so.
    pub fn of_report(muted: bool) -> (state: Self)
        ensures
            state == (if muted {
                MicState::Muted
            } else {
                MicState::Unmuted
            }),
    {
        if muted {
            MicState::Muted
        } else {
            MicState::Unmuted
        }
    }
}

} // verus!
