//! The speakers: their volume in percent, whether they are muted, and the
//! icon that shows both.

use crate::error::{AudioError, GlueError};
use crate::text::{contains, has_part, views, words, words_of};
use crate::traits::{Change, ToggleKey};
use vstd::prelude::*;
use vstd::string::StringExecFns;

verus! {

/// Whether the speakers are muted.
#[derive(Debug, Clone, Copy, PartialEq, Eq, Structural)]
pub enum SpeakerState {
    Active,
    Mute,
}

impl From<bool> for SpeakerState {
    fn from(value: bool) -> (state: Self) {
        match value {
            false => SpeakerState::Active,
            true => SpeakerState::Mute,
        }
    }
}

impl vstd::std_specs::convert::FromSpecImpl<bool> for SpeakerState {
    open spec fn obeys_from_spec() -> bool {
        true
    }

    open spec fn from_spec(value: bool) -> Self {
        if value {
            SpeakerState::Mute
        } else {
            SpeakerState::Active
        }
    }
}

/// The argument that sets a state: `1` mutes, `0` does not.
pub open spec fn speaker_argument(state: SpeakerState) -> Seq<char> {
    match state {
        SpeakerState::Active => "0"@,
        SpeakerState::Mute => "1"@,
    }
}

/// The other state.
pub open spec fn speaker_toggled(state: SpeakerState) -> SpeakerState {
    match state {
        SpeakerState::Mute => SpeakerState::Active,
        SpeakerState::Active => SpeakerState::Mute,
    }
}

impl SpeakerState {
    /// The argument that sets the state: `1` mutes, `0` does not.
    pub fn text(&self) -> (text: String)
        ensures
            text@ == speaker_argument(*self),
    {
        match self {
            SpeakerState::Active => "0".to_string(),
            SpeakerState::Mute => "1".to_string(),
        }
    }

    /// Whether the state is the muted one.
    pub fn muted(self) -> (muted: bool)
        ensures
            muted == (self == SpeakerState::Mute),
    {
        match self {
            SpeakerState::Active => false,
            SpeakerState::Mute => true,
        }
    }

    /// The other state.
    pub fn toggled(self) -> (toggled: Self)
        ensures
            toggled == speaker_toggled(self),
    {
        match self {
            SpeakerState::Mute => SpeakerState::Active,
            SpeakerState::Active => SpeakerState::Mute,
        }
    }
}

/// The icon of the speakers: muted goes before headphones, headphones before
/// the volume; silence, the lower third and the rest of the scale have an
/// icon each, and a volume beyond the scale has a warning.
pub open spec fn speaker_icon(volume: u8, headphones: bool, mute: SpeakerState) -> char {
    if mute == SpeakerState::Mute {
        '\u{eee8}'
    } else if headphones {
        '\u{f58f}'
    } else if volume == 0 {
        '\u{f026}'
    } else if volume <= 33 {
        '\u{f027}'
    } else if volume <= 100 {
        '\u{f028}'
    } else {
        '\u{f06a}'
    }
}

/// The volume after `change`: at most 100, whatever is asked for.
pub open spec fn changed_volume(volume: u8, change: Change<u8>) -> int
    recommends
        volume_change_fits(volume, change),
{
    match change {
        Change::Add(value) => if volume + value < 100 {
            volume + value
        } else {
            100
        },
        Change::Sub(value) => if volume - value < 100 {
            volume - value
        } else {
            100
        },
        Change::Absolute(value) => if value < 100 {
            value as int
        } else {
            100
        },
    }
}

/// Whether `change` can be worked out in one byte: a volume is not raised
/// beyond 255 nor lowered below 0.
pub open spec fn volume_change_fits(volume: u8, change: Change<u8>) -> bool {
    match change {
        Change::Add(value) => volume + value <= u8::MAX,
        Change::Sub(value) => value <= volume,
        Change::Absolute(_) => true,
    }
}

/// Whether `change` can be worked out in one byte at `volume`. A caller that
/// cannot rule the other case out asks before it changes the volume.
pub fn change_fits(volume: u8, change: Change<u8>) -> (fits: bool)
    ensures
        fits == volume_change_fits(volume, change),
{
    match change {
        Change::Add(value) => value <= u8::MAX - volume,
        Change::Sub(value) => value <= volume,
        Change::Absolute(_) => true,
    }
}

/// The name of a digit.
pub open spec fn digit_name(digit: int) -> Seq<char> {
    if digit == 0 {
        "0"@
    } else if digit == 1 {
        "1"@
    } else if digit == 2 {
        "2"@
    } else if digit == 3 {
        "3"@
    } else if digit == 4 {
        "4"@
    } else if digit == 5 {
        "5"@
    } else if digit == 6 {
        "6"@
    } else if digit == 7 {
        "7"@
    } else if digit == 8 {
        "8"@
    } else {
        "9"@
    }
}

/// A volume in percent as a fraction of one with two decimals: `45` is
/// `0.45`, `100` is `1.00`.
pub open spec fn volume_fraction(volume: u8) -> Seq<char> {
    digit_name(volume as int / 100) + "."@ + digit_name((volume as int / 10) % 10) + digit_name(
        volume as int % 10,
    )
}

/// The name of a digit.
pub fn digit_text(digit: u8) -> (name: &'static str)
    requires
        digit <= 9,
    ensures
        name@ == digit_name(digit as int),
{
    match digit {
        0 => "0",
        1 => "1",
        2 => "2",
        3 => "3",
        4 => "4",
        5 => "5",
        6 => "6",
        7 => "7",
        8 => "8",
        _ => "9",
    }
}

/// The speakers as they are shown.
#[derive(Debug, Clone, Copy, PartialEq, Eq, Structural)]
pub struct AudioSettings {
    pub volume: u8,
    pub mute: SpeakerState,
    pub icon: char,
}

impl AudioSettings {
    /// The settings that a reading of the volume gives; a failed reading is
    /// handed on.
    pub fn try_new(reading: Result<(u8, SpeakerState), AudioError>) -> (settings: Result<
        Self,
        AudioError,
    >)
        ensures
            match reading {
                Ok((volume, mute)) => settings == Ok::<Self, AudioError>(
                    AudioSettings { volume, mute, icon: speaker_icon(volume, false, mute) },
                ),
                Err(error) => settings == Err::<Self, AudioError>(error),
            },
    {
        match reading {
            Ok((volume, mute)) => Ok(Self::from_volume(volume, mute)),
            Err(error) => Err(error),
        }
    }

    /// The settings at `volume` percent.
    pub fn from_volume(volume: u8, mute: SpeakerState) -> (settings: Self)
        ensures
            settings == (AudioSettings { volume, mute, icon: speaker_icon(volume, false, mute) }),
    {
        let headphones = Self::headphones();
        let icon = Self::icon(volume, headphones, mute);
        AudioSettings { icon, mute, volume }
    }

    /// The icon of the speakers.
    pub fn icon(volume: u8, headphones: bool, mute: SpeakerState) -> (icon: char)
        ensures
            icon == speaker_icon(volume, headphones, mute),
    {
        if mute.muted() {
            return '\u{eee8}';
        }
        if headphones {
            return '\u{f58f}';
        }
        if volume == 0 {
            '\u{f026}'
        } else if volume <= 33 {
            '\u{f027}'
        } else if volume <= 100 {
            '\u{f028}'
        } else {
            '\u{f06a}'
        }
    }

    /// Whether headphones are plugged in. They are never taken to be.
    pub fn headphones() -> (plugged: bool)
        ensures
            !plugged,
    {
        false
    }

    /// Switches between muted and not, and takes the icon of the new state.
    pub fn toggle_mute(&mut self)
        ensures
            final(self).mute == speaker_toggled(old(self).mute),
            final(self).volume == old(self).volume,
            final(self).icon == speaker_icon(old(self).volume, false, final(self).mute),
    {
        self.mute = self.mute.toggled();
        let headphones = Self::headphones();
        self.icon = Self::icon(self.volume, headphones, self.mute);
    }

    /// Changes the volume, which never goes beyond 100 percent. The icon
    /// stays the one that was worked out when the volume was read.
    pub fn change(&mut self, change: Change<u8>)
        requires
            volume_change_fits(old(self).volume, change),
        ensures
            final(self).volume == changed_volume(old(self).volume, change),
            final(self).volume <= 100,
            final(self).mute == old(self).mute,
            final(self).icon == old(self).icon,
    {
        let volume: u8 = match change {
            Change::Add(value) => self.volume + value,
            Change::Sub(value) => self.volume - value,
            Change::Absolute(value) => value,
        };
        self.volume = if volume < 100 {
            volume
        } else {
            100
        };
    }

    /// The volume as the mixer takes it: a fraction of one with two
    /// decimals.
    pub fn fraction(&self) -> (text: String)
        ensures
            text@ == volume_fraction(self.volume),
    {
        let mut text = digit_text(self.volume / 100).to_string();
        text.append(".");
        text.append(digit_text((self.volume / 10) % 10));
        text.append(digit_text(self.volume % 10));
        text
    }
}

impl ToggleKey<GlueError> for AudioSettings {
    /// Switches between muted and not, and takes the icon of the new state.
    fn toggle(&mut self) -> (done: Result<(), GlueError>)
        ensures
            done is Ok,
            final(self).mute == speaker_toggled(old(self).mute),
            final(self).volume == old(self).volume,
            final(self).icon == speaker_icon(old(self).volume, false, final(self).mute),
    {
        self.toggle_mute();
        Ok(())
    }
}

/// The word of the mixer's report that holds the volume: the second one.
pub open spec fn volume_word(report: Seq<char>) -> Option<Seq<char>> {
    if words_of(report).len() >= 2 {
        Some(words_of(report)[1])
    } else {
        None
    }
}

/// The word of the mixer's report that holds the volume: the second one. A
/// report of fewer words holds none.
pub fn volume_field(report: &str) -> (word: Option<String>)
    ensures
        match word {
            Some(word) => volume_word(report@) == Some(word@),
            None => volume_word(report@) is None,
        },
{
    let found = words(report);
    if found.len() >= 2 {
        assert(views(found@)[1] == found@[1]@);
        Some(found[1].clone())
    } else {
        None
    }
}

/// Whether the mixer's report says that the sound is muted.
pub fn is_muted(report: &str) -> (muted: bool)
    ensures
        muted == has_part(report@, "MUTED"@),
{
    contains(report, "MUTED")
}

} // verus!
