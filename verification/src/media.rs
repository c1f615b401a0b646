//! The media keys: what each of them asks of the player control.

use crate::cli::MediaSubcommand;
use crate::metadata::Metadata;
use crate::playerctl::{
    acted, asked, can_ask, metadata_says, status_says, Output, PlayerError, PlayerState,
    Playerctl, Refusal,
};
use vstd::prelude::*;

verus! {

/// The icons of the play key.
#[derive(Debug, Clone, Copy, PartialEq, Eq, Structural)]
pub struct MediaIcon {
    pub pause: char,
    pub play: char,
}

impl Default for MediaIcon {
    fn default() -> (icon: Self)
        ensures
            icon == (MediaIcon { pause: '\u{f04c}', play: '\u{f04b}' }),
    {
        MediaIcon { pause: '\u{f04c}', play: '\u{f04b}' }
    }
}

/// What can be configured about the media keys.
#[derive(Debug, PartialEq, Eq)]
pub struct MediaConfig {
    /// The player that is started where none runs.
    pub default_player: Option<String>,
    pub icon: MediaIcon,
}

impl Default for MediaConfig {
    fn default() -> (config: Self)
        ensures
            config.default_player is None,
            config.icon == (MediaIcon { pause: '\u{f04c}', play: '\u{f04b}' }),
    {
        MediaConfig { default_player: None, icon: MediaIcon::default() }
    }
}

/// What can go wrong with a media key.
#[derive(Debug, PartialEq, Eq)]
pub enum MediaError {
    Playerctl(PlayerError),
    Stop(String),
    Obserever(String),
    Connection(String),
    PlayerFinderSetup(String),
    PlayerFinderFound(String),
    /// The status could not be written out.
    Serialization(String),
}

/// The player as it is shown.
#[derive(Debug, PartialEq, Eq)]
pub struct MediaStatus {
    pub player: PlayerState,
    pub metadata: Vec<Metadata>,
    pub icon: char,
}

/// The icon of the play key: it shows what the key would do.
pub open spec fn media_icon(player: PlayerState, icon: MediaIcon) -> char {
    match player {
        PlayerState::Playing => icon.pause,
        PlayerState::Paused => icon.play,
    }
}

impl MediaStatus {
    /// The status of a player in `player` with the given tracks.
    pub fn new(player: PlayerState, metadata: Vec<Metadata>, config: &MediaConfig) -> (status:
        Self)
        ensures
            status.player == player,
            status.metadata == metadata,
            status.icon == media_icon(player, config.icon),
    {
        let icon = Self::icon(&player, config);
        MediaStatus { player, metadata, icon }
    }

    /// The icon of the play key.
    pub fn icon(player: &PlayerState, config: &MediaConfig) -> (icon: char)
        ensures
            icon == media_icon(*player, config.icon),
    {
        match player {
            PlayerState::Playing => config.icon.pause,
            PlayerState::Paused => config.icon.play,
        }
    }
}

/// What came of a media key.
#[derive(Debug, PartialEq, Eq)]
pub struct Handled {
    /// The status to show, where the key asked for it.
    pub status: Option<MediaStatus>,
    /// The player to start, where none ran and one is configured.
    pub launch: Option<String>,
    /// Whether the player control did what was asked.
    pub result: Result<(), MediaError>,
}

/// The media keys.
#[derive(Debug)]
pub struct Media {
    config: MediaConfig,
}

/// The player that is to be started after `result`: the configured one, where
/// the request failed because no player runs.
pub open spec fn launch_after(result: Result<(), PlayerError>, config: MediaConfig) -> Option<
    String,
> {
    if result == Err::<(), PlayerError>(PlayerError::NoPlayer) {
        config.default_player
    } else {
        None
    }
}

/// The failure of the player control as a failure of a media key.
pub open spec fn as_media(result: Result<(), PlayerError>) -> Result<(), MediaError> {
    match result {
        Ok(_) => Ok(()),
        Err(error) => Err(MediaError::Playerctl(error)),
    }
}

impl Media {
    /// What is configured.
    pub closed spec fn config(&self) -> MediaConfig {
        self.config
    }

    /// The media keys with `config`, or with the default where none is given.
    pub fn new(config: Option<MediaConfig>) -> (media: Self)
        ensures
            match config {
                Some(config) => media.config() == config,
                None => media.config().default_player is None && media.config().icon == (
                MediaIcon { pause: '\u{f04c}', play: '\u{f04b}' }),
            },
    {
        match config {
            Some(config) => Media { config },
            None => Media { config: MediaConfig::default() },
        }
    }

    /// The player to start after a request, and the request's result as the
    /// key's.
    fn settle(&self, result: Result<(), PlayerError>) -> (handled: Handled)
        ensures
            handled.status is None,
            text_of(handled.launch) == text_of(launch_after(result, self.config())),
            handled.result == as_media(result),
    {
        let launch: Option<String> = match &result {
            Err(PlayerError::NoPlayer) => match &self.config.default_player {
                Some(player) => Some(player.clone()),
                None => None,
            },
            _ => None,
        };
        let result = match result {
            Ok(done) => Ok(()),
            Err(error) => Err(MediaError::Playerctl(error)),
        };
        Handled { status: None, launch, result }
    }

    /// Pauses the player.
    pub fn stop<F>(run: &F) -> (result: Result<(), MediaError>)
        where F: Fn(String) -> Result<Output, String>
        requires
            can_ask(*run, "pause"@),
        ensures
            exists|done: Result<(), PlayerError>| #[trigger]
                acted(*run, "pause"@, Refusal::Stop, done) && result == as_media(done),
    {
        let done = Playerctl::stop(run);
        assert(acted(*run, "pause"@, Refusal::Stop, done));
        match done {
            Ok(unit) => Ok(()),
            Err(error) => Err(MediaError::Playerctl(error)),
        }
    }

    /// Lets the player play, and starts the configured player where none
    /// runs.
    pub fn start<F>(&self, run: &F) -> (handled: Handled)
        where F: Fn(String) -> Result<Output, String>
        requires
            can_ask(*run, "play"@),
        ensures
            handled.status is None,
            exists|done: Result<(), PlayerError>|
                {
                    &&& #[trigger] acted(*run, "play"@, Refusal::Complaint, done)
                    &&& handled.result == as_media(done)
                    &&& text_of(handled.launch) == text_of(launch_after(done, self.config()))
                },
    {
        let done = Playerctl::play(run);
        assert(acted(*run, "play"@, Refusal::Complaint, done));
        self.settle(done)
    }

    /// Switches between playing and paused, and starts the configured player
    /// where none runs.
    pub fn toggle<F>(&self, run: &F) -> (handled: Handled)
        where F: Fn(String) -> Result<Output, String>
        requires
            can_ask(*run, "play-pause"@),
        ensures
            handled.status is None,
            exists|done: Result<(), PlayerError>|
                {
                    &&& #[trigger] acted(*run, "play-pause"@, Refusal::Toggle, done)
                    &&& handled.result == as_media(done)
                    &&& text_of(handled.launch) == text_of(launch_after(done, self.config()))
                },
    {
        let done = Playerctl::toggle(run);
        assert(acted(*run, "play-pause"@, Refusal::Toggle, done));
        self.settle(done)
    }

    /// Skips to the next track.
    pub fn increase<F>(run: &F) -> (result: Result<(), MediaError>)
        where F: Fn(String) -> Result<Output, String>
        requires
            can_ask(*run, "next"@),
        ensures
            exists|done: Result<(), PlayerError>| #[trigger]
                acted(*run, "next"@, Refusal::Toggle, done) && result == as_media(done),
    {
        let done = Playerctl::next(run);
        assert(acted(*run, "next"@, Refusal::Toggle, done));
        match done {
            Ok(unit) => Ok(()),
            Err(error) => Err(MediaError::Playerctl(error)),
        }
    }

    /// Goes back to the previous track.
    pub fn decrease<F>(run: &F) -> (result: Result<(), MediaError>)
        where F: Fn(String) -> Result<Output, String>
        requires
            can_ask(*run, "previous"@),
        ensures
            exists|done: Result<(), PlayerError>| #[trigger]
                acted(*run, "previous"@, Refusal::Toggle, done) && result == as_media(done),
    {
        let done = Playerctl::previous(run);
        assert(acted(*run, "previous"@, Refusal::Toggle, done));
        match done {
            Ok(unit) => Ok(()),
            Err(error) => Err(MediaError::Playerctl(error)),
        }
    }

    /// Asks for the state of the player and for what it plays. The state is
    /// asked first, and where that fails the tracks are not asked for.
    pub fn get<F>(&self, run: &F) -> (status: Result<MediaStatus, MediaError>)
        where F: Fn(String) -> Result<Output, String>
        requires
            can_ask_status(*run),
        ensures
            status_outcome(*run, self.config().icon, status),
    {
        let player = match Playerctl::get(run) {
            Ok(player) => player,
            Err(error) => { return Err(MediaError::Playerctl(error)); },
        };
        let metadata = match Playerctl::metadata(run) {
            Ok(metadata) => metadata,
            Err(error) => { return Err(MediaError::Playerctl(error)); },
        };
        Ok(MediaStatus::new(player, metadata, &self.config))
    }
}

/// Whether the status can be asked for: `run` accepts the request for the
/// state, and the request for the tracks wherever its answer to the first
/// names a state. Where the state cannot be had, the tracks are not asked
/// for.
pub open spec fn can_ask_status<F: Fn(String) -> Result<Output, String>>(run: F) -> bool {
    &&& can_ask(run, "status"@)
    &&& (exists|answer: Result<Output, String>| #[trigger]
        asked(run, "status"@, answer) && status_says(answer) is Ok) ==> can_ask(
        run,
        "metadata"@,
    )
}

/// What holds of a request for the status: the state was asked first, and
/// where that failed the tracks were not asked for; otherwise the status is
/// the state, the tracks that the report tells, and the icon of the state.
pub open spec fn status_outcome<F: Fn(String) -> Result<Output, String>>(
    run: F,
    icon: MediaIcon,
    status: Result<MediaStatus, MediaError>,
) -> bool {
    exists|answer: Result<Output, String>|
        {
            &&& #[trigger] asked(run, "status"@, answer)
            &&& match status_says(answer) {
                Err(error) => status == Err::<MediaStatus, MediaError>(
                    MediaError::Playerctl(error),
                ),
                Ok(player) => exists|report: Result<Output, String>, tracks: Result<
                    Vec<Metadata>,
                    PlayerError,
                >|
                    {
                        &&& #[trigger] asked(run, "metadata"@, report)
                        &&& #[trigger] metadata_says(report, tracks)
                        &&& match tracks {
                            Err(error) => status == Err::<MediaStatus, MediaError>(
                                MediaError::Playerctl(error),
                            ),
                            Ok(tracks) => status == Ok::<MediaStatus, MediaError>(
                                MediaStatus {
                                    player,
                                    metadata: tracks,
                                    icon: media_icon(player, icon),
                                },
                            ),
                        }
                    },
            }
        }
}

/// The icons that hold with `config`: its own, or the default ones where no
/// configuration is given.
pub open spec fn icons_of(config: Option<MediaConfig>) -> MediaIcon {
    match config {
        Some(config) => config.icon,
        None => MediaIcon { pause: '\u{f04c}', play: '\u{f04b}' },
    }
}

/// The player that is configured to be started, if one is.
pub open spec fn player_of(config: Option<MediaConfig>) -> Option<String> {
    match config {
        Some(config) => config.default_player,
        None => None,
    }
}

/// The view of a text that may be missing.
pub open spec fn text_of(text: Option<String>) -> Option<Seq<char>> {
    match text {
        Some(text) => Some(text@),
        None => None,
    }
}

/// Does what a media key asks for, through `run`, which runs the player
/// control with one argument.
pub fn handler<F>(subcommand: MediaSubcommand, config: Option<MediaConfig>, run: &F) -> (handled:
    Handled)
    where F: Fn(String) -> Result<Output, String>
    requires
        match subcommand {
            MediaSubcommand::Toggle => can_ask(*run, "play-pause"@),
            MediaSubcommand::Pause => can_ask(*run, "pause"@),
            MediaSubcommand::Play => can_ask(*run, "play"@),
            MediaSubcommand::Next => can_ask(*run, "next"@),
            MediaSubcommand::Previous => can_ask(*run, "previous"@),
            MediaSubcommand::Status => can_ask_status(*run),
        },
    ensures
        match subcommand {
            MediaSubcommand::Pause => {
                &&& handled.status is None
                &&& handled.launch is None
                &&& exists|done: Result<(), PlayerError>| #[trigger]
                    acted(*run, "pause"@, Refusal::Stop, done) && handled.result == as_media(done)
            },
            MediaSubcommand::Next => {
                &&& handled.status is None
                &&& handled.launch is None
                &&& exists|done: Result<(), PlayerError>| #[trigger]
                    acted(*run, "next"@, Refusal::Toggle, done) && handled.result == as_media(done)
            },
            MediaSubcommand::Previous => {
                &&& handled.status is None
                &&& handled.launch is None
                &&& exists|done: Result<(), PlayerError>| #[trigger]
                    acted(*run, "previous"@, Refusal::Toggle, done) && handled.result == as_media(
                        done,
                    )
            },
            MediaSubcommand::Toggle => {
                &&& handled.status is None
                &&& exists|done: Result<(), PlayerError>|
                    {
                        &&& #[trigger] acted(*run, "play-pause"@, Refusal::Toggle, done)
                        &&& handled.result == as_media(done)
                        &&& text_of(handled.launch) == (if done == Err::<(), PlayerError>(
                            PlayerError::NoPlayer,
                        ) {
                            text_of(player_of(config))
                        } else {
                            None
                        })
                    }
            },
            MediaSubcommand::Play => {
                &&& handled.status is None
                &&& exists|done: Result<(), PlayerError>|
                    {
                        &&& #[trigger] acted(*run, "play"@, Refusal::Complaint, done)
                        &&& handled.result == as_media(done)
                        &&& text_of(handled.launch) == (if done == Err::<(), PlayerError>(
                            PlayerError::NoPlayer,
                        ) {
                            text_of(player_of(config))
                        } else {
                            None
                        })
                    }
            },
            MediaSubcommand::Status => {
                &&& handled.launch is None
                &&& exists|status: Result<MediaStatus, MediaError>|
                    {
                        &&& #[trigger] status_outcome(*run, icons_of(config), status)
                        &&& match status {
                            Ok(status) => handled.status == Some(status) && handled.result is Ok,
                            Err(error) => handled.status is None && handled.result == Err::<
                                (),
                                MediaError,
                            >(error),
                        }
                    }
            },
        },
{
    match subcommand {
        MediaSubcommand::Toggle => Media::new(config).toggle(run),
        MediaSubcommand::Pause => Handled { status: None, launch: None, result: Media::stop(run) },
        MediaSubcommand::Play => Media::new(config).start(run),
        MediaSubcommand::Next => Handled {
            status: None,
            launch: None,
            result: Media::increase(run),
        },
        MediaSubcommand::Previous => Handled {
            status: None,
            launch: None,
            result: Media::decrease(run),
        },
        MediaSubcommand::Status => {
            let status = Media::new(config).get(run);
            assert(status_outcome(*run, icons_of(config), status));
            match status {
                Ok(status) => Handled { status: Some(status), launch: None, result: Ok(()) },
                Err(error) => Handled { status: None, launch: None, result: Err(error) },
            }
        },
    }
}

} // verus!
