//! The player control: what is asked of it, and what its answers mean.

use crate::metadata::{
    parse_metadata, read_lines, tells_fault, tracks_up_to, Metadata, MetadataError,
};
use crate::text::{has_prefix, lines_of, same_text, starts_with};
use vstd::prelude::*;

verus! {

/// What the player control can fail on.
#[derive(Debug, PartialEq, Eq)]
pub enum PlayerError {
    /// The player control could not be run, or refused the request.
    CommandError(String),
    /// The player did not take the request.
    Toggle(String),
    /// The player did not pause.
    Stop(String),
    /// No player runs.
    NoPlayer,
    /// The state of the player is not one that is known.
    ParsingError(String),
    /// The report about the track could not be read.
    ParsingMetadataError(MetadataError),
}

/// Whether a player plays.
#[derive(Debug, Clone, Copy, PartialEq, Eq, Structural)]
pub enum PlayerState {
    Playing,
    Paused,
}

/// What a run of the player control gave.
#[derive(Debug, PartialEq, Eq)]
pub struct Output {
    /// Whether it ended with success.
    pub success: bool,
    /// What it printed.
    pub stdout: String,
    /// What it complained about.
    pub stderr: String,
}

/// The requests to the player control.
pub struct Playerctl {}

/// What a complaint of the player control means: that no player runs, where
/// it begins by saying so, and a refused request otherwise.
pub open spec fn player_fault(message: String) -> PlayerError {
    if has_prefix(message@, "No players found"@) {
        PlayerError::NoPlayer
    } else {
        PlayerError::CommandError(message)
    }
}

/// Whether `run` can be asked with `argument`: it accepts that argument. It
/// need not accept any other.
pub open spec fn can_ask<F: Fn(String) -> Result<Output, String>>(
    run: F,
    argument: Seq<char>,
) -> bool {
    forall|given: String| given@ == argument ==> #[trigger] run.requires((given,))
}

/// What holds of a request: `run` was given `argument` once and answered with
/// `outcome`.
pub open spec fn asked<F: Fn(String) -> Result<Output, String>>(
    run: F,
    argument: Seq<char>,
    outcome: Result<Output, String>,
) -> bool {
    exists|given: String| given@ == argument && #[trigger] run.ensures((given,), outcome)
}

/// The state that the answer to `status` names.
pub open spec fn status_says(outcome: Result<Output, String>) -> Result<PlayerState, PlayerError> {
    match outcome {
        Err(cause) => Err(PlayerError::CommandError(cause)),
        Ok(output) => if !output.success {
            Err(player_fault(output.stderr))
        } else if output.stdout@ == "Playing\n"@ {
            Ok(PlayerState::Playing)
        } else if output.stdout@ == "Paused\n"@ {
            Ok(PlayerState::Paused)
        } else {
            Err(PlayerError::ParsingError(output.stdout))
        },
    }
}

/// How a request that only acts can fail.
#[derive(Debug, Clone, Copy, PartialEq, Eq, Structural)]
pub enum Refusal {
    /// A refusal means that the player did not pause.
    Stop,
    /// A refusal means what the complaint says.
    Complaint,
    /// A refusal means that the player did not take the request.
    Toggle,
}

/// What the answer to a request that only acts means.
pub open spec fn action_says(outcome: Result<Output, String>, refusal: Refusal) -> Result<
    (),
    PlayerError,
> {
    match outcome {
        Err(cause) => Err(PlayerError::CommandError(cause)),
        Ok(output) => if output.success {
            Ok(())
        } else {
            match refusal {
                Refusal::Stop => Err(PlayerError::Stop(output.stderr)),
                Refusal::Complaint => Err(player_fault(output.stderr)),
                Refusal::Toggle => Err(PlayerError::Toggle(output.stderr)),
            }
        },
    }
}

/// What holds of a request that only acts.
pub open spec fn acted<F: Fn(String) -> Result<Output, String>>(
    run: F,
    argument: Seq<char>,
    refusal: Refusal,
    result: Result<(), PlayerError>,
) -> bool {
    exists|outcome: Result<Output, String>| #[trigger]
        asked(run, argument, outcome) && result == action_says(outcome, refusal)
}

impl Playerctl {
    /// What a complaint of the player control means.
    pub fn parse_error(msg: String) -> (error: PlayerError)
        ensures
            error == player_fault(msg),
    {
        if starts_with(msg.as_str(), "No players found") {
            return PlayerError::NoPlayer;
        }
        PlayerError::CommandError(msg)
    }

    /// Sends a request that only acts.
    fn act<F>(run: &F, argument: &str, refusal: Refusal) -> (result: Result<(), PlayerError>)
        where F: Fn(String) -> Result<Output, String>
        requires
            can_ask(*run, argument@),
        ensures
            acted(*run, argument@, refusal, result),
    {
        let given = argument.to_string();
        let outcome = run(given);
        assert(asked(*run, argument@, outcome)) by {
            assert(run.ensures((given,), outcome));
        }
        match outcome {
            Err(cause) => Err(PlayerError::CommandError(cause)),
            Ok(output) => {
                if output.success {
                    Ok(())
                } else {
                    match refusal {
                        Refusal::Stop => Err(PlayerError::Stop(output.stderr)),
                        Refusal::Complaint => Err(Self::parse_error(output.stderr)),
                        Refusal::Toggle => Err(PlayerError::Toggle(output.stderr)),
                    }
                }
            },
        }
    }

    /// Asks whether the player plays.
    pub fn get<F>(run: &F) -> (state: Result<PlayerState, PlayerError>)
        where F: Fn(String) -> Result<Output, String>
        requires
            can_ask(*run, "status"@),
        ensures
            exists|outcome: Result<Output, String>| #[trigger]
                asked(*run, "status"@, outcome) && state == status_says(outcome),
    {
        let given = "status".to_string();
        let outcome = run(given);
        assert(asked(*run, "status"@, outcome)) by {
            assert(run.ensures((given,), outcome));
        }
        match outcome {
            Err(cause) => Err(PlayerError::CommandError(cause)),
            Ok(output) => {
                if !output.success {
                    return Err(Self::parse_error(output.stderr));
                }
                if same_text(output.stdout.as_str(), "Playing\n") {
                    Ok(PlayerState::Playing)
                } else if same_text(output.stdout.as_str(), "Paused\n") {
                    Ok(PlayerState::Paused)
                } else {
                    Err(PlayerError::ParsingError(output.stdout))
                }
            },
        }
    }

    /// Pauses the player.
    pub fn stop<F>(run: &F) -> (result: Result<(), PlayerError>)
        where F: Fn(String) -> Result<Output, String>
        requires
            can_ask(*run, "pause"@),
        ensures
            acted(*run, "pause"@, Refusal::Stop, result),
    {
        Self::act(run, "pause", Refusal::Stop)
    }

    /// Lets the player play.
    pub fn play<F>(run: &F) -> (result: Result<(), PlayerError>)
        where F: Fn(String) -> Result<Output, String>
        requires
            can_ask(*run, "play"@),
        ensures
            acted(*run, "play"@, Refusal::Complaint, result),
    {
        Self::act(run, "play", Refusal::Complaint)
    }

    /// Switches between playing and paused.
    pub fn toggle<F>(run: &F) -> (result: Result<(), PlayerError>)
        where F: Fn(String) -> Result<Output, String>
        requires
            can_ask(*run, "play-pause"@),
        ensures
            acted(*run, "play-pause"@, Refusal::Toggle, result),
    {
        Self::act(run, "play-pause", Refusal::Toggle)
    }

    /// Skips to the next track.
    pub fn next<F>(run: &F) -> (result: Result<(), PlayerError>)
        where F: Fn(String) -> Result<Output, String>
        requires
            can_ask(*run, "next"@),
        ensures
            acted(*run, "next"@, Refusal::Toggle, result),
    {
        Self::act(run, "next", Refusal::Toggle)
    }

    /// Goes back to the previous track.
    pub fn previous<F>(run: &F) -> (result: Result<(), PlayerError>)
        where F: Fn(String) -> Result<Output, String>
        requires
            can_ask(*run, "previous"@),
        ensures
            acted(*run, "previous"@, Refusal::Toggle, result),
    {
        Self::act(run, "previous", Refusal::Toggle)
    }

    /// Asks what the players play: one track for each player, in the order
    /// in which the report first names them.
    pub fn metadata<F>(run: &F) -> (tracks: Result<Vec<Metadata>, PlayerError>)
        where F: Fn(String) -> Result<Output, String>
        requires
            can_ask(*run, "metadata"@),
        ensures
            exists|outcome: Result<Output, String>| #[trigger]
                asked(*run, "metadata"@, outcome) && metadata_says(outcome, tracks),
    {
        let given = "metadata".to_string();
        let outcome = run(given);
        assert(asked(*run, "metadata"@, outcome)) by {
            assert(run.ensures((given,), outcome));
        }
        match outcome {
            Err(cause) => Err(PlayerError::CommandError(cause)),
            Ok(output) => {
                if !output.success {
                    return Err(PlayerError::Toggle(output.stderr));
                }
                let read = match parse_metadata(output.stdout.as_str()) {
                    Ok(read) => read,
                    Err(error) => { return Err(PlayerError::ParsingMetadataError(error)); },
                };
                let ghost entries = read_lines(lines_of(output.stdout@))->Ok_0;
                let ghost expected = tracks_up_to(entries, entries.len() as int);
                let ghost total = read@.len();
                let mut read = read;
                let mut tracks: Vec<Metadata> = Vec::new();
                while read.len() > 0
                    invariant
                        total == expected.len(),
                        tracks@.len() + read@.len() == total,
                        forall|i: int|
                            0 <= i < read@.len() ==> (#[trigger] read@[i]) is Ok
                                && read@[i]->Ok_0.shows(expected[tracks@.len() + i]),
                        forall|i: int|
                            0 <= i < tracks@.len() ==> (#[trigger] tracks@[i]).shows(expected[i]),
                    decreases read@.len(),
                {
                    let ghost before = tracks@;
                    let ghost waiting = read@;
                    match read.remove(0) {
                        Ok(track) => {
                            tracks.push(track);
                            assert forall|i: int| 0 <= i < tracks@.len() implies (
                            #[trigger] tracks@[i]).shows(expected[i]) by {
                                if i < before.len() {
                                    assert(tracks@[i] == before[i]);
                                } else {
                                    assert(tracks@[i] == waiting[0]->Ok_0);
                                }
                            }
                            assert forall|i: int| 0 <= i < read@.len() implies (
                            #[trigger] read@[i]) is Ok && read@[i]->Ok_0.shows(
                                expected[tracks@.len() + i],
                            ) by {
                                assert(read@[i] == waiting[i + 1]);
                            }
                        },
                        Err(error) => {
                            return Err(PlayerError::ParsingMetadataError(error));
                        },
                    }
                }
                Ok(tracks)
            },
        }
    }
}

/// What the answer to `metadata` means: the tracks that the report tells, or
/// why there are none.
pub open spec fn metadata_says(
    outcome: Result<Output, String>,
    tracks: Result<Vec<Metadata>, PlayerError>,
) -> bool {
    match outcome {
        Err(cause) => tracks == Err::<Vec<Metadata>, PlayerError>(PlayerError::CommandError(cause)),
        Ok(output) => if !output.success {
            tracks == Err::<Vec<Metadata>, PlayerError>(PlayerError::Toggle(output.stderr))
        } else {
            match read_lines(lines_of(output.stdout@)) {
                Ok(entries) => {
                    &&& tracks matches Ok(tracks)
                    &&& tracks@.len() == tracks_up_to(entries, entries.len() as int).len()
                    &&& forall|i: int|
                        0 <= i < tracks@.len() ==> (#[trigger] tracks@[i]).shows(
                            tracks_up_to(entries, entries.len() as int)[i],
                        )
                },
                Err(fault) => {
                    &&& tracks matches Err(PlayerError::ParsingMetadataError(error))
                    &&& tells_fault(error, fault)
                },
            }
        },
    }
}

} // verus!
