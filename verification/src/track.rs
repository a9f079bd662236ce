//! The playback state and current-track model.

use vstd::prelude::*;
use crate::text::str_eq;

verus! {

/// Playback state of the external player. `Stopped` doubles as the default
/// and as the reading for any state string the adapter cannot classify.
#[derive(Debug, Clone, Copy, PartialEq, Eq, Structural)]
pub enum PlayerState {
    Playing,
    Paused,
    Stopped,
}

impl Default for PlayerState {
    fn default() -> (r: Self)
        ensures
            r == PlayerState::Stopped,
    {
        PlayerState::Stopped
    }
}

/// The `PlayerState` that a raw adapter state string denotes.
pub open spec fn spec_player_state_of(s: Seq<char>) -> PlayerState {
    if s == "playing"@ {
        PlayerState::Playing
    } else if s == "paused"@ {
        PlayerState::Paused
    } else {
        PlayerState::Stopped
    }
}

impl PlayerState {
    /// Classifies the state string that the adapter reports; anything
    /// unrecognized reads as `Stopped`.
    pub fn of_str(s: &str) -> (r: PlayerState)
        ensures
            r == spec_player_state_of(s@),
    {
        if str_eq(s, "playing") {
            PlayerState::Playing
        } else if str_eq(s, "paused") {
            PlayerState::Paused
        } else {
            PlayerState::Stopped
        }
    }
}

impl From<&str> for PlayerState {
    /// Classifies a raw state string, as [`spec_player_state_of`] says.
    fn from(s: &str) -> (r: PlayerState)
        ensures
            r == spec_player_state_of(s@),
    {
        PlayerState::of_str(s)
    }
}

impl vstd::std_specs::convert::FromSpecImpl<&str> for PlayerState {
    open spec fn obeys_from_spec() -> bool {
        true
    }

    open spec fn from_spec(s: &str) -> PlayerState {
        spec_player_state_of(s@)
    }
}

/// Snapshot of the track the player is on. Replaced wholesale on every
/// successful poll, never mutated field by field. Durations and positions
/// are whole seconds.
#[derive(Debug, Clone)]
pub struct TrackInfo {
    pub name: String,
    pub artist: String,
    pub album: String,
    /// Track length in whole seconds.
    pub duration: u64,
    /// Playback position in whole seconds; at most `duration`.
    pub player_position: u64,
    pub state: PlayerState,
}

impl TrackInfo {
    /// The position never runs past the duration.
    pub open spec fn wf(self) -> bool {
        self.player_position <= self.duration
    }

    /// The empty snapshot: no track, stopped.
    pub fn new_default() -> (r: TrackInfo)
        ensures
            r.wf(),
            r.name@ == Seq::<char>::empty(),
            r.artist@ == Seq::<char>::empty(),
            r.album@ == Seq::<char>::empty(),
            r.duration == 0,
            r.player_position == 0,
            r.state == PlayerState::Stopped,
    {
        TrackInfo {
            name: String::new(),
            artist: String::new(),
            album: String::new(),
            duration: 0,
            player_position: 0,
            state: PlayerState::Stopped,
        }
    }

    /// Builds a snapshot from the plain values of one adapter poll. The
    /// reported position is clamped to the duration, and the state string is
    /// classified as `PlayerState::of_str` does.
    pub fn from_poll(
        name: String,
        artist: String,
        album: String,
        duration: u64,
        player_position: u64,
        state: &str,
    ) -> (r: TrackInfo)
        ensures
            r.wf(),
            r.name == name,
            r.artist == artist,
            r.album == album,
            r.duration == duration,
            r.player_position == (if player_position <= duration {
                player_position
            } else {
                duration
            }),
            r.state == spec_player_state_of(state@),
    {
        let pos = if player_position <= duration {
            player_position
        } else {
            duration
        };
        TrackInfo {
            name,
            artist,
            album,
            duration,
            player_position: pos,
            state: PlayerState::of_str(state),
        }
    }
}

} // verus!
