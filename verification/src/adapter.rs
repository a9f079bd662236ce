//! The media-adapter command layer.
//!
//! The external player is driven by small automation scripts handed to an
//! interpreter that only the unverified shell may run. This module builds
//! those scripts and reads the interpreter's replies, so that everything up
//! to the process boundary is verified: each builder pins the exact script
//! text, and each reader pins exactly what it accepts.

use vstd::prelude::*;
use crate::text::dec_digits;
use crate::text::digits_val;
use crate::text::is_valid_u8_str;
use crate::text::parse_u8;
use crate::text::str_eq;
use crate::text::u8_str_body;
use crate::text::u64_to_string;
use vstd::string::StringExecFns;

verus! {

/// The script that asks whether the player process is running; the reply is
/// read by [`is_music_running`].
pub fn is_music_running_script() -> (s: String)
    ensures
        s@ == "Application('System Events').processes.whose({name: 'Music'}).length > 0"@,
{
    String::from_str(
        "Application('System Events').processes.whose({name: 'Music'}).length > 0",
    )
}

/// Reads the reply to [`is_music_running_script`]: the player is running
/// exactly when the interpreter printed `true`.
pub fn is_music_running(raw: &str) -> (r: bool)
    ensures
        r == (raw@ == "true"@),
{
    str_eq(raw, "true")
}

/// The player must be launched first exactly when it is not yet running.
/// The shell acts on `true` by starting the player in the background.
pub fn ensure_music_ready(music_running: bool) -> (launch: bool)
    ensures
        launch == !music_running,
{
    !music_running
}

/// The script that starts playback from the first library track, for use
/// when the player is stopped.
pub fn start_playback() -> (s: String)
    ensures
        s@
            == "const music = Application('Music'); try { const library = music.libraryPlaylists[0]; if (library && library.tracks.length > 0) { library.tracks[0].play(); } } catch(e) {}"@,
{
    String::from_str(
        "const music = Application('Music'); try { const library = music.libraryPlaylists[0]; if (library && library.tracks.length > 0) { library.tracks[0].play(); } } catch(e) {}",
    )
}

/// The play/pause toggle script: starts library playback when the player is
/// stopped, toggles otherwise.
pub fn play_pause() -> (s: String)
    ensures
        s@
            == "const music = Application('Music'); if (music.playerState() === 'stopped') { try { const library = music.libraryPlaylists[0]; if (library && library.tracks.length > 0) { library.tracks[0].play(); } } catch(e) {} } else { music.playpause(); }"@,
{
    String::from_str(
        "const music = Application('Music'); if (music.playerState() === 'stopped') { try { const library = music.libraryPlaylists[0]; if (library && library.tracks.length > 0) { library.tracks[0].play(); } } catch(e) {} } else { music.playpause(); }",
    )
}

/// The skip-forward script.
pub fn next_track() -> (s: String)
    ensures
        s@ == "Application('Music').nextTrack()"@,
{
    String::from_str("Application('Music').nextTrack()")
}

/// The skip-back script.
pub fn previous_track() -> (s: String)
    ensures
        s@ == "Application('Music').previousTrack()"@,
{
    String::from_str("Application('Music').previousTrack()")
}

/// The script that sets the player volume. The level is clamped to 100
/// before it is written into the script.
pub fn set_volume(level: u8) -> (s: String)
    ensures
        s@ == "Application('Music').soundVolume = "@ + dec_digits(
            (if level <= 100 {
                level
            } else {
                100
            }) as nat,
        ),
{
    let clamped: u8 = if level <= 100 {
        level
    } else {
        100
    };
    let mut s = String::from_str("Application('Music').soundVolume = ");
    let digits = u64_to_string(clamped as u64);
    s.append(digits.as_str());
    s
}

/// The script that asks for the player volume; the reply is read by
/// [`get_volume`].
pub fn get_volume_script() -> (s: String)
    ensures
        s@ == "Application('Music').soundVolume()"@,
{
    String::from_str("Application('Music').soundVolume()")
}

/// Reads the reply to [`get_volume_script`]: a decimal number, accepted
/// exactly when it denotes a value that fits in eight bits.
pub fn get_volume(raw: &str) -> (r: Option<u8>)
    ensures
        match r {
            Some(v) => is_valid_u8_str(raw@) && v == digits_val(u8_str_body(raw@)),
            None => !is_valid_u8_str(raw@),
        },
{
    parse_u8(raw)
}

/// The script that reports the current track as a small JSON object; the
/// shell runs it each poll and hands the decoded fields to
/// [`crate::track::TrackInfo::from_poll`].
pub fn current_track_script() -> (s: String)
    ensures
        s@
            == "const music = Application('Music'); const state = music.playerState(); if (state === 'stopped') { JSON.stringify({name: '', artist: '', album: '', duration: 0, playerPosition: 0, state: 'stopped'}); } else { const track = music.currentTrack(); JSON.stringify({name: track.name(), artist: track.artist(), album: track.album(), duration: track.duration(), playerPosition: music.playerPosition(), state: state}); }"@,
{
    String::from_str(
        "const music = Application('Music'); const state = music.playerState(); if (state === 'stopped') { JSON.stringify({name: '', artist: '', album: '', duration: 0, playerPosition: 0, state: 'stopped'}); } else { const track = music.currentTrack(); JSON.stringify({name: track.name(), artist: track.artist(), album: track.album(), duration: track.duration(), playerPosition: music.playerPosition(), state: state}); }",
    )
}

} // verus!
