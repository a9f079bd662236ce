//! The adapter command layer and the artwork pipeline's pure stages.

use music_remote::adapter::current_track_script;
use music_remote::adapter::ensure_music_ready;
use music_remote::adapter::get_volume;
use music_remote::adapter::get_volume_script;
use music_remote::adapter::is_music_running;
use music_remote::adapter::is_music_running_script;
use music_remote::adapter::next_track;
use music_remote::adapter::play_pause;
use music_remote::adapter::previous_track;
use music_remote::adapter::set_volume;
use music_remote::adapter::start_playback;
use music_remote::artwork::artwork_lookup_term;
use music_remote::artwork::artwork_search_url;
use music_remote::artwork::extract_artwork_url;
use music_remote::artwork::upscale_artwork_url;
use music_remote::track::PlayerState;
use music_remote::track::TrackInfo;

#[test]
fn skip_scripts() {
    assert_eq!(next_track(), "Application('Music').nextTrack()");
    assert_eq!(previous_track(), "Application('Music').previousTrack()");
}

#[test]
fn play_pause_script_mentions_toggle_and_fallback() {
    let s = play_pause();
    assert!(s.contains("music.playpause()"));
    assert!(s.contains("library.tracks[0].play()"));
    let s2 = start_playback();
    assert!(s2.contains("library.tracks[0].play()"));
}

#[test]
fn running_probe() {
    let s = is_music_running_script();
    assert!(s.contains("'Music'"));
    assert!(is_music_running("true"));
    assert!(!is_music_running("false"));
    assert!(!is_music_running(""));
}

#[test]
fn launch_decision() {
    assert!(ensure_music_ready(false));
    assert!(!ensure_music_ready(true));
}

#[test]
fn volume_scripts() {
    assert_eq!(set_volume(30), "Application('Music').soundVolume = 30");
    assert_eq!(set_volume(0), "Application('Music').soundVolume = 0");
    // Levels above the range are clamped into the script text.
    assert_eq!(set_volume(150), "Application('Music').soundVolume = 100");
    assert_eq!(get_volume_script(), "Application('Music').soundVolume()");
}

#[test]
fn volume_replies() {
    assert_eq!(get_volume("25"), Some(25));
    assert_eq!(get_volume("100"), Some(100));
    assert_eq!(get_volume("nonsense"), None);
    assert_eq!(get_volume(""), None);
}

#[test]
fn track_script_covers_stopped_and_playing() {
    let s = current_track_script();
    assert!(s.contains("playerState()"));
    assert!(s.contains("JSON.stringify"));
    assert!(s.contains("playerPosition"));
}

#[test]
fn lookup_term_guards_empty_metadata() {
    let t = TrackInfo::from_poll(
        String::new(),
        String::from("Artist"),
        String::from("Album"),
        100,
        0,
        "playing",
    );
    assert_eq!(artwork_lookup_term(&t), None);
    let t2 = TrackInfo::from_poll(
        String::from("Song"),
        String::new(),
        String::from("Album"),
        100,
        0,
        "playing",
    );
    assert_eq!(artwork_lookup_term(&t2), None);
}

#[test]
fn lookup_term_joins_artist_and_album() {
    let t = TrackInfo::from_poll(
        String::from("Song"),
        String::from("Some Artist"),
        String::from("Some Album"),
        100,
        0,
        "playing",
    );
    assert_eq!(artwork_lookup_term(&t), Some(String::from("Some Artist Some Album")));
}

#[test]
fn search_url_is_encoded() {
    assert_eq!(
        artwork_search_url("a b"),
        "https://itunes.apple.com/search?term=a%20b&entity=album&limit=1"
    );
}

#[test]
fn extract_artwork_url_from_reply() {
    let reply = r#"{"resultCount":1,"results":[{"artworkUrl100":"https://example.org/a/100x100bb.jpg","other":1}]}"#;
    assert_eq!(
        extract_artwork_url(reply),
        Some(String::from("https://example.org/a/100x100bb.jpg"))
    );
    assert_eq!(extract_artwork_url("{}"), None);
    // A marker with no closing quote yields nothing.
    assert_eq!(extract_artwork_url(r#"{"artworkUrl100":"unterminated"#), None);
}

#[test]
fn upscale_rewrites_size_marker() {
    assert_eq!(
        upscale_artwork_url("https://example.org/a/100x100bb.jpg"),
        "https://example.org/a/600x600bb.jpg"
    );
    assert_eq!(upscale_artwork_url("no marker"), "no marker");
}

#[test]
fn player_state_classification() {
    assert_eq!(PlayerState::of_str("playing"), PlayerState::Playing);
    assert_eq!(PlayerState::of_str("paused"), PlayerState::Paused);
    assert_eq!(PlayerState::of_str("stopped"), PlayerState::Stopped);
    assert_eq!(PlayerState::of_str("anything else"), PlayerState::Stopped);
    assert_eq!(PlayerState::from("playing"), PlayerState::Playing);
    assert_eq!(PlayerState::from(""), PlayerState::Stopped);
}

#[test]
fn from_poll_clamps_position() {
    let t = TrackInfo::from_poll(
        String::from("Song"),
        String::from("Artist"),
        String::from("Album"),
        100,
        250,
        "playing",
    );
    assert_eq!(t.duration, 100);
    assert_eq!(t.player_position, 100);
    assert_eq!(t.state, PlayerState::Playing);
}
