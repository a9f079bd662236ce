//! The application state machine: volume bounds, polling and artwork
//! firing, search flow, selection movement, and key handling.

use music_remote::app::App;
use music_remote::app::AppMode;
use music_remote::app::SearchMode;
use music_remote::events::handle_key_event;
use music_remote::events::Command;
use music_remote::events::Key;
use music_remote::search::PlaybackDispatch;
use music_remote::search::SearchResult;
use music_remote::track::PlayerState;
use music_remote::track::TrackInfo;

fn track(name: &str, state: &str) -> TrackInfo {
    TrackInfo::from_poll(
        String::from(name),
        String::from("Artist"),
        String::from("Album"),
        180,
        10,
        state,
    )
}

fn result(name: &str, id: &str) -> SearchResult {
    SearchResult {
        name: String::from(name),
        artist: String::from("Artist"),
        album: String::from("Album"),
        id: String::from(id),
    }
}

#[test]
fn initial_state() {
    let app = App::<u32>::new();
    assert_eq!(app.volume, 50);
    assert!(app.running);
    assert_eq!(app.mode, AppMode::Normal);
    assert_eq!(app.search_mode, SearchMode::Library);
    assert!(app.artwork.is_none());
    assert_eq!(app.search_query, "");
    assert_eq!(app.search_results.len(), 0);
    assert_eq!(app.search_result_index, 0);
    assert_eq!(app.track.state, PlayerState::Stopped);
}

#[test]
fn volume_up_saturates_at_hundred() {
    let mut app = App::<u32>::new();
    app.volume = 98;
    assert_eq!(app.volume_up(), 100);
    assert_eq!(app.volume_up(), 100);
    assert_eq!(app.volume_up(), 100);
    assert_eq!(app.volume, 100);
}

#[test]
fn volume_down_saturates_at_zero() {
    let mut app = App::<u32>::new();
    app.volume = 3;
    assert_eq!(app.volume_down(), 0);
    assert_eq!(app.volume_down(), 0);
    assert_eq!(app.volume, 0);
}

#[test]
fn volume_stays_in_range_over_sequences() {
    let mut app = App::<u32>::new();
    for _ in 0..50 {
        app.volume_up();
        assert!(app.volume <= 100);
    }
    for _ in 0..50 {
        app.volume_down();
        assert!(app.volume <= 100);
    }
}

#[test]
fn poll_with_unchanged_name_never_refires() {
    let mut app = App::<u32>::new();
    let first = app.update(Some(track("Song A", "stopped")), None);
    assert_eq!(first, Some(String::from("Song A")));
    // The handle for "Song A" arrives and is applied.
    assert!(app.apply_artwork(&String::from("Song A"), 7));
    // An unchanged identity across polls: no refresh, artwork kept.
    let second = app.update(Some(track("Song A", "stopped")), None);
    assert_eq!(second, None);
    assert_eq!(app.artwork, Some(7));
    // A new identity: exactly one refresh, tagged with the new name.
    let third = app.update(Some(track("Song B", "playing")), None);
    assert_eq!(third, Some(String::from("Song B")));
    assert_eq!(app.artwork, None);
    let fourth = app.update(Some(track("Song B", "playing")), None);
    assert_eq!(fourth, None);
}

#[test]
fn poll_failure_retains_state() {
    let mut app = App::<u32>::new();
    app.update(Some(track("Song A", "playing")), Some(70));
    let before_name = app.track.name.clone();
    let r = app.update(None, None);
    assert_eq!(r, None);
    assert_eq!(app.track.name, before_name);
    assert_eq!(app.volume, 70);
}

#[test]
fn poll_volume_is_clamped() {
    let mut app = App::<u32>::new();
    app.update(None, Some(255));
    assert_eq!(app.volume, 100);
    app.update(None, Some(30));
    assert_eq!(app.volume, 30);
}

#[test]
fn stale_artwork_is_discarded() {
    let mut app = App::<u32>::new();
    app.update(Some(track("Song A", "playing")), None);
    // The identity moves on before the resolution lands.
    app.update(Some(track("Song B", "playing")), None);
    assert!(!app.apply_artwork(&String::from("Song A"), 7));
    assert_eq!(app.artwork, None);
    // The resolution for the current identity lands.
    assert!(app.apply_artwork(&String::from("Song B"), 8));
    assert_eq!(app.artwork, Some(8));
}

#[test]
fn empty_results_keep_input_mode() {
    let mut app = App::<u32>::new();
    handle_key_event(&mut app, Key::Char('/'));
    assert_eq!(app.mode, AppMode::SearchInput);
    app.apply_search_results(Vec::new());
    assert_eq!(app.mode, AppMode::SearchInput);
    assert_eq!(app.search_result_index, 0);
}

#[test]
fn nonempty_results_enter_results_mode() {
    let mut app = App::<u32>::new();
    handle_key_event(&mut app, Key::Char('/'));
    app.apply_search_results(vec![result("A", "1"), result("B", "2")]);
    assert_eq!(app.mode, AppMode::SearchResults);
    assert_eq!(app.search_result_index, 0);
    assert_eq!(app.search_results.len(), 2);
}

#[test]
fn selection_saturates_at_both_ends() {
    let mut app = App::<u32>::new();
    handle_key_event(&mut app, Key::Char('/'));
    app.apply_search_results(vec![result("A", "1"), result("B", "2"), result("C", "3")]);
    // Up at index 0 is a no-op.
    app.search_select_prev();
    assert_eq!(app.search_result_index, 0);
    app.search_select_next();
    app.search_select_next();
    assert_eq!(app.search_result_index, 2);
    // Down at the last index is a no-op.
    app.search_select_next();
    assert_eq!(app.search_result_index, 2);
    assert!(app.search_result_index < app.search_results.len());
    app.search_select_prev();
    assert_eq!(app.search_result_index, 1);
}

#[test]
fn query_roundtrip_types_and_backspaces() {
    let mut app = App::<u32>::new();
    handle_key_event(&mut app, Key::Char('/'));
    assert_eq!(app.mode, AppMode::SearchInput);
    handle_key_event(&mut app, Key::Char('a'));
    handle_key_event(&mut app, Key::Char('b'));
    handle_key_event(&mut app, Key::Char('c'));
    assert_eq!(app.search_query, "abc");
    handle_key_event(&mut app, Key::Backspace);
    assert_eq!(app.search_query, "ab");
    // Backspacing an empty buffer is a no-op.
    handle_key_event(&mut app, Key::Backspace);
    handle_key_event(&mut app, Key::Backspace);
    handle_key_event(&mut app, Key::Backspace);
    assert_eq!(app.search_query, "");
}

#[test]
fn submit_carries_catalog_and_query() {
    let mut app = App::<u32>::new();
    handle_key_event(&mut app, Key::Char('/'));
    handle_key_event(&mut app, Key::Char('x'));
    let cmd = handle_key_event(&mut app, Key::Enter);
    match cmd {
        Some(Command::Search(mode, query)) => {
            assert_eq!(mode, SearchMode::Library);
            assert_eq!(query, "x");
        }
        _ => panic!("submit did not produce a search command"),
    }
    // The mode moves only once results are applied.
    assert_eq!(app.mode, AppMode::SearchInput);
}

#[test]
fn tab_toggles_catalog() {
    let mut app = App::<u32>::new();
    handle_key_event(&mut app, Key::Char('/'));
    assert_eq!(app.search_mode, SearchMode::Library);
    handle_key_event(&mut app, Key::Tab);
    assert_eq!(app.search_mode, SearchMode::AppleMusic);
    handle_key_event(&mut app, Key::Tab);
    assert_eq!(app.search_mode, SearchMode::Library);
}

#[test]
fn escape_cancels_input_mode() {
    let mut app = App::<u32>::new();
    handle_key_event(&mut app, Key::Char('/'));
    handle_key_event(&mut app, Key::Char('z'));
    handle_key_event(&mut app, Key::Esc);
    assert_eq!(app.mode, AppMode::Normal);
    assert_eq!(app.search_query, "");
}

#[test]
fn selecting_remote_result_dispatches_one_open() {
    let mut app = App::<u32>::new();
    handle_key_event(&mut app, Key::Char('/'));
    app.apply_search_results(vec![
        result("Local", "0123"),
        result("Remote", "music://music.apple.com/song/9?i=10"),
    ]);
    handle_key_event(&mut app, Key::Down);
    let cmd = handle_key_event(&mut app, Key::Enter);
    match cmd {
        Some(Command::Dispatch(PlaybackDispatch::Remote { uri })) => {
            assert_eq!(uri, "music://music.apple.com/song/9?i=10");
        }
        _ => panic!("remote selection did not dispatch a remote open"),
    }
    // The mode transition is not blocked on any confirmation.
    assert_eq!(app.mode, AppMode::Normal);
    assert_eq!(app.search_query, "");
    assert_eq!(app.search_results.len(), 0);
    assert_eq!(app.search_result_index, 0);
}

#[test]
fn selecting_local_result_dispatches_play_script() {
    let mut app = App::<u32>::new();
    handle_key_event(&mut app, Key::Char('/'));
    app.apply_search_results(vec![result("Local", "0123")]);
    let cmd = handle_key_event(&mut app, Key::Enter);
    match cmd {
        Some(Command::Dispatch(PlaybackDispatch::Local { script })) => {
            assert!(script.contains(r#"persistentID: "0123""#));
        }
        _ => panic!("local selection did not dispatch a play script"),
    }
    assert_eq!(app.mode, AppMode::Normal);
}

#[test]
fn normal_mode_playback_keys() {
    let mut app = App::<u32>::new();
    assert!(matches!(handle_key_event(&mut app, Key::Char(' ')), Some(Command::PlayPause)));
    assert!(matches!(handle_key_event(&mut app, Key::Left), Some(Command::PreviousTrack)));
    assert!(matches!(handle_key_event(&mut app, Key::Char('h')), Some(Command::PreviousTrack)));
    assert!(matches!(handle_key_event(&mut app, Key::Right), Some(Command::NextTrack)));
    assert!(matches!(handle_key_event(&mut app, Key::Char('l')), Some(Command::NextTrack)));
    match handle_key_event(&mut app, Key::Up) {
        Some(Command::SetVolume(v)) => assert_eq!(v, 55),
        _ => panic!("volume key did not push a level"),
    }
    match handle_key_event(&mut app, Key::Down) {
        Some(Command::SetVolume(v)) => assert_eq!(v, 50),
        _ => panic!("volume key did not push a level"),
    }
    // Unrecognized keys are no-ops.
    assert!(handle_key_event(&mut app, Key::Char('z')).is_none());
    assert!(handle_key_event(&mut app, Key::Other).is_none());
    assert!(app.running);
}

#[test]
fn quit_keys_stop_the_app() {
    let mut app = App::<u32>::new();
    handle_key_event(&mut app, Key::Char('q'));
    assert!(!app.running);
    let mut app2 = App::<u32>::new();
    handle_key_event(&mut app2, Key::Esc);
    assert!(!app2.running);
}

#[test]
fn is_playing_mirrors_state() {
    let mut app = App::<u32>::new();
    assert!(!app.is_playing());
    app.update(Some(track("Song A", "playing")), None);
    assert!(app.is_playing());
    app.update(Some(track("Song A", "paused")), None);
    assert!(!app.is_playing());
}
