//! Catalog search: script and URL builders, reply decoding, and playback
//! dispatch.

use music_remote::search::apple_music_search_url;
use music_remote::search::play_track_by_id;
use music_remote::search::remote_confirm_script;
use music_remote::search::search_apple_music;
use music_remote::search::search_library;
use music_remote::search::search_library_script;
use music_remote::search::PlaybackDispatch;
use music_remote::search::REMOTE_SETTLE_MS;

#[test]
fn library_script_embeds_escaped_query() {
    let s = search_library_script(r#"so "quoted" song"#);
    assert!(s.contains(r#"{for: "so \"quoted\" song"}"#));
    assert!(s.contains("Math.min(results.length, 20)"));
    assert!(s.contains("persistentID()"));
}

#[test]
fn library_reply_decoding() {
    let reply = r#"[
        {"name":"Song A","artist":"Artist A","album":"Album A","id":"AAA1"},
        {"name":"Song B","artist":"Artist B","album":"Album B","id":"BBB2"}
    ]"#;
    let results = search_library(reply);
    assert_eq!(results.len(), 2);
    assert_eq!(results[0].name, "Song A");
    assert_eq!(results[0].artist, "Artist A");
    assert_eq!(results[0].album, "Album A");
    assert_eq!(results[0].id, "AAA1");
    assert_eq!(results[1].id, "BBB2");
}

#[test]
fn library_reply_with_incomplete_entry_fails_whole() {
    // A missing field anywhere fails the whole reply, like any other
    // parse failure: no results.
    let reply = r#"[
        {"name":"Song A","artist":"Artist A","album":"Album A","id":"AAA1"},
        {"name":"No Id","artist":"X","album":"Y"},
        {"name":"Song C","artist":"Artist C","album":"Album C","id":"CCC3"}
    ]"#;
    assert_eq!(search_library(reply).len(), 0);
}

#[test]
fn library_reply_tolerates_garbage() {
    assert_eq!(search_library("not json at all").len(), 0);
    assert_eq!(search_library("{}").len(), 0);
    assert_eq!(search_library("[]").len(), 0);
}

#[test]
fn remote_url_is_encoded() {
    assert_eq!(
        apple_music_search_url("hello world"),
        "https://itunes.apple.com/search?term=hello%20world&entity=song&limit=20&country=US"
    );
}

#[test]
fn remote_reply_rewrites_scheme() {
    let reply = r#"{"resultCount":1,"results":[
        {"trackName":"OMG","artistName":"Artist","collectionName":"Album",
         "trackViewUrl":"https://music.apple.com/us/album/omg/1?i=2",
         "collectionId":1,"trackId":2}
    ]}"#;
    let results = search_apple_music(reply);
    assert_eq!(results.len(), 1);
    assert_eq!(results[0].name, "OMG");
    assert_eq!(results[0].id, "music://music.apple.com/us/album/omg/1?i=2");
}

#[test]
fn remote_reply_falls_back_to_identifiers() {
    let reply = r#"{"results":[
        {"trackName":"T","artistName":"A","collectionName":"C",
         "collectionId":1659513441,"trackId":1659513445}
    ]}"#;
    let results = search_apple_music(reply);
    assert_eq!(results.len(), 1);
    assert_eq!(results[0].id, "music://music.apple.com/song/1659513441?i=1659513445");
}

#[test]
fn remote_reply_defaults_missing_names() {
    let reply = r#"{"results":[{"trackViewUrl":"https://x.example/y"}]}"#;
    let results = search_apple_music(reply);
    assert_eq!(results.len(), 1);
    assert_eq!(results[0].name, "Unknown");
    assert_eq!(results[0].artist, "Unknown");
    assert_eq!(results[0].album, "Unknown");
    assert_eq!(results[0].id, "music://x.example/y");
}

#[test]
fn remote_reply_tolerates_garbage() {
    assert_eq!(search_apple_music("not json").len(), 0);
    assert_eq!(search_apple_music("{}").len(), 0);
}

#[test]
fn dispatch_remote_id() {
    let d = play_track_by_id("music://music.apple.com/song/1?i=2");
    match d {
        PlaybackDispatch::Remote { uri } => {
            assert_eq!(uri, "music://music.apple.com/song/1?i=2");
        }
        PlaybackDispatch::Local { .. } => panic!("remote id dispatched locally"),
    }
}

#[test]
fn dispatch_local_id() {
    let d = play_track_by_id("0123ABCD");
    match d {
        PlaybackDispatch::Local { script } => {
            assert!(script.contains(r#"whose({persistentID: "0123ABCD"})"#));
            assert!(script.contains("tracks[0].play()"));
        }
        PlaybackDispatch::Remote { .. } => panic!("local id dispatched remotely"),
    }
}

#[test]
fn remote_confirmation() {
    assert_eq!(remote_confirm_script(), "Application('Music').play()");
    assert_eq!(REMOTE_SETTLE_MS, 1500);
}
