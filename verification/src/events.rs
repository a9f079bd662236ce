//! Keyboard handling: the total transition function from mode and key to
//! the next state and an outward command.
//!
//! The shell translates its terminal events into [`Key`] values and
//! performs whatever [`Command`] comes back; the state change itself
//! happens here, verified. Every transition is total: an unrecognized key
//! in any mode is a no-op.

use vstd::prelude::*;
use crate::app::App;
use crate::app::AppMode;
use crate::app::SearchMode;
use crate::app::vol_down;
use crate::app::vol_up;
use crate::search::PlaybackDispatch;
use crate::search::spec_dispatch_for;
use vstd::string::StrSliceExecFns;

verus! {

/// A keyboard event, as far as the state machine distinguishes them.
#[derive(Debug, Clone, Copy, PartialEq, Eq, Structural)]
pub enum Key {
    Char(char),
    Up,
    Down,
    Left,
    Right,
    Enter,
    Backspace,
    Esc,
    Tab,
    /// Any key the state machine never interprets.
    Other,
}

/// What the shell must do on the state machine's behalf after a key is
/// handled. Every command is fire-and-forget from the state machine's
/// point of view; failures degrade to "state not updated".
#[derive(Debug, Clone)]
pub enum Command {
    /// Toggle play/pause on the player.
    PlayPause,
    /// Skip to the next track.
    NextTrack,
    /// Skip to the previous track.
    PreviousTrack,
    /// Push this volume level to the player.
    SetVolume(u8),
    /// Run this query against this catalog, then hand the results to
    /// [`App::apply_search_results`].
    Search(SearchMode, String),
    /// Start playback of a selected result.
    Dispatch(PlaybackDispatch),
}

/// The `Normal` mode transitions: playback and volume keys command the
/// player, `/` opens the search input with a cleared query, `q` or escape
/// stops the application, anything else is a no-op.
pub open spec fn normal_mode_step<A>(
    pre: App<A>,
    post: App<A>,
    key: Key,
    cmd: Option<Command>,
) -> bool {
    if key == Key::Char(' ') {
        post == pre && cmd == Some(Command::PlayPause)
    } else if key == Key::Left || key == Key::Char('h') {
        post == pre && cmd == Some(Command::PreviousTrack)
    } else if key == Key::Right || key == Key::Char('l') {
        post == pre && cmd == Some(Command::NextTrack)
    } else if key == Key::Up || key == Key::Char('k') {
        &&& post.volume == vol_up(pre.volume)
        &&& cmd == Some(Command::SetVolume(post.volume))
        &&& App::<A>::search_unchanged(pre, post)
        &&& post.track == pre.track
        &&& post.running == pre.running
        &&& post.artwork == pre.artwork
        &&& post.retained_identity() == pre.retained_identity()
    } else if key == Key::Down || key == Key::Char('j') {
        &&& post.volume == vol_down(pre.volume)
        &&& cmd == Some(Command::SetVolume(post.volume))
        &&& App::<A>::search_unchanged(pre, post)
        &&& post.track == pre.track
        &&& post.running == pre.running
        &&& post.artwork == pre.artwork
        &&& post.retained_identity() == pre.retained_identity()
    } else if key == Key::Char('/') {
        &&& post.mode == AppMode::SearchInput
        &&& post.search_query@ == Seq::<char>::empty()
        &&& post.search_mode == pre.search_mode
        &&& post.search_results == pre.search_results
        &&& post.search_result_index == pre.search_result_index
        &&& App::<A>::playback_unchanged(pre, post)
        &&& cmd is None
    } else if key == Key::Char('q') || key == Key::Esc {
        &&& !post.running
        &&& post.mode == pre.mode
        &&& post.search_mode == pre.search_mode
        &&& post.search_query == pre.search_query
        &&& post.search_results == pre.search_results
        &&& post.search_result_index == pre.search_result_index
        &&& post.track == pre.track
        &&& post.volume == pre.volume
        &&& post.artwork == pre.artwork
        &&& post.retained_identity() == pre.retained_identity()
        &&& cmd is None
    } else {
        post == pre && cmd is None
    }
}

/// The `SearchInput` mode transitions: enter submits the query to the
/// chosen catalog, escape cancels back to `Normal` with a cleared query,
/// backspace drops the last character (a no-op on an empty buffer), tab
/// toggles the catalog, any character key is appended to the query, and
/// anything else is a no-op.
pub open spec fn search_input_mode_step<A>(
    pre: App<A>,
    post: App<A>,
    key: Key,
    cmd: Option<Command>,
) -> bool {
    if key == Key::Enter {
        &&& post == pre
        &&& cmd == Some(Command::Search(pre.search_mode, pre.search_query))
    } else if key == Key::Esc {
        &&& post.mode == AppMode::Normal
        &&& post.search_query@ == Seq::<char>::empty()
        &&& post.search_mode == pre.search_mode
        &&& post.search_results == pre.search_results
        &&& post.search_result_index == pre.search_result_index
        &&& App::<A>::playback_unchanged(pre, post)
        &&& cmd is None
    } else if key == Key::Backspace {
        &&& post.search_query@ == (if pre.search_query@.len() > 0 {
            pre.search_query@.drop_last()
        } else {
            pre.search_query@
        })
        &&& post.mode == pre.mode
        &&& post.search_mode == pre.search_mode
        &&& post.search_results == pre.search_results
        &&& post.search_result_index == pre.search_result_index
        &&& App::<A>::playback_unchanged(pre, post)
        &&& cmd is None
    } else if key == Key::Tab {
        &&& post.search_mode == pre.search_mode.spec_toggled()
        &&& post.mode == pre.mode
        &&& post.search_query == pre.search_query
        &&& post.search_results == pre.search_results
        &&& post.search_result_index == pre.search_result_index
        &&& App::<A>::playback_unchanged(pre, post)
        &&& cmd is None
    } else if key matches Key::Char(c) {
        &&& post.search_query@ == pre.search_query@.push(key->Char_0)
        &&& post.mode == pre.mode
        &&& post.search_mode == pre.search_mode
        &&& post.search_results == pre.search_results
        &&& post.search_result_index == pre.search_result_index
        &&& App::<A>::playback_unchanged(pre, post)
        &&& cmd is None
    } else {
        post == pre && cmd is None
    }
}

/// The `SearchResults` mode transitions: enter dispatches playback of the
/// selected result and leaves for `Normal` with everything cleared,
/// escape leaves for `Normal` with everything cleared, the up and down
/// keys move the selection saturating at both ends, and anything else is
/// a no-op.
pub open spec fn search_results_mode_step<A>(
    pre: App<A>,
    post: App<A>,
    key: Key,
    cmd: Option<Command>,
) -> bool {
    if key == Key::Enter {
        if pre.search_results@.len() > 0 {
            let sel = pre.search_results@[pre.search_result_index as int]@.id;
            &&& (cmd matches Some(c) && c matches Command::Dispatch(d) && spec_dispatch_for(
                sel,
                d,
            ))
            &&& post.mode == AppMode::Normal
            &&& post.search_query@ == Seq::<char>::empty()
            &&& post.search_results@.len() == 0
            &&& post.search_result_index == 0
            &&& post.search_mode == pre.search_mode
            &&& App::<A>::playback_unchanged(pre, post)
        } else {
            post == pre && cmd is None
        }
    } else if key == Key::Esc {
        &&& post.mode == AppMode::Normal
        &&& post.search_query@ == Seq::<char>::empty()
        &&& post.search_results@.len() == 0
        &&& post.search_result_index == 0
        &&& post.search_mode == pre.search_mode
        &&& App::<A>::playback_unchanged(pre, post)
        &&& cmd is None
    } else if key == Key::Up || key == Key::Char('k') {
        &&& post.search_result_index == (if pre.search_result_index > 0 {
            (pre.search_result_index - 1) as usize
        } else {
            0usize
        })
        &&& post.mode == pre.mode
        &&& post.search_mode == pre.search_mode
        &&& post.search_query == pre.search_query
        &&& post.search_results == pre.search_results
        &&& App::<A>::playback_unchanged(pre, post)
        &&& cmd is None
    } else if key == Key::Down || key == Key::Char('j') {
        &&& post.search_result_index == (if pre.search_results@.len() > 0
            && pre.search_result_index + 1 < pre.search_results@.len() {
            (pre.search_result_index + 1) as usize
        } else {
            pre.search_result_index
        })
        &&& post.mode == pre.mode
        &&& post.search_mode == pre.search_mode
        &&& post.search_query == pre.search_query
        &&& post.search_results == pre.search_results
        &&& App::<A>::playback_unchanged(pre, post)
        &&& cmd is None
    } else {
        post == pre && cmd is None
    }
}

/// Handles one key press in the current mode, as the per-mode step
/// predicates describe. Total: every key in every mode leaves the state
/// well-formed, and unrecognized keys change nothing.
pub fn handle_key_event<A>(app: &mut App<A>, key: Key) -> (cmd: Option<Command>)
    requires
        old(app).wf(),
    ensures
        final(app).wf(),
        match old(app).mode {
            AppMode::Normal => normal_mode_step(*old(app), *final(app), key, cmd),
            AppMode::SearchInput => search_input_mode_step(*old(app), *final(app), key, cmd),
            AppMode::SearchResults => search_results_mode_step(*old(app), *final(app), key, cmd),
        },
{
    match app.mode {
        AppMode::Normal => handle_normal_mode(app, key),
        AppMode::SearchInput => handle_search_input_mode(app, key),
        AppMode::SearchResults => handle_search_results_mode(app, key),
    }
}

/// `Normal` mode keys.
fn handle_normal_mode<A>(app: &mut App<A>, key: Key) -> (cmd: Option<Command>)
    requires
        old(app).wf(),
    ensures
        final(app).wf(),
        normal_mode_step(*old(app), *final(app), key, cmd),
{
    if key == Key::Char(' ') {
        Some(Command::PlayPause)
    } else if key == Key::Left || key == Key::Char('h') {
        Some(Command::PreviousTrack)
    } else if key == Key::Right || key == Key::Char('l') {
        Some(Command::NextTrack)
    } else if key == Key::Up || key == Key::Char('k') {
        let level = app.volume_up();
        Some(Command::SetVolume(level))
    } else if key == Key::Down || key == Key::Char('j') {
        let level = app.volume_down();
        Some(Command::SetVolume(level))
    } else if key == Key::Char('/') {
        app.mode = AppMode::SearchInput;
        app.search_query = String::new();
        None
    } else if key == Key::Char('q') || key == Key::Esc {
        app.quit();
        None
    } else {
        None
    }
}

/// `SearchInput` mode keys.
fn handle_search_input_mode<A>(app: &mut App<A>, key: Key) -> (cmd: Option<Command>)
    requires
        old(app).wf(),
    ensures
        final(app).wf(),
        search_input_mode_step(*old(app), *final(app), key, cmd),
{
    if key == Key::Enter {
        Some(Command::Search(app.search_mode, app.search_query.clone()))
    } else if key == Key::Esc {
        app.mode = AppMode::Normal;
        app.search_query = String::new();
        None
    } else if key == Key::Backspace {
        let len = app.search_query.as_str().unicode_len();
        if len > 0 {
            let shortened = app.search_query.as_str().substring_char(0, len - 1).to_owned();
            proof {
                assert(shortened@ =~= app.search_query@.drop_last());
            }
            app.search_query = shortened;
        }
        None
    } else if key == Key::Tab {
        app.search_mode = app.search_mode.toggled();
        None
    } else {
        match key {
            Key::Char(c) => {
                app.search_query.push(c);
                None
            },
            _ => None,
        }
    }
}

/// `SearchResults` mode keys.
fn handle_search_results_mode<A>(app: &mut App<A>, key: Key) -> (cmd: Option<Command>)
    requires
        old(app).wf(),
    ensures
        final(app).wf(),
        search_results_mode_step(*old(app), *final(app), key, cmd),
{
    if key == Key::Enter {
        if app.search_results.len() > 0 {
            match app.search_play_selection() {
                Some(d) => Some(Command::Dispatch(d)),
                None => None,
            }
        } else {
            None
        }
    } else if key == Key::Esc {
        app.cancel_search();
        None
    } else if key == Key::Up || key == Key::Char('k') {
        app.search_select_prev();
        None
    } else if key == Key::Down || key == Key::Char('j') {
        app.search_select_next();
        None
    } else {
        None
    }
}

} // verus!
