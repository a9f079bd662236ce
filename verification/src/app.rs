//! The application state machine.
//!
//! One owned aggregate holds everything mutable: the mirrored player state,
//! the volume, the mode, the search buffer and results, the selection, and
//! the artwork slot. Every transition is a method with an exact contract,
//! and the well-formedness invariant [`App::wf`] — volume within bounds, the
//! selection inside the results, result mode only with results — is
//! established by the constructor and preserved by every method.
//!
//! The artwork slot is generic in the handle type `A`: the shell stores
//! whatever renderable value its image backend produces, while the core
//! decides when the slot is cleared and which resolution results may land
//! in it (the identity-tag check of [`App::apply_artwork`]).

use vstd::prelude::*;
use crate::search::PlaybackDispatch;
use crate::search::SearchResult;
use crate::search::play_track_by_id;
use crate::search::spec_dispatch_for;
use crate::text::str_eq;
use crate::track::TrackInfo;
use crate::track::PlayerState;

verus! {

/// Which overlay is active and which keys are interpreted. Exactly one
/// mode is active at a time.
#[derive(Debug, Clone, Copy, PartialEq, Eq, Structural)]
pub enum AppMode {
    Normal,
    SearchInput,
    SearchResults,
}

impl Default for AppMode {
    fn default() -> (r: Self)
        ensures
            r == AppMode::Normal,
    {
        AppMode::Normal
    }
}

/// Which catalog a submitted query is dispatched to. Persists across mode
/// transitions until toggled.
#[derive(Debug, Clone, Copy, PartialEq, Eq, Structural)]
pub enum SearchMode {
    Library,
    AppleMusic,
}

impl SearchMode {
    /// The other catalog.
    pub open spec fn spec_toggled(self) -> SearchMode {
        match self {
            SearchMode::Library => SearchMode::AppleMusic,
            SearchMode::AppleMusic => SearchMode::Library,
        }
    }

    /// Switches to the other catalog.
    pub fn toggled(self) -> (r: SearchMode)
        ensures
            r == self.spec_toggled(),
    {
        match self {
            SearchMode::Library => SearchMode::AppleMusic,
            SearchMode::AppleMusic => SearchMode::Library,
        }
    }
}

/// A volume step up: five more, clamped to 100.
pub open spec fn vol_up(v: u8) -> u8 {
    if v + 5 <= 100 {
        (v + 5) as u8
    } else {
        100
    }
}

/// A volume step down: five less, saturating at zero.
pub open spec fn vol_down(v: u8) -> u8 {
    if v >= 5 {
        (v - 5) as u8
    } else {
        0
    }
}

/// Volume adjustment never leaves `0..=100`: a step up from any level is
/// at most 100, and a step down from a well-formed level stays at most
/// 100 (and at least 0 by its type).
pub proof fn lemma_volume_adjustment_in_range(v: u8)
    ensures
        vol_up(v) <= 100,
        v <= 100 ==> vol_down(v) <= 100,
{
}

/// The volume after a sequence of adjustments, each `true` a step up and
/// each `false` a step down, applied left to right.
pub open spec fn volume_after(v: u8, steps: Seq<bool>) -> u8
    decreases steps.len(),
{
    if steps.len() == 0 {
        v
    } else {
        volume_after(
            if steps[0] {
                vol_up(v)
            } else {
                vol_down(v)
            },
            steps.drop_first(),
        )
    }
}

/// Every adjustment sequence started inside `0..=100` stays inside it —
/// and since every prefix of a sequence is itself a sequence, the bound
/// holds after every single operation along the way.
pub proof fn lemma_volume_sequences_stay_in_range(v: u8, steps: Seq<bool>)
    requires
        v <= 100,
    ensures
        volume_after(v, steps) <= 100,
    decreases steps.len(),
{
    if steps.len() > 0 {
        lemma_volume_adjustment_in_range(v);
        if steps[0] {
            lemma_volume_sequences_stay_in_range(vol_up(v), steps.drop_first());
        } else {
            lemma_volume_sequences_stay_in_range(vol_down(v), steps.drop_first());
        }
    }
}

/// The application state aggregate. All mutation goes through the methods
/// below; no other component retains references across calls.
pub struct App<A> {
    /// The mirrored snapshot of the player's current track.
    pub track: TrackInfo,
    /// Player volume, always within `0..=100`.
    pub volume: u8,
    /// False once the quit key has been handled; the shell's loop exits.
    pub running: bool,
    /// The active mode.
    pub mode: AppMode,
    /// Which catalog a submitted query goes to.
    pub search_mode: SearchMode,
    /// The artwork slot: a renderable handle of the shell's choosing, or
    /// nothing while no artwork is resolved for the current identity.
    pub artwork: Option<A>,
    /// The track identity the artwork pipeline last fired for.
    pub last_track_name: String,
    /// The search input buffer.
    pub search_query: String,
    /// The results of the last applied search.
    pub search_results: Vec<SearchResult>,
    /// The selected result; within the results whenever they are
    /// non-empty, zero when they are empty.
    pub search_result_index: usize,
}

impl<A> App<A> {
    /// The retained track identity: what the last successful poll's track
    /// name was, used to detect identity changes and to gate artwork
    /// application.
    pub open spec fn retained_identity(self) -> Seq<char> {
        self.last_track_name@
    }

    /// Well-formedness: the volume is within bounds, the selection index
    /// is inside the results (zero when there are none), result mode is
    /// only active with results to show, and the track snapshot is sound.
    pub open spec fn wf(self) -> bool {
        &&& self.volume <= 100
        &&& (self.search_results@.len() == 0 ==> self.search_result_index == 0)
        &&& (self.search_results@.len() > 0 ==> self.search_result_index
            < self.search_results@.len())
        &&& (self.mode == AppMode::SearchResults ==> self.search_results@.len() > 0)
        &&& self.track.wf()
    }

    /// The playback half of the state — track, volume, running flag,
    /// artwork slot and retained identity — is the same in both.
    pub open spec fn playback_unchanged(pre: Self, post: Self) -> bool {
        &&& post.track == pre.track
        &&& post.volume == pre.volume
        &&& post.running == pre.running
        &&& post.artwork == pre.artwork
        &&& post.retained_identity() == pre.retained_identity()
    }

    /// The search half of the state — mode, catalog choice, query buffer,
    /// results and selection — is the same in both.
    pub open spec fn search_unchanged(pre: Self, post: Self) -> bool {
        &&& post.mode == pre.mode
        &&& post.search_mode == pre.search_mode
        &&& post.search_query == pre.search_query
        &&& post.search_results == pre.search_results
        &&& post.search_result_index == pre.search_result_index
    }

    /// The initial state: no track, half volume, running, normal mode,
    /// library search, empty buffer and results, no artwork.
    pub fn new() -> (r: Self)
        ensures
            r.wf(),
            r.track.name@ == Seq::<char>::empty(),
            r.track.artist@ == Seq::<char>::empty(),
            r.track.album@ == Seq::<char>::empty(),
            r.track.duration == 0,
            r.track.player_position == 0,
            r.track.state == PlayerState::Stopped,
            r.volume == 50,
            r.running,
            r.mode == AppMode::Normal,
            r.search_mode == SearchMode::Library,
            r.artwork is None,
            r.retained_identity() == Seq::<char>::empty(),
            r.search_query@ == Seq::<char>::empty(),
            r.search_results@.len() == 0,
            r.search_result_index == 0,
    {
        App {
            track: TrackInfo::new_default(),
            volume: 50,
            running: true,
            mode: AppMode::Normal,
            search_mode: SearchMode::Library,
            artwork: None,
            last_track_name: String::new(),
            search_query: String::new(),
            search_results: Vec::new(),
            search_result_index: 0,
        }
    }

    /// Stops the application: the shell's loop exits after this.
    pub fn quit(&mut self)
        ensures
            !final(self).running,
            final(self).track == old(self).track,
            final(self).volume == old(self).volume,
            final(self).mode == old(self).mode,
            final(self).search_mode == old(self).search_mode,
            final(self).artwork == old(self).artwork,
            final(self).retained_identity() == old(self).retained_identity(),
            final(self).search_query == old(self).search_query,
            final(self).search_results == old(self).search_results,
            final(self).search_result_index == old(self).search_result_index,
            old(self).wf() ==> final(self).wf(),
    {
        self.running = false;
    }

    /// Is the mirrored player state "playing"?
    pub fn is_playing(&self) -> (r: bool)
        ensures
            r == (self.track.state == PlayerState::Playing),
    {
        self.track.state == PlayerState::Playing
    }

    /// Steps the volume up by five, clamped to 100, and returns the new
    /// level for the shell to push to the player.
    pub fn volume_up(&mut self) -> (level: u8)
        requires
            old(self).wf(),
        ensures
            final(self).wf(),
            final(self).volume == vol_up(old(self).volume),
            level == final(self).volume,
            Self::search_unchanged(*old(self), *final(self)),
            final(self).track == old(self).track,
            final(self).running == old(self).running,
            final(self).artwork == old(self).artwork,
            final(self).retained_identity() == old(self).retained_identity(),
    {
        let v = self.volume;
        self.volume = if v + 5 <= 100 {
            v + 5
        } else {
            100
        };
        self.volume
    }

    /// Steps the volume down by five, saturating at zero, and returns the
    /// new level for the shell to push to the player.
    pub fn volume_down(&mut self) -> (level: u8)
        requires
            old(self).wf(),
        ensures
            final(self).wf(),
            final(self).volume == vol_down(old(self).volume),
            level == final(self).volume,
            Self::search_unchanged(*old(self), *final(self)),
            final(self).track == old(self).track,
            final(self).running == old(self).running,
            final(self).artwork == old(self).artwork,
            final(self).retained_identity() == old(self).retained_identity(),
    {
        let v = self.volume;
        self.volume = if v >= 5 {
            v - 5
        } else {
            0
        };
        self.volume
    }

    /// Does a successful poll of track `t` fire the artwork pipeline? It
    /// does exactly when `t`'s name differs from the retained identity.
    pub open spec fn poll_refresh_fires(self, t: TrackInfo) -> bool {
        t.name@ != self.retained_identity()
    }

    /// Applies one polling tick's outcome. A successful poll replaces the
    /// track snapshot wholesale; when the track identity (its name)
    /// changed, the artwork slot is cleared at once, the new identity is
    /// retained, and the returned tag tells the shell to initiate one
    /// artwork resolution for it. A failed poll leaves everything as it
    /// was. A reported volume is clamped to 100; a failed volume query
    /// leaves the volume unchanged.
    pub fn update(&mut self, poll: Option<TrackInfo>, volume: Option<u8>) -> (refresh: Option<
        String,
    >)
        requires
            old(self).wf(),
            poll matches Some(t) ==> t.wf(),
        ensures
            final(self).wf(),
            Self::search_unchanged(*old(self), *final(self)),
            final(self).running == old(self).running,
            match poll {
                Some(t) => {
                    &&& final(self).track == t
                    &&& final(self).retained_identity() == t.name@
                    &&& if old(self).poll_refresh_fires(t) {
                        &&& final(self).artwork is None
                        &&& (refresh matches Some(tag) && tag@ == t.name@)
                    } else {
                        &&& final(self).artwork == old(self).artwork
                        &&& refresh is None
                    }
                },
                None => {
                    &&& final(self).track == old(self).track
                    &&& final(self).retained_identity() == old(self).retained_identity()
                    &&& final(self).artwork == old(self).artwork
                    &&& refresh is None
                },
            },
            final(self).volume == match volume {
                Some(v) => if v <= 100 {
                    v
                } else {
                    100
                },
                None => old(self).volume,
            },
    {
        let mut refresh: Option<String> = None;
        match poll {
            Some(t) => {
                let changed = !str_eq(t.name.as_str(), self.last_track_name.as_str());
                if changed {
                    let tag = t.name.clone();
                    self.last_track_name = t.name.clone();
                    self.artwork = None;
                    refresh = Some(tag);
                }
                self.track = t;
            },
            None => {},
        }
        match volume {
            Some(v) => {
                self.volume = if v <= 100 {
                    v
                } else {
                    100
                };
            },
            None => {},
        }
        refresh
    }

    /// Offers a resolved artwork handle, tagged with the identity its
    /// resolution was initiated for. The handle lands in the artwork slot
    /// exactly when that tag still names the current retained identity;
    /// a stale result is discarded and changes nothing.
    pub fn apply_artwork(&mut self, tag: &String, handle: A) -> (applied: bool)
        ensures
            applied == (tag@ == old(self).retained_identity()),
            applied ==> (final(self).artwork matches Some(h) && h == handle),
            !applied ==> final(self).artwork == old(self).artwork,
            final(self).track == old(self).track,
            final(self).volume == old(self).volume,
            final(self).running == old(self).running,
            final(self).retained_identity() == old(self).retained_identity(),
            Self::search_unchanged(*old(self), *final(self)),
            old(self).wf() ==> final(self).wf(),
    {
        if str_eq(tag.as_str(), self.last_track_name.as_str()) {
            self.artwork = Some(handle);
            true
        } else {
            false
        }
    }

    /// Applies the results of a submitted search: they replace the old
    /// results and the selection returns to the top. With at least one
    /// result the mode moves to `SearchResults`; with none the mode stays
    /// as it was, so an empty reply keeps the user in the input overlay.
    pub fn apply_search_results(&mut self, results: Vec<SearchResult>)
        requires
            old(self).wf(),
            old(self).mode == AppMode::SearchInput,
        ensures
            final(self).wf(),
            final(self).search_results == results,
            final(self).search_result_index == 0,
            final(self).mode == (if results@.len() > 0 {
                AppMode::SearchResults
            } else {
                old(self).mode
            }),
            final(self).search_mode == old(self).search_mode,
            final(self).search_query == old(self).search_query,
            Self::playback_unchanged(*old(self), *final(self)),
    {
        let has_results = results.len() > 0;
        self.search_results = results;
        self.search_result_index = 0;
        if has_results {
            self.mode = AppMode::SearchResults;
        }
    }

    /// Moves the selection one result up; a no-op at the top.
    pub fn search_select_prev(&mut self)
        requires
            old(self).wf(),
        ensures
            final(self).wf(),
            final(self).search_result_index == (if old(self).search_result_index > 0 {
                (old(self).search_result_index - 1) as usize
            } else {
                0usize
            }),
            final(self).mode == old(self).mode,
            final(self).search_mode == old(self).search_mode,
            final(self).search_query == old(self).search_query,
            final(self).search_results == old(self).search_results,
            Self::playback_unchanged(*old(self), *final(self)),
    {
        if self.search_result_index > 0 {
            self.search_result_index = self.search_result_index - 1;
        }
    }

    /// Moves the selection one result down; a no-op at the bottom (and
    /// with no results).
    pub fn search_select_next(&mut self)
        requires
            old(self).wf(),
        ensures
            final(self).wf(),
            final(self).search_result_index == (if old(self).search_results@.len() > 0 && old(
                self,
            ).search_result_index + 1 < old(self).search_results@.len() {
                (old(self).search_result_index + 1) as usize
            } else {
                old(self).search_result_index
            }),
            final(self).mode == old(self).mode,
            final(self).search_mode == old(self).search_mode,
            final(self).search_query == old(self).search_query,
            final(self).search_results == old(self).search_results,
            Self::playback_unchanged(*old(self), *final(self)),
    {
        let len = self.search_results.len();
        if len > 0 && self.search_result_index + 1 < len {
            self.search_result_index = self.search_result_index + 1;
        }
    }

    /// Plays the selected result: decides its playback dispatch from the
    /// identifier's scheme, leaves search mode for `Normal`, and clears
    /// the query, the results and the selection. With no results this is
    /// a no-op that dispatches nothing.
    pub fn search_play_selection(&mut self) -> (d: Option<PlaybackDispatch>)
        requires
            old(self).wf(),
        ensures
            final(self).wf(),
            old(self).search_results@.len() == 0 ==> {
                &&& d is None
                &&& Self::playback_unchanged(*old(self), *final(self))
                &&& Self::search_unchanged(*old(self), *final(self))
            },
            old(self).search_results@.len() > 0 ==> {
                let sel = old(self).search_results@[old(self).search_result_index as int]@.id;
                &&& (d matches Some(dispatch) && spec_dispatch_for(sel, dispatch))
                &&& final(self).mode == AppMode::Normal
                &&& final(self).search_query@ == Seq::<char>::empty()
                &&& final(self).search_results@.len() == 0
                &&& final(self).search_result_index == 0
                &&& final(self).search_mode == old(self).search_mode
                &&& Self::playback_unchanged(*old(self), *final(self))
            },
    {
        if self.search_results.len() == 0 {
            return None;
        }
        let id = self.search_results[self.search_result_index].id.clone();
        let d = play_track_by_id(id.as_str());
        self.mode = AppMode::Normal;
        self.search_query = String::new();
        self.search_results = Vec::new();
        self.search_result_index = 0;
        Some(d)
    }

    /// Leaves any search overlay for `Normal` and clears the query, the
    /// results and the selection.
    pub fn cancel_search(&mut self)
        requires
            old(self).wf(),
        ensures
            final(self).wf(),
            final(self).mode == AppMode::Normal,
            final(self).search_query@ == Seq::<char>::empty(),
            final(self).search_results@.len() == 0,
            final(self).search_result_index == 0,
            final(self).search_mode == old(self).search_mode,
            Self::playback_unchanged(*old(self), *final(self)),
    {
        self.mode = AppMode::Normal;
        self.search_query = String::new();
        self.search_results = Vec::new();
        self.search_result_index = 0;
    }
}

/// A poll that repeats the retained identity never re-fires the artwork
/// pipeline: once a successful poll of some track has retained its name,
/// any further poll of a track with that same name does not fire. With
/// [`App::update`]'s contract — a successful poll of `t` retains `t.name`
/// and fires exactly when the name differs from what was retained — the
/// pipeline fires at most once per distinct consecutive name.
pub proof fn lemma_artwork_fires_at_most_once<A>(after_poll: App<A>, t: TrackInfo, t2: TrackInfo)
    requires
        after_poll.retained_identity() == t.name@,
        t2.name@ == t.name@,
    ensures
        !after_poll.poll_refresh_fires(t2),
{
}

/// In every well-formed state the selection index is inside the results
/// whenever there are any, and pinned to zero otherwise.
pub proof fn lemma_selection_in_range<A>(app: App<A>)
    requires
        app.wf(),
    ensures
        app.search_results@.len() > 0 ==> app.search_result_index < app.search_results@.len(),
        app.search_results@.len() == 0 ==> app.search_result_index == 0,
{
}

} // verus!
