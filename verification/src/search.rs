//! Catalog search: script/URL builders, reply decoding, and the playback
//! dispatch decision for a selected result.
//!
//! Two catalogs share one result type: the local library (searched through
//! an automation script) and the remote catalog (searched through an HTTP
//! query). The shell runs the script or the fetch; everything around it —
//! the exact query text, and the assembly of results from the decoded
//! reply — is verified. Only the JSON decoding itself is trusted, behind
//! two wrappers over `serde_json`.

use vstd::prelude::*;
use crate::text::dec_digits;
use crate::text::replace_all;
use crate::text::spec_replace;
use crate::text::starts_with;
use crate::text::u64_to_string;
use crate::text::urlencoding;
use crate::text::percent_encode;
use vstd::string::StrSliceExecFns;
use vstd::string::StringExecFns;

verus! {

/// One candidate track from either catalog. `id` is opaque: a library
/// persistent identifier, or a scheme-qualified remote URI; the scheme
/// prefix alone decides how playback is started later.
#[derive(Debug, Clone)]
pub struct SearchResult {
    pub name: String,
    pub artist: String,
    pub album: String,
    pub id: String,
}

/// The mathematical value of a [`SearchResult`]: its four character
/// sequences.
pub struct SearchResultView {
    pub name: Seq<char>,
    pub artist: Seq<char>,
    pub album: Seq<char>,
    pub id: Seq<char>,
}

impl View for SearchResult {
    type V = SearchResultView;

    open spec fn view(&self) -> SearchResultView {
        SearchResultView {
            name: self.name@,
            artist: self.artist@,
            album: self.album@,
            id: self.id@,
        }
    }
}

impl DeepView for SearchResult {
    type V = SearchResultView;

    open spec fn deep_view(&self) -> SearchResultView {
        self.view()
    }
}

/// The library search script for a query, with every double quote in the
/// query escaped so it stays inside the script's string literal.
pub fn search_library_script(query: &str) -> (s: String)
    ensures
        s@
            == "const music = Application('Music'); const library = music.libraryPlaylists[0]; try { const results = music.search(library, {for: \""@
            + spec_replace(query@, "\""@, "\\\""@)
            + "\"}); let output = []; const limit = Math.min(results.length, 20); for (let i = 0; i < limit; i++) { const track = results[i]; output.push({name: track.name(), artist: track.artist(), album: track.album(), id: track.persistentID()}); } JSON.stringify(output); } catch(e) { JSON.stringify([]); }"@,
{
    proof {
        reveal_strlit("\"");
    }
    let mut s = String::from_str(
        "const music = Application('Music'); const library = music.libraryPlaylists[0]; try { const results = music.search(library, {for: \"",
    );
    let escaped = replace_all(query, "\"", "\\\"");
    s.append(escaped.as_str());
    s.append(
        "\"}); let output = []; const limit = Math.min(results.length, 20); for (let i = 0; i < limit; i++) { const track = results[i]; output.push({name: track.name(), artist: track.artist(), album: track.album(), id: track.persistentID()}); } JSON.stringify(output); } catch(e) { JSON.stringify([]); }",
    );
    s
}

/// The four string fields of one entry of a library search reply, each
/// absent when the reply lacks it.
pub uninterp spec fn library_items_of(s: Seq<char>) -> Seq<
    (Option<Seq<char>>, Option<Seq<char>>, Option<Seq<char>>, Option<Seq<char>>),
>;

/// Relies on `serde_json::from_str` and `serde_json::Value`'s accessors
/// (`as_array`, `get`, `as_str`): decodes the library search reply — a JSON
/// array of objects — and hands over each entry's `name`, `artist`, `album`
/// and `id` fields, absent where missing or not a string. The decoding is
/// a function of the reply text alone, named by [`library_items_of`].
#[verifier::external_body]
fn parse_library_items(raw: &str) -> (r: Vec<
    (Option<String>, Option<String>, Option<String>, Option<String>),
>)
    ensures
        r.deep_view() == library_items_of(raw@),
{
    let v: serde_json::Value = serde_json::from_str(raw).unwrap_or(serde_json::Value::Null);
    let f = |o: &serde_json::Value, k| o.get(k).and_then(|x| x.as_str()).map(str::to_string);
    let mut out = Vec::new();
    for it in v.as_array().map(|a| a.as_slice()).unwrap_or(&[]) {
        out.push((f(it, "name"), f(it, "artist"), f(it, "album"), f(it, "id")));
    }
    out
}

/// An entry that carries all four fields.
pub open spec fn library_item_complete(
    it: (Option<Seq<char>>, Option<Seq<char>>, Option<Seq<char>>, Option<Seq<char>>),
) -> bool {
    it.0 is Some && it.1 is Some && it.2 is Some && it.3 is Some
}

/// The result built from a complete library entry.
pub open spec fn library_result_of(
    it: (Option<Seq<char>>, Option<Seq<char>>, Option<Seq<char>>, Option<Seq<char>>),
) -> SearchResultView
    recommends
        library_item_complete(it),
{
    SearchResultView {
        name: it.0.unwrap_or(Seq::empty()),
        artist: it.1.unwrap_or(Seq::empty()),
        album: it.2.unwrap_or(Seq::empty()),
        id: it.3.unwrap_or(Seq::empty()),
    }
}

/// Every entry of the reply carries all four fields.
pub open spec fn all_library_items_complete(
    items: Seq<(Option<Seq<char>>, Option<Seq<char>>, Option<Seq<char>>, Option<Seq<char>>)>,
) -> bool {
    forall|i: int| 0 <= i < items.len() ==> library_item_complete(#[trigger] items[i])
}

/// One result per reply entry, in reply order.
pub open spec fn library_results_list(
    items: Seq<(Option<Seq<char>>, Option<Seq<char>>, Option<Seq<char>>, Option<Seq<char>>)>,
) -> Seq<SearchResultView>
    decreases items.len(),
{
    if items.len() == 0 {
        Seq::empty()
    } else {
        library_results_list(items.drop_last()).push(library_result_of(items.last()))
    }
}

/// The results of a library search: one per reply entry when every entry
/// is complete; an entry with a missing field fails the whole reply, which
/// decodes to no results, the same reading as any other parse failure.
pub open spec fn spec_library_results(
    items: Seq<(Option<Seq<char>>, Option<Seq<char>>, Option<Seq<char>>, Option<Seq<char>>)>,
) -> Seq<SearchResultView> {
    if all_library_items_complete(items) {
        library_results_list(items)
    } else {
        Seq::empty()
    }
}

/// Decodes a library search reply into results, as
/// [`spec_library_results`] of the reply's entries describes.
pub fn search_library(raw: &str) -> (r: Vec<SearchResult>)
    ensures
        r.deep_view() == spec_library_results(library_items_of(raw@)),
{
    let items = parse_library_items(raw);
    let ghost gitems = library_items_of(raw@);
    let mut out: Vec<SearchResult> = Vec::new();
    let n = items.len();
    proof {
        assert(items.deep_view().len() == items@.len());
        assert(gitems.take(0) =~= Seq::empty());
        assert(out.deep_view() =~= Seq::<SearchResultView>::empty());
    }
    let mut idx: usize = 0;
    while idx < n
        invariant
            n == items@.len(),
            items.deep_view() == gitems,
            gitems == library_items_of(raw@),
            gitems.len() == n,
            idx <= n,
            forall|j: int| 0 <= j < idx ==> library_item_complete(#[trigger] gitems[j]),
            out.deep_view() == library_results_list(gitems.take(idx as int)),
        decreases n - idx,
    {
        let ghost pre_dv = out.deep_view();
        let it = &items[idx];
        proof {
            assert(gitems[idx as int] == items@[idx as int].deep_view());
        }
        match (&it.0, &it.1, &it.2, &it.3) {
            (Some(name), Some(artist), Some(album), Some(id)) => {
                let sr = SearchResult {
                    name: name.clone(),
                    artist: artist.clone(),
                    album: album.clone(),
                    id: id.clone(),
                };
                proof {
                    assert(sr.deep_view() == library_result_of(gitems[idx as int]));
                }
                out.push(sr);
                proof {
                    assert(out.deep_view() =~= pre_dv.push(library_result_of(gitems[idx as int])));
                    assert(gitems.take(idx + 1).drop_last() =~= gitems.take(idx as int));
                    assert(gitems.take(idx + 1).last() == gitems[idx as int]);
                }
            },
            _ => {
                proof {
                    assert(!library_item_complete(gitems[idx as int]));
                    assert(!all_library_items_complete(gitems));
                }
                let empty: Vec<SearchResult> = Vec::new();
                proof {
                    assert(empty.deep_view() =~= Seq::<SearchResultView>::empty());
                }
                return empty;
            },
        }
        idx += 1;
    }
    proof {
        assert(gitems.take(n as int) =~= gitems);
        assert(all_library_items_complete(gitems));
    }
    out
}

/// The remote catalog query URL for a song search on the given term.
pub fn apple_music_search_url(query: &str) -> (r: String)
    ensures
        r@ == "https://itunes.apple.com/search?term="@ + percent_encode(query@)
            + "&entity=song&limit=20&country=US"@,
{
    let mut url = String::from_str("https://itunes.apple.com/search?term=");
    let encoded = urlencoding(query);
    url.append(encoded.as_str());
    url.append("&entity=song&limit=20&country=US");
    url
}

/// The fields of one entry of a remote search reply: track, artist and
/// collection names, the track view URL, and the collection and track
/// identifiers; each absent when the reply lacks it.
pub uninterp spec fn remote_items_of(s: Seq<char>) -> Seq<
    (
        Option<Seq<char>>,
        Option<Seq<char>>,
        Option<Seq<char>>,
        Option<Seq<char>>,
        Option<u64>,
        Option<u64>,
    ),
>;

/// Relies on `serde_json::from_str` and `serde_json::Value`'s accessors
/// (`get`, `as_array`, `as_str`, `as_u64`): decodes the remote search reply
/// — a JSON object whose `results` field is an array of objects — and hands
/// over each entry's `trackName`, `artistName`, `collectionName`,
/// `trackViewUrl`, `collectionId` and `trackId` fields, absent where
/// missing or of the wrong type. The decoding is a function of the reply
/// text alone, named by [`remote_items_of`].
#[verifier::external_body]
fn parse_remote_items(raw: &str) -> (r: Vec<
    (Option<String>, Option<String>, Option<String>, Option<String>, Option<u64>, Option<u64>),
>)
    ensures
        r.deep_view() == remote_items_of(raw@),
{
    let v: serde_json::Value = serde_json::from_str(raw).unwrap_or(serde_json::Value::Null);
    let f = |o: &serde_json::Value, k| o.get(k).and_then(|x| x.as_str()).map(str::to_string);
    let g = |o: &serde_json::Value, k| o.get(k).and_then(|x| x.as_u64());
    let mut out = Vec::new();
    for it in v.get("results").and_then(|r| r.as_array()).map(|a| a.as_slice()).unwrap_or(&[]) {
        out.push((
            f(it, "trackName"),
            f(it, "artistName"),
            f(it, "collectionName"),
            f(it, "trackViewUrl"),
            g(it, "collectionId"),
            g(it, "trackId"),
        ));
    }
    out
}

/// A name field, or `Unknown` where the reply had none.
pub open spec fn name_or_unknown(o: Option<Seq<char>>) -> Seq<char> {
    match o {
        Some(s) => s,
        None => "Unknown"@,
    }
}

/// The playable identifier of a remote entry: the track view URL with its
/// `https://` scheme rewritten to the player's `music://` scheme, or, when
/// the URL is absent or empty, a `music://` song address assembled from the
/// collection and track identifiers (zero where absent).
pub open spec fn remote_id_of(
    it: (
        Option<Seq<char>>,
        Option<Seq<char>>,
        Option<Seq<char>>,
        Option<Seq<char>>,
        Option<u64>,
        Option<u64>,
    ),
) -> Seq<char> {
    let fallback = "music://music.apple.com/song/"@ + dec_digits(
        (match it.4 {
            Some(c) => c,
            None => 0,
        }) as nat,
    ) + "?i="@ + dec_digits(
        (match it.5 {
            Some(t) => t,
            None => 0,
        }) as nat,
    );
    match it.3 {
        Some(u) => if u.len() > 0 {
            spec_replace(u, "https://"@, "music://"@)
        } else {
            fallback
        },
        None => fallback,
    }
}

/// The result built from one remote entry.
pub open spec fn remote_result_of(
    it: (
        Option<Seq<char>>,
        Option<Seq<char>>,
        Option<Seq<char>>,
        Option<Seq<char>>,
        Option<u64>,
        Option<u64>,
    ),
) -> SearchResultView {
    SearchResultView {
        name: name_or_unknown(it.0),
        artist: name_or_unknown(it.1),
        album: name_or_unknown(it.2),
        id: remote_id_of(it),
    }
}

/// The results of a remote search: one per reply entry, in reply order.
pub open spec fn spec_remote_results(
    items: Seq<
        (
            Option<Seq<char>>,
            Option<Seq<char>>,
            Option<Seq<char>>,
            Option<Seq<char>>,
            Option<u64>,
            Option<u64>,
        ),
    >,
) -> Seq<SearchResultView>
    decreases items.len(),
{
    if items.len() == 0 {
        Seq::empty()
    } else {
        spec_remote_results(items.drop_last()).push(remote_result_of(items.last()))
    }
}

/// Decodes a remote search reply into results, as [`spec_remote_results`]
/// of the reply's entries describes.
pub fn search_apple_music(raw: &str) -> (r: Vec<SearchResult>)
    ensures
        r.deep_view() == spec_remote_results(remote_items_of(raw@)),
{
    let items = parse_remote_items(raw);
    let ghost gitems = remote_items_of(raw@);
    let mut out: Vec<SearchResult> = Vec::new();
    let n = items.len();
    proof {
        assert(items.deep_view().len() == items@.len());
        assert(gitems.take(0) =~= Seq::empty());
        assert(out.deep_view() =~= Seq::<SearchResultView>::empty());
    }
    let mut idx: usize = 0;
    while idx < n
        invariant
            n == items@.len(),
            items.deep_view() == gitems,
            gitems.len() == n,
            idx <= n,
            out.deep_view() == spec_remote_results(gitems.take(idx as int)),
        decreases n - idx,
    {
        let ghost pre_dv = out.deep_view();
        let it = &items[idx];
        proof {
            assert(gitems[idx as int] == items@[idx as int].deep_view());
        }
        let name = match &it.0 {
            Some(s) => s.clone(),
            None => String::from_str("Unknown"),
        };
        let artist = match &it.1 {
            Some(s) => s.clone(),
            None => String::from_str("Unknown"),
        };
        let album = match &it.2 {
            Some(s) => s.clone(),
            None => String::from_str("Unknown"),
        };
        let id = remote_entry_id(it);
        let sr = SearchResult { name, artist, album, id };
        proof {
            assert(sr.deep_view() == remote_result_of(gitems[idx as int]));
        }
        out.push(sr);
        proof {
            assert(out.deep_view() =~= pre_dv.push(remote_result_of(gitems[idx as int])));
            assert(gitems.take(idx + 1).drop_last() =~= gitems.take(idx as int));
            assert(gitems.take(idx + 1).last() == gitems[idx as int]);
        }
        idx += 1;
    }
    proof {
        assert(gitems.take(n as int) =~= gitems);
    }
    out
}

/// Builds the playable identifier of one remote entry, as
/// [`remote_id_of`] describes.
fn remote_entry_id(
    it: &(Option<String>, Option<String>, Option<String>, Option<String>, Option<u64>, Option<u64>),
) -> (r: String)
    ensures
        r@ == remote_id_of(it.deep_view()),
{
    match &it.3 {
        Some(u) => {
            if !u.as_str().is_empty() {
                proof {
                    reveal_strlit("https://");
                }
                return replace_all(u.as_str(), "https://", "music://");
            }
        },
        None => {},
    }
    let cid: u64 = match &it.4 {
        Some(c) => *c,
        None => 0,
    };
    let tid: u64 = match &it.5 {
        Some(t) => *t,
        None => 0,
    };
    let mut s = String::from_str("music://music.apple.com/song/");
    let cid_str = u64_to_string(cid);
    s.append(cid_str.as_str());
    s.append("?i=");
    let tid_str = u64_to_string(tid);
    s.append(tid_str.as_str());
    s
}

/// How a selected result is played: a remote URI is handed to the host to
/// open (followed, after the settle delay, by one confirmation script), a
/// library identifier goes into a direct play script.
#[derive(Debug, Clone)]
pub enum PlaybackDispatch {
    /// Open this URI with the host's handler, then confirm playback.
    Remote { uri: String },
    /// Run this script against the player.
    Local { script: String },
}

/// The scheme prefix that marks a result identifier as remote.
pub open spec fn spec_is_remote_id(id: Seq<char>) -> bool {
    "music://"@.len() <= id.len() && id.subrange(0, "music://"@.len() as int) == "music://"@
}

/// The direct play script for a library identifier.
pub open spec fn local_play_script(id: Seq<char>) -> Seq<char> {
    "const music = Application('Music'); try { const library = music.libraryPlaylists[0]; const tracks = library.tracks.whose({persistentID: \""@
        + id + "\"}); if (tracks.length > 0) { tracks[0].play(); } } catch(e) {}"@
}

/// `d` is the dispatch that identifier `id` calls for: the URI itself when
/// the identifier carries the remote scheme, the direct play script
/// otherwise.
pub open spec fn spec_dispatch_for(id: Seq<char>, d: PlaybackDispatch) -> bool {
    match d {
        PlaybackDispatch::Remote { uri } => spec_is_remote_id(id) && uri@ == id,
        PlaybackDispatch::Local { script } => !spec_is_remote_id(id) && script@
            == local_play_script(id),
    }
}

/// Milliseconds to wait after handing a remote URI to the host before the
/// confirmation script is sent.
pub const REMOTE_SETTLE_MS: u64 = 1500;

/// The confirmation script sent once a remote URI has had its settle
/// delay: it resumes playback in the host player's current context.
pub fn remote_confirm_script() -> (s: String)
    ensures
        s@ == "Application('Music').play()"@,
{
    String::from_str("Application('Music').play()")
}

/// Decides how the selected identifier is played: identifiers with the
/// remote scheme become exactly one URI hand-off (the shell opens it and,
/// after [`REMOTE_SETTLE_MS`], runs [`remote_confirm_script`] once, on a
/// task that blocks nothing); every other identifier becomes a direct
/// play-by-persistent-id script.
pub fn play_track_by_id(id: &str) -> (d: PlaybackDispatch)
    ensures
        spec_dispatch_for(id@, d),
{
    if starts_with(id, "music://") {
        PlaybackDispatch::Remote { uri: id.to_owned() }
    } else {
        let mut s = String::from_str(
            "const music = Application('Music'); try { const library = music.libraryPlaylists[0]; const tracks = library.tracks.whose({persistentID: \"",
        );
        s.append(id);
        s.append("\"}); if (tracks.length > 0) { tracks[0].play(); } } catch(e) {}");
        PlaybackDispatch::Local { script: s }
    }
}

} // verus!
