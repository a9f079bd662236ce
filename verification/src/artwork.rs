//! The pure stages of the artwork-resolution pipeline.
//!
//! Resolving cover art for a track goes: guard on the metadata, derive a
//! lookup term, build the catalog query URL, pull the artwork reference out
//! of the reply, and upscale it to a high-resolution asset. Every stage is
//! verified here; only the two fetches in between are the shell's.

use vstd::prelude::*;
use crate::text::find;
use crate::text::percent_encode;
use crate::text::replace_all;
use crate::text::spec_find;
use crate::text::spec_replace;
use crate::text::urlencoding;
use crate::track::TrackInfo;
use vstd::string::StrSliceExecFns;
use vstd::string::StringExecFns;

verus! {

/// The search term used to look a track's album up: the artist, a space,
/// and the album. `None` when the track has an empty name or artist — such
/// a track resolves to "no artwork" without any lookup.
pub fn artwork_lookup_term(track: &TrackInfo) -> (r: Option<String>)
    ensures
        match r {
            Some(term) => track.name@.len() > 0 && track.artist@.len() > 0 && term@
                == track.artist@ + " "@ + track.album@,
            None => track.name@.len() == 0 || track.artist@.len() == 0,
        },
{
    if track.name.as_str().is_empty() || track.artist.as_str().is_empty() {
        return None;
    }
    let mut term = track.artist.clone();
    term.append(" ");
    term.append(track.album.as_str());
    Some(term)
}

/// The catalog query URL for one album match on the given term.
pub fn artwork_search_url(term: &str) -> (r: String)
    ensures
        r@ == "https://itunes.apple.com/search?term="@ + percent_encode(term@)
            + "&entity=album&limit=1"@,
{
    let mut url = String::from_str("https://itunes.apple.com/search?term=");
    let encoded = urlencoding(term);
    url.append(encoded.as_str());
    url.append("&entity=album&limit=1");
    url
}

/// The artwork reference that a catalog reply holds: the text between the
/// first `"artworkUrl100":"` and the next `"`, if both are present.
pub open spec fn spec_extract_artwork_url(s: Seq<char>) -> Option<Seq<char>> {
    let marker = "\"artworkUrl100\":\""@;
    match spec_find(s, marker) {
        None => None,
        Some(i) => {
            let rest = s.skip(i + marker.len());
            match spec_find(rest, "\""@) {
                None => None,
                Some(j) => Some(rest.take(j)),
            }
        },
    }
}

/// Pulls the artwork reference URL out of a catalog reply, as
/// [`spec_extract_artwork_url`] describes.
pub fn extract_artwork_url(json: &str) -> (r: Option<String>)
    ensures
        match r {
            Some(url) => spec_extract_artwork_url(json@) == Some(url@),
            None => spec_extract_artwork_url(json@) is None,
        },
{
    let marker = "\"artworkUrl100\":\"";
    let n = json.unicode_len();
    let m = marker.unicode_len();
    match find(json, marker) {
        None => None,
        Some(i) => {
            proof {
                crate::text::lemma_spec_find_characterization(json@, marker@);
            }
            assert(i + m <= n);
            let rest = json.substring_char(i + m, n);
            proof {
                assert(rest@ =~= json@.skip(i + m));
            }
            match find(rest, "\"") {
                None => None,
                Some(j) => {
                    proof {
                        crate::text::lemma_spec_find_characterization(rest@, "\""@);
                    }
                    assert(j <= rest@.len());
                    let url = rest.substring_char(0, j);
                    proof {
                        assert(url@ =~= rest@.take(j as int));
                    }
                    Some(url.to_owned())
                },
            }
        },
    }
}

/// Requests the high-resolution asset: every embedded `100x100` size marker
/// in the reference URL is rewritten to `600x600`.
pub fn upscale_artwork_url(url: &str) -> (r: String)
    ensures
        r@ == spec_replace(url@, "100x100"@, "600x600"@),
{
    proof {
        reveal_strlit("100x100");
    }
    replace_all(url, "100x100", "600x600")
}

} // verus!
