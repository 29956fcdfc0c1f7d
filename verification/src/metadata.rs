//! Now-playing metadata from the Online Radio Box scraper.

use vstd::prelude::*;
use crate::text::{
    chars_of, contains, contains_run, find_run, is_first_occurrence, lemma_first_occurrence_unique,
    split_once_str, string_of_range,
};

verus! {

broadcast use vstd::string::group_string_axioms;

/// What is playing now.
#[derive(Debug, Clone)]
pub struct Metadata {
    pub track_id: String,
    pub artist: String,
    pub title: String,
    pub album: Option<String>,
    pub art_url: String,
    pub duration_secs: Option<u64>,
}

/// Metadata as character sequences.
pub struct MetadataView {
    pub track_id: Seq<char>,
    pub artist: Seq<char>,
    pub title: Seq<char>,
    pub album: Option<Seq<char>>,
    pub art_url: Seq<char>,
    pub duration_secs: Option<u64>,
}

/// The view of an optional string.
pub open spec fn opt_chars(o: Option<String>) -> Option<Seq<char>> {
    match o {
        Some(s) => Some(s@),
        None => None,
    }
}

impl View for Metadata {
    type V = MetadataView;

    open spec fn view(&self) -> MetadataView {
        MetadataView {
            track_id: self.track_id@,
            artist: self.artist@,
            title: self.title@,
            album: opt_chars(self.album),
            art_url: self.art_url@,
            duration_secs: self.duration_secs,
        }
    }
}

/// Metadata with every text empty and nothing else known.
pub open spec fn empty_metadata() -> MetadataView {
    MetadataView {
        track_id: Seq::empty(),
        artist: Seq::empty(),
        title: Seq::empty(),
        album: None,
        art_url: Seq::empty(),
        duration_secs: None,
    }
}

impl Default for Metadata {
    fn default() -> (r: Metadata)
        ensures
            r@ == empty_metadata(),
    {
        Metadata {
            track_id: String::new(),
            artist: String::new(),
            title: String::new(),
            album: None,
            art_url: String::new(),
            duration_secs: None,
        }
    }
}

/// The scraper's now-playing answer; every field may be missing.
#[derive(Debug)]
pub struct ScraperResponse {
    pub title: Option<String>,
    pub i_artist: Option<String>,
    pub i_name: Option<String>,
    pub i_img: Option<String>,
    pub track_id: Option<String>,
}

/// A scraper answer as character sequences.
pub struct ScraperResponseView {
    pub title: Option<Seq<char>>,
    pub i_artist: Option<Seq<char>>,
    pub i_name: Option<Seq<char>>,
    pub i_img: Option<Seq<char>>,
    pub track_id: Option<Seq<char>>,
}

impl View for ScraperResponse {
    type V = ScraperResponseView;

    open spec fn view(&self) -> ScraperResponseView {
        ScraperResponseView {
            title: opt_chars(self.title),
            i_artist: opt_chars(self.i_artist),
            i_name: opt_chars(self.i_name),
            i_img: opt_chars(self.i_img),
            track_id: opt_chars(self.track_id),
        }
    }
}

/// The text, or nothing when it is missing.
pub open spec fn or_empty(o: Option<Seq<char>>) -> Seq<char> {
    match o {
        Some(s) => s,
        None => Seq::empty(),
    }
}

/// Artist and title: the structured fields when both are non-empty, else
/// the raw title split at the first `" - "`, else no artist and the raw title.
pub open spec fn artist_and_title(r: ScraperResponseView) -> (Seq<char>, Seq<char>) {
    if r.i_artist is Some && r.i_name is Some && r.i_artist->Some_0.len() > 0 && r.i_name->Some_0.len() > 0 {
        (r.i_artist->Some_0, r.i_name->Some_0)
    } else {
        let raw = or_empty(r.title);
        match split_once_str(raw, " - "@) {
            Some((a, t)) => (a, t),
            None => (Seq::empty(), raw),
        }
    }
}

/// The metadata that a scraper answer describes.
pub open spec fn metadata_of(r: ScraperResponseView) -> MetadataView {
    MetadataView {
        track_id: or_empty(r.track_id),
        artist: artist_and_title(r).0,
        title: artist_and_title(r).1,
        album: None,
        art_url: or_empty(r.i_img),
        duration_secs: None,
    }
}

/// The text, or an empty string when it is missing.
fn take_or_empty(o: Option<String>) -> (s: String)
    ensures
        s@ == or_empty(opt_chars(o)),
{
    match o {
        Some(s) => s,
        None => String::new(),
    }
}

/// Turns a scraper answer into now-playing metadata.
pub fn parse_metadata(response: ScraperResponse) -> (m: Metadata)
    ensures
        m@ == metadata_of(response@),
{
    let art_url = take_or_empty(response.i_img);
    let track_id = take_or_empty(response.track_id);
    let structured = match (&response.i_artist, &response.i_name) {
        (Some(a), Some(n)) => !a.as_str().is_empty() && !n.as_str().is_empty(),
        _ => false,
    };
    let (artist, title) = if structured {
        (take_or_empty(response.i_artist), take_or_empty(response.i_name))
    } else {
        let raw = take_or_empty(response.title);
        let v = chars_of(raw.as_str());
        let sep = chars_of(" - ");
        match find_run(&v, &sep) {
            Some(i) => {
                let a = string_of_range(&v, 0, i);
                let t = string_of_range(&v, i + sep.len(), v.len());
                assert(v@.take(i as int) == v@.subrange(0, i as int));
                assert(v@.skip(i + sep@.len()) == v@.subrange(i + sep@.len(), v@.len() as int));
                (a, t)
            }
            None => (String::new(), raw),
        }
    };
    Metadata { track_id, artist, title, album: None, art_url, duration_secs: None }
}

/// The now-playing endpoint for a station:
/// `http://scraper.onlineradiobox.com/<country>.<alias>`.
pub open spec fn scraper_url_text(country: Seq<char>, alias: Seq<char>) -> Seq<char> {
    "http://scraper.onlineradiobox.com/"@ + country + "."@ + alias
}

/// The now-playing endpoint for a station.
pub fn scraper_url(country: &str, alias: &str) -> (r: String)
    ensures
        r@ == scraper_url_text(country@, alias@),
{
    let mut r = String::new();
    r.push_str("http://scraper.onlineradiobox.com/");
    r.push_str(country);
    r.push_str(".");
    r.push_str(alias);
    assert(Seq::<char>::empty() + "http://scraper.onlineradiobox.com/"@ == "http://scraper.onlineradiobox.com/"@);
    r
}

/// A failed now-playing fetch that will not get better by polling again:
/// its message mentions `404`, `410` or `geo-blocked`.
pub open spec fn is_permanent_failure_text(message: Seq<char>) -> bool {
    contains(message, "404"@) || contains(message, "410"@) || contains(message, "geo-blocked"@)
}

/// Whether a failed now-playing fetch is permanent (see `is_permanent_failure_text`).
pub fn is_permanent_failure(message: &str) -> (b: bool)
    ensures
        b == is_permanent_failure_text(message@),
{
    let v = chars_of(message);
    contains_run(&v, &chars_of("404")) || contains_run(&v, &chars_of("410"))
        || contains_run(&v, &chars_of("geo-blocked"))
}

/// The metadata keeps the scraper's track id and image URL (empty when
/// missing) and never holds an album or a duration.
pub proof fn law_metadata_fields(r: ScraperResponseView)
    ensures
        metadata_of(r).track_id == (if r.track_id is Some { r.track_id->Some_0 } else { Seq::empty() }),
        metadata_of(r).art_url == (if r.i_img is Some { r.i_img->Some_0 } else { Seq::empty() }),
        metadata_of(r).album is None,
        metadata_of(r).duration_secs is None,
{
}

/// When the scraper gives a non-empty artist and a non-empty name, they are
/// the artist and the title, whatever the raw title holds.
pub proof fn law_metadata_structured(r: ScraperResponseView, a: Seq<char>, n: Seq<char>)
    requires
        r.i_artist == Some(a),
        r.i_name == Some(n),
        a.len() > 0,
        n.len() > 0,
    ensures
        metadata_of(r).artist == a,
        metadata_of(r).title == n,
{
}

/// When the artist or the name is missing or empty, whatever the other
/// holds, the raw title (empty when missing) is split at its first `" - "`:
/// the artist is what comes before it and the title what comes after.
pub proof fn law_metadata_split_title(r: ScraperResponseView, raw: Seq<char>, i: int)
    requires
        r.i_artist is None || r.i_artist->Some_0.len() == 0 || r.i_name is None || r.i_name->Some_0.len() == 0,
        r.title == Some(raw) || (r.title is None && raw.len() == 0),
        0 <= i,
        i + 3 <= raw.len(),
        raw.subrange(i, i + 3) == " - "@,
        forall|j: int| 0 <= j < i ==> #[trigger] raw.subrange(j, j + 3) != " - "@,
    ensures
        metadata_of(r).artist == raw.subrange(0, i),
        metadata_of(r).title == raw.subrange(i + 3, raw.len() as int),
{
    reveal_strlit(" - ");
    assert(is_first_occurrence(raw, " - "@, i));
    lemma_first_occurrence_unique(raw, " - "@, i);
    assert(raw.take(i) == raw.subrange(0, i));
    assert(raw.skip(i + 3) == raw.subrange(i + 3, raw.len() as int));
}

/// When the artist or the name is missing or empty and the raw title (empty
/// when missing) holds no `" - "`, there is no artist and the title is the
/// raw title.
pub proof fn law_metadata_unsplit_title(r: ScraperResponseView, raw: Seq<char>)
    requires
        r.i_artist is None || r.i_artist->Some_0.len() == 0 || r.i_name is None || r.i_name->Some_0.len() == 0,
        r.title == Some(raw) || (r.title is None && raw.len() == 0),
        forall|j: int| 0 <= j && j + 3 <= raw.len() ==> #[trigger] raw.subrange(j, j + 3) != " - "@,
    ensures
        metadata_of(r).artist.len() == 0,
        metadata_of(r).title == raw,
{
    reveal_strlit(" - ");
    assert(!exists|i: int| is_first_occurrence(raw, " - "@, i));
}

} // verus!
