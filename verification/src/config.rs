//! Configured stations and the daemon's start-up choices.

use vstd::prelude::*;
use crate::station::{law_reparse_station_uri, parse_station_uri, station_uri_text, StationUri};
use crate::text::copy_string;

verus! {

/// One `[[stations]]` entry of the configuration file.
#[derive(Debug, Clone)]
pub struct StationConfig {
    pub name: String,
    pub uri: String,
}

/// A configured station as character sequences.
pub struct StationConfigView {
    pub name: Seq<char>,
    pub uri: Seq<char>,
}

impl View for StationConfig {
    type V = StationConfigView;

    open spec fn view(&self) -> StationConfigView {
        StationConfigView { name: self.name@, uri: self.uri@ }
    }
}

/// The views of a list of stations.
pub open spec fn stations_view(stations: Seq<StationConfig>) -> Seq<StationConfigView> {
    stations.map_values(|s: StationConfig| s@)
}

/// Seconds between two now-playing polls when the file sets none.
pub fn default_poll_interval() -> (r: u64)
    ensures
        r == 30,
{
    30
}

/// `i` is the position of the first station whose URI is `uri`.
pub open spec fn is_first_station_with_uri(stations: Seq<StationConfigView>, uri: Seq<char>, i: int) -> bool {
    &&& 0 <= i < stations.len()
    &&& stations[i].uri == uri
    &&& forall|j: int| 0 <= j < i ==> stations[j].uri != uri
}

/// The position of the first station whose URI is `uri`, if any.
pub open spec fn station_position(stations: Seq<StationConfigView>, uri: Seq<char>) -> Option<int> {
    if exists|i: int| is_first_station_with_uri(stations, uri, i) {
        Some(choose|i: int| is_first_station_with_uri(stations, uri, i))
    } else {
        None
    }
}

/// Some station has URI `uri`.
pub open spec fn has_station(stations: Seq<StationConfigView>, uri: Seq<char>) -> bool {
    exists|i: int| 0 <= i < stations.len() && stations[i].uri == uri
}

/// The first station with URI `uri` is at `i`, so `station_position` finds `i`.
pub proof fn lemma_station_position_unique(stations: Seq<StationConfigView>, uri: Seq<char>, i: int)
    requires
        is_first_station_with_uri(stations, uri, i),
    ensures
        station_position(stations, uri) == Some(i),
{
    let w = choose|w: int| is_first_station_with_uri(stations, uri, w);
    assert(w == i) by {
        if w < i {
            assert(stations[w].uri != uri);
        } else if i < w {
            assert(stations[i].uri != uri);
        }
    }
}

/// `station_position` finds a station exactly when one has the URI.
pub proof fn lemma_station_position_some(stations: Seq<StationConfigView>, uri: Seq<char>)
    ensures
        station_position(stations, uri) is Some <==> has_station(stations, uri),
        station_position(stations, uri) matches Some(i) ==> is_first_station_with_uri(stations, uri, i),
{
    if has_station(stations, uri) {
        let k = choose|k: int| 0 <= k < stations.len() && stations[k].uri == uri;
        let i = lemma_first_station_from(stations, uri, k, 0);
        lemma_station_position_unique(stations, uri, i);
    }
}

/// Searching from `i` for a URI that occurs at `k` finds its first position.
proof fn lemma_first_station_from(stations: Seq<StationConfigView>, uri: Seq<char>, k: int, i: int) -> (w: int)
    requires
        0 <= i <= k < stations.len(),
        stations[k].uri == uri,
        forall|j: int| 0 <= j < i ==> stations[j].uri != uri,
    ensures
        is_first_station_with_uri(stations, uri, w),
    decreases k - i,
{
    if stations[i].uri == uri {
        i
    } else {
        lemma_first_station_from(stations, uri, k, i + 1)
    }
}

/// Position of the first station whose URI is `uri`.
pub fn find_station(stations: &Vec<StationConfig>, uri: &String) -> (r: Option<usize>)
    ensures
        match r {
            Some(i) => station_position(stations_view(stations@), uri@) == Some(i as int),
            None => station_position(stations_view(stations@), uri@) is None,
        },
{
    let ghost sv = stations_view(stations@);
    let mut i: usize = 0;
    while i < stations.len()
        invariant
            i <= stations.len(),
            sv == stations_view(stations@),
            forall|j: int| 0 <= j < i ==> sv[j].uri != uri@,
        decreases stations.len() - i,
    {
        if stations[i].uri == *uri {
            assert(is_first_station_with_uri(sv, uri@, i as int));
            proof {
                lemma_station_position_unique(sv, uri@, i as int);
            }
            return Some(i);
        }
        i += 1;
    }
    proof {
        lemma_station_position_some(sv, uri@);
    }
    None
}

/// The station the daemon starts with: the configured default, when a
/// station with that URI is listed and the URI parses, in its text form.
pub open spec fn initial_station_text(
    default_station: Option<Seq<char>>,
    stations: Seq<StationConfigView>,
) -> Option<Seq<char>> {
    match default_station {
        Some(d) => if has_station(stations, d) && parse_station_uri(d) is Ok {
            Some(station_uri_text(parse_station_uri(d)->Ok_0))
        } else {
            None
        },
        None => None,
    }
}

/// The view of an optional string.
pub open spec fn opt_view(o: Option<String>) -> Option<Seq<char>> {
    match o {
        Some(s) => Some(s@),
        None => None,
    }
}

/// The station the daemon starts with (see `initial_station_text`).
pub fn initial_station_uri(default_station: &Option<String>, stations: &Vec<StationConfig>) -> (r: Option<String>)
    ensures
        opt_view(r) == initial_station_text(opt_view(*default_station), stations_view(stations@)),
{
    match default_station {
        None => None,
        Some(d) => {
            let found = find_station(stations, d);
            proof {
                lemma_station_position_some(stations_view(stations@), d@);
            }
            match found {
                None => None,
                Some(i) => {
                    let uri = copy_string(&stations[i].uri);
                    match StationUri::parse(uri.as_str()) {
                        Ok(u) => Some(u.to_uri_string()),
                        Err(_) => None,
                    }
                }
            }
        }
    }
}

/// The daemon starts with the configured default station whenever a station
/// at any position of the list has that URI and the URI parses; what it
/// starts with then is the text form of the parsed default, which parses to
/// the same station again. It starts with none when no default is set, when
/// no station has the URI, or when the URI does not parse.
pub proof fn law_initial_station(d: Seq<char>, stations: Seq<StationConfigView>, i: int)
    ensures
        initial_station_text(None, stations) is None,
        0 <= i < stations.len() && stations[i].uri == d && parse_station_uri(d) is Ok ==> {
            &&& initial_station_text(Some(d), stations) == Some(station_uri_text(parse_station_uri(d)->Ok_0))
            &&& parse_station_uri(initial_station_text(Some(d), stations)->Some_0) == parse_station_uri(d)
        },
        (forall|j: int| 0 <= j < stations.len() ==> stations[j].uri != d)
            ==> initial_station_text(Some(d), stations) is None,
        parse_station_uri(d) is Err ==> initial_station_text(Some(d), stations) is None,
{
    if 0 <= i < stations.len() && stations[i].uri == d && parse_station_uri(d) is Ok {
        assert(has_station(stations, d));
        law_reparse_station_uri(d);
    }
}

/// A file name, or its absence, as a byte sequence.
pub open spec fn name_view(n: Option<Vec<u8>>) -> Option<Seq<u8>> {
    match n {
        Some(v) => Some(v@),
        None => None,
    }
}

/// The file names that the events of one batch speak of.
pub open spec fn names_view(names: Seq<Option<Vec<u8>>>) -> Seq<Option<Seq<u8>>> {
    names.map_values(|n: Option<Vec<u8>>| name_view(n))
}

/// Whether a batch of changes in the watched directory touches the
/// configuration file: any batch does when the file's path has no file name,
/// else one in which some event names that file.
pub open spec fn is_relevant_change(file_name: Option<Seq<u8>>, event_names: Seq<Option<Seq<u8>>>) -> bool {
    match file_name {
        None => true,
        Some(f) => exists|i: int| 0 <= i < event_names.len() && event_names[i] == Some(f),
    }
}

/// Whether two byte strings are equal.
fn bytes_equal(a: &Vec<u8>, b: &Vec<u8>) -> (r: bool)
    ensures
        r == (a@ == b@),
{
    if a.len() != b.len() {
        return false;
    }
    let mut i: usize = 0;
    while i < a.len()
        invariant
            i <= a.len(),
            a.len() == b.len(),
            a@.take(i as int) == b@.take(i as int),
        decreases a.len() - i,
    {
        if a[i] != b[i] {
            assert(a@[i as int] != b@[i as int]);
            return false;
        }
        assert(a@.take(i + 1) == a@.take(i as int).push(a@[i as int]));
        assert(b@.take(i + 1) == b@.take(i as int).push(b@[i as int]));
        i += 1;
    }
    assert(a@ == a@.take(a.len() as int));
    assert(b@ == b@.take(b.len() as int));
    true
}

/// Decides whether a debounced batch of changes leads to a reload of the
/// configuration: it does exactly when the batch touches the configuration
/// file (see `is_relevant_change`). Every such batch is reloaded, the same
/// change seen twice included.
pub fn should_reload(file_name: &Option<Vec<u8>>, event_names: &Vec<Option<Vec<u8>>>) -> (reload: bool)
    ensures
        reload == is_relevant_change(name_view(*file_name), names_view(event_names@)),
{
    if file_name.is_none() {
        return true;
    }
    let f = file_name.as_ref().unwrap();
    let mut i: usize = 0;
    while i < event_names.len()
        invariant
            i <= event_names.len(),
            name_view(*file_name) == Some(f@),
            forall|j: int| 0 <= j < i ==> names_view(event_names@)[j] != Some(f@),
        decreases event_names.len() - i,
    {
        match &event_names[i] {
            Some(n) => {
                if bytes_equal(n, f) {
                    assert(names_view(event_names@).len() == event_names@.len());
                    assert(names_view(event_names@)[i as int] == Some(f@));
                    return true;
                }
            },
            None => {},
        }
        i += 1;
    }
    false
}

} // verus!
