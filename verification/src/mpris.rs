//! The state behind the MPRIS and station-control D-Bus interfaces: the
//! station list, which station is current, playback status and metadata,
//! and the decisions the interface methods take on them.

use vstd::prelude::*;
use crate::config::{
    find_station, has_station, lemma_station_position_some, opt_view, station_position,
    stations_view, StationConfig, StationConfigView,
};
use crate::metadata::{empty_metadata, Metadata, MetadataView};
use crate::player::{PlaybackState, TransportCommand, TransportCommandView};
use crate::station::{parse_station_uri, StationUri, StationUriView};
use crate::text::{copy_string, decimal, push_decimal, string_from};

verus! {

broadcast use vstd::string::group_string_axioms;

/// The state the D-Bus interfaces share. Its current index always points at
/// a station, or is 0 when there is none.
pub struct MprisState {
    playback_status: PlaybackState,
    metadata: Metadata,
    stations: Vec<StationConfig>,
    current_station_index: usize,
    current_station_uri: String,
}

/// The shared state as mathematical values.
pub struct MprisStateView {
    pub playback_status: PlaybackState,
    pub metadata: MetadataView,
    pub stations: Seq<StationConfigView>,
    pub current_station_index: int,
    pub current_station_uri: Seq<char>,
}

impl View for MprisState {
    type V = MprisStateView;

    closed spec fn view(&self) -> MprisStateView {
        MprisStateView {
            playback_status: self.playback_status,
            metadata: self.metadata@,
            stations: stations_view(self.stations@),
            current_station_index: self.current_station_index as int,
            current_station_uri: self.current_station_uri@,
        }
    }
}

/// The current index points at a station, or is 0 when there is none.
pub open spec fn index_in_range(s: MprisStateView) -> bool {
    ||| 0 <= s.current_station_index < s.stations.len()
    ||| (s.stations.len() == 0 && s.current_station_index == 0)
}

/// A switch to another station: the URI announced on the `StationChanged`
/// signal, and the parsed station handed to the daemon when the URI parses.
pub struct StationChange {
    pub uri: String,
    pub station: Option<StationUri>,
}

/// A station switch as mathematical values.
pub struct StationChangeView {
    pub uri: Seq<char>,
    pub station: Option<StationUriView>,
}

impl View for StationChange {
    type V = StationChangeView;

    open spec fn view(&self) -> StationChangeView {
        StationChangeView {
            uri: self.uri@,
            station: match self.station {
                Some(u) => Some(u@),
                None => None,
            },
        }
    }
}

/// The switch announced for a station whose URI is `uri`.
pub open spec fn change_for(uri: Seq<char>) -> StationChangeView {
    StationChangeView {
        uri,
        station: match parse_station_uri(uri) {
            Ok(u) => Some(u),
            Err(_) => None,
        },
    }
}

/// `s` with station `i` made current.
pub open spec fn with_station(s: MprisStateView, i: int) -> MprisStateView {
    MprisStateView { current_station_index: i, current_station_uri: s.stations[i].uri, ..s }
}

/// The station after `i` among `n`, wrapping to the first.
pub open spec fn next_index(i: int, n: int) -> int {
    (i + 1) % n
}

/// The station before `i` among `n`, wrapping to the last.
pub open spec fn previous_index(i: int, n: int) -> int {
    if i > 0 { i - 1 } else { n - 1 }
}

/// The state the interfaces start in: playing the initial station if there
/// is one (at its position in the list, else at 0), stopped otherwise.
pub open spec fn initial_state(stations: Seq<StationConfigView>, initial: Option<Seq<char>>) -> MprisStateView {
    MprisStateView {
        playback_status: if initial is Some { PlaybackState::Playing } else { PlaybackState::Stopped },
        metadata: empty_metadata(),
        stations,
        current_station_index: match initial {
            Some(u) => match station_position(stations, u) {
                Some(i) => i,
                None => 0,
            },
            None => 0,
        },
        current_station_uri: match initial {
            Some(u) => u,
            None => Seq::empty(),
        },
    }
}

/// What a reload of the station list does to the current station.
pub enum ReloadOutcome {
    /// The current station is still listed and stays current.
    Kept,
    /// The new list is empty; nothing is current any more.
    Cleared,
    /// The current station was dropped; the first station becomes current.
    Switched(StationChange),
}

/// A reload outcome as mathematical values.
pub enum ReloadOutcomeView {
    Kept,
    Cleared,
    Switched(StationChangeView),
}

impl View for ReloadOutcome {
    type V = ReloadOutcomeView;

    open spec fn view(&self) -> ReloadOutcomeView {
        match self {
            ReloadOutcome::Kept => ReloadOutcomeView::Kept,
            ReloadOutcome::Cleared => ReloadOutcomeView::Cleared,
            ReloadOutcome::Switched(c) => ReloadOutcomeView::Switched(c@),
        }
    }
}

/// The state and outcome after the station list is replaced by `new`.
pub open spec fn reload_result(s: MprisStateView, new: Seq<StationConfigView>) -> (MprisStateView, ReloadOutcomeView) {
    let t = MprisStateView { stations: new, ..s };
    match station_position(new, s.current_station_uri) {
        Some(i) => (MprisStateView { current_station_index: i, ..t }, ReloadOutcomeView::Kept),
        None => if new.len() == 0 {
            (
                MprisStateView { current_station_index: 0, current_station_uri: Seq::empty(), ..t },
                ReloadOutcomeView::Cleared,
            )
        } else {
            (with_station(t, 0), ReloadOutcomeView::Switched(change_for(new[0].uri)))
        },
    }
}

/// The announcement for a station whose URI is `uri`.
fn change_to(uri: &String) -> (c: StationChange)
    ensures
        c@ == change_for(uri@),
{
    let station = match StationUri::parse(uri.as_str()) {
        Ok(u) => Some(u),
        Err(_) => None,
    };
    StationChange { uri: copy_string(uri), station }
}

impl MprisState {
    /// The index points at a station, or is 0 when there is none.
    #[verifier::type_invariant]
    spec fn well_formed(self) -> bool {
        index_in_range(self@)
    }

    /// The playback status.
    pub fn playback_status(&self) -> (r: PlaybackState)
        ensures
            r == self@.playback_status,
    {
        self.playback_status
    }

    /// Records a new playback status.
    pub fn set_playback_status(&mut self, status: PlaybackState)
        ensures
            final(self)@ == (MprisStateView { playback_status: status, ..old(self)@ }),
    {
        proof {
            use_type_invariant(&*self);
        }
        self.playback_status = status;
    }

    /// The metadata of what is playing.
    pub fn metadata(&self) -> (r: &Metadata)
        ensures
            r@ == self@.metadata,
    {
        &self.metadata
    }

    /// Records new now-playing metadata.
    pub fn set_metadata(&mut self, metadata: Metadata)
        ensures
            final(self)@ == (MprisStateView { metadata: metadata@, ..old(self)@ }),
    {
        proof {
            use_type_invariant(&*self);
        }
        self.metadata = metadata;
    }

    /// The configured stations.
    pub fn stations(&self) -> (r: &Vec<StationConfig>)
        ensures
            stations_view(r@) == self@.stations,
    {
        &self.stations
    }

    /// The URI of the current station (empty when there is none).
    pub fn current_station_uri(&self) -> (r: &String)
        ensures
            r@ == self@.current_station_uri,
    {
        &self.current_station_uri
    }

    /// The position of the current station in the list.
    pub fn current_station_index(&self) -> (r: usize)
        ensures
            r as int == self@.current_station_index,
            index_in_range(self@),
    {
        proof {
            use_type_invariant(self);
        }
        self.current_station_index
    }

    /// The state the interfaces start in (see `initial_state`).
    pub fn new(stations: Vec<StationConfig>, initial_station_uri: Option<String>) -> (s: MprisState)
        ensures
            s@ == initial_state(stations_view(stations@), opt_view(initial_station_uri)),
            index_in_range(s@),
    {
        let (playback_status, current_station_index, current_station_uri) = match initial_station_uri {
            Some(u) => {
                let found = find_station(&stations, &u);
                proof {
                    lemma_station_position_some(stations_view(stations@), u@);
                }
                let i = match found {
                    Some(i) => i,
                    None => 0,
                };
                (PlaybackState::Playing, i, u)
            },
            None => (PlaybackState::Stopped, 0, String::new()),
        };
        MprisState {
            playback_status,
            metadata: Metadata::default(),
            stations,
            current_station_index,
            current_station_uri,
        }
    }

    /// Whether there is another station to go to (MPRIS `CanGoNext` and
    /// `CanGoPrevious`).
    pub fn can_switch_station(&self) -> (b: bool)
        ensures
            b == (self@.stations.len() > 1),
    {
        self.stations.len() > 1
    }

    /// The command for MPRIS `PlayPause`: pause when playing, play otherwise.
    pub fn play_pause_command(&self) -> (c: TransportCommand)
        ensures
            c@ == (if self@.playback_status == PlaybackState::Playing {
                TransportCommandView::Pause
            } else {
                TransportCommandView::Play
            }),
    {
        match self.playback_status {
            PlaybackState::Playing => TransportCommand::Pause,
            _ => TransportCommand::Play,
        }
    }

    /// Makes station `i` current and returns its announcement.
    fn switch_to(&mut self, i: usize) -> (c: StationChange)
        requires
            i < old(self).stations.len(),
        ensures
            final(self)@ == with_station(old(self)@, i as int),
            c@ == change_for(old(self)@.stations[i as int].uri),
    {
        self.current_station_index = i;
        let uri = copy_string(&self.stations[i].uri);
        let c = change_to(&uri);
        self.current_station_uri = uri;
        c
    }

    /// MPRIS `Next`: the following station, wrapping to the first; nothing
    /// when there are no stations.
    pub fn next(&mut self) -> (r: Option<StationChange>)
        ensures
            index_in_range(final(self)@),
            old(self)@.stations.len() == 0 ==> r is None && final(self)@ == old(self)@,
            old(self)@.stations.len() > 0 ==> {
                let i = next_index(old(self)@.current_station_index, old(self)@.stations.len() as int);
                &&& final(self)@ == with_station(old(self)@, i)
                &&& r matches Some(c) && c@ == change_for(old(self)@.stations[i].uri)
            },
    {
        proof {
            use_type_invariant(&*self);
        }
        if self.stations.len() == 0 {
            return None;
        }
        let n = self.stations.len();
        let i = (self.current_station_index + 1) % n;
        Some(self.switch_to(i))
    }

    /// MPRIS `Previous`: the station before, wrapping to the last; nothing
    /// when there are no stations.
    pub fn previous(&mut self) -> (r: Option<StationChange>)
        ensures
            index_in_range(final(self)@),
            old(self)@.stations.len() == 0 ==> r is None && final(self)@ == old(self)@,
            old(self)@.stations.len() > 0 ==> {
                let i = previous_index(old(self)@.current_station_index, old(self)@.stations.len() as int);
                &&& final(self)@ == with_station(old(self)@, i)
                &&& r matches Some(c) && c@ == change_for(old(self)@.stations[i].uri)
            },
    {
        proof {
            use_type_invariant(&*self);
        }
        if self.stations.len() == 0 {
            return None;
        }
        let n = self.stations.len();
        let i = if self.current_station_index > 0 { self.current_station_index - 1 } else { n - 1 };
        Some(self.switch_to(i))
    }

    /// MPRIS `OpenUri` and the control interface's `SetStation`: make the
    /// first station with URI `uri` current; nothing when none has it.
    pub fn set_station(&mut self, uri: &String) -> (r: Option<StationChange>)
        ensures
            index_in_range(final(self)@),
            match station_position(old(self)@.stations, uri@) {
                Some(i) => {
                    &&& final(self)@ == with_station(old(self)@, i)
                    &&& r matches Some(c) && c@ == change_for(uri@)
                },
                None => r is None && final(self)@ == old(self)@,
            },
    {
        proof {
            use_type_invariant(&*self);
        }
        match find_station(&self.stations, uri) {
            Some(i) => Some(self.switch_to(i)),
            None => None,
        }
    }

    /// The control interface's `GetStation`: name and URI of the current
    /// station, or two empty strings when there is none.
    pub fn current_station(&self) -> (r: (String, String))
        ensures
            0 <= self@.current_station_index < self@.stations.len() ==>
                r.0@ == self@.stations[self@.current_station_index].name
                && r.1@ == self@.stations[self@.current_station_index].uri,
            !(0 <= self@.current_station_index < self@.stations.len()) ==>
                r.0@.len() == 0 && r.1@.len() == 0,
    {
        if self.stations.len() == 0 || self.current_station_index >= self.stations.len() {
            return (String::new(), String::new());
        }
        let s = &self.stations[self.current_station_index];
        (copy_string(&s.name), copy_string(&s.uri))
    }

    /// The control interface's `ListStations`: name and URI of every station,
    /// in order.
    pub fn list_stations(&self) -> (r: Vec<(String, String)>)
        ensures
            r@.len() == self@.stations.len(),
            forall|i: int| 0 <= i < r@.len() ==>
                (#[trigger] r@[i]).0@ == self@.stations[i].name && r@[i].1@ == self@.stations[i].uri,
    {
        let mut r: Vec<(String, String)> = Vec::new();
        let mut i: usize = 0;
        while i < self.stations.len()
            invariant
                i <= self.stations.len(),
                r@.len() == i,
                forall|j: int| 0 <= j < i ==>
                    (#[trigger] r@[j]).0@ == self@.stations[j].name && r@[j].1@ == self@.stations[j].uri,
            decreases self.stations.len() - i,
        {
            let s = &self.stations[i];
            r.push((copy_string(&s.name), copy_string(&s.uri)));
            i += 1;
        }
        r
    }

    /// Replaces the station list after a configuration reload (see
    /// `reload_result`).
    pub fn reload_stations(&mut self, new_stations: Vec<StationConfig>) -> (r: ReloadOutcome)
        ensures
            index_in_range(final(self)@),
            (final(self)@, r@) == reload_result(old(self)@, stations_view(new_stations@)),
    {
        proof {
            use_type_invariant(&*self);
        }
        self.current_station_index = 0;
        self.stations = new_stations;
        let found = find_station(&self.stations, &self.current_station_uri);
        proof {
            lemma_station_position_some(self@.stations, self@.current_station_uri);
        }
        match found {
            Some(i) => {
                self.current_station_index = i;
                ReloadOutcome::Kept
            },
            None => {
                if self.stations.len() == 0 {
                    self.current_station_index = 0;
                    self.current_station_uri = String::new();
                    ReloadOutcome::Cleared
                } else {
                    ReloadOutcome::Switched(self.switch_to(0))
                }
            },
        }
    }
}

// ---------------------------------------------------------------------------
// track ids and the metadata dictionary
// ---------------------------------------------------------------------------

/// The part of a track id that names the station: `<country>_<alias>` for an
/// Online Radio Box station, `unknown` for anything else.
pub open spec fn station_part(station_uri: Seq<char>) -> Seq<char> {
    match parse_station_uri(station_uri) {
        Ok(StationUriView::Orbox { country, alias }) => country + "_"@ + alias,
        _ => "unknown"@,
    }
}

/// The MPRIS track id of a track: the station part and the scraper's track
/// id, or the time in seconds when the scraper gave none.
pub open spec fn track_id_path(station_uri: Seq<char>, track_id: Seq<char>, now_secs: nat) -> Seq<char> {
    "/org/mpris/MediaPlayer2/radio_devil/track/"@ + station_part(station_uri) + "_"@
        + (if track_id.len() == 0 { decimal(now_secs) } else { track_id })
}

/// The track id used when the real one is not a valid object path.
pub open spec fn fallback_track_path() -> Seq<char> {
    "/org/mpris/MediaPlayer2/radio_devil/track/unknown"@
}

/// The track id of a track, with `now_secs` standing for the current time.
pub fn make_track_id_at(station_uri: &str, track_id: &str, now_secs: u64) -> (r: String)
    ensures
        r@ == track_id_path(station_uri@, track_id@, now_secs as nat),
{
    let mut r = String::new();
    r.push_str("/org/mpris/MediaPlayer2/radio_devil/track/");
    match StationUri::parse(station_uri) {
        Ok(StationUri::Orbox { country, alias }) => {
            r.push_str(country.as_str());
            r.push_str("_");
            r.push_str(alias.as_str());
            assert(r@ == Seq::<char>::empty() + "/org/mpris/MediaPlayer2/radio_devil/track/"@ + (country@ + "_"@ + alias@));
        },
        _ => {
            r.push_str("unknown");
        },
    }
    r.push_str("_");
    if track_id.is_empty() {
        push_decimal(&mut r, now_secs);
    } else {
        r.push_str(track_id);
    }
    r
}

/// std's `SystemTime`, a reading of the system clock.
#[verifier::external_type_specification]
#[verifier::external_body]
pub struct ExSystemTime(std::time::SystemTime);

/// std's `SystemTimeError`, the error of a time earlier than another.
#[verifier::external_type_specification]
#[verifier::external_body]
pub struct ExSystemTimeError(std::time::SystemTimeError);

/// Calls std's `SystemTime::now`. The reading depends on the clock, so
/// nothing is stated of it.
#[verifier::external_body]
fn system_time_now() -> (t: std::time::SystemTime) {
    std::time::SystemTime::now()
}

/// Calls std's `SystemTime::duration_since` with the Unix epoch: the time
/// elapsed since the epoch, or an error for a time before it. Nothing is
/// stated of the result, which rests on the clock reading it is given.
#[verifier::external_body]
fn duration_since_epoch(t: &std::time::SystemTime) -> (r: Result<std::time::Duration, std::time::SystemTimeError>) {
    t.duration_since(std::time::UNIX_EPOCH)
}

/// Calls std's `Duration::as_secs`, the whole seconds of a duration.
/// Nothing is stated of the result: a `Duration` is opaque here.
#[verifier::external_body]
fn duration_secs(d: &std::time::Duration) -> (r: u64) {
    d.as_secs()
}

/// Seconds since the Unix epoch, 0 for a clock set before it.
fn unix_time_secs() -> (r: u64) {
    match duration_since_epoch(&system_time_now()) {
        Ok(d) => duration_secs(&d),
        Err(_) => 0,
    }
}

/// The track id of a track. When the scraper gave no track id the current
/// time stands in for it, so the result is stated for some time.
pub fn make_track_id(station_uri: &str, track_id: &str) -> (r: String)
    ensures
        track_id@.len() > 0 ==> r@ == track_id_path(station_uri@, track_id@, 0),
        exists|t: nat| r@ == #[trigger] track_id_path(station_uri@, track_id@, t),
{
    let now = if track_id.is_empty() { unix_time_secs() } else { 0 };
    make_track_id_at(station_uri, track_id, now)
}

/// A character allowed in a D-Bus object path.
pub open spec fn is_object_path_char(c: char) -> bool {
    ||| 'a' <= c <= 'z'
    ||| 'A' <= c <= 'Z'
    ||| '0' <= c <= '9'
    ||| c == '_'
    ||| c == '/'
}

/// A D-Bus object path: starts with `/`, holds only ASCII letters, digits,
/// `_` and `/`, has no `//` and, unless it is `/`, no trailing `/`.
pub open spec fn is_dbus_object_path(s: Seq<char>) -> bool {
    &&& s.len() > 0
    &&& s[0] == '/'
    &&& forall|i: int| 0 <= i < s.len() ==> is_object_path_char(#[trigger] s[i])
    &&& forall|i: int| 1 <= i < s.len() ==> !(#[trigger] s[i] == '/' && s[i - 1] == '/')
    &&& !(s.len() > 1 && s.last() == '/')
}

/// `zbus::zvariant::ObjectPath::try_from(&str)`: succeeds exactly on D-Bus
/// object paths as `is_dbus_object_path` states them (the crate checks the
/// bytes one by one; a non-ASCII character fails there as here).
#[verifier::external_body]
fn object_path_accepts(path: &str) -> (ok: bool)
    ensures
        ok == is_dbus_object_path(path@),
{
    zbus::zvariant::ObjectPath::try_from(path).is_ok()
}

/// A value in the MPRIS metadata dictionary.
#[derive(Debug, PartialEq, Eq)]
pub enum MetadataValue {
    ObjectPath(String),
    Text(String),
    TextList(Vec<String>),
}

/// A metadata value as character sequences.
pub enum MetadataValueView {
    ObjectPath(Seq<char>),
    Text(Seq<char>),
    TextList(Seq<Seq<char>>),
}

impl View for MetadataValue {
    type V = MetadataValueView;

    open spec fn view(&self) -> MetadataValueView {
        match self {
            MetadataValue::ObjectPath(p) => MetadataValueView::ObjectPath(p@),
            MetadataValue::Text(t) => MetadataValueView::Text(t@),
            MetadataValue::TextList(l) => MetadataValueView::TextList(l@.map_values(|s: String| s@)),
        }
    }
}

/// The views of metadata dictionary entries.
pub open spec fn entries_view(e: Seq<(String, MetadataValue)>) -> Seq<(Seq<char>, MetadataValueView)> {
    e.map_values(|x: (String, MetadataValue)| (x.0@, x.1@))
}

/// The MPRIS metadata dictionary for `meta`, whose track id is `track_path`:
/// `mpris:trackid` (the track id if it is an object path, else the fallback),
/// `xesam:title`, `xesam:artist` (empty list for an empty artist), then
/// `mpris:artUrl` and `xesam:album` when they are non-empty.
pub open spec fn metadata_entries_for(meta: MetadataView, track_path: Seq<char>) -> Seq<(Seq<char>, MetadataValueView)> {
    let base = seq![
        ("mpris:trackid"@, MetadataValueView::ObjectPath(
            if is_dbus_object_path(track_path) { track_path } else { fallback_track_path() })),
        ("xesam:title"@, MetadataValueView::Text(meta.title)),
        ("xesam:artist"@, MetadataValueView::TextList(
            if meta.artist.len() == 0 { Seq::empty() } else { seq![meta.artist] })),
    ];
    let with_art = if meta.art_url.len() > 0 {
        base.push(("mpris:artUrl"@, MetadataValueView::Text(meta.art_url)))
    } else {
        base
    };
    match meta.album {
        Some(a) => if a.len() > 0 { with_art.push(("xesam:album"@, MetadataValueView::Text(a))) } else { with_art },
        None => with_art,
    }
}

/// The MPRIS metadata dictionary entries for `meta` with track id `track_path`.
pub fn metadata_entries(meta: &Metadata, track_path: String) -> (r: Vec<(String, MetadataValue)>)
    ensures
        entries_view(r@) == metadata_entries_for(meta@, track_path@),
{
    let ghost tp = track_path@;
    let path = if object_path_accepts(track_path.as_str()) {
        track_path
    } else {
        string_from("/org/mpris/MediaPlayer2/radio_devil/track/unknown")
    };
    let mut r: Vec<(String, MetadataValue)> = Vec::new();
    r.push((string_from("mpris:trackid"), MetadataValue::ObjectPath(path)));
    r.push((string_from("xesam:title"), MetadataValue::Text(copy_string(&meta.title))));
    let mut artists: Vec<String> = Vec::new();
    if !meta.artist.as_str().is_empty() {
        artists.push(copy_string(&meta.artist));
    }
    assert(artists@.map_values(|s: String| s@) == (if meta@.artist.len() == 0 {
        Seq::<Seq<char>>::empty()
    } else {
        seq![meta@.artist]
    }));
    r.push((string_from("xesam:artist"), MetadataValue::TextList(artists)));
    if !meta.art_url.as_str().is_empty() {
        r.push((string_from("mpris:artUrl"), MetadataValue::Text(copy_string(&meta.art_url))));
    }
    match &meta.album {
        Some(a) => {
            if !a.as_str().is_empty() {
                r.push((string_from("xesam:album"), MetadataValue::Text(copy_string(a))));
            }
        },
        None => {},
    }
    assert(entries_view(r@) == metadata_entries_for(meta@, tp));
    r
}

/// The MPRIS metadata dictionary entries for `meta` playing on `station_uri`.
/// When the scraper gave no track id the current time stands in for it, so
/// the result is stated for some time.
pub fn make_metadata_dict(meta: &Metadata, station_uri: &str) -> (r: Vec<(String, MetadataValue)>)
    ensures
        meta@.track_id.len() > 0 ==> entries_view(r@) == metadata_entries_for(
            meta@, track_id_path(station_uri@, meta@.track_id, 0)),
        exists|t: nat| entries_view(r@) == #[trigger] metadata_entries_for(
            meta@, track_id_path(station_uri@, meta@.track_id, t)),
{
    let path = make_track_id(station_uri, meta.track_id.as_str());
    let ghost t = choose|t: nat| path@ == #[trigger] track_id_path(station_uri@, meta@.track_id, t);
    let r = metadata_entries(meta, path);
    assert(entries_view(r@) == metadata_entries_for(meta@, track_id_path(station_uri@, meta@.track_id, t)));
    r
}

// ---------------------------------------------------------------------------
// laws
// ---------------------------------------------------------------------------

/// Going to the next station and then to the previous one comes back to the
/// station one started from.
pub proof fn law_next_then_previous(i: int, n: int)
    requires
        0 <= i < n,
    ensures
        previous_index(next_index(i, n), n) == i,
{
    if i + 1 < n {
        assert((i + 1) % n == i + 1) by (nonlinear_arith)
            requires 0 <= i + 1 < n;
    } else {
        assert((i + 1) % n == 0) by (nonlinear_arith)
            requires i + 1 == n, n > 0;
    }
}

/// Going to the previous station and then to the next one comes back to the
/// station one started from.
pub proof fn law_previous_then_next(i: int, n: int)
    requires
        0 <= i < n,
    ensures
        next_index(previous_index(i, n), n) == i,
{
    if i > 0 {
        assert(i % n == i) by (nonlinear_arith)
            requires 0 <= i < n;
    } else {
        assert(n % n == 0) by (nonlinear_arith)
            requires n > 0;
    }
}

/// The station reached from `i` after `k` steps of `Next` among `n`.
pub open spec fn after_nexts(i: int, n: int, k: nat) -> int
    decreases k,
{
    if k == 0 { i } else { next_index(after_nexts(i, n, (k - 1) as nat), n) }
}

/// `Next`, pressed repeatedly, visits the stations in list order: after `k`
/// presses from station `i` the current station is `(i + k) mod n`; so every
/// station is reached and `n` presses come back to the start.
pub proof fn law_next_cycles(i: int, n: int, k: nat)
    requires
        0 <= i < n,
    ensures
        after_nexts(i, n, k) == (i + k) % n,
        after_nexts(i, n, n as nat) == i,
{
    lemma_after_nexts(i, n, k);
    lemma_next_cycles_full(i, n, n as nat);
}

/// `n` presses of `Next` among `n` stations come back to the start.
proof fn lemma_next_cycles_full(i: int, n: int, k: nat)
    requires
        0 <= i < n,
        k == n,
    ensures
        after_nexts(i, n, k) == i,
{
    lemma_after_nexts(i, n, k);
    vstd::arithmetic::div_mod::lemma_mod_add_multiples_vanish(i, n);
    vstd::arithmetic::div_mod::lemma_small_mod(i as nat, n as nat);
}

/// `after_nexts` in closed form.
proof fn lemma_after_nexts(i: int, n: int, k: nat)
    requires
        0 <= i < n,
    ensures
        after_nexts(i, n, k) == (i + k) % n,
    decreases k,
{
    if k == 0 {
        vstd::arithmetic::div_mod::lemma_small_mod(i as nat, n as nat);
    } else {
        lemma_after_nexts(i, n, (k - 1) as nat);
        vstd::arithmetic::div_mod::lemma_add_mod_noop_right(1, i + k - 1, n);
    }
}

/// After a reload, a station that was current and is still listed stays
/// current, and nothing is announced.
pub proof fn law_reload_keeps_listed_station(s: MprisStateView, new: Seq<StationConfigView>)
    requires
        has_station(new, s.current_station_uri),
    ensures
        reload_result(s, new).1 == ReloadOutcomeView::Kept,
        reload_result(s, new).0.current_station_uri == s.current_station_uri,
        reload_result(s, new).0.stations[reload_result(s, new).0.current_station_index].uri
            == s.current_station_uri,
{
    lemma_station_position_some(new, s.current_station_uri);
}

/// After a reload in which the current station is no longer listed, the
/// first station of a non-empty new list becomes current and is announced;
/// with an empty new list nothing is current and the clearing is reported.
/// Either way the new list is held, and playback status and metadata stay.
pub proof fn law_reload_switches_to_first_station(s: MprisStateView, new: Seq<StationConfigView>)
    requires
        forall|i: int| 0 <= i < new.len() ==> new[i].uri != s.current_station_uri,
    ensures
        reload_result(s, new).0.stations == new,
        reload_result(s, new).0.playback_status == s.playback_status,
        reload_result(s, new).0.metadata == s.metadata,
        new.len() > 0 ==> {
            &&& reload_result(s, new).0.current_station_index == 0
            &&& reload_result(s, new).0.current_station_uri == new[0].uri
            &&& reload_result(s, new).1 matches ReloadOutcomeView::Switched(c)
            &&& c.uri == new[0].uri
        },
        new.len() == 0 ==> {
            &&& reload_result(s, new).1 == ReloadOutcomeView::Cleared
            &&& reload_result(s, new).0.current_station_index == 0
            &&& reload_result(s, new).0.current_station_uri.len() == 0
        },
{
    lemma_station_position_some(new, s.current_station_uri);
}

} // verus!
