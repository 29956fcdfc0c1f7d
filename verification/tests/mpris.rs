use radiod::config::StationConfig;
use radiod::metadata::Metadata;
use radiod::mpris::{
    make_metadata_dict, make_track_id, make_track_id_at, metadata_entries, MetadataValue, MprisState,
    ReloadOutcome,
};
use radiod::player::{PlaybackState, TransportCommand};
use radiod::station::StationUri;

fn station(name: &str, uri: &str) -> StationConfig {
    StationConfig { name: name.into(), uri: uri.into() }
}

fn three() -> Vec<StationConfig> {
    vec![
        station("One", "orbox:uk/one"),
        station("Two", "direct:https://two.example/s"),
        station("Three", "bogus:three"),
    ]
}

#[test]
fn starts_at_initial_station() {
    let s = MprisState::new(three(), Some("direct:https://two.example/s".into()));
    assert_eq!(s.current_station_index(), 1);
    assert_eq!(s.playback_status(), PlaybackState::Playing);
    assert_eq!(s.current_station_uri(), "direct:https://two.example/s");
    let s = MprisState::new(three(), None);
    assert_eq!(s.current_station_index(), 0);
    assert_eq!(s.playback_status(), PlaybackState::Stopped);
    assert_eq!(s.current_station_uri(), "");
    let s = MprisState::new(three(), Some("orbox:xx/unlisted".into()));
    assert_eq!(s.current_station_index(), 0);
    assert_eq!(s.current_station_uri(), "orbox:xx/unlisted");
}

#[test]
fn next_wraps_and_announces() {
    let mut s = MprisState::new(three(), Some("bogus:three".into()));
    let c = s.next().unwrap();
    assert_eq!(s.current_station_index(), 0);
    assert_eq!(c.uri, "orbox:uk/one");
    assert_eq!(
        c.station,
        Some(StationUri::Orbox { country: "uk".into(), alias: "one".into() })
    );
    assert_eq!(s.current_station_uri(), "orbox:uk/one");
}

#[test]
fn previous_wraps_to_last_and_unparsable_uri_is_not_sent() {
    let mut s = MprisState::new(three(), None);
    let c = s.previous().unwrap();
    assert_eq!(s.current_station_index(), 2);
    assert_eq!(c.uri, "bogus:three");
    assert!(c.station.is_none());
}

#[test]
fn next_then_previous_returns() {
    let mut s = MprisState::new(three(), Some("direct:https://two.example/s".into()));
    s.next();
    s.previous();
    assert_eq!(s.current_station_index(), 1);
}

#[test]
fn next_cycles_through_all_stations() {
    let mut s = MprisState::new(three(), None);
    let mut seen = vec![];
    for _ in 0..3 {
        s.next();
        seen.push(s.current_station_index());
    }
    assert_eq!(seen, vec![1, 2, 0]);
}

#[test]
fn switching_without_stations_does_nothing() {
    let mut s = MprisState::new(vec![], None);
    assert!(s.next().is_none());
    assert!(s.previous().is_none());
    assert_eq!(s.current_station_index(), 0);
    assert!(!s.can_switch_station());
    assert_eq!(s.current_station(), (String::new(), String::new()));
}

#[test]
fn set_station_by_uri() {
    let mut s = MprisState::new(three(), None);
    let c = s.set_station(&"direct:https://two.example/s".to_string()).unwrap();
    assert_eq!(s.current_station_index(), 1);
    assert_eq!(c.station, Some(StationUri::Direct { url: "https://two.example/s".into() }));
    assert_eq!(s.current_station(), ("Two".to_string(), "direct:https://two.example/s".to_string()));
    assert!(s.set_station(&"direct:nowhere".to_string()).is_none());
    assert_eq!(s.current_station_index(), 1);
}

#[test]
fn lists_stations_in_order() {
    let s = MprisState::new(three(), None);
    let l = s.list_stations();
    assert_eq!(l.len(), 3);
    assert_eq!(l[2], ("Three".to_string(), "bogus:three".to_string()));
    assert!(s.can_switch_station());
}

#[test]
fn play_pause_toggles() {
    let mut s = MprisState::new(three(), Some("orbox:uk/one".into()));
    assert_eq!(s.play_pause_command(), TransportCommand::Pause);
    s.set_playback_status(PlaybackState::Paused);
    assert_eq!(s.play_pause_command(), TransportCommand::Play);
}

#[test]
fn reload_keeps_listed_station() {
    let mut s = MprisState::new(three(), Some("direct:https://two.example/s".into()));
    let out = s.reload_stations(vec![
        station("New", "orbox:de/new"),
        station("Two again", "direct:https://two.example/s"),
    ]);
    assert!(matches!(out, ReloadOutcome::Kept));
    assert_eq!(s.current_station_index(), 1);
    assert_eq!(s.current_station_uri(), "direct:https://two.example/s");
}

#[test]
fn reload_switches_to_first_when_current_is_gone() {
    let mut s = MprisState::new(three(), Some("orbox:uk/one".into()));
    match s.reload_stations(vec![station("New", "orbox:de/new")]) {
        ReloadOutcome::Switched(c) => {
            assert_eq!(c.uri, "orbox:de/new");
            assert_eq!(c.station, Some(StationUri::Orbox { country: "de".into(), alias: "new".into() }));
        }
        _ => panic!("expected a switch"),
    }
    assert_eq!(s.current_station_index(), 0);
    assert_eq!(s.current_station_uri(), "orbox:de/new");
}

#[test]
fn reload_to_empty_clears() {
    let mut s = MprisState::new(three(), Some("orbox:uk/one".into()));
    assert!(matches!(s.reload_stations(vec![]), ReloadOutcome::Cleared));
    assert_eq!(s.current_station_index(), 0);
    assert_eq!(s.current_station_uri(), "");
    assert!(s.stations().is_empty());
}

#[test]
fn track_id_from_orbox_station() {
    assert_eq!(
        make_track_id_at("orbox:uk/bbcradio1", "123", 99),
        "/org/mpris/MediaPlayer2/radio_devil/track/uk_bbcradio1_123"
    );
    assert_eq!(
        make_track_id("orbox:uk/bbcradio1", "123"),
        "/org/mpris/MediaPlayer2/radio_devil/track/uk_bbcradio1_123"
    );
}

#[test]
fn track_id_uses_time_when_missing() {
    assert_eq!(
        make_track_id_at("direct:x", "", 1783067791),
        "/org/mpris/MediaPlayer2/radio_devil/track/unknown_1783067791"
    );
    let t = make_track_id("direct:x", "");
    let ts = t.strip_prefix("/org/mpris/MediaPlayer2/radio_devil/track/unknown_").unwrap();
    assert!(ts.parse::<u64>().unwrap() > 1_600_000_000);
}

fn meta(track: &str, artist: &str, title: &str, art: &str, album: Option<&str>) -> Metadata {
    Metadata {
        track_id: track.into(),
        artist: artist.into(),
        title: title.into(),
        album: album.map(|a| a.to_string()),
        art_url: art.into(),
        duration_secs: None,
    }
}

#[test]
fn metadata_dict_full() {
    let d = make_metadata_dict(&meta("42", "Artist", "Song", "https://a/b.jpg", Some("LP")), "orbox:uk/bbc");
    assert_eq!(
        d,
        vec![
            ("mpris:trackid".to_string(), MetadataValue::ObjectPath("/org/mpris/MediaPlayer2/radio_devil/track/uk_bbc_42".into())),
            ("xesam:title".to_string(), MetadataValue::Text("Song".into())),
            ("xesam:artist".to_string(), MetadataValue::TextList(vec!["Artist".into()])),
            ("mpris:artUrl".to_string(), MetadataValue::Text("https://a/b.jpg".into())),
            ("xesam:album".to_string(), MetadataValue::Text("LP".into())),
        ]
    );
}

#[test]
fn metadata_dict_skips_empty_fields() {
    let d = make_metadata_dict(&meta("1", "", "", "", Some("")), "orbox:uk/bbc");
    assert_eq!(d.len(), 3);
    assert_eq!(d[2], ("xesam:artist".to_string(), MetadataValue::TextList(vec![])));
}

#[test]
fn invalid_object_path_falls_back() {
    let d = make_metadata_dict(&meta("1", "", "", "", None), "orbox:uk/bbc-radio");
    assert_eq!(
        d[0].1,
        MetadataValue::ObjectPath("/org/mpris/MediaPlayer2/radio_devil/track/unknown".into())
    );
    let d = metadata_entries(&meta("", "", "", "", None), "/ok/path_1".to_string());
    assert_eq!(d[0].1, MetadataValue::ObjectPath("/ok/path_1".into()));
    let d = metadata_entries(&meta("", "", "", "", None), "/trailing/".to_string());
    assert_eq!(
        d[0].1,
        MetadataValue::ObjectPath("/org/mpris/MediaPlayer2/radio_devil/track/unknown".into())
    );
}
