use radiod::config::{default_poll_interval, find_station, initial_station_uri, StationConfig};

fn station(name: &str, uri: &str) -> StationConfig {
    StationConfig { name: name.into(), uri: uri.into() }
}

#[test]
fn poll_interval_defaults_to_thirty_seconds() {
    assert_eq!(default_poll_interval(), 30);
}

#[test]
fn finds_first_station_with_uri() {
    let stations = vec![station("A", "direct:a"), station("B", "direct:b"), station("B2", "direct:b")];
    assert_eq!(find_station(&stations, &"direct:b".to_string()), Some(1));
    assert_eq!(find_station(&stations, &"direct:c".to_string()), None);
}

#[test]
fn initial_station_must_be_listed_and_parse() {
    let stations = vec![
        station("BBC Radio 1", "orbox:uk/ bbcradio1"),
        station("Bad", "ftp:x"),
    ];
    assert_eq!(
        initial_station_uri(&Some("orbox:uk/ bbcradio1".into()), &stations),
        Some("orbox:uk/bbcradio1".to_string())
    );
    assert_eq!(initial_station_uri(&Some("orbox:uk/other".into()), &stations), None);
    assert_eq!(initial_station_uri(&Some("ftp:x".into()), &stations), None);
    assert_eq!(initial_station_uri(&None, &stations), None);
}

use radiod::config::should_reload;

fn name(s: &str) -> Option<Vec<u8>> {
    Some(s.as_bytes().to_vec())
}

#[test]
fn reload_on_every_change_of_the_config_file() {
    let file = name("config.toml");
    let batch = vec![name("other.txt"), name("config.toml")];
    assert!(should_reload(&file, &batch));
    // The same change seen again is reloaded again.
    assert!(should_reload(&file, &batch));
    assert!(should_reload(&file, &vec![None, name("config.toml")]));
}

#[test]
fn reload_skips_changes_of_other_files() {
    let file = name("config.toml");
    assert!(!should_reload(&file, &vec![name("config.toml~"), None]));
    assert!(!should_reload(&file, &vec![name("config.tom")]));
    assert!(!should_reload(&file, &Vec::new()));
}

#[test]
fn reload_on_any_change_without_a_file_name() {
    assert!(should_reload(&None, &vec![name("anything")]));
    assert!(should_reload(&None, &Vec::new()));
}
