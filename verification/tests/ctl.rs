use radiod::ctl::{info_lines, now_playing_lines, station_list_lines, status_line, InfoReport};

fn s(x: &str) -> String {
    x.to_string()
}

#[test]
fn now_playing_full() {
    let l = now_playing_lines(&s("Song"), &vec![s("A"), s("B")], &s("LP"), &s("http://art"));
    assert_eq!(l, vec![s("Title:  Song"), s("Artist: A, B"), s("Album:  LP"), s("Art:    http://art")]);
}

#[test]
fn now_playing_nothing() {
    let l = now_playing_lines(&s(""), &vec![], &s("LP"), &s(""));
    assert_eq!(l, vec![s("No track metadata available.")]);
    let l = now_playing_lines(&s(""), &vec![s("Only")], &s(""), &s(""));
    assert_eq!(l, vec![s("Artist: Only")]);
}

#[test]
fn station_table() {
    let stations = vec![(s("BBC Radio 1"), s("orbox:uk/bbcradio1")), (s("X"), s("direct:x"))];
    let l = station_list_lines(&stations, &s("direct:x"));
    assert_eq!(
        l,
        vec![
            s("Name         URI"),
            s("-----------  ---"),
            s("  BBC Radio 1  orbox:uk/bbcradio1"),
            s("* X            direct:x"),
        ]
    );
}

#[test]
fn station_table_minimum_width_and_byte_widths() {
    let l = station_list_lines(&vec![(s("ab"), s("u"))], &s("none"));
    assert_eq!(l, vec![s("Name  URI"), s("----  ---"), s("  ab    u")]);
    // The column width counts bytes; padding counts characters.
    let l = station_list_lines(&vec![(s("ééé"), s("u"))], &s("u"));
    assert_eq!(l[0], s("Name    URI"));
    assert_eq!(l[2], s("* ééé     u"));
    assert_eq!(station_list_lines(&vec![], &s("")), vec![s("No stations configured.")]);
}

#[test]
fn status_lines() {
    assert_eq!(status_line(&s("Playing"), &s("BBC"), 80), "Playing: BBC (vol 80%)");
    assert_eq!(status_line(&s("Stopped"), &s(""), 0), "Stopped (vol 0%)");
}

#[test]
fn info_report() {
    let r = InfoReport {
        playback_status: s("Playing"),
        loop_status: s("None"),
        rate: s("1"),
        shuffle: false,
        volume: s("0.80"),
        position: -1,
        title: s("Song"),
        artists: vec![],
        album: s(""),
        art_url: s(""),
        station_name: s("BBC"),
        station_uri: s("orbox:uk/bbc"),
        station_count: 12,
    };
    assert_eq!(
        info_lines(&r),
        vec![
            s("Identity:       radiod"),
            s("DesktopEntry:   radiod"),
            s("PlaybackStatus: Playing"),
            s("LoopStatus:     None"),
            s("Rate:           1"),
            s("Shuffle:        false"),
            s("Volume:         0.80"),
            s("Position:       -1"),
            s("Title:          Song"),
            s("Station:        BBC (orbox:uk/bbc)"),
            s("Station count:  12"),
        ]
    );
}
