use radiod::player::{PlaybackState, PlayerEventKind};
use radiod::retry::{retry_delay_secs, DaemonState, RetryStep};
use radiod::station::StationUri;

#[test]
fn delay_doubles_up_to_a_minute() {
    let delays: Vec<u64> = (0..9).map(retry_delay_secs).collect();
    assert_eq!(delays, vec![1, 2, 4, 8, 16, 32, 60, 60, 60]);
    assert_eq!(retry_delay_secs(u32::MAX), 60);
}

#[test]
fn gives_up_after_ten_attempts() {
    let mut s = DaemonState::new(Some("direct:x".into()));
    for n in 0..10u32 {
        assert_eq!(
            s.begin_retry(),
            RetryStep::Wait { delay_secs: retry_delay_secs(n), attempt: n + 1 }
        );
    }
    assert_eq!(s.begin_retry(), RetryStep::GiveUp);
    assert!(!s.retrying);
}

#[test]
fn failures_start_one_retry_at_a_time() {
    let mut s = DaemonState::new(None);
    assert!(s.player_report(&PlayerEventKind::EndOfStream));
    assert!(!s.player_report(&PlayerEventKind::Error("x".into())));
    s.end_retry();
    assert!(s.player_report(&PlayerEventKind::Error("x".into())));
}

#[test]
fn playing_resets_recovery() {
    let mut s = DaemonState::new(None);
    s.player_report(&PlayerEventKind::EndOfStream);
    s.begin_retry();
    s.begin_retry();
    assert!(!s.player_report(&PlayerEventKind::StateChanged(PlaybackState::Paused)));
    assert_eq!(s.retry_count, 2);
    assert!(!s.player_report(&PlayerEventKind::StateChanged(PlaybackState::Playing)));
    assert_eq!(s.retry_count, 0);
    assert!(!s.retrying);
}

#[test]
fn station_request_resets_and_sets_target() {
    let mut s = DaemonState::new(None);
    assert!(s.retry_target().is_none());
    s.retry_count = 7;
    let uri = StationUri::parse("orbox: uk/bbc").unwrap();
    s.station_requested(&uri);
    assert_eq!(s.current_station.as_deref(), Some("orbox:uk/bbc"));
    assert_eq!(s.retry_count, 0);
    assert_eq!(s.retry_target(), Some(uri));
    s.current_station = Some("nonsense".into());
    assert!(s.retry_target().is_none());
}
