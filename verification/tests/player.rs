use radiod::player::{
    mpv_request, playback_status_name, player_report, MpvEvent, MpvRequest, PlaybackState,
    PlayerEventKind, TransportCommand,
};

#[test]
fn status_names() {
    assert_eq!(playback_status_name(PlaybackState::Playing), "Playing");
    assert_eq!(playback_status_name(PlaybackState::Paused), "Paused");
    assert_eq!(playback_status_name(PlaybackState::Stopped), "Stopped");
}

#[test]
fn commands_map_to_mpv() {
    assert_eq!(mpv_request(TransportCommand::Play), (MpvRequest::SetPause(false), false));
    assert_eq!(mpv_request(TransportCommand::Pause), (MpvRequest::SetPause(true), false));
    assert_eq!(mpv_request(TransportCommand::Stop), (MpvRequest::Stop, false));
    assert_eq!(
        mpv_request(TransportCommand::SetUri("http://s".into())),
        (MpvRequest::LoadReplace("http://s".into()), false)
    );
    assert_eq!(mpv_request(TransportCommand::Quit), (MpvRequest::Stop, true));
}

#[test]
fn mpv_events_map_to_reports() {
    assert_eq!(player_report(MpvEvent::StartFile), Some(PlayerEventKind::StateChanged(PlaybackState::Playing)));
    assert_eq!(player_report(MpvEvent::EndFile(0)), Some(PlayerEventKind::EndOfStream));
    assert_eq!(player_report(MpvEvent::EndFile(1)), Some(PlayerEventKind::StateChanged(PlaybackState::Stopped)));
    assert_eq!(player_report(MpvEvent::EndFile(3)), Some(PlayerEventKind::Error("playback error".into())));
    assert_eq!(player_report(MpvEvent::EndFile(2)), None);
    assert_eq!(player_report(MpvEvent::PauseChanged(true)), Some(PlayerEventKind::StateChanged(PlaybackState::Paused)));
    assert_eq!(player_report(MpvEvent::PauseChanged(false)), Some(PlayerEventKind::StateChanged(PlaybackState::Playing)));
    assert_eq!(player_report(MpvEvent::Other), None);
}

use radiod::player::{pipeline_report, pipeline_steps, PipelineState, PipelineStep};

#[test]
fn commands_map_to_pipeline_steps() {
    assert_eq!(pipeline_steps(TransportCommand::Play), vec![PipelineStep::SetState(PipelineState::Playing)]);
    assert_eq!(pipeline_steps(TransportCommand::Pause), vec![PipelineStep::SetState(PipelineState::Paused)]);
    assert_eq!(pipeline_steps(TransportCommand::Stop), vec![PipelineStep::SetState(PipelineState::Null)]);
    assert_eq!(
        pipeline_steps(TransportCommand::SetUri("u".into())),
        vec![
            PipelineStep::SetState(PipelineState::Null),
            PipelineStep::SetUri("u".into()),
            PipelineStep::SetState(PipelineState::Playing),
        ]
    );
    assert_eq!(
        pipeline_steps(TransportCommand::Quit),
        vec![PipelineStep::SetState(PipelineState::Null), PipelineStep::QuitLoop]
    );
}

#[test]
fn pipeline_states_report() {
    assert_eq!(pipeline_report(PipelineState::Playing), Some(PlaybackState::Playing));
    assert_eq!(pipeline_report(PipelineState::Paused), Some(PlaybackState::Paused));
    assert_eq!(pipeline_report(PipelineState::Null), Some(PlaybackState::Stopped));
    assert_eq!(pipeline_report(PipelineState::Ready), None);
    assert_eq!(pipeline_report(PipelineState::VoidPending), None);
}
