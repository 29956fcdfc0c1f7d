//! Playback state, the commands the player thread takes, and how the player
//! maps them to and from mpv.

use vstd::prelude::*;

verus! {

broadcast use vstd::string::group_string_axioms;

/// Whether the player is playing.
#[derive(Debug, Clone, Copy, PartialEq, Eq, Structural)]
pub enum PlaybackState {
    Playing,
    Paused,
    Stopped,
}

/// The MPRIS `PlaybackStatus` name of a state.
pub open spec fn playback_status_text(s: PlaybackState) -> Seq<char> {
    match s {
        PlaybackState::Playing => "Playing"@,
        PlaybackState::Paused => "Paused"@,
        PlaybackState::Stopped => "Stopped"@,
    }
}

/// The MPRIS `PlaybackStatus` name of a state.
pub fn playback_status_name(s: PlaybackState) -> (r: String)
    ensures
        r@ == playback_status_text(s),
{
    let mut r = String::new();
    match s {
        PlaybackState::Playing => r.push_str("Playing"),
        PlaybackState::Paused => r.push_str("Paused"),
        PlaybackState::Stopped => r.push_str("Stopped"),
    }
    assert(Seq::<char>::empty() + playback_status_text(s) == playback_status_text(s));
    r
}

/// A player command other than a volume change.
#[derive(Debug, PartialEq, Eq)]
pub enum TransportCommand {
    Play,
    Pause,
    Stop,
    SetUri(String),
    Quit,
}

/// A transport command as character sequences.
pub enum TransportCommandView {
    Play,
    Pause,
    Stop,
    SetUri(Seq<char>),
    Quit,
}

impl View for TransportCommand {
    type V = TransportCommandView;

    open spec fn view(&self) -> TransportCommandView {
        match self {
            TransportCommand::Play => TransportCommandView::Play,
            TransportCommand::Pause => TransportCommandView::Pause,
            TransportCommand::Stop => TransportCommandView::Stop,
            TransportCommand::SetUri(u) => TransportCommandView::SetUri(u@),
            TransportCommand::Quit => TransportCommandView::Quit,
        }
    }
}

/// What the player asks of mpv.
#[derive(Debug, PartialEq, Eq)]
pub enum MpvRequest {
    /// Set the `pause` property.
    SetPause(bool),
    /// Run the `stop` command.
    Stop,
    /// Run `loadfile <uri> replace`.
    LoadReplace(String),
}

/// An mpv request as character sequences.
pub enum MpvRequestView {
    SetPause(bool),
    Stop,
    LoadReplace(Seq<char>),
}

impl View for MpvRequest {
    type V = MpvRequestView;

    open spec fn view(&self) -> MpvRequestView {
        match self {
            MpvRequest::SetPause(b) => MpvRequestView::SetPause(*b),
            MpvRequest::Stop => MpvRequestView::Stop,
            MpvRequest::LoadReplace(u) => MpvRequestView::LoadReplace(u@),
        }
    }
}

/// The mpv request for a command, and whether the player then quits.
pub open spec fn mpv_request_for(c: TransportCommandView) -> (MpvRequestView, bool) {
    match c {
        TransportCommandView::Play => (MpvRequestView::SetPause(false), false),
        TransportCommandView::Pause => (MpvRequestView::SetPause(true), false),
        TransportCommandView::Stop => (MpvRequestView::Stop, false),
        TransportCommandView::SetUri(u) => (MpvRequestView::LoadReplace(u), false),
        TransportCommandView::Quit => (MpvRequestView::Stop, true),
    }
}

/// The mpv request for a command, and whether the player then quits.
pub fn mpv_request(c: TransportCommand) -> (r: (MpvRequest, bool))
    ensures
        (r.0@, r.1) == mpv_request_for(c@),
{
    match c {
        TransportCommand::Play => (MpvRequest::SetPause(false), false),
        TransportCommand::Pause => (MpvRequest::SetPause(true), false),
        TransportCommand::Stop => (MpvRequest::Stop, false),
        TransportCommand::SetUri(u) => (MpvRequest::LoadReplace(u), false),
        TransportCommand::Quit => (MpvRequest::Stop, true),
    }
}

/// The mpv events the player reacts to (volume changes aside).
pub enum MpvEvent {
    StartFile,
    /// Playback of a file ended, with mpv's end-file reason code.
    EndFile(u32),
    /// The `pause` property changed.
    PauseChanged(bool),
    Other,
}

/// What the player reports (volume changes aside).
#[derive(Debug, PartialEq, Eq)]
pub enum PlayerEventKind {
    StateChanged(PlaybackState),
    Error(String),
    EndOfStream,
}

/// A player report as character sequences.
pub enum PlayerEventKindView {
    StateChanged(PlaybackState),
    Error(Seq<char>),
    EndOfStream,
}

impl View for PlayerEventKind {
    type V = PlayerEventKindView;

    open spec fn view(&self) -> PlayerEventKindView {
        match self {
            PlayerEventKind::StateChanged(s) => PlayerEventKindView::StateChanged(*s),
            PlayerEventKind::Error(m) => PlayerEventKindView::Error(m@),
            PlayerEventKind::EndOfStream => PlayerEventKindView::EndOfStream,
        }
    }
}

/// The report for an mpv event: a started file plays, end-file reason 0
/// (end of file) ends the stream, 1 (stopped) stops, 3 (error) is a playback
/// error, and the `pause` flag pauses or resumes.
pub open spec fn report_for(e: MpvEvent) -> Option<PlayerEventKindView> {
    match e {
        MpvEvent::StartFile => Some(PlayerEventKindView::StateChanged(PlaybackState::Playing)),
        MpvEvent::EndFile(reason) => if reason == 0 {
            Some(PlayerEventKindView::EndOfStream)
        } else if reason == 1 {
            Some(PlayerEventKindView::StateChanged(PlaybackState::Stopped))
        } else if reason == 3 {
            Some(PlayerEventKindView::Error("playback error"@))
        } else {
            None
        },
        MpvEvent::PauseChanged(true) => Some(PlayerEventKindView::StateChanged(PlaybackState::Paused)),
        MpvEvent::PauseChanged(false) => Some(PlayerEventKindView::StateChanged(PlaybackState::Playing)),
        MpvEvent::Other => None,
    }
}

/// The report for an mpv event (see `report_for`).
pub fn player_report(e: MpvEvent) -> (r: Option<PlayerEventKind>)
    ensures
        match r {
            Some(k) => report_for(e) == Some(k@),
            None => report_for(e) is None,
        },
{
    match e {
        MpvEvent::StartFile => Some(PlayerEventKind::StateChanged(PlaybackState::Playing)),
        MpvEvent::EndFile(reason) => if reason == 0 {
            Some(PlayerEventKind::EndOfStream)
        } else if reason == 1 {
            Some(PlayerEventKind::StateChanged(PlaybackState::Stopped))
        } else if reason == 3 {
            let mut m = String::new();
            m.push_str("playback error");
            assert(Seq::<char>::empty() + "playback error"@ == "playback error"@);
            Some(PlayerEventKind::Error(m))
        } else {
            None
        },
        MpvEvent::PauseChanged(flag) => if flag {
            Some(PlayerEventKind::StateChanged(PlaybackState::Paused))
        } else {
            Some(PlayerEventKind::StateChanged(PlaybackState::Playing))
        },
        MpvEvent::Other => None,
    }
}

/// The states of a GStreamer pipeline.
#[derive(Debug, Clone, Copy, PartialEq, Eq, Structural)]
pub enum PipelineState {
    VoidPending,
    Null,
    Ready,
    Paused,
    Playing,
}

/// One thing the GStreamer player does to its pipeline.
#[derive(Debug, PartialEq, Eq)]
pub enum PipelineStep {
    /// Move the pipeline to a state.
    SetState(PipelineState),
    /// Point the decoder at a URI.
    SetUri(String),
    /// Leave the player's main loop.
    QuitLoop,
}

/// A pipeline step as mathematical values.
pub enum PipelineStepView {
    SetState(PipelineState),
    SetUri(Seq<char>),
    QuitLoop,
}

impl View for PipelineStep {
    type V = PipelineStepView;

    open spec fn view(&self) -> PipelineStepView {
        match self {
            PipelineStep::SetState(s) => PipelineStepView::SetState(*s),
            PipelineStep::SetUri(u) => PipelineStepView::SetUri(u@),
            PipelineStep::QuitLoop => PipelineStepView::QuitLoop,
        }
    }
}

/// The views of pipeline steps.
pub open spec fn steps_view(s: Seq<PipelineStep>) -> Seq<PipelineStepView> {
    s.map_values(|x: PipelineStep| x@)
}

/// The pipeline steps for a command: play, pause and stop set the state;
/// a new URI stops the pipeline, sets the URI and plays; quitting stops the
/// pipeline and leaves the loop.
pub open spec fn pipeline_steps_for(c: TransportCommandView) -> Seq<PipelineStepView> {
    match c {
        TransportCommandView::Play => seq![PipelineStepView::SetState(PipelineState::Playing)],
        TransportCommandView::Pause => seq![PipelineStepView::SetState(PipelineState::Paused)],
        TransportCommandView::Stop => seq![PipelineStepView::SetState(PipelineState::Null)],
        TransportCommandView::SetUri(u) => seq![
            PipelineStepView::SetState(PipelineState::Null),
            PipelineStepView::SetUri(u),
            PipelineStepView::SetState(PipelineState::Playing),
        ],
        TransportCommandView::Quit => seq![
            PipelineStepView::SetState(PipelineState::Null),
            PipelineStepView::QuitLoop,
        ],
    }
}

/// The pipeline steps for a command (see `pipeline_steps_for`).
pub fn pipeline_steps(c: TransportCommand) -> (r: Vec<PipelineStep>)
    ensures
        steps_view(r@) == pipeline_steps_for(c@),
{
    let ghost cv = c@;
    let mut r: Vec<PipelineStep> = Vec::new();
    match c {
        TransportCommand::Play => r.push(PipelineStep::SetState(PipelineState::Playing)),
        TransportCommand::Pause => r.push(PipelineStep::SetState(PipelineState::Paused)),
        TransportCommand::Stop => r.push(PipelineStep::SetState(PipelineState::Null)),
        TransportCommand::SetUri(u) => {
            r.push(PipelineStep::SetState(PipelineState::Null));
            r.push(PipelineStep::SetUri(u));
            r.push(PipelineStep::SetState(PipelineState::Playing));
        },
        TransportCommand::Quit => {
            r.push(PipelineStep::SetState(PipelineState::Null));
            r.push(PipelineStep::QuitLoop);
        },
    }
    assert(steps_view(r@) == pipeline_steps_for(cv));
    r
}

/// The playback state a pipeline state reports: playing, paused, or
/// stopped for `Null`; the other states report nothing.
pub open spec fn pipeline_report_for(s: PipelineState) -> Option<PlaybackState> {
    match s {
        PipelineState::Playing => Some(PlaybackState::Playing),
        PipelineState::Paused => Some(PlaybackState::Paused),
        PipelineState::Null => Some(PlaybackState::Stopped),
        _ => None,
    }
}

/// The playback state a pipeline state reports (see `pipeline_report_for`).
pub fn pipeline_report(s: PipelineState) -> (r: Option<PlaybackState>)
    ensures
        r == pipeline_report_for(s),
{
    match s {
        PipelineState::Playing => Some(PlaybackState::Playing),
        PipelineState::Paused => Some(PlaybackState::Paused),
        PipelineState::Null => Some(PlaybackState::Stopped),
        _ => None,
    }
}

} // verus!
