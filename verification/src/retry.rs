//! The daemon's recovery policy: when a stream fails or ends it is tried
//! again after a growing delay, up to a limit.

use vstd::prelude::*;
use crate::player::{PlaybackState, PlayerEventKind, PlayerEventKindView};
use crate::station::{parse_station_uri, station_uri_text, StationUri};

verus! {

broadcast use vstd::string::group_string_axioms;

/// How many times a failed stream is tried again before the daemon gives up.
pub const MAX_RETRIES: u32 = 10;

/// The longest wait between two attempts, in seconds.
pub const MAX_RETRY_DELAY_SECS: u64 = 60;

/// `2` to the power `n`.
pub open spec fn pow2(n: nat) -> nat
    decreases n,
{
    if n == 0 { 1 } else { 2 * pow2((n - 1) as nat) }
}

/// The wait before attempt `count + 1`: `2^count` seconds, at most 60.
pub open spec fn retry_delay_for(count: nat) -> nat {
    if pow2(count) < 60 { pow2(count) } else { 60 }
}

/// `pow2` grows with its argument.
proof fn lemma_pow2_monotone(a: nat, b: nat)
    requires
        a <= b,
    ensures
        pow2(a) <= pow2(b),
    decreases b,
{
    if a < b {
        lemma_pow2_monotone(a, (b - 1) as nat);
    }
}

/// The wait before attempt `count + 1`, in seconds.
pub fn retry_delay_secs(count: u32) -> (r: u64)
    ensures
        r == retry_delay_for(count as nat),
        r <= 60,
{
    if count >= 6 {
        proof {
            lemma_pow2_monotone(6, count as nat);
            reveal_with_fuel(pow2, 7);
        }
        return 60;
    }
    let mut p: u64 = 1;
    let mut i: u32 = 0;
    while i < count
        invariant
            i <= count < 6,
            p == pow2(i as nat),
            p <= 32,
        decreases count - i,
    {
        proof {
            lemma_pow2_monotone((i + 1) as nat, 5);
            reveal_with_fuel(pow2, 6);
        }
        p = p * 2;
        i += 1;
    }
    proof {
        lemma_pow2_monotone(count as nat, 5);
        reveal_with_fuel(pow2, 6);
    }
    p
}

/// What a retry task does when it starts.
#[derive(Debug, PartialEq, Eq, Structural)]
pub enum RetryStep {
    /// The limit is reached; nothing more is tried.
    GiveUp,
    /// Wait `delay_secs`, then make attempt number `attempt`.
    Wait { delay_secs: u64, attempt: u32 },
}

/// The daemon's view of the current station and its recovery.
pub struct DaemonState {
    /// The text form of the station playing now.
    pub current_station: Option<String>,
    /// Attempts made since the last success or station change.
    pub retry_count: u32,
    /// A retry task is running.
    pub retrying: bool,
}

/// The daemon state as mathematical values.
pub struct DaemonStateView {
    pub current_station: Option<Seq<char>>,
    pub retry_count: nat,
    pub retrying: bool,
}

impl View for DaemonState {
    type V = DaemonStateView;

    open spec fn view(&self) -> DaemonStateView {
        DaemonStateView {
            current_station: match self.current_station {
                Some(s) => Some(s@),
                None => None,
            },
            retry_count: self.retry_count as nat,
            retrying: self.retrying,
        }
    }
}

/// The step for a retry task that found `count` attempts made.
pub open spec fn retry_step_for(count: nat) -> RetryStep {
    if count >= MAX_RETRIES {
        RetryStep::GiveUp
    } else {
        RetryStep::Wait { delay_secs: retry_delay_for(count) as u64, attempt: (count + 1) as u32 }
    }
}

/// The attempt counter after one more attempt (it wraps like an atomic add).
pub open spec fn bumped(count: nat) -> nat {
    if count + 1 > u32::MAX { 0 } else { count + 1 }
}

impl DaemonState {
    /// The daemon's state at start-up.
    pub fn new(current_station: Option<String>) -> (s: DaemonState)
        ensures
            s@.current_station == (match current_station {
                Some(c) => Some(c@),
                None => None::<Seq<char>>,
            }),
            s@.retry_count == 0,
            !s@.retrying,
    {
        DaemonState { current_station, retry_count: 0, retrying: false }
    }

    /// A station was requested: it becomes current and recovery starts over.
    pub fn station_requested(&mut self, station: &StationUri)
        ensures
            final(self)@.current_station == Some(station_uri_text(station@)),
            final(self)@.retry_count == 0,
            !final(self)@.retrying,
    {
        self.current_station = Some(station.to_uri_string());
        self.retry_count = 0;
        self.retrying = false;
    }

    /// Handles a player report; returns whether a retry task is to be started.
    /// Playing resets recovery; an error or the end of the stream starts a
    /// retry unless one is running.
    pub fn player_report(&mut self, report: &PlayerEventKind) -> (start_retry: bool)
        ensures
            final(self)@.current_station == old(self)@.current_station,
            match report@ {
                PlayerEventKindView::StateChanged(s) => {
                    &&& !start_retry
                    &&& s == PlaybackState::Playing ==> final(self)@.retry_count == 0 && !final(self)@.retrying
                    &&& s != PlaybackState::Playing ==> final(self)@ == old(self)@
                },
                _ => {
                    &&& start_retry == !old(self)@.retrying
                    &&& final(self)@.retrying
                    &&& final(self)@.retry_count == old(self)@.retry_count
                },
            },
    {
        match report {
            PlayerEventKind::StateChanged(s) => {
                if *s == PlaybackState::Playing {
                    self.retry_count = 0;
                    self.retrying = false;
                }
                false
            },
            _ => {
                let was = self.retrying;
                self.retrying = true;
                !was
            },
        }
    }

    /// A retry task starts: it counts its attempt and learns whether to wait
    /// and try, or to give up (which ends recovery).
    pub fn begin_retry(&mut self) -> (step: RetryStep)
        ensures
            final(self)@.current_station == old(self)@.current_station,
            step == retry_step_for(old(self)@.retry_count),
            final(self)@.retry_count == bumped(old(self)@.retry_count),
            step == RetryStep::GiveUp ==> !final(self)@.retrying,
            step != RetryStep::GiveUp ==> final(self)@.retrying == old(self)@.retrying,
    {
        let count = self.retry_count;
        self.retry_count = count.wrapping_add(1);
        if count >= MAX_RETRIES {
            self.retrying = false;
            RetryStep::GiveUp
        } else {
            RetryStep::Wait { delay_secs: retry_delay_secs(count), attempt: count + 1 }
        }
    }

    /// The station a retry plays again: the current one, if it parses.
    pub fn retry_target(&self) -> (r: Option<StationUri>)
        ensures
            match self@.current_station {
                Some(s) => match parse_station_uri(s) {
                    Ok(u) => r matches Some(t) && t@ == u,
                    Err(_) => r is None,
                },
                None => r is None,
            },
    {
        match &self.current_station {
            Some(s) => match StationUri::parse(s.as_str()) {
                Ok(u) => Some(u),
                Err(_) => None,
            },
            None => None,
        }
    }

    /// A retry task is done.
    pub fn end_retry(&mut self)
        ensures
            final(self)@ == (DaemonStateView { retrying: false, ..old(self)@ }),
    {
        self.retrying = false;
    }
}

/// Recovery gives up: after a reset, ten retry tasks wait and try, and the
/// eleventh gives up.
pub proof fn law_retries_are_bounded(count: nat)
    requires
        count <= u32::MAX,
    ensures
        count < MAX_RETRIES ==> retry_step_for(count) != RetryStep::GiveUp,
        count >= MAX_RETRIES ==> retry_step_for(count) == RetryStep::GiveUp,
        count < MAX_RETRIES ==> bumped(count) == count + 1,
{
}

/// The wait between attempts doubles from one second and never exceeds a
/// minute.
pub proof fn law_retry_delay(count: nat)
    ensures
        retry_delay_for(count) <= 60,
        retry_delay_for(count) >= 1,
        retry_delay_for(count + 1) == (if 2 * retry_delay_for(count) < 60 { 2 * retry_delay_for(count) } else { 60 }),
{
    assert(pow2(count) >= 1) by {
        lemma_pow2_monotone(0, count);
    }
    assert(pow2(count + 1) == 2 * pow2(count));
}

} // verus!
