use vstd::prelude::*;
use crate::config::Route;
use crate::error::AudioError;

verus! {

/// How a decoded packet stores its samples.
#[derive(Debug, Clone, Copy, PartialEq, Eq, Structural)]
pub enum SampleEncoding {
    Float32,
    Int16,
    Unsupported,
}

/// A packet is usable when its samples are 32-bit floats or 16-bit
/// integers; any other encoding ends the run.
pub fn check_encoding(e: SampleEncoding) -> (r: Result<(), AudioError>)
    ensures
        r is Ok <==> e != SampleEncoding::Unsupported,
        r matches Err(err) ==> err == AudioError::UnsupportedFormat,
{
    match e {
        SampleEncoding::Unsupported => Err(AudioError::UnsupportedFormat),
        _ => Ok(()),
    }
}

/// Where a run stands.
#[derive(Debug, Clone, Copy, PartialEq, Eq, Structural)]
pub enum Phase {
    /// Nothing done yet; no file touched.
    Idle,
    /// The source is being opened and probed.
    Opening,
    /// Decoding, resampling and writing the first output (the final file on
    /// the direct route, the intermediate PCM file on the two-phase route).
    FirstPass,
    /// Re-encoding the intermediate PCM file into the final file.
    SecondPass,
    Finished,
    Failed,
}

/// What the caller reports back after carrying out an action.
#[derive(Debug, Clone, Copy, PartialEq, Eq, Structural)]
pub enum Event {
    /// The run is asked for; `speed_positive` tells whether the speed
    /// factor is greater than zero.
    Start { speed_positive: bool },
    /// The source was opened and its default track probed.
    Opened { sample_rate: u32, channel_count: usize },
    FirstPassDone,
    SecondPassDone,
    /// The stage under way failed with this error.
    StageFailed(AudioError),
}

/// What the caller has to do next.
#[derive(Debug, Clone, Copy, PartialEq, Eq, Structural)]
pub enum Action {
    OpenInput,
    /// Decode and resample the source into the first output; on the
    /// two-phase route this creates the intermediate file.
    RunFirstPass,
    RunSecondPass,
    /// The run succeeded; delete the intermediate file first if asked.
    Finish { remove_intermediate: bool },
    /// The run failed with `error`; delete the intermediate file first if
    /// asked.
    Abort { error: AudioError, remove_intermediate: bool },
    /// The event does not belong to the current phase; nothing to do.
    Ignore,
}

/// The state of one run.
#[derive(Debug, Clone, Copy, PartialEq, Eq, Structural)]
pub struct RunState {
    pub route: Route,
    pub phase: Phase,
    /// The intermediate PCM file may exist on disk.
    pub intermediate_exists: bool,
}

/// The state before a run on `route` has done anything.
pub open spec fn initial(route: Route) -> RunState {
    RunState { route, phase: Phase::Idle, intermediate_exists: false }
}

/// Actions that open, create, write or delete a file.
pub open spec fn touches_files(a: Action) -> bool {
    match a {
        Action::OpenInput | Action::RunFirstPass | Action::RunSecondPass => true,
        Action::Finish { remove_intermediate } => remove_intermediate,
        Action::Abort { remove_intermediate, .. } => remove_intermediate,
        Action::Ignore => false,
    }
}

/// Actions that end the run.
pub open spec fn is_terminal(a: Action) -> bool {
    a is Finish || a is Abort
}

pub open spec fn is_done(p: Phase) -> bool {
    p == Phase::Finished || p == Phase::Failed
}

/// Ends the run in failure, removing the intermediate file if it may exist.
pub open spec fn fail_with(s: RunState, error: AudioError) -> (RunState, Action) {
    (
        RunState { route: s.route, phase: Phase::Failed, intermediate_exists: false },
        Action::Abort { error, remove_intermediate: s.intermediate_exists },
    )
}

/// The transition of a run on one event.
pub open spec fn next(s: RunState, e: Event) -> (RunState, Action) {
    match (s.phase, e) {
        (Phase::Idle, Event::Start { speed_positive }) => if speed_positive {
            (RunState { phase: Phase::Opening, ..s }, Action::OpenInput)
        } else {
            fail_with(s, AudioError::InvalidResampleRatio)
        },
        (Phase::Opening, Event::Opened { sample_rate, channel_count }) => if sample_rate == 0 {
            fail_with(s, AudioError::InvalidResampleRatio)
        } else if channel_count == 0 {
            fail_with(s, AudioError::NoAudioTrack)
        } else {
            (
                RunState {
                    phase: Phase::FirstPass,
                    intermediate_exists: s.route == Route::TwoPhase,
                    ..s
                },
                Action::RunFirstPass,
            )
        },
        (Phase::FirstPass, Event::FirstPassDone) => match s.route {
            Route::Direct => (
                RunState { phase: Phase::Finished, intermediate_exists: false, ..s },
                Action::Finish { remove_intermediate: s.intermediate_exists },
            ),
            Route::TwoPhase => (RunState { phase: Phase::SecondPass, ..s }, Action::RunSecondPass),
        },
        (Phase::SecondPass, Event::SecondPassDone) => (
            RunState { phase: Phase::Finished, intermediate_exists: false, ..s },
            Action::Finish { remove_intermediate: s.intermediate_exists },
        ),
        (Phase::Opening, Event::StageFailed(err)) => fail_with(s, err),
        (Phase::FirstPass, Event::StageFailed(err)) => fail_with(s, err),
        (Phase::SecondPass, Event::StageFailed(err)) => fail_with(s, err),
        _ => (s, Action::Ignore),
    }
}

/// What holds of every state a run reaches: the intermediate file exists
/// only while a two-phase run is in its passes.
pub open spec fn run_inv(s: RunState) -> bool {
    s.intermediate_exists ==> (s.route == Route::TwoPhase && (s.phase == Phase::FirstPass
        || s.phase == Phase::SecondPass))
}

impl RunState {
    /// A run on `route` that has not started.
    pub fn new(route: Route) -> (r: RunState)
        ensures
            r == initial(route),
    {
        RunState { route, phase: Phase::Idle, intermediate_exists: false }
    }

    /// Whether the run has ended.
    pub fn is_finished(&self) -> (r: bool)
        ensures
            r == is_done(self.phase),
    {
        match self.phase {
            Phase::Finished | Phase::Failed => true,
            _ => false,
        }
    }

    fn fail(&self, error: AudioError) -> (r: (RunState, Action))
        ensures
            r == fail_with(*self, error),
    {
        (
            RunState { route: self.route, phase: Phase::Failed, intermediate_exists: false },
            Action::Abort { error, remove_intermediate: self.intermediate_exists },
        )
    }

    /// Decides the next state and action from the current state and the
    /// event the caller reports.
    pub fn step(&self, e: Event) -> (r: (RunState, Action))
        ensures
            r == next(*self, e),
    {
        match (self.phase, e) {
            (Phase::Idle, Event::Start { speed_positive }) => {
                if speed_positive {
                    (RunState { phase: Phase::Opening, ..*self }, Action::OpenInput)
                } else {
                    self.fail(AudioError::InvalidResampleRatio)
                }
            },
            (Phase::Opening, Event::Opened { sample_rate, channel_count }) => {
                if sample_rate == 0 {
                    self.fail(AudioError::InvalidResampleRatio)
                } else if channel_count == 0 {
                    self.fail(AudioError::NoAudioTrack)
                } else {
                    let two = match self.route {
                        Route::TwoPhase => true,
                        Route::Direct => false,
                    };
                    (
                        RunState { phase: Phase::FirstPass, intermediate_exists: two, ..*self },
                        Action::RunFirstPass,
                    )
                }
            },
            (Phase::FirstPass, Event::FirstPassDone) => match self.route {
                Route::Direct => (
                    RunState { phase: Phase::Finished, intermediate_exists: false, ..*self },
                    Action::Finish { remove_intermediate: self.intermediate_exists },
                ),
                Route::TwoPhase => (
                    RunState { phase: Phase::SecondPass, ..*self },
                    Action::RunSecondPass,
                ),
            },
            (Phase::SecondPass, Event::SecondPassDone) => (
                RunState { phase: Phase::Finished, intermediate_exists: false, ..*self },
                Action::Finish { remove_intermediate: self.intermediate_exists },
            ),
            (Phase::Opening, Event::StageFailed(err)) => self.fail(err),
            (Phase::FirstPass, Event::StageFailed(err)) => self.fail(err),
            (Phase::SecondPass, Event::StageFailed(err)) => self.fail(err),
            _ => (*self, Action::Ignore),
        }
    }
}

/// A run asked for with a speed that is not positive fails at once with
/// `InvalidResampleRatio`, on either route, before any file is opened or
/// created.
pub proof fn lemma_nonpositive_speed_rejected_first(route: Route)
    ensures
        next(initial(route), Event::Start { speed_positive: false }).1 == (Action::Abort {
            error: AudioError::InvalidResampleRatio,
            remove_intermediate: false,
        }),
        !touches_files(next(initial(route), Event::Start { speed_positive: false }).1),
        is_done(next(initial(route), Event::Start { speed_positive: false }).0.phase),
{
}

/// No file is touched before the run is started with a positive speed.
pub proof fn lemma_no_file_action_before_start(route: Route, e: Event)
    requires
        !(e matches Event::Start { speed_positive } && speed_positive),
    ensures
        !touches_files(next(initial(route), e).1),
{
}

/// Every transition keeps the run's invariant.
pub proof fn lemma_step_keeps_inv(s: RunState, e: Event)
    requires
        run_inv(s),
    ensures
        run_inv(next(s, e).0),
        next(s, e).0.route == s.route,
{
}

/// Whenever a run ends, successfully or not, and the intermediate PCM file
/// may exist, the action asks for its removal, and the ended run holds no
/// intermediate file.
pub proof fn lemma_intermediate_removed_at_end(s: RunState, e: Event)
    requires
        run_inv(s),
        !is_done(s.phase),
        is_terminal(next(s, e).1),
    ensures
        s.intermediate_exists ==> (match next(s, e).1 {
            Action::Finish { remove_intermediate } => remove_intermediate,
            Action::Abort { remove_intermediate, .. } => remove_intermediate,
            _ => false,
        }),
        is_done(next(s, e).0.phase),
        !next(s, e).0.intermediate_exists,
{
}

/// A two-phase run whose first pass started holds the intermediate file
/// until it ends.
pub proof fn lemma_two_phase_holds_intermediate(s: RunState, sample_rate: u32, channel_count: usize)
    requires
        s == (RunState { route: Route::TwoPhase, phase: Phase::Opening, intermediate_exists: false }),
        sample_rate > 0,
        channel_count > 0,
    ensures
        next(s, Event::Opened { sample_rate, channel_count }).1 == Action::RunFirstPass,
        next(s, Event::Opened { sample_rate, channel_count }).0.intermediate_exists,
{
}

} // verus!
