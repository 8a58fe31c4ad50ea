use rosu_rate_changer::config::Route;
use rosu_rate_changer::error::AudioError;
use rosu_rate_changer::pipeline::{check_encoding, Action, Event, Phase, RunState, SampleEncoding};

#[test]
fn nonpositive_speed_is_rejected_before_any_file_action() {
    for route in [Route::Direct, Route::TwoPhase] {
        let s = RunState::new(route);
        let (next, action) = s.step(Event::Start { speed_positive: false });
        assert_eq!(
            action,
            Action::Abort { error: AudioError::InvalidResampleRatio, remove_intermediate: false }
        );
        assert_eq!(next.phase, Phase::Failed);
        assert!(next.is_finished());
    }
}

#[test]
fn zero_source_rate_is_rejected() {
    let s = RunState::new(Route::Direct);
    let (s, a) = s.step(Event::Start { speed_positive: true });
    assert_eq!(a, Action::OpenInput);
    let (s, a) = s.step(Event::Opened { sample_rate: 0, channel_count: 2 });
    assert_eq!(
        a,
        Action::Abort { error: AudioError::InvalidResampleRatio, remove_intermediate: false }
    );
    assert!(s.is_finished());
}

#[test]
fn track_without_channels_is_rejected() {
    let s = RunState::new(Route::Direct);
    let (s, _) = s.step(Event::Start { speed_positive: true });
    let (_, a) = s.step(Event::Opened { sample_rate: 44100, channel_count: 0 });
    assert_eq!(a, Action::Abort { error: AudioError::NoAudioTrack, remove_intermediate: false });
}

#[test]
fn direct_route_finishes_after_one_pass() {
    let s = RunState::new(Route::Direct);
    let (s, _) = s.step(Event::Start { speed_positive: true });
    let (s, a) = s.step(Event::Opened { sample_rate: 48000, channel_count: 2 });
    assert_eq!(a, Action::RunFirstPass);
    assert!(!s.intermediate_exists);
    let (s, a) = s.step(Event::FirstPassDone);
    assert_eq!(a, Action::Finish { remove_intermediate: false });
    assert_eq!(s.phase, Phase::Finished);
}

#[test]
fn two_phase_success_removes_intermediate() {
    let s = RunState::new(Route::TwoPhase);
    let (s, _) = s.step(Event::Start { speed_positive: true });
    let (s, a) = s.step(Event::Opened { sample_rate: 44100, channel_count: 1 });
    assert_eq!(a, Action::RunFirstPass);
    assert!(s.intermediate_exists);
    let (s, a) = s.step(Event::FirstPassDone);
    assert_eq!(a, Action::RunSecondPass);
    let (s, a) = s.step(Event::SecondPassDone);
    assert_eq!(a, Action::Finish { remove_intermediate: true });
    assert!(!s.intermediate_exists);
    assert_eq!(s.phase, Phase::Finished);
}

#[test]
fn two_phase_failing_second_pass_still_removes_intermediate() {
    let s = RunState::new(Route::TwoPhase);
    let (s, _) = s.step(Event::Start { speed_positive: true });
    let (s, _) = s.step(Event::Opened { sample_rate: 44100, channel_count: 2 });
    let (s, _) = s.step(Event::FirstPassDone);
    let (s, a) = s.step(Event::StageFailed(AudioError::EncoderError));
    assert_eq!(a, Action::Abort { error: AudioError::EncoderError, remove_intermediate: true });
    assert!(!s.intermediate_exists);
    assert_eq!(s.phase, Phase::Failed);
}

#[test]
fn two_phase_failing_first_pass_removes_intermediate() {
    let s = RunState::new(Route::TwoPhase);
    let (s, _) = s.step(Event::Start { speed_positive: true });
    let (s, _) = s.step(Event::Opened { sample_rate: 44100, channel_count: 2 });
    let (_, a) = s.step(Event::StageFailed(AudioError::UnsupportedFormat));
    assert_eq!(a, Action::Abort { error: AudioError::UnsupportedFormat, remove_intermediate: true });
}

#[test]
fn unsupported_codec_fails_while_opening_without_output() {
    let s = RunState::new(Route::Direct);
    let (s, _) = s.step(Event::Start { speed_positive: true });
    let (s, a) = s.step(Event::StageFailed(AudioError::UnsupportedFormat));
    assert_eq!(a, Action::Abort { error: AudioError::UnsupportedFormat, remove_intermediate: false });
    assert!(s.is_finished());
}

#[test]
fn out_of_order_events_are_ignored() {
    let s = RunState::new(Route::Direct);
    let (s2, a) = s.step(Event::FirstPassDone);
    assert_eq!(a, Action::Ignore);
    assert_eq!(s2, s);
}

#[test]
fn sample_encodings() {
    assert_eq!(check_encoding(SampleEncoding::Float32), Ok(()));
    assert_eq!(check_encoding(SampleEncoding::Int16), Ok(()));
    assert_eq!(check_encoding(SampleEncoding::Unsupported), Err(AudioError::UnsupportedFormat));
}
