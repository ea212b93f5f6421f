use sherpa_rs::error::ConfigError;
use sherpa_rs::online::session::{Phase, Session, MAX_CHUNK, SAMPLE_RATE};

#[test]
fn the_one_sample_rate_is_sixteen_kilohertz() {
    assert_eq!(SAMPLE_RATE, 16000);
    assert_eq!(MAX_CHUNK, i32::MAX as usize);
}

#[test]
fn a_new_session_is_idle() {
    let session = Session::new();
    assert_eq!(session.phase(), Phase::Idle);
    assert!(!session.has_decoded());
    assert!(!session.may_be_ready());
}

#[test]
fn a_session_walks_from_idle_to_ready_and_back() {
    let mut session = Session::new();
    assert_eq!(session.accept(16000, 2), Ok(()));
    assert_eq!(session.phase(), Phase::Buffering);
    assert!(!session.observe_ready(false));
    assert_eq!(session.phase(), Phase::Buffering);
    assert!(session.observe_ready(true));
    assert_eq!(session.phase(), Phase::Ready);
    session.step(true);
    assert_eq!(session.phase(), Phase::Buffering);
    assert!(session.has_decoded());
    assert!(session.observe_ready(true));
    session.step(true);
    assert_eq!(session.phase(), Phase::Idle);
    assert!(!session.observe_ready(true));
}

#[test]
fn an_idle_session_is_never_ready() {
    let mut session = Session::new();
    assert!(!session.observe_ready(true));
    assert_eq!(session.phase(), Phase::Idle);
    assert_eq!(session.accept(16000, 0), Ok(()));
    assert!(!session.observe_ready(true));
    assert_eq!(session.phase(), Phase::Idle);
}

#[test]
fn another_rate_is_refused_and_changes_nothing() {
    let mut session = Session::new();
    assert_eq!(session.accept(8000, 100), Err(ConfigError::SampleRateMismatch));
    assert_eq!(session.accept(0, 100), Err(ConfigError::SampleRateMismatch));
    assert_eq!(session.accept(-16000, 100), Err(ConfigError::SampleRateMismatch));
    assert_eq!(session.phase(), Phase::Idle);
}

#[test]
fn more_audio_keeps_a_ready_session_ready() {
    let mut session = Session::new();
    session.accept(16000, 10).unwrap();
    assert!(session.observe_ready(true));
    session.accept(16000, 10).unwrap();
    assert_eq!(session.phase(), Phase::Ready);
}

#[test]
fn nothing_is_reported_before_a_decode_step() {
    let mut session = Session::new();
    assert_eq!(session.report("stale".to_string()), "");
    session.accept(16000, 10).unwrap();
    assert_eq!(session.report("stale".to_string()), "");
    assert!(session.observe_ready(true));
    session.step(true);
    assert_eq!(session.report("hello".to_string()), "hello");
}

#[test]
fn a_reset_session_is_idle_and_silent() {
    let mut session = Session::new();
    session.accept(16000, 10).unwrap();
    assert!(session.observe_ready(true));
    session.step(true);
    assert!(session.observe_ready(true));
    session.reset();
    assert_eq!(session.phase(), Phase::Idle);
    assert!(!session.has_decoded());
    assert!(!session.observe_ready(true));
    assert_eq!(session.report("left over".to_string()), "");
    session.accept(16000, 1).unwrap();
    assert_eq!(session.report("left over".to_string()), "");
    assert!(session.observe_ready(true));
}

#[test]
fn one_chunk_or_many_leave_the_same_account() {
    let mut whole = Session::new();
    whole.accept(16000, 6).unwrap();
    let mut parts = Session::new();
    for len in [1usize, 2, 3] {
        parts.accept(16000, len).unwrap();
    }
    for _ in 0..6 {
        assert!(whole.observe_ready(true));
        assert!(parts.observe_ready(true));
        whole.step(true);
        parts.step(true);
    }
    assert_eq!(whole.phase(), Phase::Idle);
    assert_eq!(parts.phase(), Phase::Idle);
}

#[test]
fn the_count_of_buffered_samples_stops_at_its_limit() {
    let mut session = Session::new();
    for _ in 0..3 {
        session.accept(16000, usize::MAX).unwrap();
    }
    assert_eq!(session.phase(), Phase::Buffering);
    assert!(session.observe_ready(true));
    session.step(true);
    assert_eq!(session.phase(), Phase::Buffering);
}
