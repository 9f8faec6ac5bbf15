use user_service::fanin::{fan_in_step, SourceId, SourcePoll};
use user_service::outcome::{
    classify_outcome, opaque_status_message, pool_error_status, ServiceError, StepOutcome,
};
use user_service::session::{Session, SessionPhase, SessionPool};

#[test]
fn protocol_failure_asks_for_reset_and_stays_opaque() {
    // A server-reported failure during submit: the session must be reset,
    // and the caller sees only the opaque unavailable error — the raw
    // detail is not part of the error value at all.
    let detail = "Neo.ClientError.Statement.SyntaxError near line 1".to_string();
    let (reset, verdict) = classify_outcome(&StepOutcome::Failure(detail));
    assert!(reset);
    assert_eq!(verdict.unwrap_err(), ServiceError::Unavailable);
}

#[test]
fn communication_error_skips_reset_and_stays_opaque() {
    let (reset, verdict) =
        classify_outcome(&StepOutcome::CommunicationError("broken pipe".to_string()));
    assert!(!reset);
    assert_eq!(verdict.unwrap_err(), ServiceError::Unavailable);
}

#[test]
fn success_proceeds_without_reset() {
    let (reset, verdict) = classify_outcome(&StepOutcome::Success);
    assert!(!reset);
    assert!(verdict.is_ok());
}

#[test]
fn pool_exhaustion_maps_to_the_same_opaque_error() {
    assert_eq!(pool_error_status(), ServiceError::Unavailable);
}

#[test]
fn opaque_message_carries_no_detail() {
    assert_eq!(opaque_status_message(), "Bad Database");
}

#[test]
fn cancelled_in_flight_session_is_not_pooled() {
    // A request is cancelled while its submit/stream-back cycle is
    // incomplete: the session must not go back to the pool as it stands.
    let mut pool = SessionPool::new();
    let mut s = Session::new();
    s.begin_cycle();
    s.abandon();
    assert_eq!(s.current_phase(), SessionPhase::NeedsReset);
    assert!(!pool.release(s));
    assert_eq!(pool.available(), 0);
}

#[test]
fn in_flight_session_is_not_pooled_either() {
    let mut pool = SessionPool::new();
    let mut s = Session::new();
    s.begin_cycle();
    assert_eq!(s.current_phase(), SessionPhase::InFlight);
    assert!(!pool.release(s));
    assert_eq!(pool.available(), 0);
}

#[test]
fn completed_cycle_returns_the_session_to_the_pool() {
    let mut pool = SessionPool::new();
    let mut s = Session::new();
    s.begin_cycle();
    s.end_cycle(&StepOutcome::Success);
    assert_eq!(s.current_phase(), SessionPhase::Idle);
    assert!(pool.release(s));
    assert_eq!(pool.available(), 1);
    let again = pool.acquire().unwrap();
    assert_eq!(again.current_phase(), SessionPhase::Idle);
    assert_eq!(pool.available(), 0);
}

#[test]
fn failed_cycle_needs_a_reset_before_pooling() {
    let mut pool = SessionPool::new();
    let mut s = Session::new();
    s.begin_cycle();
    s.end_cycle(&StepOutcome::Failure("boom".to_string()));
    assert_eq!(s.current_phase(), SessionPhase::NeedsReset);
    assert!(!pool.release(s));
    let mut s2 = Session::new();
    s2.begin_cycle();
    s2.end_cycle(&StepOutcome::Failure("boom".to_string()));
    s2.reset_done();
    assert!(pool.release(s2));
    assert_eq!(pool.available(), 1);
}

#[test]
fn empty_pool_reports_exhaustion() {
    let mut pool = SessionPool::new();
    assert!(pool.acquire().is_none());
}

#[test]
fn fan_in_prefers_the_first_source_under_simultaneous_readiness() {
    let r = fan_in_step(SourcePoll::Ready(10u32), SourcePoll::Ready(20u32));
    match r {
        SourcePoll::Ready((src, item)) => {
            assert_eq!(src, SourceId::First);
            assert_eq!(item, 10);
        },
        SourcePoll::Pending => panic!("expected a ready item"),
    }
}

#[test]
fn fan_in_takes_the_second_source_when_only_it_is_ready() {
    let r = fan_in_step(SourcePoll::Pending, SourcePoll::Ready(20u32));
    match r {
        SourcePoll::Ready((src, item)) => {
            assert_eq!(src, SourceId::Second);
            assert_eq!(item, 20);
        },
        SourcePoll::Pending => panic!("expected a ready item"),
    }
}

#[test]
fn fan_in_is_pending_only_when_both_sources_are() {
    let r = fan_in_step::<u32>(SourcePoll::Pending, SourcePoll::Pending);
    assert!(matches!(r, SourcePoll::Pending));
}
