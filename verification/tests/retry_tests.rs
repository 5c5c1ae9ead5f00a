use hacam::retry::{
    classify_init_response, classify_response, empty_response_error, InitSession, InitStep,
    ResponseVerdict, RetrySession, StatusByteAction,
};
use hacam::CamError;

#[test]
fn status_byte_table() {
    assert_eq!(classify_response(StatusByteAction::Evaluate, &[0, 9, 9]), ResponseVerdict::Accept);
    assert_eq!(classify_response(StatusByteAction::Evaluate, &[1]), ResponseVerdict::Accept);
    assert_eq!(classify_response(StatusByteAction::Evaluate, &[255]), ResponseVerdict::Reinitialize);
    assert_eq!(classify_response(StatusByteAction::Evaluate, &[2]), ResponseVerdict::Retry);
    assert_eq!(classify_response(StatusByteAction::Evaluate, &[3]), ResponseVerdict::Retry);
    assert_eq!(classify_response(StatusByteAction::Evaluate, &[77]), ResponseVerdict::Retry);
    assert_eq!(classify_response(StatusByteAction::Evaluate, &[]), ResponseVerdict::Reject);
    // Ignore delivers anything, even an empty response.
    assert_eq!(classify_response(StatusByteAction::Ignore, &[77]), ResponseVerdict::Accept);
    assert_eq!(classify_response(StatusByteAction::Ignore, &[]), ResponseVerdict::Accept);
    // IgnoreButRetryIfPowerSaving treats everything but the power-save
    // sentinel as payload.
    assert_eq!(classify_response(StatusByteAction::IgnoreButRetryIfPowerSaving, &[77]), ResponseVerdict::Accept);
    assert_eq!(classify_response(StatusByteAction::IgnoreButRetryIfPowerSaving, &[0]), ResponseVerdict::Accept);
    assert_eq!(classify_response(StatusByteAction::IgnoreButRetryIfPowerSaving, &[255]), ResponseVerdict::Reinitialize);
    assert_eq!(classify_response(StatusByteAction::IgnoreButRetryIfPowerSaving, &[2]), ResponseVerdict::Accept);
    assert_eq!(classify_response(StatusByteAction::IgnoreButRetryIfPowerSaving, &[]), ResponseVerdict::Reject);
}

#[test]
fn retry_exhaustion_counts_attempts() {
    // Default retry count 3: four consecutive retry-requested responses
    // exhaust the budget, and the error reports 4 attempts.
    let mut session = RetrySession::new(3);
    let mut processed = 0u32;
    while session.can_attempt() {
        let verdict = classify_response(StatusByteAction::Evaluate, &[3, 0, 0]);
        assert_eq!(verdict, ResponseVerdict::Retry);
        session.record_attempt();
        processed += 1;
    }
    assert_eq!(processed, 4);
    assert_eq!(
        session.exhausted_error(),
        CamError::SendCommand { tries: 4, status_code: 0 }
    );
}

#[test]
fn reinitialization_consumes_an_attempt() {
    let mut session = RetrySession::new(1);
    assert!(session.can_attempt());
    assert_eq!(
        classify_response(StatusByteAction::Evaluate, &[255]),
        ResponseVerdict::Reinitialize
    );
    session.record_attempt();
    assert!(session.can_attempt());
    session.record_attempt();
    assert!(!session.can_attempt());
    assert_eq!(
        session.exhausted_error(),
        CamError::SendCommand { tries: 2, status_code: 0 }
    );
}

#[test]
fn empty_inspected_response_is_invalid_length() {
    assert_eq!(
        empty_response_error(),
        CamError::InvalidLength { expected: 1, received: 0 }
    );
}

#[test]
fn init_response_table() {
    assert_eq!(classify_init_response(&[0, 8]), Ok(InitStep::Success));
    assert_eq!(classify_init_response(&[1]), Ok(InitStep::RetryLater));
    assert_eq!(classify_init_response(&[9]), Ok(InitStep::Fail { status_code: 9 }));
    assert_eq!(
        classify_init_response(&[]),
        Err(CamError::InvalidLength { expected: 1, received: 0 })
    );
}

#[test]
fn init_session_errors() {
    let mut session = InitSession::new(3);
    let mut rounds = 0u32;
    while session.can_attempt() {
        session.record_attempt();
        rounds += 1;
    }
    assert_eq!(rounds, 3);
    assert_eq!(
        session.failure_error(9),
        CamError::ConnInit { tries: 1, status_code: 9 }
    );
    assert_eq!(
        session.exhausted_error(),
        CamError::ConnInit { tries: 3, status_code: 1 }
    );
}
