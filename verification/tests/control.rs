use pipewire_ao::pod::Value;
use pipewire_ao::reset_control::{
    self, ResetControlError, ResetControlRequest, ResetControlStatus,
};
use pipewire_ao::run_control::{
    self, RunControlError, RunControlRequest, RunControlStatus, RunState,
};

#[test]
fn run_control_request_round_trip() {
    let bytes = run_control::build_request(42, RunState::Running).expect("request");
    assert_eq!(
        run_control::parse_request(&bytes),
        Ok(RunControlRequest {
            token: 42,
            requested_state: RunState::Running,
        })
    );
    assert!(matches!(
        run_control::build_request(0, RunState::Running),
        Err(RunControlError::InvalidToken(0))
    ));
    assert!(matches!(
        run_control::build_request(1, RunState::Unknown),
        Err(RunControlError::InvalidState(_))
    ));
}

#[test]
fn run_control_status_is_strictly_validated() {
    let status = run_control::encode(vec![
        Value::String(run_control::VERSION_KEY.to_owned()),
        Value::Int(run_control::VERSION),
        Value::String(run_control::COMPLETED_TOKEN_KEY.to_owned()),
        Value::Long(42),
        Value::String(run_control::RESULT_KEY.to_owned()),
        Value::Int(-5),
        Value::String(run_control::ACTUAL_STATE_KEY.to_owned()),
        Value::String("stopped".to_owned()),
    ])
    .expect("status");
    assert_eq!(
        run_control::parse_status(&status),
        Ok(RunControlStatus {
            completed_token: 42,
            result: -5,
            actual_state: RunState::Stopped,
        })
    );

    let wrong_version = run_control::encode(vec![
        Value::String(run_control::VERSION_KEY.to_owned()),
        Value::Int(2),
        Value::String(run_control::COMPLETED_TOKEN_KEY.to_owned()),
        Value::Long(42),
        Value::String(run_control::RESULT_KEY.to_owned()),
        Value::Int(0),
        Value::String(run_control::ACTUAL_STATE_KEY.to_owned()),
        Value::String("running".to_owned()),
    ])
    .expect("wrong-version status");
    assert_eq!(
        run_control::parse_status(&wrong_version),
        Err(RunControlError::UnsupportedVersion(2))
    );
}

#[test]
fn reset_control_request_round_trip() {
    let bytes = reset_control::build_request(42).expect("request");
    assert_eq!(
        reset_control::parse_request(&bytes),
        Ok(ResetControlRequest { token: 42 })
    );
    assert_eq!(
        reset_control::build_request(0),
        Err(ResetControlError::InvalidToken(0))
    );
}

#[test]
fn reset_control_status_is_strictly_validated() {
    let status = reset_control::encode(vec![
        Value::String(reset_control::VERSION_KEY.to_owned()),
        Value::Int(reset_control::VERSION),
        Value::String(reset_control::COMPLETED_TOKEN_KEY.to_owned()),
        Value::Long(42),
        Value::String(reset_control::RESULT_KEY.to_owned()),
        Value::Int(-5),
    ])
    .expect("status");
    assert_eq!(
        reset_control::parse_status(&status),
        Ok(ResetControlStatus {
            completed_token: 42,
            result: -5,
        })
    );

    let wrong_version = reset_control::encode(vec![
        Value::String(reset_control::VERSION_KEY.to_owned()),
        Value::Int(2),
        Value::String(reset_control::COMPLETED_TOKEN_KEY.to_owned()),
        Value::Long(42),
        Value::String(reset_control::RESULT_KEY.to_owned()),
        Value::Int(0),
    ])
    .expect("wrong-version status");
    assert_eq!(
        reset_control::parse_status(&wrong_version),
        Err(ResetControlError::UnsupportedVersion(2))
    );
}

#[test]
fn run_control_requests_decode_for_every_valid_state() {
    for (token, state) in [(1, RunState::Stopped), (i64::MAX, RunState::Running)] {
        let bytes = run_control::build_request(token, state).unwrap();
        assert_eq!(
            run_control::parse_request(&bytes),
            Ok(RunControlRequest { token, requested_state: state })
        );
    }
    assert!(matches!(
        run_control::build_request(-3, RunState::Stopped),
        Err(RunControlError::InvalidToken(-3))
    ));
}

#[test]
fn run_control_rejects_each_malformed_input() {
    assert_eq!(run_control::parse_request(&[]), Err(RunControlError::InvalidObject));
    assert_eq!(run_control::parse_request(&[0u8; 7]), Err(RunControlError::InvalidObject));

    let reset = reset_control::build_request(5).unwrap();
    assert_eq!(run_control::parse_request(&reset), Err(RunControlError::NotRunControl));

    let short = run_control::encode(vec![
        Value::String(run_control::VERSION_KEY.to_owned()),
        Value::Int(run_control::VERSION),
    ])
    .unwrap();
    assert_eq!(run_control::parse_request(&short), Err(RunControlError::InvalidFields));

    let zero_token = run_control::encode(vec![
        Value::String(run_control::VERSION_KEY.to_owned()),
        Value::Int(run_control::VERSION),
        Value::String(run_control::REQUEST_TOKEN_KEY.to_owned()),
        Value::Long(0),
        Value::String(run_control::REQUESTED_STATE_KEY.to_owned()),
        Value::String("running".to_owned()),
    ])
    .unwrap();
    assert_eq!(run_control::parse_request(&zero_token), Err(RunControlError::InvalidToken(0)));

    let unknown = run_control::encode(vec![
        Value::String(run_control::VERSION_KEY.to_owned()),
        Value::Int(run_control::VERSION),
        Value::String(run_control::REQUEST_TOKEN_KEY.to_owned()),
        Value::Long(7),
        Value::String(run_control::REQUESTED_STATE_KEY.to_owned()),
        Value::String("unknown".to_owned()),
    ])
    .unwrap();
    assert_eq!(
        run_control::parse_request(&unknown),
        Err(RunControlError::InvalidState("unknown".to_owned()))
    );

    let bogus = run_control::encode(vec![
        Value::String(run_control::VERSION_KEY.to_owned()),
        Value::Int(run_control::VERSION),
        Value::String(run_control::REQUEST_TOKEN_KEY.to_owned()),
        Value::Long(7),
        Value::String(run_control::REQUESTED_STATE_KEY.to_owned()),
        Value::String("paused".to_owned()),
    ])
    .unwrap();
    assert_eq!(
        run_control::parse_request(&bogus),
        Err(RunControlError::InvalidState("paused".to_owned()))
    );

    let swapped = run_control::encode(vec![
        Value::String(run_control::VERSION_KEY.to_owned()),
        Value::Long(1),
        Value::String(run_control::REQUEST_TOKEN_KEY.to_owned()),
        Value::Long(7),
        Value::String(run_control::REQUESTED_STATE_KEY.to_owned()),
        Value::String("running".to_owned()),
    ])
    .unwrap();
    assert_eq!(run_control::parse_request(&swapped), Err(RunControlError::InvalidFields));
}

#[test]
fn run_state_names_round_trip() {
    for state in [RunState::Unknown, RunState::Stopped, RunState::Running] {
        assert_eq!(RunState::parse(state.wire_name()), Ok(state));
    }
    assert_eq!(RunState::Stopped.wire_name(), "stopped");
    assert_eq!(
        RunState::parse("halted"),
        Err(RunControlError::InvalidState("halted".to_owned()))
    );
}

#[test]
fn versions_other_than_one_are_unsupported() {
    assert_eq!(run_control::validate_version(1), Ok(()));
    assert_eq!(run_control::validate_version(0), Err(RunControlError::UnsupportedVersion(0)));
    assert_eq!(reset_control::validate_version(1), Ok(()));
    assert_eq!(reset_control::validate_version(3), Err(ResetControlError::UnsupportedVersion(3)));
}

#[test]
fn reset_control_rejects_negative_completion_tokens() {
    let status = reset_control::encode(vec![
        Value::String(reset_control::VERSION_KEY.to_owned()),
        Value::Int(reset_control::VERSION),
        Value::String(reset_control::COMPLETED_TOKEN_KEY.to_owned()),
        Value::Long(-1),
        Value::String(reset_control::RESULT_KEY.to_owned()),
        Value::Int(0),
    ])
    .unwrap();
    assert_eq!(reset_control::parse_status(&status), Err(ResetControlError::InvalidToken(-1)));
    let run = run_control::build_request(9, RunState::Running).unwrap();
    assert_eq!(reset_control::parse_request(&run), Err(ResetControlError::NotResetControl));
}
