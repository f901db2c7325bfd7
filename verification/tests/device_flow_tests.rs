use drago::device_flow::{
    classify, max_attempts, poll_for_device_token, start_device_authorization, unknown_error, DeviceFlowAction,
    DeviceFlowError, DeviceFlowEvent, DeviceFlowState, PollVerdict,
};
use drago::types::{DeviceCodeResponse, DeviceErrorResponse, DeviceTokenResponse};

fn issued(expires_in: u64, interval: u64) -> DeviceCodeResponse {
    DeviceCodeResponse {
        device_code: "dev-123".to_string(),
        user_code: "ABCD-EFGH".to_string(),
        verification_uri: "https://auth.example.com/device".to_string(),
        verification_uri_complete: None,
        expires_in,
        interval,
    }
}

fn refusal(error: &str) -> DeviceFlowEvent {
    DeviceFlowEvent::TokenRefused(DeviceErrorResponse { error: error.to_string(), error_description: None })
}

fn granted(token: &str) -> DeviceFlowEvent {
    DeviceFlowEvent::TokenIssued(DeviceTokenResponse {
        access_token: token.to_string(),
        token_type: "Bearer".to_string(),
        expires_in: Some(3600),
    })
}

fn polling(expires_in: u64, interval: u64) -> DeviceFlowState {
    let (state, _) = start_device_authorization();
    let (state, _) = poll_for_device_token(state, DeviceFlowEvent::CodeIssued(issued(expires_in, interval)));
    let (state, _) = poll_for_device_token(state, DeviceFlowEvent::Shown);
    state
}

fn wait_of(action: &DeviceFlowAction) -> u64 {
    match action {
        DeviceFlowAction::Poll { wait_seconds, .. } => *wait_seconds,
        other => panic!("{:?}", other),
    }
}

#[test]
fn handshake_starts_by_asking_for_a_device_code() {
    let (state, action) = start_device_authorization();
    assert!(matches!(state, DeviceFlowState::Requested));
    match action {
        DeviceFlowAction::RequestCode { client_id, scope } => {
            assert_eq!(client_id, "drago-dns-cli");
            assert_eq!(scope, "openid profile email dns:read dns:write");
        },
        other => panic!("{:?}", other),
    }
}

#[test]
fn issued_code_is_shown_and_then_polled_at_once() {
    let (state, _) = start_device_authorization();
    let (state, action) = poll_for_device_token(state, DeviceFlowEvent::CodeIssued(issued(1800, 5)));
    assert!(matches!(state, DeviceFlowState::Displayed(_)));
    match action {
        DeviceFlowAction::Display { user_code, verification_uri } => {
            assert_eq!(user_code, "ABCD-EFGH");
            assert_eq!(verification_uri, "https://auth.example.com/device");
        },
        other => panic!("{:?}", other),
    }
    let (state, action) = poll_for_device_token(state, DeviceFlowEvent::Shown);
    match &state {
        DeviceFlowState::Polling(session) => {
            assert_eq!(session.device_code, "dev-123");
            assert_eq!(session.interval, 5);
            assert_eq!(session.attempts, 0);
            assert_eq!(session.max_attempts, 360);
        },
        other => panic!("{:?}", other),
    }
    match action {
        DeviceFlowAction::Poll { wait_seconds, grant_type, device_code, client_id } => {
            assert_eq!(wait_seconds, 0);
            assert_eq!(grant_type, "urn:ietf:params:oauth:grant-type:device_code");
            assert_eq!(device_code, "dev-123");
            assert_eq!(client_id, "drago-dns-cli");
        },
        other => panic!("{:?}", other),
    }
}

#[test]
fn refused_code_request_fails_the_handshake() {
    let (state, _) = start_device_authorization();
    let (state, action) =
        poll_for_device_token(state, DeviceFlowEvent::CodeRefused("Device code request failed: 503".to_string()));
    assert!(matches!(action, DeviceFlowAction::Stop));
    match state {
        DeviceFlowState::Failed(e) => assert_eq!(e.message(), "Device code request failed: 503"),
        other => panic!("{:?}", other),
    }
}

#[test]
fn three_pending_answers_then_grant_poll_three_times_without_ending() {
    let mut state = polling(1800, 5);
    let mut undecided = 0;
    for _ in 0..3 {
        let (next, action) = poll_for_device_token(state, refusal("authorization_pending"));
        assert!(matches!(next, DeviceFlowState::Polling(_)));
        assert_eq!(wait_of(&action), 5);
        undecided += 1;
        state = next;
    }
    match &state {
        DeviceFlowState::Polling(session) => assert_eq!(session.attempts, 3),
        other => panic!("{:?}", other),
    }
    let (state, action) = poll_for_device_token(state, granted("session-token"));
    assert_eq!(undecided, 3);
    assert!(matches!(action, DeviceFlowAction::Stop));
    match state {
        DeviceFlowState::Granted(token) => assert_eq!(token, "session-token"),
        other => panic!("{:?}", other),
    }
}

#[test]
fn access_denied_ends_at_once_without_another_poll() {
    let state = polling(1800, 5);
    let (state, action) = poll_for_device_token(state, refusal("access_denied"));
    assert!(matches!(action, DeviceFlowAction::Stop));
    match &state {
        DeviceFlowState::Failed(e) => {
            assert!(matches!(e, DeviceFlowError::AccessDenied));
            assert_eq!(e.message(), "Access was denied by the user");
        },
        other => panic!("{:?}", other),
    }
    let (state, action) = poll_for_device_token(state, refusal("authorization_pending"));
    assert!(matches!(action, DeviceFlowAction::Stop));
    assert!(matches!(state, DeviceFlowState::Failed(DeviceFlowError::AccessDenied)));
}

#[test]
fn expired_token_is_not_a_timeout() {
    let state = polling(1800, 5);
    let (state, action) = poll_for_device_token(state, refusal("expired_token"));
    assert!(matches!(action, DeviceFlowAction::Stop));
    match state {
        DeviceFlowState::Failed(e) => {
            assert!(matches!(e, DeviceFlowError::ExpiredToken));
            assert_eq!(e.message(), "The device code has expired. Please try again.");
        },
        other => panic!("{:?}", other),
    }
}

#[test]
fn slow_down_adds_five_seconds_each_time() {
    let state = polling(1800, 5);
    let (state, action) = poll_for_device_token(state, refusal("slow_down"));
    assert_eq!(wait_of(&action), 10);
    let (state, action) = poll_for_device_token(state, refusal("authorization_pending"));
    assert_eq!(wait_of(&action), 10);
    let (state, action) = poll_for_device_token(state, refusal("slow_down"));
    assert_eq!(wait_of(&action), 15);
    match state {
        DeviceFlowState::Polling(session) => {
            assert_eq!(session.interval, 15);
            assert_eq!(session.attempts, 3);
        },
        other => panic!("{:?}", other),
    }
}

#[test]
fn slow_down_saturates_at_the_largest_interval() {
    let state = polling(u64::MAX, u64::MAX - 2);
    let state = match state {
        DeviceFlowState::Polling(mut session) => {
            session.max_attempts = 10;
            DeviceFlowState::Polling(session)
        },
        other => panic!("{:?}", other),
    };
    let (_, action) = poll_for_device_token(state, refusal("slow_down"));
    assert_eq!(wait_of(&action), u64::MAX);
}

#[test]
fn other_error_fails_with_the_issuers_description() {
    let state = polling(1800, 5);
    let event = DeviceFlowEvent::TokenRefused(DeviceErrorResponse {
        error: "invalid_grant".to_string(),
        error_description: Some("The device code is unknown".to_string()),
    });
    let (state, action) = poll_for_device_token(state, event);
    assert!(matches!(action, DeviceFlowAction::Stop));
    match state {
        DeviceFlowState::Failed(e) => {
            assert_eq!(e.message(), "Device authorization failed: The device code is unknown")
        },
        other => panic!("{:?}", other),
    }
    let (state, _) = poll_for_device_token(polling(1800, 5), refusal("invalid_client"));
    match state {
        DeviceFlowState::Failed(e) => assert_eq!(e.message(), "Device authorization failed: invalid_client"),
        other => panic!("{:?}", other),
    }
}

#[test]
fn unreadable_refusal_counts_as_unknown_error() {
    let answer = unknown_error("<html>Bad Gateway</html>".to_string());
    assert_eq!(answer.error, "unknown_error");
    let (state, _) = poll_for_device_token(polling(1800, 5), DeviceFlowEvent::TokenRefused(answer));
    match state {
        DeviceFlowState::Failed(e) => {
            assert_eq!(e.message(), "Device authorization failed: <html>Bad Gateway</html>")
        },
        other => panic!("{:?}", other),
    }
}

#[test]
fn transport_failures_never_end_polling_before_the_bound() {
    let mut state = polling(50, 5);
    for n in 1..10 {
        let (next, action) = poll_for_device_token(state, DeviceFlowEvent::Unreachable);
        assert_eq!(wait_of(&action), 5);
        match &next {
            DeviceFlowState::Polling(session) => assert_eq!(session.attempts, n),
            other => panic!("{:?}", other),
        }
        state = next;
    }
    let (state, action) = poll_for_device_token(state, DeviceFlowEvent::Unreachable);
    assert!(matches!(action, DeviceFlowAction::Stop));
    match state {
        DeviceFlowState::Failed(e) => {
            assert!(matches!(e, DeviceFlowError::Timeout));
            assert_eq!(e.message(), "Device authorization timed out");
        },
        other => panic!("{:?}", other),
    }
}

#[test]
fn pending_answers_time_out_at_the_bound() {
    let mut state = polling(10, 5);
    let (next, _) = poll_for_device_token(state, refusal("authorization_pending"));
    assert!(matches!(next, DeviceFlowState::Polling(_)));
    state = next;
    let (next, action) = poll_for_device_token(state, refusal("authorization_pending"));
    assert!(matches!(next, DeviceFlowState::Failed(DeviceFlowError::Timeout)));
    assert!(matches!(action, DeviceFlowAction::Stop));
}

#[test]
fn grant_that_cannot_be_read_fails_the_handshake() {
    let (state, action) =
        poll_for_device_token(polling(1800, 5), DeviceFlowEvent::TokenUnreadable("missing field".to_string()));
    assert!(matches!(action, DeviceFlowAction::Stop));
    match state {
        DeviceFlowState::Failed(e) => {
            assert!(matches!(e, DeviceFlowError::Transport(_)));
            assert_eq!(e.message(), "missing field");
        },
        other => panic!("{:?}", other),
    }
}

#[test]
fn code_that_is_expired_when_issued_times_out_without_a_poll() {
    let (state, _) = start_device_authorization();
    let (state, _) = poll_for_device_token(state, DeviceFlowEvent::CodeIssued(issued(0, 5)));
    let (state, action) = poll_for_device_token(state, DeviceFlowEvent::Shown);
    assert!(matches!(action, DeviceFlowAction::Stop));
    assert!(matches!(state, DeviceFlowState::Failed(DeviceFlowError::Timeout)));
}

#[test]
fn events_out_of_turn_fail_the_handshake() {
    let (state, _) = start_device_authorization();
    let (state, action) = poll_for_device_token(state, DeviceFlowEvent::Shown);
    assert!(matches!(action, DeviceFlowAction::Stop));
    assert!(matches!(state, DeviceFlowState::Failed(DeviceFlowError::OutOfTurn)));
    let (state, _) = poll_for_device_token(polling(1800, 5), DeviceFlowEvent::Shown);
    assert!(matches!(state, DeviceFlowState::Failed(DeviceFlowError::OutOfTurn)));
}

#[test]
fn granted_handshake_stays_granted() {
    let (state, _) = poll_for_device_token(polling(1800, 5), granted("t"));
    let (state, action) = poll_for_device_token(state, refusal("access_denied"));
    assert!(matches!(action, DeviceFlowAction::Stop));
    match state {
        DeviceFlowState::Granted(token) => assert_eq!(token, "t"),
        other => panic!("{:?}", other),
    }
}

#[test]
fn max_attempts_divides_the_lifetime_by_the_interval_rounding_up() {
    assert_eq!(max_attempts(1800, 5), 360);
    assert_eq!(max_attempts(1801, 5), 361);
    assert_eq!(max_attempts(4, 5), 1);
    assert_eq!(max_attempts(0, 5), 0);
    assert_eq!(max_attempts(600, 0), 120);
    assert_eq!(max_attempts(u64::MAX, 1), u64::MAX);
    assert_eq!(max_attempts(u64::MAX, 2), u64::MAX / 2 + 1);
    assert_eq!(max_attempts(u64::MAX, u64::MAX), 1);
}

#[test]
fn classify_knows_the_four_codes() {
    assert_eq!(classify("authorization_pending"), PollVerdict::Pending);
    assert_eq!(classify("slow_down"), PollVerdict::SlowDown);
    assert_eq!(classify("access_denied"), PollVerdict::Denied);
    assert_eq!(classify("expired_token"), PollVerdict::Expired);
    assert_eq!(classify("Authorization_Pending"), PollVerdict::Other);
    assert_eq!(classify(""), PollVerdict::Other);
}
