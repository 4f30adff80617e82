use updatenight_cli::auth::{
    deadline_passed, next_code_attempt, poll_interval_secs, token_poll_outcome, verification_url,
    waiting_message, Login, LoginAction, LoginError, LoginEvent, LoginPhase, TokenPoll,
};

fn s(x: &str) -> Option<String> {
    Some(x.to_string())
}

#[test]
fn code_request_retries_only_connection_failures() {
    assert_eq!(next_code_attempt(0, true), Some(1));
    assert_eq!(next_code_attempt(14, true), Some(15));
    assert_eq!(next_code_attempt(15, true), None);
    assert_eq!(next_code_attempt(3, false), None);
}

#[test]
fn waiting_message_counts_attempts() {
    assert_eq!(waiting_message(3), "Waiting for server to be ready... (3/15)");
}

#[test]
fn poll_interval_is_at_least_five_seconds() {
    assert_eq!(poll_interval_secs(None), 5);
    assert_eq!(poll_interval_secs(Some(0)), 5);
    assert_eq!(poll_interval_secs(Some(2)), 5);
    assert_eq!(poll_interval_secs(Some(12)), 12);
}

#[test]
fn verification_url_carries_user_code() {
    assert_eq!(
        verification_url("https://updatenight.com/device", "WXYZ-1234"),
        "https://updatenight.com/device?user_code=WXYZ-1234"
    );
}

#[test]
fn deadline_counts_fractions_of_seconds() {
    assert!(!deadline_passed(599, 999_999_999, 600));
    assert!(!deadline_passed(600, 0, 600));
    assert!(deadline_passed(600, 1, 600));
    assert!(deadline_passed(601, 0, 600));
}

#[test]
fn token_reply_with_token_authorizes() {
    match token_poll_outcome(s("tok"), s("authorization_pending")) {
        TokenPoll::Authorized(t) => assert_eq!(t, "tok"),
        other => panic!("unexpected {:?}", other),
    }
}

#[test]
fn token_reply_error_codes() {
    assert!(matches!(token_poll_outcome(None, s("authorization_pending")), TokenPoll::Pending));
    assert!(matches!(token_poll_outcome(None, s("slow_down")), TokenPoll::SlowDown));
    assert!(matches!(token_poll_outcome(None, s("expired_token")), TokenPoll::Failed(LoginError::Expired)));
    assert!(matches!(token_poll_outcome(None, s("access_denied")), TokenPoll::Failed(LoginError::Denied)));
    assert!(matches!(token_poll_outcome(None, s("server_error")), TokenPoll::Unrecognized));
    assert!(matches!(token_poll_outcome(None, None), TokenPoll::Unrecognized));
}

#[test]
fn login_error_messages() {
    assert_eq!(LoginError::TimedOut.message(), "Authorization timed out. Try `un login` again.");
    assert_eq!(LoginError::Expired.message(), "Code expired.");
    assert_eq!(LoginError::Denied.message(), "Access denied.");
}

fn code(interval: Option<u64>) -> LoginEvent {
    LoginEvent::CodeReceived {
        device_code: "dev-1".to_string(),
        user_code: "ABCD-EFGH".to_string(),
        verification_uri: "https://h.example/device".to_string(),
        expires_in: 600,
        interval,
    }
}

fn reply(token: Option<String>, error: Option<String>) -> LoginEvent {
    LoginEvent::TokenReply { access_token: token, error }
}

fn tick(secs: u64) -> LoginEvent {
    LoginEvent::Tick { elapsed_secs: secs, elapsed_subsec_nanos: 0 }
}

fn polling_login(interval: Option<u64>) -> Login {
    let (mut login, _) = Login::start("https://h.example".to_string());
    login.step(code(interval));
    login
}

#[test]
fn login_starts_by_asking_for_a_code() {
    let (login, action) = Login::start("https://h.example".to_string());
    assert!(matches!(login.phase, LoginPhase::RequestingCode { attempt: 0 }));
    match action {
        LoginAction::RequestCode(r) => {
            assert_eq!(r.url, "https://h.example/api/auth/device/code");
            assert_eq!(r.body.as_deref(), Some("{\"client_id\":\"updatenight-cli\"}"));
        }
        other => panic!("unexpected action {:?}", other),
    }
}

#[test]
fn login_retries_unreachable_server_fifteen_times() {
    let (mut login, _) = Login::start("https://h.example".to_string());
    for n in 1..=15u32 {
        match login.step(LoginEvent::CodeRequestFailed { connect_error: true }) {
            LoginAction::RetryCode { wait_secs, message, request } => {
                assert_eq!(wait_secs, 2);
                assert_eq!(message, format!("Waiting for server to be ready... ({}/15)", n));
                assert_eq!(request.url, "https://h.example/api/auth/device/code");
            }
            other => panic!("unexpected action {:?}", other),
        }
    }
    assert!(matches!(login.step(LoginEvent::CodeRequestFailed { connect_error: true }), LoginAction::GiveUp));
    assert!(matches!(login.phase, LoginPhase::Done));
    assert!(matches!(login.step(tick(0)), LoginAction::Nothing));
}

#[test]
fn login_gives_up_at_once_on_other_failures() {
    let (mut login, _) = Login::start("https://h.example".to_string());
    assert!(matches!(login.step(LoginEvent::CodeRequestFailed { connect_error: false }), LoginAction::GiveUp));
}

#[test]
fn login_shows_code_and_polls_at_the_interval() {
    let (mut login, _) = Login::start("https://h.example".to_string());
    match login.step(code(Some(2))) {
        LoginAction::ShowCode { user_code, verification_uri, browser_url } => {
            assert_eq!(user_code, "ABCD-EFGH");
            assert_eq!(verification_uri, "https://h.example/device");
            assert_eq!(browser_url, "https://h.example/device?user_code=ABCD-EFGH");
        }
        other => panic!("unexpected action {:?}", other),
    }
    match login.step(tick(0)) {
        LoginAction::PollAfter { wait_secs, request } => {
            assert_eq!(wait_secs, 5);
            assert_eq!(request.url, "https://h.example/api/auth/device/token");
            assert!(request.body.unwrap().contains("\"device_code\":\"dev-1\""));
        }
        other => panic!("unexpected action {:?}", other),
    }
    let mut slow = polling_login(Some(12));
    assert!(matches!(slow.step(tick(30)), LoginAction::PollAfter { wait_secs: 12, .. }));
}

#[test]
fn login_reply_outcomes() {
    let mut login = polling_login(None);
    assert!(matches!(
        login.step(reply(None, s("authorization_pending"))),
        LoginAction::Continue { extra_wait_secs: 0, show_progress: true }
    ));
    assert!(matches!(
        login.step(reply(None, s("slow_down"))),
        LoginAction::Continue { extra_wait_secs: 5, show_progress: false }
    ));
    assert!(matches!(
        login.step(reply(None, s("something_else"))),
        LoginAction::Continue { extra_wait_secs: 0, show_progress: false }
    ));
    assert!(matches!(login.step(reply(None, None)), LoginAction::Continue { extra_wait_secs: 0, show_progress: false }));
    assert!(matches!(login.phase, LoginPhase::Polling { interval_secs: 5, expires_in: 600, .. }));
    match login.step(reply(s("tok-9"), s("slow_down"))) {
        LoginAction::SaveToken(t) => assert_eq!(t, "tok-9"),
        other => panic!("unexpected action {:?}", other),
    }
    assert!(matches!(login.phase, LoginPhase::Done));

    let mut expired = polling_login(None);
    assert!(matches!(expired.step(reply(None, s("expired_token"))), LoginAction::Fail(LoginError::Expired)));
    let mut denied = polling_login(None);
    assert!(matches!(denied.step(reply(None, s("access_denied"))), LoginAction::Fail(LoginError::Denied)));
}

#[test]
fn login_times_out_after_the_deadline() {
    let mut login = polling_login(None);
    assert!(matches!(login.step(tick(600)), LoginAction::PollAfter { .. }));
    assert!(matches!(
        login.step(LoginEvent::Tick { elapsed_secs: 600, elapsed_subsec_nanos: 1 }),
        LoginAction::Fail(LoginError::TimedOut)
    ));
    assert!(matches!(login.step(reply(s("late"), None)), LoginAction::Nothing));
}
