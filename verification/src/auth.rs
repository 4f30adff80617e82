//! The device authorization flow (`un login`): when a failed request for a
//! device code is tried again, how often the token is polled for, when the
//! flow gives up, and what each reply of the token endpoint means, gathered
//! in [`Login`], a step function from state and event to state and action.
//! Waiting, sending, printing and storing the token are left to the caller.

use vstd::prelude::*;

use crate::api::{
    device_code_request, device_code_spec, device_token_request, device_token_spec, ApiRequest,
    ApiRequestView,
};
use crate::text::{concat3, decimal, decimal_string, owned, same_text};

verus! {

/// How many times a request for a device code is tried again after the
/// server could not be reached.
pub const MAX_CODE_RETRIES: u32 = 15;

/// Seconds to wait before trying again to reach the server.
pub const CODE_RETRY_WAIT_SECS: u64 = 2;

/// The shortest interval, in seconds, between two polls for the token.
pub const MIN_POLL_INTERVAL_SECS: u64 = 5;

/// Seconds added to the wait after the server asks to slow down.
pub const SLOW_DOWN_EXTRA_SECS: u64 = 5;

/// After a failed request for a device code, made when `attempt` retries have
/// already been made: the number of the next retry, or `None` when the flow
/// fails. Only a connection failure is tried again, and at most
/// [`MAX_CODE_RETRIES`] times.
pub fn next_code_attempt(attempt: u32, connect_error: bool) -> (r: Option<u32>)
    ensures
        r == (if connect_error && attempt < 15 {
            Some((attempt + 1) as u32)
        } else {
            None::<u32>
        }),
{
    if connect_error && attempt < MAX_CODE_RETRIES {
        Some(attempt + 1)
    } else {
        None
    }
}

/// The line shown while waiting for the server: `Waiting for server to be
/// ready... (n/15)`.
pub open spec fn waiting_text(attempt: nat) -> Seq<char> {
    "Waiting for server to be ready... ("@ + decimal(attempt) + "/15)"@
}

/// The line shown while waiting for the server (see [`waiting_text`]).
pub fn waiting_message(attempt: u32) -> (r: String)
    ensures
        r@ == waiting_text(attempt as nat),
{
    let n = decimal_string(attempt);
    concat3("Waiting for server to be ready... (", n.as_str(), "/15)")
}

/// The interval between two polls for the token: the one the server asks for
/// (5 seconds when it names none), but never less than 5 seconds.
pub open spec fn poll_interval_spec(interval: Option<u64>) -> u64 {
    match interval {
        Some(i) => if i < 5 { 5 } else { i },
        None => 5,
    }
}

/// The interval between two polls for the token (see [`poll_interval_spec`]).
pub fn poll_interval_secs(interval: Option<u64>) -> (r: u64)
    ensures
        r == poll_interval_spec(interval),
        r >= MIN_POLL_INTERVAL_SECS,
{
    let asked = match interval {
        Some(i) => i,
        None => MIN_POLL_INTERVAL_SECS,
    };
    if asked < MIN_POLL_INTERVAL_SECS {
        MIN_POLL_INTERVAL_SECS
    } else {
        asked
    }
}

/// The page the user is sent to: the verification address with the user code.
pub fn verification_url(verification_uri: &str, user_code: &str) -> (r: String)
    ensures
        r@ == verification_uri@ + "?user_code="@ + user_code@,
{
    concat3(verification_uri, "?user_code=", user_code)
}

/// Whether the code has expired: more than `expires_in` seconds have passed
/// since polling began (the time passed given as whole seconds and the
/// nanoseconds beyond them).
pub open spec fn deadline_passed_spec(elapsed_secs: u64, elapsed_subsec_nanos: u32, expires_in: u64) -> bool {
    elapsed_secs > expires_in || (elapsed_secs == expires_in && elapsed_subsec_nanos > 0)
}

/// Whether the code has expired (see [`deadline_passed_spec`]).
pub fn deadline_passed(elapsed_secs: u64, elapsed_subsec_nanos: u32, expires_in: u64) -> (r: bool)
    ensures
        r == deadline_passed_spec(elapsed_secs, elapsed_subsec_nanos, expires_in),
{
    elapsed_secs > expires_in || (elapsed_secs == expires_in && elapsed_subsec_nanos > 0)
}

/// Why the device authorization flow failed.
#[derive(Clone, Copy, Debug, PartialEq, Eq, Structural)]
pub enum LoginError {
    /// The code expired before the user approved it.
    TimedOut,
    /// The server reported the code as expired.
    Expired,
    /// The user refused the authorization.
    Denied,
}

/// The message reported for a failed flow.
pub open spec fn login_error_message(e: LoginError) -> Seq<char> {
    match e {
        LoginError::TimedOut => "Authorization timed out. Try `un login` again."@,
        LoginError::Expired => "Code expired."@,
        LoginError::Denied => "Access denied."@,
    }
}

impl LoginError {
    /// The message reported for this failure.
    pub fn message(&self) -> (r: String)
        ensures
            r@ == login_error_message(*self),
    {
        match self {
            LoginError::TimedOut => owned("Authorization timed out. Try `un login` again."),
            LoginError::Expired => owned("Code expired."),
            LoginError::Denied => owned("Access denied."),
        }
    }
}

/// What one reply of the token endpoint means for the flow.
#[derive(Debug)]
pub enum TokenPoll {
    /// The device is authorized: the token to store.
    Authorized(String),
    /// The user has not answered yet: show progress and poll again.
    Pending,
    /// The server asks to poll less often: wait the extra time, then poll again.
    SlowDown,
    /// The flow failed.
    Failed(LoginError),
    /// A reply without token or known error: poll again.
    Unrecognized,
}

/// The meaning of a reply that holds `access_token` and `error`: a token
/// always wins; otherwise the error code decides.
pub open spec fn token_poll_spec(access_token: Option<Seq<char>>, error: Option<Seq<char>>) -> TokenPollView {
    match access_token {
        Some(t) => TokenPollView::Authorized(t),
        None => match error {
            Some(e) => if e == "authorization_pending"@ {
                TokenPollView::Pending
            } else if e == "slow_down"@ {
                TokenPollView::SlowDown
            } else if e == "expired_token"@ {
                TokenPollView::Failed(LoginError::Expired)
            } else if e == "access_denied"@ {
                TokenPollView::Failed(LoginError::Denied)
            } else {
                TokenPollView::Unrecognized
            },
            None => TokenPollView::Unrecognized,
        },
    }
}

/// The mathematical value of a [`TokenPoll`].
pub enum TokenPollView {
    Authorized(Seq<char>),
    Pending,
    SlowDown,
    Failed(LoginError),
    Unrecognized,
}

impl View for TokenPoll {
    type V = TokenPollView;

    open spec fn view(&self) -> TokenPollView {
        match self {
            TokenPoll::Authorized(t) => TokenPollView::Authorized(t@),
            TokenPoll::Pending => TokenPollView::Pending,
            TokenPoll::SlowDown => TokenPollView::SlowDown,
            TokenPoll::Failed(e) => TokenPollView::Failed(*e),
            TokenPoll::Unrecognized => TokenPollView::Unrecognized,
        }
    }
}

/// What a reply of the token endpoint means (see [`token_poll_spec`]).
pub fn token_poll_outcome(access_token: Option<String>, error: Option<String>) -> (r: TokenPoll)
    ensures
        r@ == token_poll_spec(access_token.deep_view(), error.deep_view()),
{
    match access_token {
        Some(t) => TokenPoll::Authorized(t),
        None => match error {
            Some(e) => {
                if same_text(&e, "authorization_pending") {
                    TokenPoll::Pending
                } else if same_text(&e, "slow_down") {
                    TokenPoll::SlowDown
                } else if same_text(&e, "expired_token") {
                    TokenPoll::Failed(LoginError::Expired)
                } else if same_text(&e, "access_denied") {
                    TokenPoll::Failed(LoginError::Denied)
                } else {
                    TokenPoll::Unrecognized
                }
            },
            None => TokenPoll::Unrecognized,
        },
    }
}

/// Where the device authorization flow stands.
#[derive(Debug)]
pub enum LoginPhase {
    /// Asking the server for a device code; `attempt` retries were made so far.
    RequestingCode { attempt: u32 },
    /// Polling for the token of `device_code`, every `interval_secs` seconds,
    /// until `expires_in` seconds have passed since polling began.
    Polling { device_code: String, interval_secs: u64, expires_in: u64 },
    /// The flow is over.
    Done,
}

/// The state of the device authorization flow against the API at `base`.
#[derive(Debug)]
pub struct Login {
    pub base: String,
    pub phase: LoginPhase,
}

/// What the caller observed since the last step.
#[derive(Debug)]
pub enum LoginEvent {
    /// The server handed out a device code.
    CodeReceived {
        device_code: String,
        user_code: String,
        verification_uri: String,
        expires_in: u64,
        interval: Option<u64>,
    },
    /// The request for a device code could not be sent; `connect_error` tells
    /// whether the server could not be reached at all.
    CodeRequestFailed { connect_error: bool },
    /// The time that has passed since polling began, before the next poll.
    Tick { elapsed_secs: u64, elapsed_subsec_nanos: u32 },
    /// The token endpoint replied.
    TokenReply { access_token: Option<String>, error: Option<String> },
}

/// What the caller is to do next.
#[derive(Debug)]
pub enum LoginAction {
    /// Send this request for a device code.
    RequestCode(ApiRequest),
    /// Show `message`, wait `wait_secs` seconds, then send `request` again.
    RetryCode { wait_secs: u64, message: String, request: ApiRequest },
    /// Give up: the request for a device code failed for good.
    GiveUp,
    /// Show the user code and where to enter it, open `browser_url`, and
    /// start the clock of the polling.
    ShowCode { user_code: String, verification_uri: String, browser_url: String },
    /// Wait `wait_secs` seconds, then send `request` and report the reply.
    PollAfter { wait_secs: u64, request: ApiRequest },
    /// Wait `extra_wait_secs` more seconds (showing progress when
    /// `show_progress`), then report the time passed.
    Continue { extra_wait_secs: u64, show_progress: bool },
    /// Store this token: the device is authorized.
    SaveToken(String),
    /// The flow failed.
    Fail(LoginError),
    /// Nothing to do: the event does not apply here.
    Nothing,
}

/// The mathematical value of a [`LoginPhase`].
pub enum LoginPhaseView {
    RequestingCode { attempt: u32 },
    Polling { device_code: Seq<char>, interval_secs: u64, expires_in: u64 },
    Done,
}

/// The mathematical value of a [`Login`].
pub struct LoginView {
    pub base: Seq<char>,
    pub phase: LoginPhaseView,
}

/// The mathematical value of a [`LoginEvent`].
pub enum LoginEventView {
    CodeReceived {
        device_code: Seq<char>,
        user_code: Seq<char>,
        verification_uri: Seq<char>,
        expires_in: u64,
        interval: Option<u64>,
    },
    CodeRequestFailed { connect_error: bool },
    Tick { elapsed_secs: u64, elapsed_subsec_nanos: u32 },
    TokenReply { access_token: Option<Seq<char>>, error: Option<Seq<char>> },
}

/// The mathematical value of a [`LoginAction`].
pub enum LoginActionView {
    RequestCode(ApiRequestView),
    RetryCode { wait_secs: u64, message: Seq<char>, request: ApiRequestView },
    GiveUp,
    ShowCode { user_code: Seq<char>, verification_uri: Seq<char>, browser_url: Seq<char> },
    PollAfter { wait_secs: u64, request: ApiRequestView },
    Continue { extra_wait_secs: u64, show_progress: bool },
    SaveToken(Seq<char>),
    Fail(LoginError),
    Nothing,
}

impl View for LoginPhase {
    type V = LoginPhaseView;

    open spec fn view(&self) -> LoginPhaseView {
        match self {
            LoginPhase::RequestingCode { attempt } => LoginPhaseView::RequestingCode { attempt: *attempt },
            LoginPhase::Polling { device_code, interval_secs, expires_in } => LoginPhaseView::Polling {
                device_code: device_code@,
                interval_secs: *interval_secs,
                expires_in: *expires_in,
            },
            LoginPhase::Done => LoginPhaseView::Done,
        }
    }
}

impl View for Login {
    type V = LoginView;

    open spec fn view(&self) -> LoginView {
        LoginView { base: self.base@, phase: self.phase@ }
    }
}

impl View for LoginEvent {
    type V = LoginEventView;

    open spec fn view(&self) -> LoginEventView {
        match self {
            LoginEvent::CodeReceived { device_code, user_code, verification_uri, expires_in, interval } =>
                LoginEventView::CodeReceived {
                device_code: device_code@,
                user_code: user_code@,
                verification_uri: verification_uri@,
                expires_in: *expires_in,
                interval: *interval,
            },
            LoginEvent::CodeRequestFailed { connect_error } => LoginEventView::CodeRequestFailed {
                connect_error: *connect_error,
            },
            LoginEvent::Tick { elapsed_secs, elapsed_subsec_nanos } => LoginEventView::Tick {
                elapsed_secs: *elapsed_secs,
                elapsed_subsec_nanos: *elapsed_subsec_nanos,
            },
            LoginEvent::TokenReply { access_token, error } => LoginEventView::TokenReply {
                access_token: access_token.deep_view(),
                error: error.deep_view(),
            },
        }
    }
}

impl View for LoginAction {
    type V = LoginActionView;

    open spec fn view(&self) -> LoginActionView {
        match self {
            LoginAction::RequestCode(r) => LoginActionView::RequestCode(r@),
            LoginAction::RetryCode { wait_secs, message, request } => LoginActionView::RetryCode {
                wait_secs: *wait_secs,
                message: message@,
                request: request@,
            },
            LoginAction::GiveUp => LoginActionView::GiveUp,
            LoginAction::ShowCode { user_code, verification_uri, browser_url } => LoginActionView::ShowCode {
                user_code: user_code@,
                verification_uri: verification_uri@,
                browser_url: browser_url@,
            },
            LoginAction::PollAfter { wait_secs, request } => LoginActionView::PollAfter {
                wait_secs: *wait_secs,
                request: request@,
            },
            LoginAction::Continue { extra_wait_secs, show_progress } => LoginActionView::Continue {
                extra_wait_secs: *extra_wait_secs,
                show_progress: *show_progress,
            },
            LoginAction::SaveToken(t) => LoginActionView::SaveToken(t@),
            LoginAction::Fail(e) => LoginActionView::Fail(*e),
            LoginAction::Nothing => LoginActionView::Nothing,
        }
    }
}

/// The flow at its start: asking `base` for a device code, no retry made.
pub open spec fn login_start(base: Seq<char>) -> (LoginView, LoginActionView) {
    (
        LoginView { base, phase: LoginPhaseView::RequestingCode { attempt: 0 } },
        LoginActionView::RequestCode(device_code_spec(base)),
    )
}

/// One step of the flow: the state after `e` and what the caller is to do.
pub open spec fn login_step(s: LoginView, e: LoginEventView) -> (LoginView, LoginActionView) {
    let done = LoginView { base: s.base, phase: LoginPhaseView::Done };
    match s.phase {
        LoginPhaseView::RequestingCode { attempt } => match e {
            LoginEventView::CodeReceived { device_code, user_code, verification_uri, expires_in, interval } => (
                LoginView {
                    base: s.base,
                    phase: LoginPhaseView::Polling {
                        device_code,
                        interval_secs: poll_interval_spec(interval),
                        expires_in,
                    },
                },
                LoginActionView::ShowCode {
                    user_code,
                    verification_uri,
                    browser_url: verification_uri + "?user_code="@ + user_code,
                },
            ),
            LoginEventView::CodeRequestFailed { connect_error } => if connect_error && attempt < 15 {
                (
                    LoginView {
                        base: s.base,
                        phase: LoginPhaseView::RequestingCode { attempt: (attempt + 1) as u32 },
                    },
                    LoginActionView::RetryCode {
                        wait_secs: 2,
                        message: waiting_text((attempt + 1) as nat),
                        request: device_code_spec(s.base),
                    },
                )
            } else {
                (done, LoginActionView::GiveUp)
            },
            _ => (s, LoginActionView::Nothing),
        },
        LoginPhaseView::Polling { device_code, interval_secs, expires_in } => match e {
            LoginEventView::Tick { elapsed_secs, elapsed_subsec_nanos } => if deadline_passed_spec(
                elapsed_secs,
                elapsed_subsec_nanos,
                expires_in,
            ) {
                (done, LoginActionView::Fail(LoginError::TimedOut))
            } else {
                (
                    s,
                    LoginActionView::PollAfter {
                        wait_secs: interval_secs,
                        request: device_token_spec(s.base, device_code),
                    },
                )
            },
            LoginEventView::TokenReply { access_token, error } => match token_poll_spec(access_token, error) {
                TokenPollView::Authorized(t) => (done, LoginActionView::SaveToken(t)),
                TokenPollView::Pending => (s, LoginActionView::Continue { extra_wait_secs: 0, show_progress: true }),
                TokenPollView::SlowDown => (s, LoginActionView::Continue { extra_wait_secs: 5, show_progress: false }),
                TokenPollView::Failed(err) => (done, LoginActionView::Fail(err)),
                TokenPollView::Unrecognized => (s, LoginActionView::Continue { extra_wait_secs: 0, show_progress: false }),
            },
            _ => (s, LoginActionView::Nothing),
        },
        LoginPhaseView::Done => (s, LoginActionView::Nothing),
    }
}

/// The invariant of the flow: a polling interval is never below the minimum.
pub open spec fn login_wf(s: LoginView) -> bool {
    s.phase matches LoginPhaseView::Polling { interval_secs, .. } ==> interval_secs >= 5
}

impl Login {
    /// Starts the flow against the API at `base`: the state, and the first
    /// request for a device code.
    pub fn start(base: String) -> (r: (Login, LoginAction))
        ensures
            (r.0@, r.1@) == login_start(base@),
            login_wf(r.0@),
    {
        let request = device_code_request(base.as_str());
        (Login { base, phase: LoginPhase::RequestingCode { attempt: 0 } }, LoginAction::RequestCode(request))
    }

    /// Takes in what the caller observed and says what to do next
    /// (see [`login_step`]).
    pub fn step(&mut self, e: LoginEvent) -> (a: LoginAction)
        ensures
            (final(self)@, a@) == login_step(old(self)@, e@),
            login_wf(old(self)@) ==> login_wf(final(self)@),
    {
        match &self.phase {
            LoginPhase::RequestingCode { attempt } => {
                let attempt = *attempt;
                match e {
                    LoginEvent::CodeReceived { device_code, user_code, verification_uri, expires_in, interval } => {
                        let browser_url = verification_url(verification_uri.as_str(), user_code.as_str());
                        let interval_secs = poll_interval_secs(interval);
                        self.phase = LoginPhase::Polling { device_code, interval_secs, expires_in };
                        LoginAction::ShowCode { user_code, verification_uri, browser_url }
                    },
                    LoginEvent::CodeRequestFailed { connect_error } => {
                        match next_code_attempt(attempt, connect_error) {
                            Some(next) => {
                                let message = waiting_message(next);
                                let request = device_code_request(self.base.as_str());
                                self.phase = LoginPhase::RequestingCode { attempt: next };
                                LoginAction::RetryCode { wait_secs: CODE_RETRY_WAIT_SECS, message, request }
                            },
                            None => {
                                self.phase = LoginPhase::Done;
                                LoginAction::GiveUp
                            },
                        }
                    },
                    _ => LoginAction::Nothing,
                }
            },
            LoginPhase::Polling { device_code, interval_secs, expires_in } => {
                match e {
                    LoginEvent::Tick { elapsed_secs, elapsed_subsec_nanos } => {
                        if deadline_passed(elapsed_secs, elapsed_subsec_nanos, *expires_in) {
                            self.phase = LoginPhase::Done;
                            LoginAction::Fail(LoginError::TimedOut)
                        } else {
                            let request = device_token_request(self.base.as_str(), device_code.as_str());
                            LoginAction::PollAfter { wait_secs: *interval_secs, request }
                        }
                    },
                    LoginEvent::TokenReply { access_token, error } => {
                        match token_poll_outcome(access_token, error) {
                            TokenPoll::Authorized(t) => {
                                self.phase = LoginPhase::Done;
                                LoginAction::SaveToken(t)
                            },
                            TokenPoll::Pending => LoginAction::Continue { extra_wait_secs: 0, show_progress: true },
                            TokenPoll::SlowDown => LoginAction::Continue {
                                extra_wait_secs: SLOW_DOWN_EXTRA_SECS,
                                show_progress: false,
                            },
                            TokenPoll::Failed(err) => {
                                self.phase = LoginPhase::Done;
                                LoginAction::Fail(err)
                            },
                            TokenPoll::Unrecognized => LoginAction::Continue {
                                extra_wait_secs: 0,
                                show_progress: false,
                            },
                        }
                    },
                    _ => LoginAction::Nothing,
                }
            },
            LoginPhase::Done => LoginAction::Nothing,
        }
    }
}

/// The flow driven by `events` from state `s`: the state at the end, and the
/// action answered to each event in turn.
pub open spec fn login_run(s: LoginView, events: Seq<LoginEventView>) -> (LoginView, Seq<LoginActionView>)
    decreases events.len(),
{
    if events.len() == 0 {
        (s, seq![])
    } else {
        let (next, a) = login_step(s, events[0]);
        let (last, rest) = login_run(next, events.drop_first());
        (last, seq![a] + rest)
    }
}

/// Whether an action ends the flow.
pub open spec fn ends_flow(a: LoginActionView) -> bool {
    a is GiveUp || a is SaveToken || a is Fail
}

/// The first action that ends the flow, if any does.
pub open spec fn first_final_action(actions: Seq<LoginActionView>) -> Option<LoginActionView>
    decreases actions.len(),
{
    if actions.len() == 0 {
        None
    } else if ends_flow(actions[0]) {
        Some(actions[0])
    } else {
        first_final_action(actions.drop_first())
    }
}

/// Whether polling goes on after `e`, for a code that expires after
/// `expires_in` seconds: a tick before the deadline, or a reply that carries
/// no token and neither `expired_token` nor `access_denied`.
pub open spec fn polling_goes_on(expires_in: u64, e: LoginEventView) -> bool {
    match e {
        LoginEventView::Tick { elapsed_secs, elapsed_subsec_nanos } => !deadline_passed_spec(
            elapsed_secs,
            elapsed_subsec_nanos,
            expires_in,
        ),
        LoginEventView::TokenReply { access_token, error } => access_token is None && error != Some(
            "expired_token"@,
        ) && error != Some("access_denied"@),
        _ => true,
    }
}

/// How an event that stops polling ends the flow.
pub open spec fn polling_end(e: LoginEventView) -> LoginActionView {
    match e {
        LoginEventView::TokenReply { access_token: Some(t), .. } => LoginActionView::SaveToken(t),
        LoginEventView::TokenReply { error: Some(err), .. } => if err == "expired_token"@ {
            LoginActionView::Fail(LoginError::Expired)
        } else {
            LoginActionView::Fail(LoginError::Denied)
        },
        _ => LoginActionView::Fail(LoginError::TimedOut),
    }
}

/// How polling ends for `events`: by the first event that stops it, if any.
pub open spec fn polling_outcome(expires_in: u64, events: Seq<LoginEventView>) -> Option<LoginActionView>
    decreases events.len(),
{
    if events.len() == 0 {
        None
    } else if !polling_goes_on(expires_in, events[0]) {
        Some(polling_end(events[0]))
    } else {
        polling_outcome(expires_in, events.drop_first())
    }
}

/// Every step keeps the invariant of the flow.
pub proof fn lemma_login_steps_keep_wf(s: LoginView, e: LoginEventView)
    requires
        login_wf(s),
    ensures
        login_wf(login_step(s, e).0),
{
}

/// Every poll for the token waits the interval fixed when the code arrived,
/// which is never below 5 seconds: along any run from a valid state, each
/// `PollAfter` waits at least [`MIN_POLL_INTERVAL_SECS`], and while polling,
/// exactly the interval of the state.
pub proof fn lemma_polls_wait_the_interval(s: LoginView, events: Seq<LoginEventView>)
    requires
        login_wf(s),
    ensures
        forall|i: int|
            0 <= i < events.len() && (#[trigger] login_run(s, events).1[i]) is PollAfter ==> {
                &&& login_run(s, events).1[i]->PollAfter_wait_secs >= MIN_POLL_INTERVAL_SECS
                &&& (s.phase is Polling ==> login_run(s, events).1[i]->PollAfter_wait_secs
                    == s.phase->Polling_interval_secs)
            },
        login_run(s, events).1.len() == events.len(),
        s.phase is Done ==> forall|i: int|
            0 <= i < events.len() ==> (#[trigger] login_run(s, events).1[i]) is Nothing,
    decreases events.len(),
{
    if events.len() > 0 {
        let (next, a) = login_step(s, events[0]);
        lemma_polls_wait_the_interval(next, events.drop_first());
        let acts = login_run(s, events).1;
        let rest = login_run(next, events.drop_first()).1;
        assert(acts == seq![a] + rest);
        assert(acts[0] == a);
        if s.phase is Done {
            assert forall|i: int| 0 <= i < events.len() implies (#[trigger] login_run(s, events).1[i]) is Nothing by {
                if i > 0 {
                    assert(acts[i] == rest[i - 1]);
                }
            }
        }
        assert forall|i: int|
            0 <= i < events.len() && (#[trigger] login_run(s, events).1[i]) is PollAfter implies {
                &&& login_run(s, events).1[i]->PollAfter_wait_secs >= MIN_POLL_INTERVAL_SECS
                &&& (s.phase is Polling ==> login_run(s, events).1[i]->PollAfter_wait_secs
                    == s.phase->Polling_interval_secs)
            } by {
            if i > 0 {
                assert(acts[i] == rest[i - 1]);
            }
        }
    }
}

/// From the start of the flow, whatever happens, no poll for the token waits
/// less than [`MIN_POLL_INTERVAL_SECS`] after what preceded it.
pub proof fn lemma_polls_never_closer_than_minimum(base: Seq<char>, events: Seq<LoginEventView>)
    ensures
        forall|i: int|
            0 <= i < events.len() && (#[trigger] login_run(login_start(base).0, events).1[i]) is PollAfter
                ==> login_run(login_start(base).0, events).1[i]->PollAfter_wait_secs >= MIN_POLL_INTERVAL_SECS,
{
    lemma_polls_wait_the_interval(login_start(base).0, events);
}

/// The server's `slow_down` adds 5 seconds to the wait before the next poll,
/// and polling goes on unchanged.
pub proof fn lemma_slow_down_waits_longer(s: LoginView, error: Option<Seq<char>>)
    requires
        s.phase is Polling,
        error == Some("slow_down"@),
    ensures
        login_step(s, LoginEventView::TokenReply { access_token: None, error })
            == (s, LoginActionView::Continue { extra_wait_secs: SLOW_DOWN_EXTRA_SECS, show_progress: false }),
{
    lemma_error_codes_differ();
}

/// How polling ends: the flow ends with the first event that stops polling,
/// as [`polling_end`] says, and goes on as long as none does.
pub proof fn lemma_polling_outcome(s: LoginView, events: Seq<LoginEventView>)
    requires
        s.phase is Polling,
    ensures
        first_final_action(login_run(s, events).1) == polling_outcome(s.phase->Polling_expires_in, events),
    decreases events.len(),
{
    lemma_error_codes_differ();
    if events.len() > 0 {
        let (next, a) = login_step(s, events[0]);
        let acts = login_run(s, events).1;
        let rest = login_run(next, events.drop_first()).1;
        assert(acts == seq![a] + rest);
        assert(acts.drop_first() == rest);
        assert(acts[0] == a);
        if polling_goes_on(s.phase->Polling_expires_in, events[0]) {
            assert(next == s && !ends_flow(a));
            lemma_polling_outcome(next, events.drop_first());
        } else {
            assert(a == polling_end(events[0]));
        }
    }
}

/// The flow succeeds with token `t` exactly when a reply carrying `t` arrives
/// before any expiry, any `expired_token` or `access_denied` reply, and any
/// tick past the deadline.
pub proof fn lemma_login_succeeds_iff_token_in_time(s: LoginView, events: Seq<LoginEventView>, t: Seq<char>)
    requires
        s.phase is Polling,
    ensures
        first_final_action(login_run(s, events).1) == Some(LoginActionView::SaveToken(t)) <==> exists|i: int|
            0 <= i < events.len() && (#[trigger] events[i] matches LoginEventView::TokenReply {
                access_token: Some(tok),
                ..
            } && tok == t) && forall|j: int|
                0 <= j < i ==> polling_goes_on(s.phase->Polling_expires_in, #[trigger] events[j]),
{
    lemma_polling_outcome(s, events);
    lemma_outcome_is_token_iff(s.phase->Polling_expires_in, events, t);
}

proof fn lemma_error_codes_differ()
    ensures
        "authorization_pending"@ != "slow_down"@,
        "authorization_pending"@ != "expired_token"@,
        "authorization_pending"@ != "access_denied"@,
        "slow_down"@ != "expired_token"@,
        "slow_down"@ != "access_denied"@,
        "expired_token"@ != "access_denied"@,
{
    reveal_strlit("authorization_pending");
    reveal_strlit("slow_down");
    reveal_strlit("expired_token");
    reveal_strlit("access_denied");
    assert("authorization_pending"@.len() == 21);
    assert("slow_down"@.len() == 9);
    assert("expired_token"@.len() == 13);
    assert("access_denied"@.len() == 13);
    assert("expired_token"@[0] != "access_denied"@[0]);
}

proof fn lemma_outcome_is_token_iff(expires_in: u64, events: Seq<LoginEventView>, t: Seq<char>)
    ensures
        polling_outcome(expires_in, events) == Some(LoginActionView::SaveToken(t)) <==> exists|i: int|
            0 <= i < events.len() && (#[trigger] events[i] matches LoginEventView::TokenReply {
                access_token: Some(tok),
                ..
            } && tok == t) && forall|j: int| 0 <= j < i ==> polling_goes_on(expires_in, #[trigger] events[j]),
    decreases events.len(),
{
    if events.len() > 0 {
        let tail = events.drop_first();
        lemma_outcome_is_token_iff(expires_in, tail, t);
        if polling_goes_on(expires_in, events[0]) {
            if polling_outcome(expires_in, events) == Some(LoginActionView::SaveToken(t)) {
                let k = choose|k: int|
                    0 <= k < tail.len() && (#[trigger] tail[k] matches LoginEventView::TokenReply {
                        access_token: Some(tok),
                        ..
                    } && tok == t) && forall|j: int| 0 <= j < k ==> polling_goes_on(expires_in, #[trigger] tail[j]);
                assert(events[k + 1] == tail[k]);
                assert forall|j: int| 0 <= j < k + 1 implies polling_goes_on(expires_in, #[trigger] events[j]) by {
                    if j > 0 {
                        assert(events[j] == tail[j - 1]);
                    }
                }
            } else {
                if exists|i: int|
                    0 <= i < events.len() && (#[trigger] events[i] matches LoginEventView::TokenReply {
                        access_token: Some(tok),
                        ..
                    } && tok == t) && forall|j: int| 0 <= j < i ==> polling_goes_on(expires_in, #[trigger] events[j]) {
                    let i = choose|i: int|
                        0 <= i < events.len() && (#[trigger] events[i] matches LoginEventView::TokenReply {
                            access_token: Some(tok),
                            ..
                        } && tok == t) && forall|j: int| 0 <= j < i ==> polling_goes_on(expires_in, #[trigger] events[j]);
                    assert(i > 0);
                    assert(tail[i - 1] == events[i]);
                    assert forall|j: int| 0 <= j < i - 1 implies polling_goes_on(expires_in, #[trigger] tail[j]) by {
                        assert(tail[j] == events[j + 1]);
                    }
                }
            }
        } else {
            if exists|i: int|
                0 <= i < events.len() && (#[trigger] events[i] matches LoginEventView::TokenReply {
                    access_token: Some(tok),
                    ..
                } && tok == t) && forall|j: int| 0 <= j < i ==> polling_goes_on(expires_in, #[trigger] events[j]) {
                let i = choose|i: int|
                    0 <= i < events.len() && (#[trigger] events[i] matches LoginEventView::TokenReply {
                        access_token: Some(tok),
                        ..
                    } && tok == t) && forall|j: int| 0 <= j < i ==> polling_goes_on(expires_in, #[trigger] events[j]);
                if i > 0 {
                    assert(polling_goes_on(expires_in, events[0]));
                }
            }
        }
    }
}

/// The answers while asking for a device code: a code received starts the
/// polling for that code, at the interval the server asked for but never
/// below 5 seconds (5 when it named none), and shows the user code with the
/// verification address and that address carrying the code; a failure to
/// reach the server is tried again after 2 seconds, with the attempt counted
/// out of 15, while fewer than 15 retries were made; any other failure, or a
/// sixteenth, gives up.
pub proof fn lemma_code_request_answers(s: LoginView, e: LoginEventView)
    requires
        s.phase is RequestingCode,
    ensures
        e matches LoginEventView::CodeReceived { device_code, user_code, verification_uri, expires_in, interval }
            ==> {
            let (next, a) = login_step(s, e);
            let secs: u64 = match interval {
                Some(i) => if i >= 5 { i } else { 5 },
                None => 5,
            };
            &&& next.base == s.base
            &&& next.phase == LoginPhaseView::Polling { device_code, interval_secs: secs, expires_in }
            &&& a == LoginActionView::ShowCode {
                user_code,
                verification_uri,
                browser_url: verification_uri + "?user_code="@ + user_code,
            }
        },
        e matches LoginEventView::CodeRequestFailed { connect_error } ==> {
            let (next, a) = login_step(s, e);
            let attempt = s.phase->RequestingCode_attempt;
            &&& (connect_error && attempt < 15) ==> {
                &&& next.phase == LoginPhaseView::RequestingCode { attempt: (attempt + 1) as u32 }
                &&& a == LoginActionView::RetryCode {
                    wait_secs: 2,
                    message: "Waiting for server to be ready... ("@ + decimal((attempt + 1) as nat) + "/15)"@,
                    request: device_code_spec(s.base),
                }
            }
            &&& !(connect_error && attempt < 15) ==> (next.phase is Done && a is GiveUp)
        },
{
}

/// While polling, a tick before the deadline asks to wait the interval and
/// then poll for the token of the code received, at the same API; a tick
/// after it fails with a timeout.
pub proof fn lemma_tick_polls_for_this_code(s: LoginView, secs: u64, nanos: u32)
    requires
        s.phase is Polling,
    ensures
        ({
            let (next, a) = login_step(s, LoginEventView::Tick { elapsed_secs: secs, elapsed_subsec_nanos: nanos });
            let late = secs > s.phase->Polling_expires_in || (secs == s.phase->Polling_expires_in && nanos > 0);
            &&& !late ==> (next == s && a == LoginActionView::PollAfter {
                wait_secs: s.phase->Polling_interval_secs,
                request: device_token_spec(s.base, s.phase->Polling_device_code),
            })
            &&& late ==> (next.phase is Done && a == LoginActionView::Fail(LoginError::TimedOut))
        }),
{
}

} // verus!
