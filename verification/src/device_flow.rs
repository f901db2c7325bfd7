//! The device authorization handshake.
//!
//! An unattended client asks the issuer for a device code, shows the user
//! code to a human, and then polls the issuer until the human has approved or
//! refused the request elsewhere, or until the code has run out.
//!
//! The handshake is one sequential flow. It is written as a machine that is
//! told what the issuer answered and says what to do next, so that whoever
//! drives it decides how to wait and how to reach the issuer.

use vstd::prelude::*;
use vstd::string::*;

use crate::text::same_text;
use crate::types::{DeviceCodeResponse, DeviceErrorResponse, DeviceTokenResponse};

verus! {

/// Seconds between polls where the issuer names none.
pub const DEFAULT_INTERVAL: u64 = 5;

/// Seconds by which the interval grows when the issuer asks to slow down.
pub const SLOW_DOWN_STEP: u64 = 5;

/// Why a handshake failed.
#[derive(Debug, Clone)]
pub enum DeviceFlowError {
    /// The human refused the request.
    AccessDenied,
    /// The issuer declared the device code expired.
    ExpiredToken,
    /// The bound on polls was reached before the issuer decided.
    Timeout,
    /// The issuer could not be asked for a device code, or a granted answer
    /// could not be read.
    Transport(String),
    /// The issuer refused with another error, described here.
    Rejected(String),
    /// The machine was told something it had not asked for.
    OutOfTurn,
}

/// What the error code of a refused poll means for the handshake.
#[derive(Debug, Clone, Copy, PartialEq, Eq, Structural)]
pub enum PollVerdict {
    /// The human has not decided yet: poll again.
    Pending,
    /// The issuer is polled too often: poll again, less often.
    SlowDown,
    /// The human refused.
    Denied,
    /// The device code has expired.
    Expired,
    /// Any other error.
    Other,
}

/// A handshake that is polling.
#[derive(Debug, Clone)]
pub struct PollingSession {
    pub device_code: String,
    /// Seconds to wait before the next poll.
    pub interval: u64,
    /// Polls that have been answered without a decision.
    pub attempts: u64,
    /// Polls after which the handshake times out.
    pub max_attempts: u64,
}

/// Where a handshake stands.
#[derive(Debug, Clone)]
pub enum DeviceFlowState {
    /// A device code has been asked for.
    Requested,
    /// The issuer has answered, and the user code is being shown.
    Displayed(DeviceCodeResponse),
    /// The issuer is being polled.
    Polling(PollingSession),
    /// The issuer has granted this token.
    Granted(String),
    /// The handshake has failed for good.
    Failed(DeviceFlowError),
}

/// What a handshake is told.
#[derive(Debug, Clone)]
pub enum DeviceFlowEvent {
    /// The issuer issued a device code.
    CodeIssued(DeviceCodeResponse),
    /// The issuer could not be asked, or refused to issue a code.
    CodeRefused(String),
    /// The user code has been shown to the human.
    Shown,
    /// The issuer granted the poll.
    TokenIssued(DeviceTokenResponse),
    /// The issuer granted the poll, and its answer could not be read.
    TokenUnreadable(String),
    /// The issuer refused the poll.
    TokenRefused(DeviceErrorResponse),
    /// The issuer did not answer the poll.
    Unreachable,
}

/// What a handshake asks for.
#[derive(Debug, Clone)]
pub enum DeviceFlowAction {
    /// Ask the issuer for a device code.
    RequestCode { client_id: String, scope: String },
    /// Show the human where to go and what to enter.
    Display { user_code: String, verification_uri: String },
    /// Wait, then poll the issuer.
    Poll { wait_seconds: u64, grant_type: String, device_code: String, client_id: String },
    /// Stop: the handshake is over.
    Stop,
}

/// The interval between polls that an issuer's answer calls for.
pub open spec fn first_interval(interval: u64) -> u64 {
    if interval == 0 {
        DEFAULT_INTERVAL
    } else {
        interval
    }
}

/// The number of polls that fit into the lifetime of a device code: the
/// lifetime divided by the interval, rounded up.
pub open spec fn poll_bound(expires_in: u64, interval: u64) -> u64 {
    let step = first_interval(interval);
    if expires_in % step == 0 {
        expires_in / step
    } else {
        (expires_in / step + 1) as u64
    }
}

/// The interval after the issuer has asked to slow down.
pub open spec fn slowed(interval: u64) -> u64 {
    if interval + SLOW_DOWN_STEP > u64::MAX {
        u64::MAX
    } else {
        (interval + SLOW_DOWN_STEP) as u64
    }
}

/// What an error code means.
pub open spec fn verdict_of(code: Seq<char>) -> PollVerdict {
    if code == "authorization_pending"@ {
        PollVerdict::Pending
    } else if code == "slow_down"@ {
        PollVerdict::SlowDown
    } else if code == "access_denied"@ {
        PollVerdict::Denied
    } else if code == "expired_token"@ {
        PollVerdict::Expired
    } else {
        PollVerdict::Other
    }
}

/// The session in which polling starts for an issued device code.
pub open spec fn first_session(issued: DeviceCodeResponse) -> PollingSession {
    PollingSession {
        device_code: issued.device_code,
        interval: first_interval(issued.interval),
        attempts: 0,
        max_attempts: poll_bound(issued.expires_in, issued.interval),
    }
}

/// Where polling stands after an answer that decided nothing: it has timed
/// out where the bound is reached, and goes on at the given interval where it
/// is not.
pub open spec fn after_undecided(session: PollingSession, interval: u64) -> DeviceFlowState {
    if session.attempts + 1 >= session.max_attempts {
        DeviceFlowState::Failed(DeviceFlowError::Timeout)
    } else {
        DeviceFlowState::Polling(
            PollingSession {
                device_code: session.device_code,
                interval,
                attempts: (session.attempts + 1) as u64,
                max_attempts: session.max_attempts,
            },
        )
    }
}

/// Where a handshake stands after it has been told `event` in `state`.
pub open spec fn next_state(state: DeviceFlowState, event: DeviceFlowEvent) -> DeviceFlowState {
    match state {
        DeviceFlowState::Requested => match event {
            DeviceFlowEvent::CodeIssued(issued) => DeviceFlowState::Displayed(issued),
            DeviceFlowEvent::CodeRefused(why) => DeviceFlowState::Failed(DeviceFlowError::Transport(why)),
            _ => DeviceFlowState::Failed(DeviceFlowError::OutOfTurn),
        },
        DeviceFlowState::Displayed(issued) => match event {
            DeviceFlowEvent::Shown => if poll_bound(issued.expires_in, issued.interval) == 0 {
                DeviceFlowState::Failed(DeviceFlowError::Timeout)
            } else {
                DeviceFlowState::Polling(first_session(issued))
            },
            _ => DeviceFlowState::Failed(DeviceFlowError::OutOfTurn),
        },
        DeviceFlowState::Polling(session) => match event {
            DeviceFlowEvent::TokenIssued(granted) => DeviceFlowState::Granted(granted.access_token),
            DeviceFlowEvent::TokenUnreadable(why) => DeviceFlowState::Failed(DeviceFlowError::Transport(why)),
            DeviceFlowEvent::TokenRefused(refusal) => match verdict_of(refusal.error@) {
                PollVerdict::Pending => after_undecided(session, session.interval),
                PollVerdict::SlowDown => after_undecided(session, slowed(session.interval)),
                PollVerdict::Denied => DeviceFlowState::Failed(DeviceFlowError::AccessDenied),
                PollVerdict::Expired => DeviceFlowState::Failed(DeviceFlowError::ExpiredToken),
                PollVerdict::Other => DeviceFlowState::Failed(
                    DeviceFlowError::Rejected(
                        match refusal.error_description {
                            Some(description) => description,
                            None => refusal.error,
                        },
                    ),
                ),
            },
            DeviceFlowEvent::Unreachable => after_undecided(session, session.interval),
            _ => DeviceFlowState::Failed(DeviceFlowError::OutOfTurn),
        },
        DeviceFlowState::Granted(token) => DeviceFlowState::Granted(token),
        DeviceFlowState::Failed(e) => DeviceFlowState::Failed(e),
    }
}

/// A poll of the issuer for this session, after this wait.
pub open spec fn is_poll(action: DeviceFlowAction, session: PollingSession, wait_seconds: u64) -> bool {
    &&& action matches DeviceFlowAction::Poll { wait_seconds: wait, grant_type, device_code, client_id }
    &&& wait == wait_seconds
    &&& grant_type@ == "urn:ietf:params:oauth:grant-type:device_code"@
    &&& device_code@ == session.device_code@
    &&& client_id@ == "drago-dns-cli"@
}

/// What a handshake asks for once it stands in `next`, having stood in
/// `state` before: to show the user code once it is issued, to poll as long
/// as it is polling, the first time at once and then after the interval, and
/// to stop once it is granted or has failed.
pub open spec fn asks_for(state: DeviceFlowState, next: DeviceFlowState, action: DeviceFlowAction) -> bool {
    match next {
        DeviceFlowState::Requested => false,
        DeviceFlowState::Displayed(issued) => {
            &&& action matches DeviceFlowAction::Display { user_code, verification_uri }
            &&& user_code@ == issued.user_code@
            &&& verification_uri@ == issued.verification_uri@
        },
        DeviceFlowState::Polling(session) => is_poll(
            action,
            session,
            if state is Polling {
                session.interval
            } else {
                0
            },
        ),
        DeviceFlowState::Granted(_) => action is Stop,
        DeviceFlowState::Failed(_) => action is Stop,
    }
}

/// What the error code of a refused poll means.
pub fn classify(code: &str) -> (r: PollVerdict)
    ensures
        r == verdict_of(code@),
{
    if same_text(code, "authorization_pending") {
        PollVerdict::Pending
    } else if same_text(code, "slow_down") {
        PollVerdict::SlowDown
    } else if same_text(code, "access_denied") {
        PollVerdict::Denied
    } else if same_text(code, "expired_token") {
        PollVerdict::Expired
    } else {
        PollVerdict::Other
    }
}

/// The number of polls that fit into the lifetime of a device code.
pub fn max_attempts(expires_in: u64, interval: u64) -> (r: u64)
    ensures
        r == poll_bound(expires_in, interval),
{
    let step = if interval == 0 {
        DEFAULT_INTERVAL
    } else {
        interval
    };
    let whole = expires_in / step;
    if expires_in % step == 0 {
        whole
    } else {
        assert(whole < u64::MAX) by (nonlinear_arith)
            requires
                whole == expires_in / step,
                expires_in % step != 0,
                step >= 1,
                expires_in <= u64::MAX,
        {
            if step == 1 {
                assert(expires_in % 1 == 0);
            } else {
                assert(expires_in / step < expires_in || expires_in == 0);
            }
        }
        whole + 1
    }
}

/// The answer that stands for a refusal whose body could not be read: an
/// unknown error, described by the body.
pub fn unknown_error(body: String) -> (r: DeviceErrorResponse)
    ensures
        r.error@ == "unknown_error"@,
        r.error_description == Some(body),
{
    DeviceErrorResponse { error: String::from_str("unknown_error"), error_description: Some(body) }
}

/// The poll that a session calls for.
fn poll(session: &PollingSession, wait_seconds: u64) -> (r: DeviceFlowAction)
    ensures
        is_poll(r, *session, wait_seconds),
{
    DeviceFlowAction::Poll {
        wait_seconds,
        grant_type: String::from_str("urn:ietf:params:oauth:grant-type:device_code"),
        device_code: session.device_code.clone(),
        client_id: String::from_str("drago-dns-cli"),
    }
}

/// Goes on after an answer that decided nothing.
fn go_on(session: PollingSession, interval: u64) -> (r: (DeviceFlowState, DeviceFlowAction))
    ensures
        r.0 == after_undecided(session, interval),
        asks_for(DeviceFlowState::Polling(session), r.0, r.1),
{
    if session.attempts >= session.max_attempts || session.attempts + 1 >= session.max_attempts {
        (DeviceFlowState::Failed(DeviceFlowError::Timeout), DeviceFlowAction::Stop)
    } else {
        let next = PollingSession {
            device_code: session.device_code,
            interval,
            attempts: session.attempts + 1,
            max_attempts: session.max_attempts,
        };
        let action = poll(&next, interval);
        (DeviceFlowState::Polling(next), action)
    }
}

/// Starts a handshake: asks the issuer for a device code.
pub fn start_device_authorization() -> (r: (DeviceFlowState, DeviceFlowAction))
    ensures
        r.0 is Requested,
        r.1 matches DeviceFlowAction::RequestCode { client_id, scope } && client_id@ == "drago-dns-cli"@ && scope@
            == "openid profile email dns:read dns:write"@,
{
    (
        DeviceFlowState::Requested,
        DeviceFlowAction::RequestCode {
            client_id: String::from_str("drago-dns-cli"),
            scope: String::from_str("openid profile email dns:read dns:write"),
        },
    )
}

/// Tells a handshake what happened, and returns where it stands now and what
/// it asks for.
pub fn poll_for_device_token(state: DeviceFlowState, event: DeviceFlowEvent) -> (r: (DeviceFlowState, DeviceFlowAction))
    ensures
        r.0 == next_state(state, event),
        asks_for(state, r.0, r.1),
{
    match state {
        DeviceFlowState::Requested => match event {
            DeviceFlowEvent::CodeIssued(issued) => {
                let action = DeviceFlowAction::Display {
                    user_code: issued.user_code.clone(),
                    verification_uri: issued.verification_uri.clone(),
                };
                (DeviceFlowState::Displayed(issued), action)
            },
            DeviceFlowEvent::CodeRefused(why) => (
                DeviceFlowState::Failed(DeviceFlowError::Transport(why)),
                DeviceFlowAction::Stop,
            ),
            _ => (DeviceFlowState::Failed(DeviceFlowError::OutOfTurn), DeviceFlowAction::Stop),
        },
        DeviceFlowState::Displayed(issued) => match event {
            DeviceFlowEvent::Shown => {
                let bound = max_attempts(issued.expires_in, issued.interval);
                if bound == 0 {
                    (DeviceFlowState::Failed(DeviceFlowError::Timeout), DeviceFlowAction::Stop)
                } else {
                    let session = PollingSession {
                        device_code: issued.device_code,
                        interval: if issued.interval == 0 {
                            DEFAULT_INTERVAL
                        } else {
                            issued.interval
                        },
                        attempts: 0,
                        max_attempts: bound,
                    };
                    let action = poll(&session, 0);
                    (DeviceFlowState::Polling(session), action)
                }
            },
            _ => (DeviceFlowState::Failed(DeviceFlowError::OutOfTurn), DeviceFlowAction::Stop),
        },
        DeviceFlowState::Polling(session) => match event {
            DeviceFlowEvent::TokenIssued(granted) => (
                DeviceFlowState::Granted(granted.access_token),
                DeviceFlowAction::Stop,
            ),
            DeviceFlowEvent::TokenUnreadable(why) => (
                DeviceFlowState::Failed(DeviceFlowError::Transport(why)),
                DeviceFlowAction::Stop,
            ),
            DeviceFlowEvent::TokenRefused(refusal) => match classify(refusal.error.as_str()) {
                PollVerdict::Pending => {
                    let interval = session.interval;
                    go_on(session, interval)
                },
                PollVerdict::SlowDown => {
                    let interval = session.interval.saturating_add(SLOW_DOWN_STEP);
                    go_on(session, interval)
                },
                PollVerdict::Denied => (DeviceFlowState::Failed(DeviceFlowError::AccessDenied), DeviceFlowAction::Stop),
                PollVerdict::Expired => (
                    DeviceFlowState::Failed(DeviceFlowError::ExpiredToken),
                    DeviceFlowAction::Stop,
                ),
                PollVerdict::Other => {
                    let description = match refusal.error_description {
                        Some(description) => description,
                        None => refusal.error,
                    };
                    (DeviceFlowState::Failed(DeviceFlowError::Rejected(description)), DeviceFlowAction::Stop)
                },
            },
            DeviceFlowEvent::Unreachable => {
                let interval = session.interval;
                go_on(session, interval)
            },
            _ => (DeviceFlowState::Failed(DeviceFlowError::OutOfTurn), DeviceFlowAction::Stop),
        },
        DeviceFlowState::Granted(token) => (DeviceFlowState::Granted(token), DeviceFlowAction::Stop),
        DeviceFlowState::Failed(e) => (DeviceFlowState::Failed(e), DeviceFlowAction::Stop),
    }
}

impl DeviceFlowError {
    /// What the error says.
    pub open spec fn message_text(self) -> Seq<char> {
        match self {
            DeviceFlowError::AccessDenied => "Access was denied by the user"@,
            DeviceFlowError::ExpiredToken => "The device code has expired. Please try again."@,
            DeviceFlowError::Timeout => "Device authorization timed out"@,
            DeviceFlowError::Transport(why) => why@,
            DeviceFlowError::Rejected(description) => "Device authorization failed: "@ + description@,
            DeviceFlowError::OutOfTurn => "Device authorization was driven out of turn"@,
        }
    }

    /// What the error says.
    pub fn message(&self) -> (r: String)
        ensures
            r@ == self.message_text(),
    {
        match self {
            DeviceFlowError::AccessDenied => String::from_str("Access was denied by the user"),
            DeviceFlowError::ExpiredToken => String::from_str("The device code has expired. Please try again."),
            DeviceFlowError::Timeout => String::from_str("Device authorization timed out"),
            DeviceFlowError::Transport(why) => why.clone(),
            DeviceFlowError::Rejected(description) => String::from_str("Device authorization failed: ").concat(
                description.as_str(),
            ),
            DeviceFlowError::OutOfTurn => String::from_str("Device authorization was driven out of turn"),
        }
    }
}

/// Where a handshake stands after it has been told a run of events, one
/// after the other.
pub open spec fn after_all(state: DeviceFlowState, events: Seq<DeviceFlowEvent>) -> DeviceFlowState
    decreases events.len(),
{
    if events.len() == 0 {
        state
    } else {
        after_all(next_state(state, events.first()), events.drop_first())
    }
}

/// A refusal that says the human has not decided yet.
pub open spec fn is_pending(event: DeviceFlowEvent) -> bool {
    event matches DeviceFlowEvent::TokenRefused(refusal) && verdict_of(refusal.error@) == PollVerdict::Pending
}

/// The session after `polls` more polls that decided nothing and changed no
/// interval.
pub open spec fn polled(session: PollingSession, polls: nat) -> PollingSession {
    PollingSession {
        device_code: session.device_code,
        interval: session.interval,
        attempts: (session.attempts + polls) as u64,
        max_attempts: session.max_attempts,
    }
}

/// An issuer that answers `authorization_pending` any number of times below
/// the bound, and then grants, makes the handshake poll exactly that number
/// of times without ending, at an unchanged interval, and then end with the
/// granted token.
pub proof fn lemma_pending_then_granted(
    session: PollingSession,
    pending: Seq<DeviceFlowEvent>,
    granted: DeviceTokenResponse,
)
    requires
        forall|i: int| 0 <= i < pending.len() ==> is_pending(#[trigger] pending[i]),
        session.attempts + pending.len() < session.max_attempts,
    ensures
        after_all(DeviceFlowState::Polling(session), pending) == DeviceFlowState::Polling(
            polled(session, pending.len()),
        ),
        after_all(DeviceFlowState::Polling(session), pending.push(DeviceFlowEvent::TokenIssued(granted)))
            == DeviceFlowState::Granted(granted.access_token),
    decreases pending.len(),
{
    let last = DeviceFlowEvent::TokenIssued(granted);
    if pending.len() == 0 {
        assert(polled(session, 0) == session);
        assert(pending.push(last).drop_first() =~= pending);
        assert(after_all(DeviceFlowState::Granted(granted.access_token), pending)
            == DeviceFlowState::Granted(granted.access_token));
    } else {
        let next = polled(session, 1);
        assert(next_state(DeviceFlowState::Polling(session), pending.first()) == DeviceFlowState::Polling(next));
        let rest = pending.drop_first();
        lemma_pending_then_granted(next, rest, granted);
        assert(polled(next, rest.len()) == polled(session, pending.len()));
        assert(pending.push(last).drop_first() =~= rest.push(last));
        assert(pending.push(last).first() == pending.first());
    }
}

/// A refusal with `access_denied` or `expired_token` ends the handshake at
/// once, each with its own error, and no further poll is asked for.
pub proof fn lemma_refusal_ends_at_once(
    session: PollingSession,
    refusal: DeviceErrorResponse,
    next: DeviceFlowState,
    action: DeviceFlowAction,
)
    requires
        next == next_state(DeviceFlowState::Polling(session), DeviceFlowEvent::TokenRefused(refusal)),
        asks_for(DeviceFlowState::Polling(session), next, action),
    ensures
        verdict_of(refusal.error@) == PollVerdict::Denied ==> next == DeviceFlowState::Failed(
            DeviceFlowError::AccessDenied,
        ) && action is Stop,
        verdict_of(refusal.error@) == PollVerdict::Expired ==> next == DeviceFlowState::Failed(
            DeviceFlowError::ExpiredToken,
        ) && action is Stop,
{
}

/// A poll that the issuer did not answer never ends the handshake by itself:
/// polling goes on at the same interval, until the bound on polls is reached.
pub proof fn lemma_silence_does_not_end_polling(session: PollingSession)
    ensures
        session.attempts + 1 < session.max_attempts ==> next_state(
            DeviceFlowState::Polling(session),
            DeviceFlowEvent::Unreachable,
        ) == DeviceFlowState::Polling(polled(session, 1)),
        session.attempts + 1 >= session.max_attempts ==> next_state(
            DeviceFlowState::Polling(session),
            DeviceFlowEvent::Unreachable,
        ) == DeviceFlowState::Failed(DeviceFlowError::Timeout),
{
}

/// A handshake that is polling has always fewer polls behind it than its
/// bound allows, and its bound never changes.
pub proof fn lemma_polls_stay_below_bound(state: DeviceFlowState, event: DeviceFlowEvent)
    requires
        state matches DeviceFlowState::Polling(session) ==> session.attempts < session.max_attempts,
    ensures
        next_state(state, event) matches DeviceFlowState::Polling(session) ==> session.attempts
            < session.max_attempts,
        state is Polling && next_state(state, event) is Polling ==> {
            let before = state->Polling_0;
            let after = next_state(state, event)->Polling_0;
            after.max_attempts == before.max_attempts && after.attempts == before.attempts + 1
        },
{
}

/// Once granted or failed, a handshake stays as it is.
pub proof fn lemma_end_is_final(state: DeviceFlowState, event: DeviceFlowEvent)
    requires
        state is Granted || state is Failed,
    ensures
        next_state(state, event) == state,
{
}

} // verus!
