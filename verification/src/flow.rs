//! Flow control for one capture attempt: the immutable flow configuration,
//! the failure kinds, the listener loop's and the waiter's decision steps,
//! and the conversion of a captured credential to text.
//!
//! The clock, the socket and the thread live with the caller; the functions
//! here take the elapsed time and the inbound events as plain values and
//! decide what happens next, so the whole decision logic is verified.

use vstd::prelude::*;

use crate::bytes::lemma_deep_bytes;
use crate::state::CaptureState;
use crate::AUTH_CALLBACK_PORT;

verus! {

/// Why a capture attempt failed.
#[derive(Clone, Copy, Debug, PartialEq, Eq, Structural)]
pub enum AuthError {
    /// The fixed port could not be bound (occupied, or permission denied).
    /// Fatal for the attempt and surfaced immediately; never retried.
    Bind,
    /// No credential was captured before the deadline.  The caller may retry
    /// with a fresh flow.
    Timeout,
}

impl AuthError {
    /// A short description for the caller's diagnostics.
    pub fn message(&self) -> &'static str {
        match self {
            AuthError::Bind => "failed to bind the authentication callback port",
            AuthError::Timeout => "timeout waiting for authentication callback",
        }
    }
}

/// The number of milliseconds in `secs` seconds, saturated at the largest
/// representable value.
pub open spec fn spec_timeout_ms(secs: u64) -> u64 {
    if secs <= u64::MAX / 1000 {
        (secs * 1000) as u64
    } else {
        u64::MAX
    }
}

/// Configuration of one capture attempt, immutable for its whole life.
pub struct FlowConfig {
    /// The port the listener binds to — always the fixed callback port.
    pub port: u16,
    /// The overall deadline, in milliseconds.
    pub timeout_ms: u64,
}

impl FlowConfig {
    /// Build the configuration for one attempt.  The requested port is
    /// ignored in favour of the fixed callback port: OAuth providers require
    /// a pre-registered exact redirect URI.
    pub fn new(requested_port: u16, timeout_seconds: u64) -> (c: FlowConfig)
        ensures
            c.port == AUTH_CALLBACK_PORT,
            c.timeout_ms == spec_timeout_ms(timeout_seconds),
    {
        let _ = requested_port;
        let timeout_ms = if timeout_seconds <= u64::MAX / 1000 {
            timeout_seconds * 1000
        } else {
            u64::MAX
        };
        FlowConfig { port: AUTH_CALLBACK_PORT, timeout_ms }
    }
}

/// The immediate outcome of the bind attempt.  Binding is tried exactly
/// once; a failure is surfaced at once — the flow never waits out its
/// timeout on a port that could not be bound.
pub fn bind_outcome(bind_succeeded: bool) -> (r: Result<(), AuthError>)
    ensures
        bind_succeeded <==> r is Ok,
        !bind_succeeded ==> r == Result::<(), AuthError>::Err(AuthError::Bind),
{
    if bind_succeeded {
        Ok(())
    } else {
        Err(AuthError::Bind)
    }
}

/// Loop guard for the listener thread: keep polling for requests exactly
/// while the deadline has not passed and no credential has been captured.
pub fn listener_should_poll(elapsed_ms: u64, config: &FlowConfig, state: &CaptureState) -> (r:
    bool)
    requires
        state.wf(),
    ensures
        r == (elapsed_ms < config.timeout_ms && state@ is None),
{
    elapsed_ms < config.timeout_ms && !state.is_captured()
}

/// What one iteration of the listener loop observed while waiting for a
/// request.
#[derive(Clone, Copy, Debug, PartialEq, Eq, Structural)]
pub enum ListenerEvent {
    /// A request arrived within the short per-poll wait.
    Arrived,
    /// The wait elapsed with no request.
    Idle,
    /// The underlying accept failed hard.
    Failed,
}

/// What the listener loop does next.
#[derive(Clone, Copy, Debug, PartialEq, Eq, Structural)]
pub enum ListenerAction {
    /// Handle the request and write its one response.
    Respond,
    /// Pause briefly, then poll again.
    Pause,
    /// Leave the loop.  A hard accept error stops the listener without
    /// reaching the caller: the waiter's own timeout is the authoritative
    /// failure path.
    Stop,
}

/// How the listener loop answers each observation.
pub fn listener_event_action(event: ListenerEvent) -> (r: ListenerAction)
    ensures
        event is Arrived <==> r is Respond,
        event is Idle <==> r is Pause,
        event is Failed <==> r is Stop,
{
    match event {
        ListenerEvent::Arrived => ListenerAction::Respond,
        ListenerEvent::Idle => ListenerAction::Pause,
        ListenerEvent::Failed => ListenerAction::Stop,
    }
}

/// What the waiter does after one poll of the capture record.
pub enum WaiterStep {
    /// A credential is present: resolve with it.
    Deliver(Vec<u8>),
    /// Nothing captured yet and time remains: poll again after the interval.
    KeepWaiting,
    /// Nothing captured and the deadline has passed: fail with a timeout.
    TimedOut,
}

/// One poll of the waiter: deliver the captured credential when one is
/// present; otherwise fail once the deadline has passed, else keep waiting.
pub fn waiter_step(elapsed_ms: u64, config: &FlowConfig, state: &CaptureState) -> (r: WaiterStep)
    requires
        state.wf(),
    ensures
        match r {
            WaiterStep::Deliver(v) => state@ == Some(v@),
            WaiterStep::KeepWaiting => state@ is None && elapsed_ms < config.timeout_ms,
            WaiterStep::TimedOut => state@ is None && elapsed_ms >= config.timeout_ms,
        },
{
    match state.credential() {
        Some(v) => {
            proof {
                lemma_deep_bytes(v);
            }
            WaiterStep::Deliver(v)
        },
        None => {
            if elapsed_ms >= config.timeout_ms {
                WaiterStep::TimedOut
            } else {
                WaiterStep::KeepWaiting
            }
        },
    }
}

/// The text that a credential's bytes decode to.
pub uninterp spec fn utf8_lossy_of(b: Seq<u8>) -> Seq<char>;

/// Relies on String::from_utf8_lossy: the result is a function of the bytes
/// alone, and empty input gives the empty string.
#[verifier::external_body]
fn utf8_lossy(b: &Vec<u8>) -> (r: String)
    ensures
        r@ == utf8_lossy_of(b@),
        b@.len() == 0 ==> r@.len() == 0,
{
    String::from_utf8_lossy(b).into_owned()
}

/// The captured credential as text, for the caller: the credential's bytes
/// decoded as UTF-8, with any invalid sequences replaced.
pub fn credential_text(credential: &Vec<u8>) -> (r: String)
    ensures
        r@ == utf8_lossy_of(credential@),
        credential@.len() == 0 ==> r@.len() == 0,
{
    utf8_lossy(credential)
}

} // verus!
