//! Tests of the capture record, the request handler, and the flow decisions:
//! at-most-once capture, the dispatch policy, timeouts, bind failures, and
//! the reset between flows.

use oauth_capture::flow::{
    bind_outcome, credential_text, listener_event_action, listener_should_poll, waiter_step,
    AuthError, FlowConfig, ListenerAction, ListenerEvent, WaiterStep,
};
use oauth_capture::handler::{
    process_request, CallbackRequest, ContentType, HttpMethod, BAD_REQUEST_BODY, SUCCESS_PAGE,
};
use oauth_capture::state::CaptureState;
use oauth_capture::{get_free_port, AUTH_CALLBACK_PORT};

fn get(target: &str) -> CallbackRequest {
    CallbackRequest {
        method: HttpMethod::Get,
        target: target.as_bytes().to_vec(),
        headers: Vec::new(),
    }
}

fn icon() -> Vec<u8> {
    vec![137, 80, 78, 71]
}

#[test]
fn free_port_is_the_fixed_port() {
    assert_eq!(get_free_port(), 43123);
    assert_eq!(get_free_port(), AUTH_CALLBACK_PORT);
}

#[test]
fn config_ignores_requested_port_and_scales_timeout() {
    let config = FlowConfig::new(9999, 5);
    assert_eq!(config.port, AUTH_CALLBACK_PORT);
    assert_eq!(config.timeout_ms, 5000);
    let saturated = FlowConfig::new(0, u64::MAX);
    assert_eq!(saturated.timeout_ms, u64::MAX);
}

#[test]
fn first_capture_wins_across_requests() {
    // A sequence of requests carrying different tokens: the value, once
    // set, never changes.
    let mut state = CaptureState::new();
    let icon_bytes = icon();
    process_request(&get("/auth-callback?access_token=first"), &mut state, &icon_bytes);
    process_request(&get("/auth-callback?access_token=second"), &mut state, &icon_bytes);
    process_request(&get("/auth-callback?code=third"), &mut state, &icon_bytes);
    assert_eq!(state.credential(), Some(b"first".to_vec()));
}

#[test]
fn callback_route_always_serves_the_page() {
    let mut state = CaptureState::new();
    let with_token = process_request(&get("/auth-callback?access_token=t"), &mut state, &icon());
    assert_eq!(with_token.status, 200);
    assert_eq!(with_token.content_type, ContentType::TextHtml);
    assert_eq!(with_token.body, SUCCESS_PAGE.as_bytes().to_vec());
    let without_token = process_request(&get("/auth-callback?state=x"), &mut state, &icon());
    assert_eq!(without_token.status, 200);
    assert_eq!(without_token.content_type, ContentType::TextHtml);
    assert_eq!(without_token.body, SUCCESS_PAGE.as_bytes().to_vec());
}

#[test]
fn icon_route_serves_icon_bytes() {
    let mut state = CaptureState::new();
    let r = process_request(&get("/icon.png"), &mut state, &icon());
    assert_eq!(r.status, 200);
    assert_eq!(r.content_type, ContentType::ImagePng);
    assert_eq!(r.body, icon());
    assert!(!state.is_captured());
}

#[test]
fn unknown_route_is_rejected() {
    let mut state = CaptureState::new();
    let r = process_request(&get("/somewhere-else"), &mut state, &icon());
    assert_eq!(r.status, 400);
    assert_eq!(r.content_type, ContentType::TextPlain);
    assert_eq!(r.body, BAD_REQUEST_BODY.as_bytes().to_vec());
    assert!(!state.is_captured());
}

#[test]
fn non_get_callback_is_rejected_and_captures_nothing() {
    let mut state = CaptureState::new();
    let req = CallbackRequest {
        method: HttpMethod::Other,
        target: b"/auth-callback?access_token=t".to_vec(),
        headers: Vec::new(),
    };
    let r = process_request(&req, &mut state, &icon());
    assert_eq!(r.status, 400);
    assert!(!state.is_captured());
}

#[test]
fn waiter_times_out_when_nothing_was_extractable() {
    // Requests with nothing extractable arrive; the deadline passes; the
    // waiter reports the timeout.
    let config = FlowConfig::new(0, 5);
    let mut state = CaptureState::new();
    process_request(&get("/auth-callback?state=a"), &mut state, &icon());
    process_request(&get("/other"), &mut state, &icon());
    assert!(matches!(waiter_step(4999, &config, &state), WaiterStep::KeepWaiting));
    assert!(matches!(waiter_step(5000, &config, &state), WaiterStep::TimedOut));
    assert!(!listener_should_poll(5000, &config, &state));
}

#[test]
fn bind_failure_is_immediate() {
    assert_eq!(bind_outcome(false), Err(AuthError::Bind));
    assert_eq!(bind_outcome(true), Ok(()));
}

#[test]
fn reset_starts_the_next_flow_empty() {
    // A completed flow leaves a value behind; the next flow must not see it.
    let mut state = CaptureState::new();
    process_request(&get("/auth-callback?access_token=old"), &mut state, &icon());
    assert_eq!(state.credential(), Some(b"old".to_vec()));
    state.reset();
    assert!(!state.is_captured());
    assert_eq!(state.credential(), None);
    process_request(&get("/auth-callback?access_token=new"), &mut state, &icon());
    assert_eq!(state.credential(), Some(b"new".to_vec()));
}

#[test]
fn listener_poll_guard() {
    let config = FlowConfig::new(0, 10);
    let mut state = CaptureState::new();
    assert!(listener_should_poll(0, &config, &state));
    assert!(listener_should_poll(9999, &config, &state));
    assert!(!listener_should_poll(10000, &config, &state));
    process_request(&get("/auth-callback?access_token=t"), &mut state, &icon());
    assert!(!listener_should_poll(0, &config, &state));
}

#[test]
fn listener_actions_follow_events() {
    assert_eq!(listener_event_action(ListenerEvent::Arrived), ListenerAction::Respond);
    assert_eq!(listener_event_action(ListenerEvent::Idle), ListenerAction::Pause);
    assert_eq!(listener_event_action(ListenerEvent::Failed), ListenerAction::Stop);
}

#[test]
fn credential_text_decodes_utf8() {
    assert_eq!(credential_text(&b"tok123".to_vec()), "tok123");
    // A two-byte UTF-8 sequence decodes to one character, so the conversion
    // is not a byte-for-byte copy.
    assert_eq!(credential_text(&vec![0xC3, 0xA9]), "\u{e9}");
    assert_eq!(credential_text(&vec![0xFF]), "\u{fffd}");
    assert_eq!(credential_text(&Vec::new()), "");
}

#[test]
fn error_messages_name_the_failure() {
    assert!(AuthError::Timeout.message().contains("imeout"));
    assert!(AuthError::Bind.message().contains("bind"));
}

#[test]
fn end_to_end_callback_resolves_with_token() {
    // A flow with a five-second deadline receives the provider's redirect
    // carrying `?access_token=tok123`: the browser gets the page and the
    // waiter resolves with the token at its next poll.
    let config = FlowConfig::new(get_free_port(), 5);
    let mut state = CaptureState::new();
    state.reset();
    assert_eq!(bind_outcome(true), Ok(()));
    let response = process_request(&get("/auth-callback?access_token=tok123"), &mut state, &icon());
    assert_eq!(response.status, 200);
    assert_eq!(response.content_type, ContentType::TextHtml);
    match waiter_step(100, &config, &state) {
        WaiterStep::Deliver(v) => assert_eq!(credential_text(&v), "tok123"),
        _ => panic!("expected the credential to be delivered"),
    }
}
