use aqevia::http::{json_escape_str, parse_request_path, render_response, HttpStatus};
use aqevia::observability::{
    accept_step, handle_request, render_status_body, route, AcceptAction, AcceptEvent,
    ObservabilityState,
};
use aqevia::text::{str_eq, u64_to_dec};

fn state() -> ObservabilityState {
    ObservabilityState::new(
        "0.2.0".to_string(),
        "world".to_string(),
        "sqlite".to_string(),
    )
}

#[test]
fn decimal_rendering_is_exact() {
    assert_eq!(u64_to_dec(0), "0");
    assert_eq!(u64_to_dec(7), "7");
    assert_eq!(u64_to_dec(10), "10");
    assert_eq!(u64_to_dec(120345), "120345");
    assert_eq!(u64_to_dec(u64::MAX), "18446744073709551615");
}

#[test]
fn string_comparison_is_exact() {
    assert!(str_eq("/ready", "/ready"));
    assert!(!str_eq("/ready", "/read"));
    assert!(!str_eq("/ready", "/ready2"));
    assert!(str_eq("", ""));
}

#[test]
fn json_escaping_matches_the_standard_forms() {
    assert_eq!(json_escape_str("plain"), "plain");
    assert_eq!(json_escape_str("a\"b"), "a\\\"b");
    assert_eq!(json_escape_str("a\\b"), "a\\\\b");
    assert_eq!(json_escape_str("line\nbreak"), "line\\nbreak");
    assert_eq!(json_escape_str("tab\there"), "tab\\there");
    assert_eq!(json_escape_str("cr\rhere"), "cr\\rhere");
    assert_eq!(json_escape_str("\u{8}\u{c}"), "\\b\\f");
    assert_eq!(json_escape_str("\u{1}\u{1f}"), "\\u0001\\u001f");
    assert_eq!(json_escape_str("ünïcode"), "ünïcode");
}

#[test]
fn request_path_is_the_second_token() {
    assert_eq!(parse_request_path("GET /status HTTP/1.1"), "/status");
    assert_eq!(parse_request_path("GET /health HTTP/1.1\r\n"), "/health");
    assert_eq!(parse_request_path("  GET   /x  "), "/x");
    assert_eq!(parse_request_path("GET"), "/");
    assert_eq!(parse_request_path(""), "/");
}

#[test]
fn responses_carry_exact_headers_and_length() {
    let resp = render_response(HttpStatus::Success, "{\"status\":\"ok\"}");
    assert_eq!(
        resp,
        "HTTP/1.1 200 OK\r\nContent-Type: application/json\r\nCache-Control: \
         no-store\r\nContent-Length: 15\r\n\r\n{\"status\":\"ok\"}"
    );
    let unavailable = render_response(HttpStatus::ServiceUnavailable, "{\"status\":\"initializing\"}");
    assert!(unavailable.starts_with("HTTP/1.1 503 Service Unavailable\r\n"));
    assert!(unavailable.contains("Content-Length: 25\r\n"));
    let missing = render_response(HttpStatus::NotFound, "{\"status\":\"missing\"}");
    assert!(missing.starts_with("HTTP/1.1 404 Not Found\r\n"));
}

#[test]
fn readiness_transitions_drive_ready_route() {
    let mut st = state();
    let snap = st.snapshot();
    let ready = handle_request("GET /ready HTTP/1.1", &snap);
    assert!(ready.contains("503 Service Unavailable"));
    assert!(ready.contains("{\"status\":\"initializing\"}"));
    let health = handle_request("GET /health HTTP/1.1", &snap);
    assert!(health.contains("200 OK"));
    assert!(health.contains("{\"status\":\"ok\"}"));

    st.mark_storage_ready(true);
    let snap = st.snapshot();
    let ready_ok = handle_request("GET /ready HTTP/1.1", &snap);
    assert!(ready_ok.contains("200 OK"));
    assert!(ready_ok.contains("{\"status\":\"ready\"}"));
    let health_again = handle_request("GET /health HTTP/1.1", &snap);
    assert!(health_again.contains("200 OK"));
}

#[test]
fn unknown_paths_are_missing() {
    let st = state();
    let snap = st.snapshot();
    let (status, body) = route("/nowhere", &snap);
    assert_eq!(status, HttpStatus::NotFound);
    assert_eq!(body, "{\"status\":\"missing\"}");
    let resp = handle_request("GET /nowhere HTTP/1.1", &snap);
    assert!(resp.contains("404 Not Found"));
}

#[test]
fn status_body_reflects_flush_then_error() {
    let mut st = state();
    st.mark_storage_ready(true);
    st.note_flush(3, Some(1700000000));
    let body = render_status_body(&st.snapshot());
    let parsed: serde_json::Value = serde_json::from_str(body.as_str()).unwrap();
    assert_eq!(parsed["version"], "0.2.0");
    assert_eq!(parsed["world_id"], "world");
    assert_eq!(parsed["storage_backend"], "sqlite");
    assert_eq!(parsed["storage_ready"], true);
    assert_eq!(parsed["flush_count"], 3);
    assert_eq!(parsed["last_flush_at"], 1700000000u64);
    assert!(parsed["storage_error"].is_null());

    st.note_error("x".to_string());
    let body = render_status_body(&st.snapshot());
    let parsed: serde_json::Value = serde_json::from_str(body.as_str()).unwrap();
    assert_eq!(parsed["storage_ready"], false);
    assert_eq!(parsed["storage_error"], "x");
    assert_eq!(parsed["flush_count"], 3);
}

#[test]
fn status_route_serves_the_snapshot_body() {
    let mut st = state();
    st.mark_storage_ready(true);
    let snap = st.snapshot();
    let resp = handle_request("GET /status HTTP/1.1", &snap);
    assert!(resp.contains("200 OK"));
    assert!(resp.contains("\"version\":\"0.2.0\""));
}

#[test]
fn note_flush_keeps_last_flush_when_none_is_given() {
    let mut st = state();
    st.note_flush(1, Some(50));
    st.note_flush(2, None);
    let snap = st.snapshot();
    assert_eq!(snap.flush_count, 2);
    assert_eq!(snap.last_flush_at, Some(50));
}

#[test]
fn error_and_readiness_exclude_each_other() {
    let mut st = state();
    st.note_error("disk gone".to_string());
    assert!(!st.storage_ready());
    let snap = st.snapshot();
    assert_eq!(snap.storage_error.as_deref(), Some("disk gone"));
    assert!(!snap.storage_ready);
    st.mark_storage_ready(true);
    let snap = st.snapshot();
    assert!(snap.storage_ready);
    assert!(snap.storage_error.is_none());
}

#[test]
fn state_getters_serve_identity() {
    let st = state();
    assert_eq!(st.version(), "0.2.0");
    assert_eq!(st.world_id(), "world");
    assert_eq!(st.storage_backend(), "sqlite");
}

#[test]
fn escaped_error_message_survives_a_json_round_trip() {
    let mut st = state();
    st.note_error("quote \" backslash \\ newline \n".to_string());
    let body = render_status_body(&st.snapshot());
    let parsed: serde_json::Value = serde_json::from_str(body.as_str()).unwrap();
    assert_eq!(parsed["storage_error"], "quote \" backslash \\ newline \n");
}

#[test]
fn accept_loop_steps_follow_flag_and_poll_outcome() {
    assert_eq!(accept_step(true, AcceptEvent::Accepted), AcceptAction::Stop);
    assert_eq!(accept_step(true, AcceptEvent::NoneReady), AcceptAction::Stop);
    assert_eq!(accept_step(true, AcceptEvent::Failed), AcceptAction::Stop);
    assert_eq!(accept_step(false, AcceptEvent::Accepted), AcceptAction::Serve);
    assert_eq!(accept_step(false, AcceptEvent::NoneReady), AcceptAction::Pause);
    assert_eq!(accept_step(false, AcceptEvent::Failed), AcceptAction::Stop);
}
