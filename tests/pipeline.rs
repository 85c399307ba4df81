use roy::config::{parse_length_spec, Config, LengthSpec};
use roy::responses::responses_complete;
use roy::server_state::{fault_status, Outcome, QuotaAxis, ServerState};

fn config(length: &str, slowdown: &str) -> Config {
    Config {
        response_length: parse_length_spec(length),
        error_code: None,
        error_rate: None,
        rpm: 60,
        tpm: 150000,
        slowdown: parse_length_spec(slowdown),
        request_window_ms: 60_000,
        token_window_ms: 60_000,
    }
}

const CHAT_PROMPT: &str = r#"[{"role":"user","content":"Hello"}]"#;

#[test]
fn test_chat_completions() {
    let mut state = ServerState::new(config("10", "0"));
    let outcome = state.handle_request(CHAT_PROMPT);
    assert_eq!(outcome.status_code(), 200);
}

#[test]
fn test_responses() {
    let mut state = ServerState::new(config("10", "0:100"));
    let slowdown = state.get_slowdown_ms();
    assert!(slowdown <= 100);
    let outcome = state.handle_request("Hello");
    assert_eq!(outcome.status_code(), 200);
    match outcome {
        Outcome::Ready { content, usage, .. } => {
            let r = responses_complete(Some("gpt-4.1".to_string()), None, content, usage);
            assert_eq!(r.model, "gpt-4.1");
            assert!(r.id.starts_with("resp_"));
        }
        _ => panic!("expected content"),
    }
}

#[test]
fn chat_reply_has_requested_length_and_summed_usage() {
    let mut state = ServerState::new(config("10", "0"));
    match state.handle_request(CHAT_PROMPT) {
        Outcome::Ready { content, usage, headers } => {
            assert_eq!(content.len(), 10);
            assert!(usage.prompt_tokens > 0);
            assert!(usage.completion_tokens > 0);
            assert_eq!(usage.total_tokens, usage.prompt_tokens + usage.completion_tokens);
            assert_eq!(headers.limit_requests, 60);
            assert_eq!(headers.remaining_requests, 59);
            assert_eq!(headers.limit_tokens, 150000);
            assert_eq!(headers.remaining_tokens, 150000 - usage.total_tokens as u64);
        }
        other => panic!("unexpected outcome {:?}", other),
    }
}

#[test]
fn configured_fault_always_returned() {
    let mut cfg = config("10", "0");
    cfg.error_code = Some(503);
    cfg.error_rate = Some(100);
    let mut state = ServerState::new(cfg);
    for _ in 0..20 {
        match state.handle_request(CHAT_PROMPT) {
            Outcome::Fault { status, code, .. } => {
                assert_eq!(status, 503);
                assert_eq!(code.to_string(), "503");
            }
            other => panic!("unexpected outcome {:?}", other),
        }
    }
}

#[test]
fn fault_with_invalid_code_is_sent_as_500() {
    assert_eq!(fault_status(503), 503);
    assert_eq!(fault_status(42), 500);
    assert_eq!(fault_status(1000), 500);
    let mut cfg = config("10", "0");
    cfg.error_code = Some(42);
    cfg.error_rate = Some(100);
    let mut state = ServerState::new(cfg);
    let outcome = state.handle_request(CHAT_PROMPT);
    assert_eq!(outcome.status_code(), 500);
}

#[test]
fn zero_length_gives_no_content() {
    let mut state = ServerState::new(config("0", "0"));
    let outcome = state.handle_request(CHAT_PROMPT);
    assert_eq!(outcome.status_code(), 204);
    assert_eq!(outcome.headers().remaining_requests, 59);
}

#[test]
fn request_quota_refuses_after_limit() {
    let mut cfg = config("10", "0");
    cfg.rpm = 2;
    let mut state = ServerState::new(cfg);
    assert_eq!(state.handle_request("hi").status_code(), 200);
    assert_eq!(state.handle_request("hi").status_code(), 200);
    match state.handle_request("hi") {
        Outcome::RateLimited { axis, headers } => {
            assert_eq!(axis, QuotaAxis::Requests);
            assert_eq!(headers.remaining_requests, 0);
        }
        other => panic!("unexpected outcome {:?}", other),
    }
}

#[test]
fn token_quota_refuses_without_counting() {
    let mut cfg = config("10", "0");
    cfg.tpm = 1;
    let mut state = ServerState::new(cfg);
    match state.handle_request(CHAT_PROMPT) {
        Outcome::RateLimited { axis, headers } => {
            assert_eq!(axis, QuotaAxis::Tokens);
            assert_eq!(headers.remaining_tokens, 1);
            assert_eq!(headers.remaining_requests, 59);
        }
        other => panic!("unexpected outcome {:?}", other),
    }
}

#[test]
fn headers_report_fresh_windows() {
    let mut state = ServerState::new(config("10", "0"));
    let h = state.rate_limit_headers_at(5_000);
    assert_eq!(h.limit_requests, 60);
    assert_eq!(h.remaining_requests, 60);
    assert_eq!(h.reset_requests, "1m");
    assert_eq!(h.reset_tokens, "1m");
    let h = state.rate_limit_headers_at(35_500);
    assert_eq!(h.reset_requests, "29s");
    let h = state.get_rate_limit_headers();
    assert_eq!(h.limit_tokens, 150000);
}

#[test]
fn headers_with_zero_window_reset_now() {
    let mut cfg = config("10", "0");
    cfg.request_window_ms = 0;
    let mut state = ServerState::new(cfg);
    let h = state.rate_limit_headers_at(1_000);
    assert_eq!(h.reset_requests, "0s");
}

#[test]
fn counting_methods_spend_budget() {
    let mut state = ServerState::new(config("10", "0"));
    state.increment_request_count();
    state.add_token_usage(100);
    let h = state.get_rate_limit_headers();
    assert_eq!(h.remaining_requests, 59);
    assert_eq!(h.remaining_tokens, 149900);
}

#[test]
fn state_helpers_follow_config() {
    let mut cfg = config("3:7", "5");
    cfg.error_code = Some(500);
    cfg.error_rate = Some(0);
    let state = ServerState::new(cfg);
    for _ in 0..50 {
        let n = state.get_response_length();
        assert!((3..=7).contains(&n));
        assert_eq!(state.should_return_error(), None);
    }
    assert_eq!(state.get_slowdown_ms(), 5);
    assert_eq!(state.generate_lorem_content(12).len(), 12);
    assert_eq!(state.count_tokens("").unwrap(), 0);
    assert_eq!(cfg.slowdown, Some(LengthSpec::Fixed(5)));
}
