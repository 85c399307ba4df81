use roy::chat_completions::{chat_completion, chat_completion_stream, chat_stream_events, split_words, ChatStreamEvent, Usage};
use roy::config::{fault_decision, parse_decimal, parse_length_spec, resolve_optional, LengthSpec};
use roy::content::{count_tokens, generate_filler, tokens_or_zero};
use roy::quota::QuotaWindow;
use roy::responses::{responses_stream, Phase, ResponsesEvent, MOCK_REASONING_TOKENS};

#[test]
fn filler_has_exact_length() {
    assert_eq!(generate_filler(0), "");
    for len in [1usize, 4, 5, 7, 11, 50, 250, 1000, 5000] {
        let t = generate_filler(len);
        assert_eq!(t.len(), len);
        assert!(t.is_ascii());
    }
    assert_eq!(generate_filler(11), "Lorem ipsum");
}

#[test]
fn length_resolver_stays_in_range() {
    for _ in 0..200 {
        let n = resolve_optional(Some(LengthSpec::Range(3, 7)));
        assert!((3..=7).contains(&n));
    }
    assert_eq!(resolve_optional(Some(LengthSpec::Range(5, 5))), 5);
    let draws: Vec<usize> = (0..200).map(|_| resolve_optional(Some(LengthSpec::Range(0, 1)))).collect();
    assert!(draws.contains(&0) && draws.contains(&1));
    assert_eq!(resolve_optional(Some(LengthSpec::Fixed(9))), 9);
    assert_eq!(resolve_optional(None), 0);
}

#[test]
fn length_settings_parse() {
    assert_eq!(parse_length_spec("10"), Some(LengthSpec::Fixed(10)));
    assert_eq!(parse_length_spec("10:100"), Some(LengthSpec::Range(10, 100)));
    assert_eq!(parse_length_spec("abc"), Some(LengthSpec::Fixed(0)));
    assert_eq!(parse_length_spec("5:"), Some(LengthSpec::Range(5, 100)));
    assert_eq!(parse_length_spec(":"), Some(LengthSpec::Range(0, 100)));
    assert_eq!(parse_length_spec("200:100"), None);
    assert_eq!(parse_length_spec("1:2:3"), Some(LengthSpec::Range(1, 100)));
}

#[test]
fn decimals_parse() {
    assert_eq!(parse_decimal("123"), Some(123));
    assert_eq!(parse_decimal("007"), Some(7));
    assert_eq!(parse_decimal(""), None);
    assert_eq!(parse_decimal("12a"), None);
    assert_eq!(parse_decimal("-1"), None);
    assert_eq!(parse_decimal("99999999999999999999999"), None);
}

#[test]
fn quota_exhausts_then_resets() {
    let mut w = QuotaWindow::new(3, 60_000);
    for i in 0..3u64 {
        let d = w.check_and_count(1_000 + i, 1);
        assert!(d.allowed);
        assert_eq!(d.remaining, 2 - i);
    }
    let d = w.check_and_count(2_000, 1);
    assert!(!d.allowed);
    assert_eq!(d.remaining, 0);
    assert_eq!(d.reset_in_secs, 59);
    assert_eq!(w.count, 3);
    let d = w.check_and_count(61_000, 1);
    assert!(d.allowed);
    assert_eq!(w.count, 1);
    assert_eq!(w.reset_at, 121_000);
}

#[test]
fn window_ahead_of_a_set_back_clock_restarts() {
    let mut w = QuotaWindow::new(5, 60_000);
    assert!(w.check_and_count(1_000_000, 3).allowed);
    assert_eq!(w.reset_at, 1_060_000);
    let d = w.check_and_count(500_000, 1);
    assert!(d.allowed);
    assert_eq!(w.count, 1);
    assert_eq!(w.reset_at, 560_000);
    assert_eq!(d.reset_in_secs, 60);
}

#[test]
fn refused_amount_is_not_counted() {
    let mut w = QuotaWindow::new(10, 1_000);
    assert!(w.check_and_count(0, 7).allowed);
    let d = w.check_and_count(10, 4);
    assert!(!d.allowed);
    assert_eq!(d.remaining, 3);
    assert_eq!(w.count, 7);
    assert!(!w.would_allow(20, 4));
    assert!(w.would_allow(20, 3));
    assert_eq!(w.remaining(), 3);
}

#[test]
fn fault_decisions() {
    for draw in 0..100u32 {
        assert_eq!(fault_decision(Some(503), Some(100), draw), Some(503));
        assert_eq!(fault_decision(Some(503), Some(0), draw), None);
        assert_eq!(fault_decision(None, Some(100), draw), None);
        assert_eq!(fault_decision(Some(503), None, draw), None);
    }
    assert_eq!(fault_decision(Some(429), Some(30), 29), Some(429));
    assert_eq!(fault_decision(Some(429), Some(30), 30), None);
}

#[test]
fn token_counts() {
    assert_eq!(count_tokens(""), Ok(0));
    assert_eq!(count_tokens("Hello world"), count_tokens("Hello world"));
    assert_eq!(count_tokens("Hello world").unwrap(), 2);
    assert_eq!(tokens_or_zero(count_tokens("Hello world")), 2);
}

#[test]
fn usage_total_saturates() {
    let u = Usage::new(3, 4);
    assert_eq!(u.total_tokens, 7);
    let u = Usage::new(u32::MAX, 4);
    assert_eq!(u.total_tokens, u32::MAX);
}

#[test]
fn words_split_on_whitespace() {
    assert_eq!(split_words("  a\tb\n c  "), vec!["a", "b", "c"]);
    assert!(split_words("").is_empty());
    assert!(split_words(" \n ").is_empty());
    assert_eq!(split_words("Lorem ipsum."), vec!["Lorem", "ipsum."]);
    assert_eq!(split_words("a\u{a0}b\u{3000}c\u{0B}d"), vec!["a", "b", "c", "d"]);
    assert_eq!(split_words("x\u{2003}y"), "x\u{2003}y".split_whitespace().collect::<Vec<_>>());
}

#[test]
fn chat_stream_for_three_words() {
    let usage = Usage::new(1, 2);
    let events = chat_stream_events("id-1", 7, "m", "a b c", usage);
    assert_eq!(events.len(), 6);
    match &events[0] {
        ChatStreamEvent::Chunk(c) => {
            assert_eq!(c.choices[0].delta.role.as_deref(), Some("assistant"));
            assert_eq!(c.choices[0].delta.content, None);
            assert_eq!(c.object, "chat.completion.chunk");
            assert_eq!(c.id, "id-1");
            assert_eq!(c.created, 7);
        }
        ChatStreamEvent::Done => panic!("role chunk expected"),
    }
    for (i, w) in ["a ", "b ", "c "].iter().enumerate() {
        match &events[i + 1] {
            ChatStreamEvent::Chunk(c) => {
                assert_eq!(c.choices[0].delta.content.as_deref(), Some(*w));
                assert_eq!(c.choices[0].delta.role, None);
                assert_eq!(c.usage, None);
            }
            ChatStreamEvent::Done => panic!("content chunk expected"),
        }
    }
    match &events[4] {
        ChatStreamEvent::Chunk(c) => {
            assert_eq!(c.choices[0].finish_reason.as_deref(), Some("stop"));
            assert_eq!(c.choices[0].delta.content, None);
            assert_eq!(c.usage, Some(usage));
        }
        ChatStreamEvent::Done => panic!("finish chunk expected"),
    }
    assert!(matches!(events[5], ChatStreamEvent::Done));
}

#[test]
fn chat_replies_name_model_and_id() {
    let usage = Usage::new(1, 2);
    let r = chat_completion(None, "hi".to_string(), usage);
    assert!(r.id.starts_with("chatcmpl-") && r.id.len() > 9);
    assert_eq!(r.model, "gpt-3.5-turbo");
    assert_eq!(r.choices[0].message.content, "hi");
    assert_eq!(r.choices[0].finish_reason, "stop");
    let events = chat_completion_stream(Some("x".to_string()), "hi there", usage);
    assert_eq!(events.len(), 5);
}

fn collect(content: &str) -> Vec<ResponsesEvent> {
    let mut s = responses_stream(None, Some("be brief".to_string()), content.to_string(), Usage::new(4, 6));
    s.collect_events()
}

#[test]
fn responses_stream_sequence() {
    let events = collect("Hello world!");
    assert_eq!(events.len(), 14);
    let names: Vec<&str> = events.iter().map(|e| e.event_name()).collect();
    assert_eq!(
        names,
        vec![
            "response.created",
            "response.in_progress",
            "response.output_item.added",
            "response.output_item.done",
            "response.output_item.added",
            "response.content_part.added",
            "response.output_text.delta",
            "response.output_text.delta",
            "response.output_text.delta",
            "response.output_text.done",
            "response.content_part.done",
            "response.output_item.done",
            "response.completed",
            "",
        ]
    );
    let mut deltas = Vec::new();
    for (i, e) in events.iter().enumerate() {
        let (seq, usage) = match e {
            ResponsesEvent::Created { sequence_number, response } => (Some(*sequence_number), response.usage),
            ResponsesEvent::InProgress { sequence_number, response } => (Some(*sequence_number), response.usage),
            ResponsesEvent::Completed { sequence_number, response } => (Some(*sequence_number), response.usage),
            ResponsesEvent::OutputItemAdded { sequence_number, .. } => (Some(*sequence_number), None),
            ResponsesEvent::OutputItemDone { sequence_number, .. } => (Some(*sequence_number), None),
            ResponsesEvent::ContentPartAdded { sequence_number, .. } => (Some(*sequence_number), None),
            ResponsesEvent::TextDelta { sequence_number, delta, obfuscation, .. } => {
                assert_eq!(obfuscation.len(), 10);
                assert!(obfuscation.chars().all(|c| c.is_ascii_alphanumeric()));
                deltas.push(delta.clone());
                (Some(*sequence_number), None)
            }
            ResponsesEvent::TextDone { sequence_number, text, .. } => {
                assert_eq!(text, "Hello world!");
                (Some(*sequence_number), None)
            }
            ResponsesEvent::ContentPartDone { sequence_number, .. } => (Some(*sequence_number), None),
            ResponsesEvent::Done => (None, None),
        };
        if i + 1 < events.len() {
            assert_eq!(seq, Some(i as u64));
        } else {
            assert_eq!(seq, None);
        }
        assert_eq!(usage.is_some(), i == 12);
    }
    assert_eq!(deltas, vec!["Hello", " worl", "d!"]);
    match &events[12] {
        ResponsesEvent::Completed { response, .. } => {
            let u = response.usage.unwrap();
            assert_eq!(u.input_tokens, 4);
            assert_eq!(u.output_tokens, 6 + MOCK_REASONING_TOKENS);
            assert_eq!(u.total_tokens, 10 + MOCK_REASONING_TOKENS);
            assert_eq!(u.reasoning_tokens, 128);
            assert_eq!(response.output.len(), 2);
            assert_eq!(response.instructions.as_deref(), Some("be brief"));
            assert_eq!(response.model, "gpt-5-2025-08-07");
        }
        _ => panic!("completion expected"),
    }
}

#[test]
fn responses_stream_without_content_has_no_deltas() {
    let events = collect("");
    assert_eq!(events.len(), 11);
    assert!(events.iter().all(|e| !matches!(e, ResponsesEvent::TextDelta { .. })));
    assert!(matches!(events[10], ResponsesEvent::Done));
}

#[test]
fn responses_stream_stops_after_sentinel() {
    let mut s = responses_stream(None, None, "abc".to_string(), Usage::new(1, 1));
    let mut n = 0;
    while let Some(_) = s.next_event() {
        n += 1;
    }
    assert_eq!(n, 12);
    assert_eq!(s.phase, Phase::Finished);
    assert!(s.next_event().is_none());
}
