use manti::error::MantiError;
use manti::models::chat::{ChatCompletionRequest, ChatMessage, MessageContent, Tool, ToolFunction};
use manti::providers::anthropic::{
    convert_from_anthropic_response_at, convert_to_anthropic_format, process_stream_event_at,
    AnthropicReplyFields, AnthropicStreamDecoder, StreamState, UpstreamBlockStart, UpstreamDelta,
    UpstreamEvent, UpstreamUsage,
};
use manti::providers::openai::openai_request_body;
use manti::providers::sse::{decode_utf8_lossy, split_lines, trim_str, AnthropicSseDecoder, OpenAiSseDecoder};
use manti::providers::{base_url_or, provider_type_from_name, supports_model, ProviderConfig, ProviderFactory, ProviderKind, ProviderType};

fn start(id: &str, model: &str, input: Option<i64>) -> UpstreamEvent {
    UpstreamEvent::MessageStart {
        id: id.to_string(),
        model: model.to_string(),
        role: Some("assistant".to_string()),
        usage: Some(UpstreamUsage { input_tokens: input, output_tokens: None }),
    }
}

#[test]
fn anthropic_sse_split_anywhere_gives_same_payloads() {
    let text = "event: message_start\ndata: {\"a\":1}\n\nevent: ping\ndata: {\"b\":2}\r\n\n";
    let mut whole = AnthropicSseDecoder::new();
    let all = whole.push_text(text);
    // the last line of an event keeps a carriage return: `str::lines` drops
    // one only before a line feed
    assert_eq!(all, vec!["{\"a\":1}".to_string(), "{\"b\":2}\r".to_string()]);
    assert_eq!(whole.buffer, "");
    for cut in 0..text.len() {
        if !text.is_char_boundary(cut) {
            continue;
        }
        let mut d = AnthropicSseDecoder::new();
        let mut got = d.push_text(&text[..cut]);
        got.extend(d.push_text(&text[cut..]));
        assert_eq!(got, all, "cut at {}", cut);
        assert_eq!(d.buffer, whole.buffer);
    }
}

#[test]
fn anthropic_sse_keeps_incomplete_event() {
    let mut d = AnthropicSseDecoder::new();
    assert!(d.push_text("data: {\"x\":1}\n").is_empty());
    assert_eq!(d.buffer, "data: {\"x\":1}\n");
    assert_eq!(d.push_text("\n"), vec!["{\"x\":1}".to_string()]);
    assert_eq!(d.buffer, "");
}

#[test]
fn openai_sse_split_anywhere_gives_same_payloads() {
    let text = "data: {\"id\":\"1\"}\n\n: comment\ndata: {\"id\":\"2\"}\r\ndata: [DONE]\n";
    let mut whole = OpenAiSseDecoder::new();
    let all = whole.push_text(text);
    assert_eq!(all, vec!["{\"id\":\"1\"}".to_string(), "{\"id\":\"2\"}".to_string()]);
    for cut in 0..text.len() {
        let mut d = OpenAiSseDecoder::new();
        let mut got = d.push_text(&text[..cut]);
        got.extend(d.push_text(&text[cut..]));
        assert_eq!(got, all, "cut at {}", cut);
        assert_eq!(d.buffer, whole.buffer);
    }
}

#[test]
fn openai_sse_finish_reads_unterminated_line() {
    let mut d = OpenAiSseDecoder::new();
    assert!(d.push_text("  data: {\"id\":\"3\"}  ").is_empty());
    assert_eq!(d.finish(), vec!["{\"id\":\"3\"}".to_string()]);
    let mut e = OpenAiSseDecoder::new();
    e.push_text("data: [DONE]");
    assert!(e.finish().is_empty());
}

#[test]
fn trim_and_lines_follow_std() {
    assert_eq!(trim_str("\u{3000} a b \t\n"), "a b");
    assert_eq!(trim_str("   "), "");
    assert_eq!(split_lines("a\r\nb\n\nc"), vec!["a", "b", "", "c"]);
    assert_eq!(split_lines("a\n"), vec!["a"]);
    assert_eq!(split_lines("x\r"), vec!["x\r"]);
    assert!(split_lines("").is_empty());
}

#[test]
fn lossy_decoding_replaces_invalid_bytes() {
    assert_eq!(decode_utf8_lossy(&[b'o', b'k', 0xff]), "ok\u{fffd}");
}

#[test]
fn message_start_opens_stream_once() {
    let mut dec = AnthropicStreamDecoder::new();
    let first = dec.handle_event_at(start("msg_1", "sonnet-3", Some(12)), 100).unwrap().unwrap();
    assert_eq!(first.id, "msg_1");
    assert_eq!(first.model, "sonnet-3");
    assert_eq!(first.created, 100);
    assert_eq!(first.object, "chat.completion.chunk");
    assert_eq!(first.choices[0].delta.role.as_deref(), Some("assistant"));
    assert!(!dec.first_chunk);
    assert_eq!(dec.state.input_tokens, 12);
    assert!(dec.handle_event_at(start("msg_2", "sonnet-3", None), 101).is_none());
    assert_eq!(dec.state.message_id, "msg_2");
    assert_eq!(dec.state.input_tokens, 0);
}

#[test]
fn deltas_become_content_and_tool_chunks() {
    let mut st = StreamState::default();
    st.message_id = "m".to_string();
    let text = UpstreamEvent::ContentBlockDelta { index: 0, delta: UpstreamDelta::TextDelta { text: "Hi".to_string() } };
    let c = process_stream_event_at(text, &mut st, false, 5).unwrap().unwrap();
    assert_eq!(c.choices[0].delta.content.as_deref(), Some("Hi"));
    let tool = UpstreamEvent::ContentBlockStart {
        index: 2,
        content_block: UpstreamBlockStart::ToolUse { id: "t1".to_string(), name: "f".to_string() },
    };
    let c = process_stream_event_at(tool, &mut st, false, 5).unwrap().unwrap();
    let call = &c.choices[0].delta.tool_calls.as_ref().unwrap()[0];
    assert_eq!(call.index, 2);
    assert_eq!(call.id.as_deref(), Some("t1"));
    assert_eq!(call.kind.as_deref(), Some("function"));
    assert_eq!(st.tool_call_index, 2);
    let args = UpstreamEvent::ContentBlockDelta { index: 2, delta: UpstreamDelta::InputJsonDelta { partial_json: "{\"a\"".to_string() } };
    let c = process_stream_event_at(args, &mut st, false, 5).unwrap().unwrap();
    let call = &c.choices[0].delta.tool_calls.as_ref().unwrap()[0];
    assert_eq!(call.function.as_ref().unwrap().arguments.as_deref(), Some("{\"a\""));
    let empty = UpstreamEvent::ContentBlockStart { index: 0, content_block: UpstreamBlockStart::Text { text: String::new() } };
    assert!(process_stream_event_at(empty, &mut st, false, 5).is_none());
    assert!(process_stream_event_at(UpstreamEvent::Ping, &mut st, false, 5).is_none());
    assert!(process_stream_event_at(UpstreamEvent::ContentBlockStop { index: 0 }, &mut st, true, 5).is_none());
}

#[test]
fn stop_reasons_map_to_finish_reasons() {
    for (stop, finish) in [("end_turn", "stop"), ("tool_use", "tool_calls"), ("max_tokens", "length"), ("stop_sequence", "stop"), ("refusal", "refusal")] {
        let mut st = StreamState::default();
        st.input_tokens = 7;
        let ev = UpstreamEvent::MessageDelta {
            stop_reason: Some(stop.to_string()),
            stop_sequence: None,
            usage: Some(UpstreamUsage { input_tokens: None, output_tokens: Some(5) }),
        };
        let c = process_stream_event_at(ev, &mut st, false, 9).unwrap().unwrap();
        assert_eq!(c.choices[0].finish_reason.as_deref(), Some(finish));
        let u = c.usage.unwrap();
        assert_eq!((u.prompt_tokens, u.completion_tokens, u.total_tokens), (7, 5, 12));
    }
}

#[test]
fn upstream_error_becomes_provider_error() {
    let mut st = StreamState::default();
    let ev = UpstreamEvent::Error { kind: "overloaded_error".to_string(), message: "busy".to_string() };
    match process_stream_event_at(ev, &mut st, true, 0) {
        Some(Err(MantiError::Provider(m))) => assert_eq!(m, "Anthropic stream error: overloaded_error - busy"),
        other => panic!("unexpected {:?}", other),
    }
}

fn msg(role: &str, text: &str) -> ChatMessage {
    ChatMessage { role: role.to_string(), content: MessageContent::Text(text.to_string()), name: None, tool_calls: None, tool_call_id: None }
}

fn request(messages: Vec<ChatMessage>) -> ChatCompletionRequest {
    ChatCompletionRequest {
        model: "haiku-3".to_string(),
        messages,
        temperature: Some(0.5f64.to_bits()),
        top_p: None,
        n: None,
        stream: None,
        stop: Some(vec!["END".to_string()]),
        max_tokens: None,
        max_completion_tokens: Some(300),
        presence_penalty: None,
        frequency_penalty: None,
        logit_bias: Some("{\"1\":2}".to_string()),
        user: None,
        seed: None,
        tools: Some(vec![Tool {
            kind: "function".to_string(),
            function: ToolFunction { name: "lookup".to_string(), description: Some("find".to_string()), parameters: Some("{}".to_string()) },
        }]),
        tool_choice: None,
        response_format: None,
    }
}

#[test]
fn anthropic_body_takes_first_system_and_maps_roles() {
    let body = convert_to_anthropic_format(request(vec![
        msg("system", "be brief"),
        msg("user", "hi"),
        msg("system", "ignored"),
        msg("tool", "result"),
        msg("assistant", "hello"),
    ]));
    assert_eq!(body.system.as_deref(), Some("be brief"));
    let roles: Vec<&str> = body.messages.iter().map(|m| m.role.as_str()).collect();
    assert_eq!(roles, vec!["user", "user", "assistant"]);
    assert_eq!(body.max_tokens, 300);
    assert_eq!(body.stop_sequences, Some(vec!["END".to_string()]));
    assert_eq!(body.temperature, Some(0.5f64.to_bits()));
    let tools = body.tools.unwrap();
    assert_eq!(tools[0].name, "lookup");
    assert_eq!(tools[0].input_schema.as_deref(), Some("{}"));
    let mut r = request(vec![msg("user", "x")]);
    r.max_completion_tokens = None;
    assert_eq!(convert_to_anthropic_format(r).max_tokens, 4096);
}

#[test]
fn reply_fields_become_openai_response() {
    let fields = AnthropicReplyFields {
        id: Some("msg_9".to_string()),
        first_text: Some("Hello".to_string()),
        stop_reason: Some("end_turn".to_string()),
        input_tokens: Some(3),
        output_tokens: None,
    };
    let r = convert_from_anthropic_response_at(fields, "sonnet".to_string(), 77);
    assert_eq!(r.id, "msg_9");
    assert_eq!(r.created, 77);
    assert_eq!(r.object, "chat.completion");
    assert_eq!(r.choices[0].finish_reason.as_deref(), Some("end_turn"));
    match &r.choices[0].message.content {
        MessageContent::Text(t) => assert_eq!(t, "Hello"),
        _ => panic!("text expected"),
    }
    assert_eq!((r.usage.prompt_tokens, r.usage.completion_tokens, r.usage.total_tokens), (3, 0, 3));
    let empty = AnthropicReplyFields { id: None, first_text: None, stop_reason: None, input_tokens: None, output_tokens: None };
    let r = convert_from_anthropic_response_at(empty, "m".to_string(), 0);
    assert_eq!(r.id, "");
}

#[test]
fn openai_stream_body_drops_logit_bias() {
    let b = openai_request_body(request(vec![msg("user", "x")]), true);
    assert_eq!(b.stream, Some(true));
    assert!(b.logit_bias.is_none());
    let b = openai_request_body(request(vec![msg("user", "x")]), false);
    assert_eq!(b.stream, Some(false));
    assert_eq!(b.logit_bias.as_deref(), Some("{\"1\":2}"));
}

fn config(t: ProviderType) -> ProviderConfig {
    ProviderConfig { provider_type: t, api_key: "k".to_string(), base_url: None, organization: None, extra_params: vec![] }
}

#[test]
fn factory_builds_only_implemented_providers() {
    assert_eq!(ProviderFactory::create(&config(ProviderType::OpenAI)).unwrap(), ProviderKind::OpenAI);
    assert_eq!(ProviderFactory::create(&config(ProviderType::Anthropic)).unwrap(), ProviderKind::Anthropic);
    match ProviderFactory::create(&config(ProviderType::Google)) {
        Err(MantiError::Provider(m)) => assert_eq!(m, "Provider type Google not implemented"),
        _ => panic!(),
    }
    match ProviderFactory::create(&config(ProviderType::Custom("my\"llm".to_string()))) {
        Err(MantiError::Provider(m)) => assert_eq!(m, "Provider type Custom(\"my\\\"llm\") not implemented"),
        _ => panic!(),
    }
}

#[test]
fn provider_names_and_models() {
    assert!(matches!(provider_type_from_name("openai"), ProviderType::OpenAI));
    assert!(matches!(provider_type_from_name("google"), ProviderType::Google));
    match provider_type_from_name("mistral") {
        ProviderType::Custom(s) => assert_eq!(s, "mistral"),
        _ => panic!(),
    }
    let known = vec!["gpt-4o".to_string()];
    assert!(supports_model(&known, "gpt-", "gpt-4o"));
    assert!(supports_model(&known, "gpt-", "gpt-5"));
    assert!(!supports_model(&known, "gpt-", "sonnet-3"));
    assert_eq!(base_url_or(&None, "https://api.openai.com/v1"), "https://api.openai.com/v1");
    assert_eq!(base_url_or(&Some("http://x".to_string()), "https://api.openai.com/v1"), "http://x");
}

#[test]
fn openai_sse_any_number_of_pieces_gives_same_payloads() {
    let text = "data: {\"id\":\"1\"}\n\ndata: {\"id\":\"2\"}\ndata: {\"id\":\"3\"}";
    let mut whole = OpenAiSseDecoder::new();
    let mut expected = whole.push_text(text);
    expected.extend(whole.finish());
    for a in 0..text.len() {
        for b in a..text.len() {
            let mut d = OpenAiSseDecoder::new();
            let mut got = d.push_text(&text[..a]);
            got.extend(d.push_text(&text[a..b]));
            got.extend(d.push_text(&text[b..]));
            got.extend(d.finish());
            assert_eq!(got, expected, "cuts at {} and {}", a, b);
        }
    }
    assert_eq!(expected.len(), 3);
}

#[test]
fn trimming_agrees_with_std_white_space() {
    for c in (0u32..=0x10FFFF).filter_map(char::from_u32) {
        let s = c.to_string();
        assert_eq!(trim_str(&s).is_empty(), c.is_whitespace(), "U+{:04X}", c as u32);
    }
    assert_eq!(trim_str("\u{3000}x\u{85}"), "x");
    assert_eq!(trim_str("\u{200b}"), "\u{200b}");
}
