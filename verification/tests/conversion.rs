use manti::models::anthropic::{
    AnthropicContent, AnthropicMessage, AnthropicRequest, AnthropicResponse, AnthropicStreamEvent,
    AnthropicTool, AnthropicToolChoice, AnthropicUsage, ContentBlock, ContentBlockStartData, ImageSource,
    Metadata, StreamDelta, SystemBlock, SystemContent, ToolChoiceSpecific, ToolResultContent,
};
use manti::models::chat::{
    ChatChoice, ChatCompletionRequest, ChatCompletionResponse, ChatMessage, ContentPart, ImageUrl,
    MessageContent, ToolCall, ToolCallFunction, ToolChoice, Usage,
};
use manti::models::conversion::{
    anthropic_response_from_openai, anthropic_to_openai, openai_chunk_to_anthropic_events,
    openai_response_from_anthropic_at, openai_to_anthropic, StreamConversionState,
};
use manti::models::streaming::{ChatCompletionChunk, ChunkChoice, Delta};
use manti::providers::non_streaming_openai_request;
use manti::usage::aggregator::StreamUsageAggregator;

fn text_block(t: &str) -> ContentBlock {
    ContentBlock::Text { text: t.to_string(), cache_control: None, citations: None }
}

fn a_request(messages: Vec<AnthropicMessage>) -> AnthropicRequest {
    AnthropicRequest {
        model: "m".to_string(),
        max_tokens: 256,
        messages,
        system: Some(SystemContent::Blocks(vec![
            SystemBlock { text: "one".to_string(), cache_control: None },
            SystemBlock { text: "two".to_string(), cache_control: None },
        ])),
        temperature: None,
        top_p: None,
        top_k: None,
        stop_sequences: None,
        stream: Some(true),
        metadata: Some(Metadata { user_id: Some("u-1".to_string()) }),
        service_tier: None,
        thinking: None,
        output_config: None,
        tools: Some(vec![
            AnthropicTool::ClientTool { name: "f".to_string(), description: "d".to_string(), input_schema: "{}".to_string() },
            AnthropicTool::ServerTool("{\"type\":\"web_search\"}".to_string()),
        ]),
        tool_choice: Some(AnthropicToolChoice::Specific(ToolChoiceSpecific {
            kind: "tool".to_string(),
            name: Some("f".to_string()),
            disable_parallel_tool_use: None,
        })),
    }
}

#[test]
fn anthropic_request_becomes_openai_request() {
    let msgs = vec![
        AnthropicMessage { role: "user".to_string(), content: AnthropicContent::Text("hi".to_string()) },
        AnthropicMessage {
            role: "assistant".to_string(),
            content: AnthropicContent::Blocks(vec![
                text_block("calling"),
                ContentBlock::ToolUse { id: "t1".to_string(), name: "f".to_string(), input: "{\"x\":1}".to_string() },
            ]),
        },
        AnthropicMessage {
            role: "user".to_string(),
            content: AnthropicContent::Blocks(vec![ContentBlock::ToolResult {
                tool_use_id: "t1".to_string(),
                content: ToolResultContent::Text("42".to_string()),
                is_error: None,
            }]),
        },
        AnthropicMessage {
            role: "user".to_string(),
            content: AnthropicContent::Blocks(vec![ContentBlock::Image {
                source: ImageSource { kind: "base64".to_string(), media_type: "image/png".to_string(), data: Some("AAA".to_string()), url: None },
            }]),
        },
    ];
    let r = anthropic_to_openai(a_request(msgs));
    assert_eq!(r.messages.len(), 5);
    assert_eq!(r.messages[0].role, "system");
    assert!(matches!(&r.messages[0].content, MessageContent::Text(t) if t == "one\ntwo"));
    assert!(matches!(&r.messages[2].content, MessageContent::Text(t) if t == "calling"));
    let calls = r.messages[2].tool_calls.as_ref().unwrap();
    assert_eq!((calls[0].id.as_str(), calls[0].kind.as_str(), calls[0].function.arguments.as_str()), ("t1", "function", "{\"x\":1}"));
    assert_eq!(r.messages[3].tool_call_id.as_deref(), Some("t1"));
    assert!(matches!(&r.messages[3].content, MessageContent::Text(t) if t == "42"));
    match &r.messages[4].content {
        MessageContent::Parts(p) => assert!(matches!(&p[0], ContentPart::ImageUrl { image_url } if image_url.url == "data:image/png;base64,AAA")),
        _ => panic!(),
    }
    assert_eq!(r.max_tokens, Some(256));
    assert_eq!(r.user.as_deref(), Some("u-1"));
    assert_eq!(r.stream, Some(true));
    assert_eq!(r.tools.as_ref().unwrap().len(), 1);
    assert!(matches!(r.tool_choice, Some(ToolChoice::Object(ref o)) if o.function.name == "f"));
    let ns = non_streaming_openai_request(a_request(vec![]));
    assert_eq!(ns.stream, Some(false));
}

fn o_msg(role: &str, content: MessageContent) -> ChatMessage {
    ChatMessage { role: role.to_string(), content, name: None, tool_calls: None, tool_call_id: None }
}

#[test]
fn openai_request_becomes_anthropic_request() {
    let mut assistant = o_msg("assistant", MessageContent::Text(String::new()));
    assistant.tool_calls = Some(vec![ToolCall {
        id: "c1".to_string(),
        kind: "function".to_string(),
        function: ToolCallFunction { name: "f".to_string(), arguments: "{ \"a\" : 1 }".to_string() },
    }]);
    let mut tool = o_msg("tool", MessageContent::Text("done".to_string()));
    tool.tool_call_id = Some("c1".to_string());
    let image = o_msg(
        "user",
        MessageContent::Parts(vec![ContentPart::ImageUrl {
            image_url: ImageUrl { url: "data:image/gif;base64,R0lG".to_string(), detail: None },
        }]),
    );
    let req = ChatCompletionRequest {
        model: "m".to_string(),
        messages: vec![o_msg("system", MessageContent::Text("sys".to_string())), o_msg("user", MessageContent::Text("q".to_string())), assistant, tool, image],
        temperature: None,
        top_p: None,
        n: None,
        stream: None,
        stop: None,
        max_tokens: None,
        max_completion_tokens: None,
        presence_penalty: None,
        frequency_penalty: None,
        logit_bias: None,
        user: None,
        seed: None,
        tools: None,
        tool_choice: Some(ToolChoice::String("auto".to_string())),
        response_format: None,
    };
    let a = openai_to_anthropic(req);
    assert_eq!(a.max_tokens, 4096);
    assert!(matches!(a.system, Some(SystemContent::Text(ref t)) if t == "sys"));
    assert_eq!(a.messages.len(), 4);
    assert!(matches!(&a.messages[0].content, AnthropicContent::Text(t) if t == "q"));
    match &a.messages[1].content {
        AnthropicContent::Blocks(b) => assert!(matches!(&b[0], ContentBlock::ToolUse { id, input, .. } if id == "c1" && input == "{\"a\":1}")),
        _ => panic!(),
    }
    assert_eq!(a.messages[2].role, "user");
    match &a.messages[2].content {
        AnthropicContent::Blocks(b) => assert!(matches!(&b[0], ContentBlock::ToolResult { tool_use_id, content: ToolResultContent::Text(t), .. } if tool_use_id == "c1" && t == "done")),
        _ => panic!(),
    }
    match &a.messages[3].content {
        AnthropicContent::Blocks(b) => assert!(matches!(&b[0], ContentBlock::Image { source } if source.media_type == "image/gif" && source.data.as_deref() == Some("R0lG"))),
        _ => panic!(),
    }
    assert!(matches!(a.tool_choice, Some(AnthropicToolChoice::Auto(ref s)) if s == "auto"));
}

#[test]
fn responses_convert_both_ways() {
    let resp = ChatCompletionResponse {
        id: "r1".to_string(),
        object: "chat.completion".to_string(),
        created: 1,
        model: "m".to_string(),
        choices: vec![ChatChoice {
            index: 0,
            message: ChatMessage {
                role: "assistant".to_string(),
                content: MessageContent::Text("answer".to_string()),
                name: None,
                tool_calls: Some(vec![ToolCall {
                    id: "c".to_string(),
                    kind: "function".to_string(),
                    function: ToolCallFunction { name: "g".to_string(), arguments: "not json".to_string() },
                }]),
                tool_call_id: None,
            },
            finish_reason: Some("length".to_string()),
            logprobs: None,
        }],
        usage: Usage { prompt_tokens: 3, completion_tokens: 4, total_tokens: 7 },
        system_fingerprint: None,
    };
    let a = anthropic_response_from_openai(resp);
    assert_eq!(a.stop_reason.as_deref(), Some("max_tokens"));
    assert_eq!(a.content.len(), 2);
    assert!(matches!(&a.content[1], ContentBlock::ToolUse { input, .. } if input == "{}"));
    assert_eq!((a.usage.input_tokens, a.usage.output_tokens), (3, 4));

    let back = AnthropicResponse {
        id: "a1".to_string(),
        kind: "message".to_string(),
        role: "assistant".to_string(),
        content: vec![text_block("x"), text_block("y")],
        model: "m".to_string(),
        stop_reason: Some("tool_use".to_string()),
        stop_sequence: None,
        usage: AnthropicUsage { input_tokens: 5, output_tokens: 6, cache_creation_input_tokens: None, cache_read_input_tokens: None, service_tier: None },
    };
    let o = openai_response_from_anthropic_at(back, 99);
    assert_eq!(o.created, 99);
    assert!(matches!(&o.choices[0].message.content, MessageContent::Text(t) if t == "xy"));
    assert_eq!(o.choices[0].finish_reason.as_deref(), Some("tool_calls"));
    assert_eq!(o.usage.total_tokens, 11);
}

fn chunk(content: Option<&str>, finish: Option<&str>, usage: Option<Usage>) -> ChatCompletionChunk {
    ChatCompletionChunk {
        id: "c-1".to_string(),
        object: "chat.completion.chunk".to_string(),
        created: 0,
        model: "m".to_string(),
        choices: vec![ChunkChoice {
            index: 0,
            delta: Delta { role: None, content: content.map(|s| s.to_string()), tool_calls: None },
            finish_reason: finish.map(|s| s.to_string()),
            logprobs: None,
        }],
        system_fingerprint: None,
        usage,
    }
}

#[test]
fn openai_stream_becomes_anthropic_events() {
    let mut st = StreamConversionState::default();
    let ev = openai_chunk_to_anthropic_events(chunk(Some("Hel"), None, None), &mut st);
    assert_eq!(ev.len(), 3);
    assert!(matches!(&ev[0], AnthropicStreamEvent::MessageStart { message } if message.id == "c-1"));
    assert!(matches!(&ev[1], AnthropicStreamEvent::ContentBlockStart { index: 0, content_block: ContentBlockStartData::Text { .. } }));
    assert!(matches!(&ev[2], AnthropicStreamEvent::ContentBlockDelta { index: 0, delta: StreamDelta::TextDelta { text } } if text == "Hel"));
    let ev = openai_chunk_to_anthropic_events(chunk(Some("lo"), None, None), &mut st);
    assert_eq!(ev.len(), 1);
    let usage = Usage { prompt_tokens: 2, completion_tokens: 3, total_tokens: 5 };
    let ev = openai_chunk_to_anthropic_events(chunk(None, Some("stop"), Some(usage)), &mut st);
    assert!(matches!(&ev[0], AnthropicStreamEvent::ContentBlockStop { index: 0 }));
    match &ev[1] {
        AnthropicStreamEvent::MessageDelta { delta, usage: Some(u) } => {
            assert_eq!(delta.stop_reason.as_deref(), Some("end_turn"));
            assert_eq!((u.input_tokens, u.output_tokens), (2, 3));
        }
        other => panic!("{:?}", other),
    }
    assert!(matches!(ev.last(), Some(AnthropicStreamEvent::MessageStop)));
}

#[test]
fn aggregator_counts_stream_usage() {
    let mut agg = StreamUsageAggregator::new();
    agg.process_openai_chunk(&chunk(Some("abcdefgh"), None, None));
    assert_eq!(agg.model, "m");
    assert_eq!(agg.completion_chars, 8);
    assert!(!agg.has_actual_usage());
    assert_eq!(agg.final_completion_tokens(), 2);
    agg.process_openai_chunk(&chunk(None, Some("stop"), Some(Usage { prompt_tokens: 10, completion_tokens: 3, total_tokens: 13 })));
    assert!(agg.has_actual_usage());
    assert_eq!(agg.total_tokens(), 13);
    let mut tiny = StreamUsageAggregator::new();
    tiny.completion_chars = 1;
    assert_eq!(tiny.estimate_completion_tokens(), 1);
}

#[test]
fn converted_stream_announces_its_message_once() {
    let mut st = StreamConversionState::default();
    let mut starts = 0;
    let mut first = None;
    for (i, c) in [chunk(None, None, None), chunk(Some("a"), None, None), chunk(Some("b"), Some("stop"), None)]
        .into_iter()
        .enumerate()
    {
        let mut c = c;
        if i > 0 {
            c.id = "other".to_string();
        }
        let ev = openai_chunk_to_anthropic_events(c, &mut st);
        if i == 0 {
            assert!(matches!(&ev[0], AnthropicStreamEvent::MessageStart { .. }));
            first = Some(ev.len());
        }
        starts += ev.iter().filter(|e| matches!(e, AnthropicStreamEvent::MessageStart { .. })).count();
    }
    assert_eq!(first, Some(1));
    assert_eq!(starts, 1);
    assert_eq!(st.message_id, "c-1");
    assert!(st.sent_message_start);
}

#[test]
fn plain_request_survives_round_trip() {
    let msg = |role: &str, t: &str| AnthropicMessage { role: role.to_string(), content: AnthropicContent::Text(t.to_string()) };
    let mut r = a_request(vec![msg("user", "hi"), msg("assistant", "hello"), msg("user", "bye")]);
    r.system = Some(SystemContent::Text("be brief".to_string()));
    r.tools = None;
    r.tool_choice = None;
    r.temperature = Some(0.5f64.to_bits());
    r.stop_sequences = Some(vec!["END".to_string()]);
    let b = openai_to_anthropic(anthropic_to_openai(r.clone()));
    assert_eq!(b.model, r.model);
    assert_eq!(b.max_tokens, r.max_tokens);
    assert_eq!(b.messages.len(), 3);
    for (x, y) in b.messages.iter().zip(r.messages.iter()) {
        assert_eq!(x.role, y.role);
        assert!(matches!((&x.content, &y.content), (AnthropicContent::Text(p), AnthropicContent::Text(q)) if p == q));
    }
    assert!(matches!(&b.system, Some(SystemContent::Text(s)) if s == "be brief"));
    assert_eq!(b.temperature, r.temperature);
    assert_eq!(b.stop_sequences, r.stop_sequences);
    assert_eq!(b.stream, r.stream);
    assert!(matches!(&b.metadata, Some(Metadata { user_id: Some(u) }) if u == "u-1"));
}

#[test]
fn aggregator_keeps_the_first_nonempty_model() {
    let mut agg = StreamUsageAggregator::new();
    for m in ["", "first", "", "second"] {
        let mut c = chunk(None, None, None);
        c.model = m.to_string();
        agg.process_openai_chunk(&c);
    }
    assert_eq!(agg.model, "first");
}
