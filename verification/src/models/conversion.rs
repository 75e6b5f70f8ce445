//! Format conversion between the OpenAI and Anthropic API formats: requests,
//! responses, and streams, each stated over the models of the wire types.
use vstd::prelude::*;
use crate::models::anthropic::{
    AnthropicContent, AnthropicContentView, AnthropicMessage, AnthropicMessageView, AnthropicRequest,
    AnthropicRequestView, AnthropicResponse, AnthropicResponseView, AnthropicStreamEvent,
    AnthropicStreamEventView, AnthropicTool, AnthropicToolChoice, AnthropicToolChoiceView,
    AnthropicToolView, AnthropicUsage, AnthropicUsageView, ContentBlock, ContentBlockStartData,
    ContentBlockStartView, ContentBlockView, ImageSource, ImageSourceView, MessageDeltaData,
    MessageStartData, Metadata, OutputConfig, OutputFormat, OutputFormatView, StreamDelta,
    StreamDeltaView, StreamUsage, SystemContent, SystemContentView, ToolChoiceSpecific,
    ToolResultBlock, ToolResultContent, ToolResultContentView,
};
use crate::models::anthropic::MessageStartView;
use crate::models::streaming::{
    ChatCompletionChunk, ChatCompletionChunkView, ChunkChoice, ChunkChoiceView, Delta, DeltaToolCall,
    DeltaToolCallFunction, DeltaToolCallView, DeltaView,
};
use crate::models::chat::{
    ChatChoice, ChatChoiceView, ChatCompletionRequest, ChatCompletionRequestView,
    ChatCompletionResponse, ChatCompletionResponseView, ChatMessage, ChatMessageView, ContentPart,
    ContentPartView, ImageUrl, MessageContent, MessageContentView, ResponseFormat,
    ResponseFormatView, Tool, ToolCall, ToolCallFunction, ToolCallView, ToolChoice,
    ToolChoiceFunction, ToolChoiceObject, ToolChoiceView, ToolFunction, ToolView, Usage,
};
use crate::clock::unix_now_secs;
use crate::json::{json_reencoded, reencode_json};
use crate::text::{
    join_lines, join_with_newlines, split_once_char, split_once_spec, starts_with_str, str_eq,
    strip_prefix_spec, strip_prefix_str, strip_suffix_spec, strip_suffix_str,
};

verus! {

// ============================================================================
// Anthropic -> OpenAI: specification
// ============================================================================

/// The system prompt as one text: blocks are joined by newlines.
pub open spec fn system_text(s: SystemContentView) -> Seq<char> {
    match s {
        SystemContentView::Text(t) => t,
        SystemContentView::Blocks(b) => join_lines(b),
    }
}

/// The texts of the text blocks of a tool result, in order.
pub open spec fn result_block_texts(s: Seq<Option<Seq<char>>>) -> Seq<Seq<char>>
    decreases s.len(),
{
    if s.len() == 0 {
        seq![]
    } else {
        match s.last() {
            Some(t) => result_block_texts(s.drop_last()).push(t),
            None => result_block_texts(s.drop_last()),
        }
    }
}

/// A tool result as one text.
pub open spec fn tool_result_text(c: ToolResultContentView) -> Seq<char> {
    match c {
        ToolResultContentView::Empty => seq![],
        ToolResultContentView::Text(t) => t,
        ToolResultContentView::Blocks(b) => join_lines(result_block_texts(b)),
    }
}

/// The `data:` URL that carries inline base64 image data.
pub open spec fn data_url(media_type: Seq<char>, data: Seq<char>) -> Seq<char> {
    "data:"@ + media_type + ";base64,"@ + data
}

/// The content parts that one Anthropic block contributes to an OpenAI message.
pub open spec fn block_parts(b: ContentBlockView) -> Seq<ContentPartView> {
    match b {
        ContentBlockView::Text { text, .. } => seq![ContentPartView::Text(text)],
        ContentBlockView::Image { source } => match source.data {
            Some(d) => seq![ContentPartView::ImageUrl { url: data_url(source.media_type, d), detail: None }],
            None => match source.url {
                Some(u) => seq![ContentPartView::ImageUrl { url: u, detail: None }],
                None => seq![],
            },
        },
        ContentBlockView::ToolResult { content, .. } => seq![ContentPartView::Text(tool_result_text(content))],
        _ => seq![],
    }
}

pub open spec fn blocks_parts(bs: Seq<ContentBlockView>) -> Seq<ContentPartView>
    decreases bs.len(),
{
    if bs.len() == 0 {
        seq![]
    } else {
        blocks_parts(bs.drop_last()) + block_parts(bs.last())
    }
}

/// The tool calls of the tool-use blocks, in order.
pub open spec fn blocks_tool_calls(bs: Seq<ContentBlockView>) -> Seq<ToolCallView>
    decreases bs.len(),
{
    if bs.len() == 0 {
        seq![]
    } else {
        match bs.last() {
            ContentBlockView::ToolUse { id, name, input } => blocks_tool_calls(bs.drop_last()).push(
                ToolCallView { id, kind: "function"@, name, arguments: input },
            ),
            _ => blocks_tool_calls(bs.drop_last()),
        }
    }
}

/// The id of the last tool-result block, if any.
pub open spec fn last_tool_result_id(bs: Seq<ContentBlockView>) -> Option<Seq<char>>
    decreases bs.len(),
{
    if bs.len() == 0 {
        None
    } else {
        match bs.last() {
            ContentBlockView::ToolResult { tool_use_id, .. } => Some(tool_use_id),
            _ => last_tool_result_id(bs.drop_last()),
        }
    }
}

/// A single text part becomes plain text; no part becomes empty text.
pub open spec fn parts_content(ps: Seq<ContentPartView>) -> MessageContentView {
    if ps.len() == 1 {
        match ps[0] {
            ContentPartView::Text(t) => MessageContentView::Text(t),
            _ => MessageContentView::Parts(ps),
        }
    } else if ps.len() == 0 {
        MessageContentView::Text(seq![])
    } else {
        MessageContentView::Parts(ps)
    }
}

pub open spec fn message_a2o(m: AnthropicMessageView) -> ChatMessageView {
    match m.content {
        AnthropicContentView::Text(t) => ChatMessageView {
            role: m.role,
            content: MessageContentView::Text(t),
            name: None,
            tool_calls: None,
            tool_call_id: None,
        },
        AnthropicContentView::Blocks(bs) => ChatMessageView {
            role: m.role,
            content: parts_content(blocks_parts(bs)),
            name: None,
            tool_calls: if blocks_tool_calls(bs).len() == 0 {
                None
            } else {
                Some(blocks_tool_calls(bs))
            },
            tool_call_id: last_tool_result_id(bs),
        },
    }
}

/// Client tools become functions; server tools have no OpenAI counterpart.
pub open spec fn tool_a2o(t: AnthropicToolView) -> Option<ToolView> {
    match t {
        AnthropicToolView::ClientTool { name, description, input_schema } => Some(
            ToolView { kind: "function"@, name, description: Some(description), parameters: Some(input_schema) },
        ),
        AnthropicToolView::ServerTool(_) => None,
    }
}

pub open spec fn tools_a2o(ts: Seq<AnthropicToolView>) -> Seq<ToolView>
    decreases ts.len(),
{
    if ts.len() == 0 {
        seq![]
    } else {
        match tool_a2o(ts.last()) {
            Some(t) => tools_a2o(ts.drop_last()).push(t),
            None => tools_a2o(ts.drop_last()),
        }
    }
}

pub open spec fn tool_choice_a2o(c: AnthropicToolChoiceView) -> ToolChoiceView {
    match c {
        AnthropicToolChoiceView::Auto(s) => ToolChoiceView::String(s),
        AnthropicToolChoiceView::Specific { kind, name, .. } => match name {
            Some(n) => ToolChoiceView::Object { kind: "function"@, name: n },
            None => ToolChoiceView::String(kind),
        },
    }
}

pub open spec fn system_messages(s: Option<SystemContentView>) -> Seq<ChatMessageView> {
    match s {
        Some(sys) => seq![ChatMessageView {
            role: "system"@,
            content: MessageContentView::Text(system_text(sys)),
            name: None,
            tool_calls: None,
            tool_call_id: None,
        }],
        None => seq![],
    }
}

pub open spec fn response_format_a2o(o: Option<OutputFormatView>) -> Option<ResponseFormatView> {
    match o {
        Some(OutputFormatView::JsonSchema(schema)) => Some(
            ResponseFormatView { kind: "json_schema"@, json_schema: Some(schema) },
        ),
        _ => None,
    }
}

/// The OpenAI request that an Anthropic request is converted to.
pub open spec fn anthropic_to_openai_spec(r: AnthropicRequestView) -> ChatCompletionRequestView {
    ChatCompletionRequestView {
        model: r.model,
        messages: system_messages(r.system) + r.messages.map_values(|m: AnthropicMessageView| message_a2o(m)),
        temperature: r.temperature,
        top_p: r.top_p,
        n: None,
        stream: r.stream,
        stop: r.stop_sequences,
        max_tokens: Some(r.max_tokens),
        max_completion_tokens: None,
        presence_penalty: None,
        frequency_penalty: None,
        logit_bias: None,
        user: match r.metadata {
            Some(u) => u,
            None => None,
        },
        seed: None,
        tools: match r.tools {
            Some(ts) => Some(tools_a2o(ts)),
            None => None,
        },
        tool_choice: match r.tool_choice {
            Some(c) => Some(tool_choice_a2o(c)),
            None => None,
        },
        response_format: response_format_a2o(r.output_config),
    }
}

// ============================================================================
// Anthropic -> OpenAI: implementation
// ============================================================================

fn tool_result_to_text(content: ToolResultContent) -> (r: String)
    ensures
        r@ == tool_result_text(content.deep_view()),
{
    match content {
        ToolResultContent::Empty => String::new(),
        ToolResultContent::Text(t) => t,
        ToolResultContent::Blocks(blocks) => {
            let ghost bv = blocks.deep_view();
            let mut texts: Vec<String> = Vec::new();
            for b in it: blocks.into_iter()
                invariant
                    bv.len() == it.seq().len(),
                    forall|j: int| 0 <= j < bv.len() ==> bv[j] == it.seq()[j].deep_view(),
                    texts.deep_view() == result_block_texts(bv.take(it.index() as int)),
            {
                proof {
                    let t = bv.take(it.index() + 1);
                    assert(t.drop_last() == bv.take(it.index() as int));
                }
                match b {
                    ToolResultBlock::Text { text } => {
                        texts.push(text);
                    },
                    _ => {},
                }
            }
            proof {
                assert(bv.take(bv.len() as int) == bv);
            }
            join_with_newlines(texts)
        },
    }
}

fn make_data_url(media_type: &str, data: &str) -> (r: String)
    ensures
        r@ == data_url(media_type@, data@),
{
    let mut url = "data:".to_string();
    url.append(media_type);
    url.append(";base64,");
    url.append(data);
    url
}

fn anthropic_message_to_openai(msg: AnthropicMessage) -> (r: ChatMessage)
    ensures
        r.deep_view() == message_a2o(msg.deep_view()),
{
    let AnthropicMessage { role, content } = msg;
    match content {
        AnthropicContent::Text(text) => ChatMessage {
            role,
            content: MessageContent::Text(text),
            name: None,
            tool_calls: None,
            tool_call_id: None,
        },
        AnthropicContent::Blocks(blocks) => {
            let ghost bv = blocks.deep_view();
            let mut text_parts: Vec<ContentPart> = Vec::new();
            let mut tool_calls_list: Vec<ToolCall> = Vec::new();
            let mut tool_result_id: Option<String> = None;
            for block in it: blocks.into_iter()
                invariant
                    bv.len() == it.seq().len(),
                    forall|j: int| 0 <= j < bv.len() ==> bv[j] == it.seq()[j].deep_view(),
                    text_parts.deep_view() == blocks_parts(bv.take(it.index() as int)),
                    tool_calls_list.deep_view() == blocks_tool_calls(bv.take(it.index() as int)),
                    tool_result_id.deep_view() == last_tool_result_id(bv.take(it.index() as int)),
            {
                proof {
                    let t = bv.take(it.index() + 1);
                    assert(t.drop_last() == bv.take(it.index() as int));
                    assert(t.last() == bv[it.index() as int]);
                }
                match block {
                    ContentBlock::Text { text, .. } => {
                        text_parts.push(ContentPart::Text { text });
                    },
                    ContentBlock::Image { source } => {
                        let ImageSource { kind: _, media_type, data, url } = source;
                        match data {
                            Some(d) => {
                                let u = make_data_url(media_type.as_str(), d.as_str());
                                text_parts.push(ContentPart::ImageUrl { image_url: ImageUrl { url: u, detail: None } });
                            },
                            None => match url {
                                Some(u) => {
                                    text_parts.push(ContentPart::ImageUrl { image_url: ImageUrl { url: u, detail: None } });
                                },
                                None => {},
                            },
                        }
                    },
                    ContentBlock::ToolUse { id, name, input } => {
                        tool_calls_list.push(
                            ToolCall {
                                id,
                                kind: "function".to_string(),
                                function: ToolCallFunction { name, arguments: input },
                            },
                        );
                    },
                    ContentBlock::ToolResult { tool_use_id, content, .. } => {
                        tool_result_id = Some(tool_use_id);
                        let text = tool_result_to_text(content);
                        text_parts.push(ContentPart::Text { text });
                    },
                    _ => {},
                }
            }
            proof {
                assert(bv.take(bv.len() as int) == bv);
            }
            let content = if text_parts.len() == 1 {
                let part = text_parts.pop().unwrap();
                match part {
                    ContentPart::Text { text } => MessageContent::Text(text),
                    other => {
                        let mut v: Vec<ContentPart> = Vec::new();
                        v.push(other);
                        proof {
                            assert(v.deep_view() == blocks_parts(bv));
                        }
                        MessageContent::Parts(v)
                    },
                }
            } else if text_parts.len() == 0 {
                MessageContent::Text(String::new())
            } else {
                MessageContent::Parts(text_parts)
            };
            let tool_calls = if tool_calls_list.len() == 0 {
                None
            } else {
                Some(tool_calls_list)
            };
            ChatMessage { role, content, name: None, tool_calls, tool_call_id: tool_result_id }
        },
    }
}

fn anthropic_tool_to_openai(tool: AnthropicTool) -> (r: Option<Tool>)
    ensures
        r.deep_view() == tool_a2o(tool.deep_view()),
{
    match tool {
        AnthropicTool::ClientTool { name, description, input_schema } => Some(
            Tool {
                kind: "function".to_string(),
                function: ToolFunction {
                    name,
                    description: Some(description),
                    parameters: Some(input_schema),
                },
            },
        ),
        AnthropicTool::ServerTool(_) => None,
    }
}

fn anthropic_tool_choice_to_openai(choice: AnthropicToolChoice) -> (r: ToolChoice)
    ensures
        r.deep_view() == tool_choice_a2o(choice.deep_view()),
{
    match choice {
        AnthropicToolChoice::Auto(s) => ToolChoice::String(s),
        AnthropicToolChoice::Specific(spec) => {
            let ToolChoiceSpecific { kind, name, .. } = spec;
            match name {
                Some(n) => ToolChoice::Object(
                    ToolChoiceObject { kind: "function".to_string(), function: ToolChoiceFunction { name: n } },
                ),
                None => ToolChoice::String(kind),
            }
        },
    }
}

fn system_to_text(system: SystemContent) -> (r: String)
    ensures
        r@ == system_text(system.deep_view()),
{
    match system {
        SystemContent::Text(text) => text,
        SystemContent::Blocks(blocks) => {
            let ghost bv = blocks.deep_view();
            let mut texts: Vec<String> = Vec::new();
            for b in it: blocks.into_iter()
                invariant
                    bv.len() == it.seq().len(),
                    forall|j: int| 0 <= j < bv.len() ==> bv[j] == it.seq()[j].deep_view(),
                    texts.deep_view() == bv.take(it.index() as int),
            {
                texts.push(b.text);
                proof {
                    assert(bv.take(it.index() + 1) == bv.take(it.index() as int).push(bv[it.index() as int]));
                }
            }
            proof {
                assert(bv.take(bv.len() as int) == bv);
            }
            join_with_newlines(texts)
        },
    }
}

/// Converts an Anthropic Messages request into an OpenAI chat-completions
/// request: the system prompt becomes a leading system message, content
/// blocks become content parts and tool calls, client tools become functions
/// (server tools are dropped), and a JSON-schema output format becomes a
/// `json_schema` response format.
pub fn anthropic_to_openai(request: AnthropicRequest) -> (r: ChatCompletionRequest)
    ensures
        r@ == anthropic_to_openai_spec(request@),
{
    let ghost rv = request@;
    let AnthropicRequest {
        model,
        max_tokens,
        messages: in_messages,
        system,
        temperature,
        top_p,
        top_k: _,
        stop_sequences,
        stream,
        metadata,
        service_tier: _,
        thinking: _,
        output_config,
        tools: in_tools,
        tool_choice: in_tool_choice,
    } = request;
    let mut messages: Vec<ChatMessage> = Vec::new();
    match system {
        Some(sys) => {
            let system_text = system_to_text(sys);
            messages.push(
                ChatMessage {
                    role: "system".to_string(),
                    content: MessageContent::Text(system_text),
                    name: None,
                    tool_calls: None,
                    tool_call_id: None,
                },
            );
        },
        None => {},
    }
    let ghost prefix = messages.deep_view();
    assert(prefix == system_messages(rv.system));
    let ghost mv = rv.messages;
    for msg in it: in_messages.into_iter()
        invariant
            mv.len() == it.seq().len(),
            forall|j: int| 0 <= j < mv.len() ==> mv[j] == it.seq()[j].deep_view(),
            messages.deep_view() == prefix + mv.take(it.index() as int).map_values(
                |m: AnthropicMessageView| message_a2o(m),
            ),
    {
        let ghost before = messages.deep_view();
        let converted = anthropic_message_to_openai(msg);
        messages.push(converted);
        proof {
            let i = it.index() as int;
            let f = |m: AnthropicMessageView| message_a2o(m);
            assert(mv.take(i + 1).map_values(f) == mv.take(i).map_values(f).push(message_a2o(mv[i])));
            assert(messages.deep_view() == before.push(message_a2o(mv[i])));
            assert(prefix + mv.take(i + 1).map_values(f) == (prefix + mv.take(i).map_values(f)).push(
                message_a2o(mv[i]),
            ));
        }
    }
    proof {
        assert(mv.take(mv.len() as int) == mv);
    }
    let tools = match in_tools {
        Some(ts) => {
            let ghost tv = ts.deep_view();
            let mut out: Vec<Tool> = Vec::new();
            for t in it: ts.into_iter()
                invariant
                    tv.len() == it.seq().len(),
                    forall|j: int| 0 <= j < tv.len() ==> tv[j] == it.seq()[j].deep_view(),
                    out.deep_view() == tools_a2o(tv.take(it.index() as int)),
            {
                proof {
                    let tk = tv.take(it.index() + 1);
                    assert(tk.drop_last() == tv.take(it.index() as int));
                }
                match anthropic_tool_to_openai(t) {
                    Some(x) => {
                        out.push(x);
                    },
                    None => {},
                }
            }
            proof {
                assert(tv.take(tv.len() as int) == tv);
            }
            Some(out)
        },
        None => None,
    };
    let tool_choice = match in_tool_choice {
        Some(c) => Some(anthropic_tool_choice_to_openai(c)),
        None => None,
    };
    let response_format = match output_config {
        Some(config) => match config.format {
            OutputFormat::JsonSchema { schema } => Some(
                ResponseFormat { kind: "json_schema".to_string(), json_schema: Some(schema) },
            ),
            OutputFormat::Text => None,
        },
        None => None,
    };
    let user = match metadata {
        Some(m) => m.user_id,
        None => None,
    };
    ChatCompletionRequest {
        model,
        messages,
        temperature,
        top_p,
        n: None,
        stream,
        stop: stop_sequences,
        max_tokens: Some(max_tokens),
        max_completion_tokens: None,
        presence_penalty: None,
        frequency_penalty: None,
        logit_bias: None,
        user,
        seed: None,
        tools,
        tool_choice,
        response_format,
    }
}

// ============================================================================
// OpenAI -> Anthropic: specification
// ============================================================================

/// The texts of the text parts, in order.
pub open spec fn part_texts(ps: Seq<ContentPartView>) -> Seq<Seq<char>>
    decreases ps.len(),
{
    if ps.len() == 0 {
        seq![]
    } else {
        match ps.last() {
            ContentPartView::Text(t) => part_texts(ps.drop_last()).push(t),
            _ => part_texts(ps.drop_last()),
        }
    }
}

/// OpenAI content as one text: text parts are joined by newlines.
pub open spec fn content_text(c: MessageContentView) -> Seq<char> {
    match c {
        MessageContentView::Text(t) => t,
        MessageContentView::Parts(ps) => join_lines(part_texts(ps)),
    }
}

/// The text of the last system message, if any (a later one replaces an earlier one).
pub open spec fn last_system_text(ms: Seq<ChatMessageView>) -> Option<Seq<char>>
    decreases ms.len(),
{
    if ms.len() == 0 {
        None
    } else if ms.last().role == "system"@ {
        Some(content_text(ms.last().content))
    } else {
        last_system_text(ms.drop_last())
    }
}

/// The messages that are not system messages, in order.
pub open spec fn non_system_messages(ms: Seq<ChatMessageView>) -> Seq<ChatMessageView>
    decreases ms.len(),
{
    if ms.len() == 0 {
        seq![]
    } else if ms.last().role == "system"@ {
        non_system_messages(ms.drop_last())
    } else {
        non_system_messages(ms.drop_last()).push(ms.last())
    }
}

/// The media type written in the head of a `data:` URL (the part before the
/// comma), defaulting to `image/jpeg`.
pub open spec fn data_media_type(head: Seq<char>) -> Seq<char> {
    match strip_prefix_spec(head, "data:"@) {
        Some(rest) => match strip_suffix_spec(rest, ";base64"@) {
            Some(m) => m,
            None => "image/jpeg"@,
        },
        None => "image/jpeg"@,
    }
}

/// The block an image URL becomes: inline data for `data:` URLs (dropped when
/// the URL has no comma), a URL reference otherwise.
pub open spec fn image_url_blocks(url: Seq<char>) -> Seq<ContentBlockView> {
    if "data:"@.is_prefix_of(url) {
        match split_once_spec(url, ',') {
            Some((head, data)) => seq![ContentBlockView::Image {
                source: ImageSourceView {
                    kind: "base64"@,
                    media_type: data_media_type(head),
                    data: Some(data),
                    url: None,
                },
            }],
            None => seq![],
        }
    } else {
        seq![ContentBlockView::Image {
            source: ImageSourceView { kind: "url"@, media_type: "image/jpeg"@, data: None, url: Some(url) },
        }]
    }
}

pub open spec fn text_block(t: Seq<char>) -> ContentBlockView {
    ContentBlockView::Text { text: t, cache_control: None, citations: None }
}

pub open spec fn part_blocks(p: ContentPartView) -> Seq<ContentBlockView> {
    match p {
        ContentPartView::Text(t) => seq![text_block(t)],
        ContentPartView::ImageUrl { url, .. } => image_url_blocks(url),
    }
}

pub open spec fn parts_blocks(ps: Seq<ContentPartView>) -> Seq<ContentBlockView>
    decreases ps.len(),
{
    if ps.len() == 0 {
        seq![]
    } else {
        parts_blocks(ps.drop_last()) + part_blocks(ps.last())
    }
}

/// The blocks of OpenAI content: empty text gives no block.
pub open spec fn content_blocks(c: MessageContentView) -> Seq<ContentBlockView> {
    match c {
        MessageContentView::Text(t) => if t.len() == 0 {
            seq![]
        } else {
            seq![text_block(t)]
        },
        MessageContentView::Parts(ps) => parts_blocks(ps),
    }
}

/// The input of a tool-use block made from a call's argument text: the
/// re-encoded JSON when the arguments parse, the empty object otherwise.
pub open spec fn tool_input_from(parsed: Option<Seq<char>>) -> Seq<char> {
    match parsed {
        Some(t) => t,
        None => "{}"@,
    }
}

pub open spec fn call_block(c: ToolCallView) -> ContentBlockView {
    ContentBlockView::ToolUse { id: c.id, name: c.name, input: tool_input_from(json_reencoded(c.arguments)) }
}

pub open spec fn first_text(bs: Seq<ContentBlockView>) -> Seq<char> {
    if bs.len() > 0 {
        match bs[0] {
            ContentBlockView::Text { text, .. } => text,
            _ => seq![],
        }
    } else {
        seq![]
    }
}

/// The blocks of an OpenAI message: its content, then its tool calls; a tool
/// message becomes a single tool result carrying its first text.
pub open spec fn message_blocks(m: ChatMessageView) -> Seq<ContentBlockView> {
    let bs = content_blocks(m.content) + match m.tool_calls {
        Some(cs) => cs.map_values(|c: ToolCallView| call_block(c)),
        None => seq![],
    };
    match m.tool_call_id {
        Some(id) => seq![ContentBlockView::ToolResult {
            tool_use_id: id,
            content: ToolResultContentView::Text(first_text(bs)),
            is_error: None,
        }],
        None => bs,
    }
}

pub open spec fn message_o2a(m: ChatMessageView) -> AnthropicMessageView {
    let bs = message_blocks(m);
    AnthropicMessageView {
        role: if m.role == "tool"@ {
            "user"@
        } else {
            m.role
        },
        content: if bs.len() == 1 && bs[0] is Text {
            AnthropicContentView::Text(first_text(bs))
        } else {
            AnthropicContentView::Blocks(bs)
        },
    }
}

pub open spec fn tool_o2a(t: ToolView) -> AnthropicToolView {
    AnthropicToolView::ClientTool {
        name: t.name,
        description: match t.description {
            Some(d) => d,
            None => seq![],
        },
        input_schema: match t.parameters {
            Some(p) => p,
            None => "{\"type\":\"object\"}"@,
        },
    }
}

pub open spec fn tool_choice_o2a(c: ToolChoiceView) -> AnthropicToolChoiceView {
    match c {
        ToolChoiceView::String(s) => AnthropicToolChoiceView::Auto(s),
        ToolChoiceView::Object { name, .. } => AnthropicToolChoiceView::Specific {
            kind: "tool"@,
            name: Some(name),
            disable_parallel_tool_use: None,
        },
    }
}

pub open spec fn output_config_o2a(rf: Option<ResponseFormatView>) -> Option<OutputFormatView> {
    match rf {
        Some(f) => if f.kind == "json_schema"@ {
            match f.json_schema {
                Some(s) => Some(OutputFormatView::JsonSchema(s)),
                None => None,
            }
        } else {
            None
        },
        None => None,
    }
}

/// The Anthropic request that an OpenAI request is converted to.
pub open spec fn openai_to_anthropic_spec(r: ChatCompletionRequestView) -> AnthropicRequestView {
    AnthropicRequestView {
        model: r.model,
        max_tokens: match r.max_tokens {
            Some(m) => m,
            None => match r.max_completion_tokens {
                Some(m) => m,
                None => 4096,
            },
        },
        messages: non_system_messages(r.messages).map_values(|m: ChatMessageView| message_o2a(m)),
        system: match last_system_text(r.messages) {
            Some(t) => Some(SystemContentView::Text(t)),
            None => None,
        },
        temperature: r.temperature,
        top_p: r.top_p,
        top_k: None,
        stop_sequences: r.stop,
        stream: r.stream,
        metadata: match r.user {
            Some(u) => Some(Some(u)),
            None => None,
        },
        service_tier: None,
        thinking: None,
        output_config: output_config_o2a(r.response_format),
        tools: match r.tools {
            Some(ts) => Some(ts.map_values(|t: ToolView| tool_o2a(t))),
            None => None,
        },
        tool_choice: match r.tool_choice {
            Some(c) => Some(tool_choice_o2a(c)),
            None => None,
        },
    }
}

/// The tool `o` converted from the OpenAI tool `t` is a client tool with the
/// function's name, its description (empty when absent) and, as input schema,
/// the function's parameters; only a function without parameters gets the
/// schema of an arbitrary object.
pub open spec fn tool_converted_from(o: AnthropicToolView, t: ToolView) -> bool {
    &&& o matches AnthropicToolView::ClientTool { name, description, input_schema }
    &&& o->name == t.name
    &&& (t.description matches Some(d) ==> o->description == d)
    &&& (t.description is None ==> o->description.len() == 0)
    &&& (t.parameters matches Some(p) ==> o->input_schema == p)
    &&& (t.parameters is None ==> o->input_schema == "{\"type\":\"object\"}"@)
}

/// Converting a request keeps its tools one for one, in order: each keeps its
/// name, description and parameter schema; a request without tools gets none.
pub proof fn law_tools_converted(r: ChatCompletionRequestView)
    ensures
        r.tools is None ==> openai_to_anthropic_spec(r).tools is None,
        r.tools matches Some(ts) ==> {
            &&& openai_to_anthropic_spec(r).tools matches Some(os)
            &&& os.len() == ts.len()
            &&& forall|i: int| 0 <= i < ts.len() ==> tool_converted_from(#[trigger] os[i], ts[i])
        },
{
}

/// A plain conversational message: a user or assistant turn of non-empty text.
pub open spec fn plain_message(m: AnthropicMessageView) -> bool {
    &&& (m.role == "user"@ || m.role == "assistant"@)
    &&& m.content matches AnthropicContentView::Text(t) && t.len() > 0
}

/// A plain Anthropic request: a text system prompt if any, plain messages,
/// no tools or output format, and metadata (if any) with a user id.
pub open spec fn plain_request(r: AnthropicRequestView) -> bool {
    &&& (r.system is None || r.system matches Some(SystemContentView::Text(_)))
    &&& forall|i: int| 0 <= i < r.messages.len() ==> #[trigger] plain_message(r.messages[i])
    &&& r.tools is None
    &&& r.tool_choice is None
    &&& r.output_config is None
    &&& (r.metadata is None || r.metadata matches Some(Some(_)))
}

proof fn lemma_plain_messages_pass(ms: Seq<AnthropicMessageView>)
    requires
        forall|i: int| 0 <= i < ms.len() ==> #[trigger] plain_message(ms[i]),
    ensures
        non_system_messages(ms.map_values(|m: AnthropicMessageView| message_a2o(m))) == ms.map_values(
            |m: AnthropicMessageView| message_a2o(m),
        ),
        last_system_text(ms.map_values(|m: AnthropicMessageView| message_a2o(m))) is None,
    decreases ms.len(),
{
    reveal_strlit("system");
    reveal_strlit("user");
    reveal_strlit("assistant");
    if ms.len() > 0 {
        let init = ms.drop_last();
        lemma_plain_messages_pass(init);
        let mapped = ms.map_values(|m: AnthropicMessageView| message_a2o(m));
        assert(mapped.drop_last() =~= init.map_values(|m: AnthropicMessageView| message_a2o(m)));
        assert(plain_message(ms[ms.len() - 1]));
        assert(mapped.last() == message_a2o(ms.last()));
        assert("user"@.len() == 4 && "assistant"@.len() == 9 && "system"@.len() == 6);
        assert(mapped.last().role != "system"@);
        assert(mapped.drop_last().push(mapped.last()) =~= mapped);
    }
}

proof fn lemma_after_system(s: ChatMessageView, ms: Seq<ChatMessageView>)
    requires
        s.role == "system"@,
        non_system_messages(ms) == ms,
        last_system_text(ms) is None,
    ensures
        non_system_messages(seq![s] + ms) == ms,
        last_system_text(seq![s] + ms) == Some(content_text(s.content)),
    decreases ms.len(),
{
    if ms.len() == 0 {
        assert(seq![s] + ms =~= seq![s]);
        assert(seq![s].drop_last() =~= Seq::<ChatMessageView>::empty());
    } else {
        let init = ms.drop_last();
        assert((seq![s] + ms).drop_last() =~= seq![s] + init);
        assert((seq![s] + ms).last() == ms.last());
        assert(ms.last().role != "system"@);
        assert(non_system_messages(init) == init) by {
            assert(non_system_messages(ms) == non_system_messages(init).push(ms.last()));
            assert(non_system_messages(init) =~= ms.drop_last());
        }
        lemma_after_system(s, init);
        assert(non_system_messages(init).push(ms.last()) =~= ms);
    }
}

/// A plain Anthropic request survives conversion to OpenAI and back: its
/// model, token limit, messages, system prompt, sampling settings, stop
/// sequences, stream flag and metadata are as they were.
pub proof fn law_plain_request_round_trip(r: AnthropicRequestView)
    requires
        plain_request(r),
    ensures
        ({
            let b = openai_to_anthropic_spec(anthropic_to_openai_spec(r));
            &&& b.model == r.model
            &&& b.max_tokens == r.max_tokens
            &&& b.messages == r.messages
            &&& b.system == r.system
            &&& b.temperature == r.temperature
            &&& b.top_p == r.top_p
            &&& b.stop_sequences == r.stop_sequences
            &&& b.stream == r.stream
            &&& b.metadata == r.metadata
        }),
{
    reveal_strlit("system");
    reveal_strlit("user");
    reveal_strlit("assistant");
    reveal_strlit("tool");
    let mapped = r.messages.map_values(|m: AnthropicMessageView| message_a2o(m));
    lemma_plain_messages_pass(r.messages);
    let o = anthropic_to_openai_spec(r);
    match r.system {
        Some(sys) => {
            let sm = system_messages(r.system)[0];
            assert(system_messages(r.system) == seq![sm]);
            lemma_after_system(sm, mapped);
        },
        None => {
            assert(system_messages(r.system) + mapped =~= mapped);
        },
    }
    let back = non_system_messages(o.messages).map_values(|m: ChatMessageView| message_o2a(m));
    assert forall|i: int| 0 <= i < r.messages.len() implies back[i] == r.messages[i] by {
        assert(plain_message(r.messages[i]));
        let m = r.messages[i];
        let c = message_a2o(m);
        assert(mapped[i] == c);
        if let AnthropicContentView::Text(t) = m.content {
            let bs = message_blocks(c);
            assert(content_blocks(c.content) == seq![text_block(t)]);
            assert(bs =~= seq![text_block(t)]);
            assert("user"@[0] == 'u' && "assistant"@.len() == 9 && "tool"@.len() == 4 && "tool"@[0] == 't');
            assert(c.role != "tool"@);
        }
    }
    assert(back =~= r.messages);
}

// ============================================================================
// OpenAI -> Anthropic: implementation
// ============================================================================

/// The tool-use block for an OpenAI tool call whose argument text `serde_json`
/// re-encoded as `parsed` (`None` when the arguments are not valid JSON, in
/// which case the input is the empty object).
pub fn tool_use_block(call: ToolCall, parsed: Option<String>) -> (r: ContentBlock)
    ensures
        r.deep_view() == (ContentBlockView::ToolUse {
            id: call.id@,
            name: call.function.name@,
            input: tool_input_from(parsed.deep_view()),
        }),
{
    let input = match parsed {
        Some(t) => t,
        None => "{}".to_string(),
    };
    ContentBlock::ToolUse { id: call.id, name: call.function.name, input }
}

fn content_to_text(content: MessageContent) -> (r: String)
    ensures
        r@ == content_text(content.deep_view()),
{
    match content {
        MessageContent::Text(t) => t,
        MessageContent::Parts(parts) => {
            let ghost pv = parts.deep_view();
            let mut texts: Vec<String> = Vec::new();
            for p in it: parts.into_iter()
                invariant
                    pv.len() == it.seq().len(),
                    forall|j: int| 0 <= j < pv.len() ==> pv[j] == it.seq()[j].deep_view(),
                    texts.deep_view() == part_texts(pv.take(it.index() as int)),
            {
                proof {
                    let t = pv.take(it.index() + 1);
                    assert(t.drop_last() == pv.take(it.index() as int));
                }
                match p {
                    ContentPart::Text { text } => {
                        texts.push(text);
                    },
                    _ => {},
                }
            }
            proof {
                assert(pv.take(pv.len() as int) == pv);
            }
            join_with_newlines(texts)
        },
    }
}

fn image_url_to_blocks(url: String, blocks: &mut Vec<ContentBlock>)
    ensures
        final(blocks).deep_view() == old(blocks).deep_view() + image_url_blocks(url@),
{
    if starts_with_str(url.as_str(), "data:") {
        match split_once_char(url.as_str(), ',') {
            Some((head, data)) => {
                let media_type = match strip_prefix_str(head, "data:") {
                    Some(rest) => match strip_suffix_str(rest, ";base64") {
                        Some(m) => m.to_string(),
                        None => "image/jpeg".to_string(),
                    },
                    None => "image/jpeg".to_string(),
                };
                blocks.push(
                    ContentBlock::Image {
                        source: ImageSource {
                            kind: "base64".to_string(),
                            media_type,
                            data: Some(data.to_string()),
                            url: None,
                        },
                    },
                );
            },
            None => {},
        }
    } else {
        blocks.push(
            ContentBlock::Image {
                source: ImageSource {
                    kind: "url".to_string(),
                    media_type: "image/jpeg".to_string(),
                    data: None,
                    url: Some(url),
                },
            },
        );
    }
}

fn openai_message_to_anthropic(msg: ChatMessage) -> (r: AnthropicMessage)
    ensures
        r.deep_view() == message_o2a(msg.deep_view()),
{
    let ghost m = msg.deep_view();
    let ChatMessage { role, content, name: _, tool_calls, tool_call_id } = msg;
    let mut blocks: Vec<ContentBlock> = Vec::new();
    match content {
        MessageContent::Text(text) => {
            if text.as_str().is_empty() == false {
                blocks.push(ContentBlock::Text { text, cache_control: None, citations: None });
            }
        },
        MessageContent::Parts(parts) => {
            let ghost pv = parts.deep_view();
            for part in it: parts.into_iter()
                invariant
                    pv.len() == it.seq().len(),
                    forall|j: int| 0 <= j < pv.len() ==> pv[j] == it.seq()[j].deep_view(),
                    blocks.deep_view() == parts_blocks(pv.take(it.index() as int)),
            {
                proof {
                    let t = pv.take(it.index() + 1);
                    assert(t.drop_last() == pv.take(it.index() as int));
                }
                match part {
                    ContentPart::Text { text } => {
                        blocks.push(ContentBlock::Text { text, cache_control: None, citations: None });
                    },
                    ContentPart::ImageUrl { image_url } => {
                        image_url_to_blocks(image_url.url, &mut blocks);
                    },
                }
            }
            proof {
                assert(pv.take(pv.len() as int) == pv);
            }
        },
    }
    let ghost content_part = blocks.deep_view();
    assert(content_part == content_blocks(m.content));
    match tool_calls {
        Some(calls) => {
            let ghost cv = calls.deep_view();
            for tc in it: calls.into_iter()
                invariant
                    cv.len() == it.seq().len(),
                    forall|j: int| 0 <= j < cv.len() ==> cv[j] == it.seq()[j].deep_view(),
                    blocks.deep_view() == content_part + cv.take(it.index() as int).map_values(
                        |c: ToolCallView| call_block(c),
                    ),
            {
                let ghost before = blocks.deep_view();
                let parsed = reencode_json(tc.function.arguments.as_str());
                let block = tool_use_block(tc, parsed);
                blocks.push(block);
                proof {
                    let i = it.index() as int;
                    let f = |c: ToolCallView| call_block(c);
                    assert(cv.take(i + 1).map_values(f) == cv.take(i).map_values(f).push(call_block(cv[i])));
                    assert(content_part + cv.take(i + 1).map_values(f) == (content_part + cv.take(i).map_values(f)).push(
                        call_block(cv[i]),
                    ));
                }
            }
            proof {
                assert(cv.take(cv.len() as int) == cv);
            }
        },
        None => {
            assert(blocks.deep_view() == content_part + Seq::<ContentBlockView>::empty());
        },
    }
    let ghost bs = blocks.deep_view();
    assert(bs == content_blocks(m.content) + match m.tool_calls {
        Some(cs) => cs.map_values(|c: ToolCallView| call_block(c)),
        None => seq![],
    });
    match tool_call_id {
        Some(id) => {
            let content_text = if blocks.len() > 0 {
                match &blocks[0] {
                    ContentBlock::Text { text, .. } => text.clone(),
                    _ => String::new(),
                }
            } else {
                String::new()
            };
            assert(content_text@ == first_text(bs));
            blocks.clear();
            blocks.push(
                ContentBlock::ToolResult {
                    tool_use_id: id,
                    content: ToolResultContent::Text(content_text),
                    is_error: None,
                },
            );
        },
        None => {},
    }
    assert(blocks.deep_view() == message_blocks(m));
    let single_text: Option<String> = if blocks.len() == 1 {
        match &blocks[0] {
            ContentBlock::Text { text, .. } => Some(text.clone()),
            _ => None,
        }
    } else {
        None
    };
    let content = match single_text {
        Some(t) => AnthropicContent::Text(t),
        None => AnthropicContent::Blocks(blocks),
    };
    let role = if str_eq(role.as_str(), "tool") {
        "user".to_string()
    } else {
        role
    };
    AnthropicMessage { role, content }
}

fn openai_tool_to_anthropic(tool: Tool) -> (r: AnthropicTool)
    ensures
        r.deep_view() == tool_o2a(tool.deep_view()),
{
    let ToolFunction { name, description, parameters } = tool.function;
    let description = match description {
        Some(d) => d,
        None => String::new(),
    };
    let input_schema = match parameters {
        Some(p) => p,
        None => "{\"type\":\"object\"}".to_string(),
    };
    AnthropicTool::ClientTool { name, description, input_schema }
}

fn openai_tool_choice_to_anthropic(choice: ToolChoice) -> (r: AnthropicToolChoice)
    ensures
        r.deep_view() == tool_choice_o2a(choice.deep_view()),
{
    match choice {
        ToolChoice::String(s) => AnthropicToolChoice::Auto(s),
        ToolChoice::Object(obj) => AnthropicToolChoice::Specific(
            ToolChoiceSpecific {
                kind: "tool".to_string(),
                name: Some(obj.function.name),
                disable_parallel_tool_use: None,
            },
        ),
    }
}

/// Converts an OpenAI chat-completions request into an Anthropic Messages
/// request: the last system message becomes the system prompt, the other
/// messages become Anthropic messages (tool messages become user messages
/// holding a tool result), functions become client tools, and a `json_schema`
/// response format becomes the output format. `max_tokens` falls back to
/// `max_completion_tokens`, then to 4096.
pub fn openai_to_anthropic(request: ChatCompletionRequest) -> (r: AnthropicRequest)
    ensures
        r@ == openai_to_anthropic_spec(request@),
{
    let ghost rv = request@;
    let ChatCompletionRequest {
        model,
        messages: in_messages,
        temperature,
        top_p,
        n: _,
        stream,
        stop,
        max_tokens,
        max_completion_tokens,
        presence_penalty: _,
        frequency_penalty: _,
        logit_bias: _,
        user,
        seed: _,
        tools: in_tools,
        tool_choice: in_tool_choice,
        response_format,
    } = request;
    let ghost mv = rv.messages;
    let mut system: Option<SystemContent> = None;
    let mut messages: Vec<AnthropicMessage> = Vec::new();
    for msg in it: in_messages.into_iter()
        invariant
            mv.len() == it.seq().len(),
            forall|j: int| 0 <= j < mv.len() ==> mv[j] == it.seq()[j].deep_view(),
            messages.deep_view() == non_system_messages(mv.take(it.index() as int)).map_values(
                |m: ChatMessageView| message_o2a(m),
            ),
            system.deep_view() == (match last_system_text(mv.take(it.index() as int)) {
                Some(t) => Some(SystemContentView::Text(t)),
                None => None,
            }),
    {
        let ghost i = it.index() as int;
        let ghost before = messages.deep_view();
        proof {
            let t = mv.take(i + 1);
            assert(t.drop_last() == mv.take(i));
            assert(t.last() == mv[i]);
        }
        if str_eq(msg.role.as_str(), "system") {
            let text = content_to_text(msg.content);
            system = Some(SystemContent::Text(text));
        } else {
            let converted = openai_message_to_anthropic(msg);
            messages.push(converted);
            proof {
                let f = |m: ChatMessageView| message_o2a(m);
                assert(non_system_messages(mv.take(i + 1)) == non_system_messages(mv.take(i)).push(mv[i]));
                assert(non_system_messages(mv.take(i + 1)).map_values(f) == non_system_messages(
                    mv.take(i),
                ).map_values(f).push(message_o2a(mv[i])));
            }
        }
    }
    proof {
        assert(mv.take(mv.len() as int) == mv);
    }
    let tools = match in_tools {
        Some(ts) => {
            let ghost tv = ts.deep_view();
            let mut out: Vec<AnthropicTool> = Vec::new();
            for t in it: ts.into_iter()
                invariant
                    tv.len() == it.seq().len(),
                    forall|j: int| 0 <= j < tv.len() ==> tv[j] == it.seq()[j].deep_view(),
                    out.deep_view() == tv.take(it.index() as int).map_values(|t: ToolView| tool_o2a(t)),
            {
                let converted = openai_tool_to_anthropic(t);
                out.push(converted);
                proof {
                    let i = it.index() as int;
                    let f = |t: ToolView| tool_o2a(t);
                    assert(tv.take(i + 1).map_values(f) == tv.take(i).map_values(f).push(tool_o2a(tv[i])));
                }
            }
            proof {
                assert(tv.take(tv.len() as int) == tv);
            }
            Some(out)
        },
        None => None,
    };
    let tool_choice = match in_tool_choice {
        Some(c) => Some(openai_tool_choice_to_anthropic(c)),
        None => None,
    };
    let output_config = match response_format {
        Some(rf) => {
            if str_eq(rf.kind.as_str(), "json_schema") {
                match rf.json_schema {
                    Some(schema) => Some(OutputConfig { format: OutputFormat::JsonSchema { schema } }),
                    None => None,
                }
            } else {
                None
            }
        },
        None => None,
    };
    let max_tokens = match max_tokens {
        Some(m) => m,
        None => match max_completion_tokens {
            Some(m) => m,
            None => 4096,
        },
    };
    let metadata = match user {
        Some(u) => Some(Metadata { user_id: Some(u) }),
        None => None,
    };
    AnthropicRequest {
        model,
        max_tokens,
        messages,
        system,
        temperature,
        top_p,
        top_k: None,
        stop_sequences: stop,
        stream,
        metadata,
        service_tier: None,
        thinking: None,
        output_config,
        tools,
        tool_choice,
    }
}

// ============================================================================
// Response conversion
// ============================================================================

/// OpenAI finish reasons in Anthropic's terms.
pub open spec fn finish_to_stop(f: Seq<char>) -> Seq<char> {
    if f == "stop"@ {
        "end_turn"@
    } else if f == "length"@ {
        "max_tokens"@
    } else if f == "tool_calls"@ {
        "tool_use"@
    } else {
        f
    }
}

/// Anthropic stop reasons in OpenAI's terms.
pub open spec fn stop_to_finish(s: Seq<char>) -> Seq<char> {
    if s == "end_turn"@ {
        "stop"@
    } else if s == "max_tokens"@ {
        "length"@
    } else if s == "tool_use"@ {
        "tool_calls"@
    } else {
        s
    }
}

/// The blocks of an assistant message in a response: its text (non-empty
/// text, or each text part) and then its tool calls.
pub open spec fn response_message_blocks(m: ChatMessageView) -> Seq<ContentBlockView> {
    (match m.content {
        MessageContentView::Text(t) => if t.len() == 0 {
            seq![]
        } else {
            seq![text_block(t)]
        },
        MessageContentView::Parts(ps) => part_texts(ps).map_values(|t: Seq<char>| text_block(t)),
    }) + match m.tool_calls {
        Some(cs) => cs.map_values(|c: ToolCallView| call_block(c)),
        None => seq![],
    }
}

/// The Anthropic response that an OpenAI response is converted to: the first
/// choice gives the content and the stop reason.
pub open spec fn anthropic_response_from_openai_spec(r: ChatCompletionResponseView) -> AnthropicResponseView {
    AnthropicResponseView {
        id: r.id,
        kind: "message"@,
        role: "assistant"@,
        content: if r.choices.len() > 0 {
            response_message_blocks(r.choices[0].message)
        } else {
            seq![]
        },
        model: r.model,
        stop_reason: if r.choices.len() > 0 {
            match r.choices[0].finish_reason {
                Some(f) => Some(finish_to_stop(f)),
                None => None,
            }
        } else {
            None
        },
        stop_sequence: None,
        usage: AnthropicUsageView {
            input_tokens: r.usage.prompt_tokens,
            output_tokens: r.usage.completion_tokens,
            cache_creation_input_tokens: None,
            cache_read_input_tokens: None,
            service_tier: None,
        },
    }
}

/// The concatenated texts of the text blocks.
pub open spec fn blocks_text(bs: Seq<ContentBlockView>) -> Seq<char>
    decreases bs.len(),
{
    if bs.len() == 0 {
        seq![]
    } else {
        match bs.last() {
            ContentBlockView::Text { text, .. } => blocks_text(bs.drop_last()) + text,
            _ => blocks_text(bs.drop_last()),
        }
    }
}

/// The OpenAI response that an Anthropic response is converted to, created at
/// Unix time `created`.
pub open spec fn openai_response_from_anthropic_spec(r: AnthropicResponseView, created: i64) -> ChatCompletionResponseView {
    ChatCompletionResponseView {
        id: r.id,
        object: "chat.completion"@,
        created,
        model: r.model,
        choices: seq![ChatChoiceView {
            index: 0,
            message: ChatMessageView {
                role: "assistant"@,
                content: MessageContentView::Text(blocks_text(r.content)),
                name: None,
                tool_calls: if blocks_tool_calls(r.content).len() == 0 {
                    None
                } else {
                    Some(blocks_tool_calls(r.content))
                },
                tool_call_id: None,
            },
            finish_reason: match r.stop_reason {
                Some(s) => Some(stop_to_finish(s)),
                None => None,
            },
            logprobs: None,
        }],
        usage: Usage {
            prompt_tokens: r.usage.input_tokens,
            completion_tokens: r.usage.output_tokens,
            total_tokens: (r.usage.input_tokens + r.usage.output_tokens) as i64,
        },
        system_fingerprint: None,
    }
}

fn map_finish_to_stop(f: String) -> (r: String)
    ensures
        r@ == finish_to_stop(f@),
{
    if str_eq(f.as_str(), "stop") {
        "end_turn".to_string()
    } else if str_eq(f.as_str(), "length") {
        "max_tokens".to_string()
    } else if str_eq(f.as_str(), "tool_calls") {
        "tool_use".to_string()
    } else {
        f
    }
}

fn map_stop_to_finish(s: String) -> (r: String)
    ensures
        r@ == stop_to_finish(s@),
{
    if str_eq(s.as_str(), "end_turn") {
        "stop".to_string()
    } else if str_eq(s.as_str(), "max_tokens") {
        "length".to_string()
    } else if str_eq(s.as_str(), "tool_use") {
        "tool_calls".to_string()
    } else {
        s
    }
}

/// Converts an OpenAI chat-completions response into an Anthropic Messages
/// response.
pub fn anthropic_response_from_openai(response: ChatCompletionResponse) -> (r: AnthropicResponse)
    ensures
        r@ == anthropic_response_from_openai_spec(response@),
{
    let ghost rv = response@;
    let ChatCompletionResponse { id, object: _, created: _, model, choices, usage, system_fingerprint: _ } =
        response;
    let mut choices = choices;
    let mut blocks: Vec<ContentBlock> = Vec::new();
    let mut stop_reason: Option<String> = None;
    if choices.len() > 0 {
        let choice = choices.swap_remove(0);
        assert(choice.deep_view() == rv.choices[0]);
        let ChatChoice { index: _, message, finish_reason, logprobs: _ } = choice;
        let ghost mv = message.deep_view();
        let ChatMessage { role: _, content, name: _, tool_calls, tool_call_id: _ } = message;
        match content {
            MessageContent::Text(text) => {
                if text.as_str().is_empty() == false {
                    blocks.push(ContentBlock::Text { text, cache_control: None, citations: None });
                }
            },
            MessageContent::Parts(parts) => {
                let ghost pv = parts.deep_view();
                for part in it: parts.into_iter()
                    invariant
                        pv.len() == it.seq().len(),
                        forall|j: int| 0 <= j < pv.len() ==> pv[j] == it.seq()[j].deep_view(),
                        blocks.deep_view() == part_texts(pv.take(it.index() as int)).map_values(
                            |t: Seq<char>| text_block(t),
                        ),
                {
                    let ghost i = it.index() as int;
                    proof {
                        let t = pv.take(i + 1);
                        assert(t.drop_last() == pv.take(i));
                    }
                    match part {
                        ContentPart::Text { text } => {
                            blocks.push(ContentBlock::Text { text, cache_control: None, citations: None });
                            proof {
                                let f = |t: Seq<char>| text_block(t);
                                assert(part_texts(pv.take(i + 1)) == part_texts(pv.take(i)).push(pv[i]->Text_0));
                                assert(part_texts(pv.take(i + 1)).map_values(f) == part_texts(pv.take(i)).map_values(
                                    f,
                                ).push(text_block(pv[i]->Text_0)));
                            }
                        },
                        _ => {},
                    }
                }
                proof {
                    assert(pv.take(pv.len() as int) == pv);
                }
            },
        }
        let ghost content_part = blocks.deep_view();
        match tool_calls {
            Some(calls) => {
                let ghost cv = calls.deep_view();
                for tc in it: calls.into_iter()
                    invariant
                        cv.len() == it.seq().len(),
                        forall|j: int| 0 <= j < cv.len() ==> cv[j] == it.seq()[j].deep_view(),
                        blocks.deep_view() == content_part + cv.take(it.index() as int).map_values(
                            |c: ToolCallView| call_block(c),
                        ),
                {
                    let parsed = reencode_json(tc.function.arguments.as_str());
                    let block = tool_use_block(tc, parsed);
                    blocks.push(block);
                    proof {
                        let i = it.index() as int;
                        let f = |c: ToolCallView| call_block(c);
                        assert(cv.take(i + 1).map_values(f) == cv.take(i).map_values(f).push(call_block(cv[i])));
                        assert(content_part + cv.take(i + 1).map_values(f) == (content_part + cv.take(
                            i,
                        ).map_values(f)).push(call_block(cv[i])));
                    }
                }
                proof {
                    assert(cv.take(cv.len() as int) == cv);
                }
            },
            None => {
                assert(blocks.deep_view() == content_part + Seq::<ContentBlockView>::empty());
            },
        }
        assert(blocks.deep_view() == response_message_blocks(mv));
        stop_reason = match finish_reason {
            Some(f) => Some(map_finish_to_stop(f)),
            None => None,
        };
    } else {
        assert(blocks.deep_view() =~= Seq::<ContentBlockView>::empty());
    }
    let r = AnthropicResponse {
        id,
        kind: "message".to_string(),
        role: "assistant".to_string(),
        content: blocks,
        model,
        stop_reason,
        stop_sequence: None,
        usage: AnthropicUsage {
            input_tokens: usage.prompt_tokens,
            output_tokens: usage.completion_tokens,
            cache_creation_input_tokens: None,
            cache_read_input_tokens: None,
            service_tier: None,
        },
    };
    assert(r@.content =~= anthropic_response_from_openai_spec(rv).content);
    r
}

/// Converts an Anthropic Messages response into an OpenAI chat-completions
/// response created at Unix time `created`: the texts of the text blocks are
/// concatenated into one assistant message, tool-use blocks become its tool
/// calls.
pub fn openai_response_from_anthropic_at(response: AnthropicResponse, created: i64) -> (r: ChatCompletionResponse)
    requires
        i64::MIN <= response.usage.input_tokens + response.usage.output_tokens <= i64::MAX,
    ensures
        r@ == openai_response_from_anthropic_spec(response@, created),
{
    let ghost rv = response@;
    let AnthropicResponse { id, kind: _, role: _, content, model, stop_reason, stop_sequence: _, usage } =
        response;
    let ghost bv = rv.content;
    let mut text_content = String::new();
    let mut tool_calls: Vec<ToolCall> = Vec::new();
    for block in it: content.into_iter()
        invariant
            bv.len() == it.seq().len(),
            forall|j: int| 0 <= j < bv.len() ==> bv[j] == it.seq()[j].deep_view(),
            text_content@ == blocks_text(bv.take(it.index() as int)),
            tool_calls.deep_view() == blocks_tool_calls(bv.take(it.index() as int)),
    {
        proof {
            let t = bv.take(it.index() + 1);
            assert(t.drop_last() == bv.take(it.index() as int));
            assert(t.last() == bv[it.index() as int]);
        }
        match block {
            ContentBlock::Text { text, .. } => {
                text_content.append(text.as_str());
            },
            ContentBlock::ToolUse { id, name, input } => {
                tool_calls.push(
                    ToolCall {
                        id,
                        kind: "function".to_string(),
                        function: ToolCallFunction { name, arguments: input },
                    },
                );
            },
            _ => {},
        }
    }
    proof {
        assert(bv.take(bv.len() as int) == bv);
    }
    let finish_reason = match stop_reason {
        Some(s) => Some(map_stop_to_finish(s)),
        None => None,
    };
    let tool_calls = if tool_calls.len() == 0 {
        None
    } else {
        Some(tool_calls)
    };
    let mut choices: Vec<ChatChoice> = Vec::new();
    choices.push(
        ChatChoice {
            index: 0,
            message: ChatMessage {
                role: "assistant".to_string(),
                content: MessageContent::Text(text_content),
                name: None,
                tool_calls,
                tool_call_id: None,
            },
            finish_reason,
            logprobs: None,
        },
    );
    let r = ChatCompletionResponse {
        id,
        object: "chat.completion".to_string(),
        created,
        model,
        choices,
        usage: Usage {
            prompt_tokens: usage.input_tokens,
            completion_tokens: usage.output_tokens,
            total_tokens: usage.input_tokens + usage.output_tokens,
        },
        system_fingerprint: None,
    };
    assert(r@.choices =~= openai_response_from_anthropic_spec(rv, created).choices);
    r
}

/// Converts an Anthropic Messages response into an OpenAI chat-completions
/// response stamped with the current time.
pub fn openai_response_from_anthropic(response: AnthropicResponse) -> (r: ChatCompletionResponse)
    requires
        i64::MIN <= response.usage.input_tokens + response.usage.output_tokens <= i64::MAX,
    ensures
        r@ == openai_response_from_anthropic_spec(response@, r.created),
{
    let now = unix_now_secs();
    openai_response_from_anthropic_at(response, now)
}

// ============================================================================
// Streaming conversion: state
// ============================================================================

/// State carried across the chunks or events of one stream while it is
/// converted between formats.
#[derive(Debug, Clone)]
pub struct StreamConversionState {
    pub message_id: String,
    pub model: String,
    pub input_tokens: i64,
    pub output_tokens: i64,
    pub content_index: i32,
    pub sent_message_start: bool,
    pub sent_content_start: bool,
    pub current_tool_index: Option<i32>,
}

pub struct StreamStateView {
    pub message_id: Seq<char>,
    pub model: Seq<char>,
    pub input_tokens: i64,
    pub output_tokens: i64,
    pub content_index: i32,
    pub sent_message_start: bool,
    pub sent_content_start: bool,
    pub current_tool_index: Option<i32>,
}

impl View for StreamConversionState {
    type V = StreamStateView;

    open spec fn view(&self) -> StreamStateView {
        StreamStateView {
            message_id: self.message_id@,
            model: self.model@,
            input_tokens: self.input_tokens,
            output_tokens: self.output_tokens,
            content_index: self.content_index,
            sent_message_start: self.sent_message_start,
            sent_content_start: self.sent_content_start,
            current_tool_index: self.current_tool_index,
        }
    }
}

/// The state at the start of a stream.
pub open spec fn initial_stream_state() -> StreamStateView {
    StreamStateView {
        message_id: seq![],
        model: seq![],
        input_tokens: 0,
        output_tokens: 0,
        content_index: 0,
        sent_message_start: false,
        sent_content_start: false,
        current_tool_index: None,
    }
}

impl Default for StreamConversionState {
    fn default() -> (r: Self)
        ensures
            r@ == initial_stream_state(),
    {
        StreamConversionState {
            message_id: String::new(),
            model: String::new(),
            input_tokens: 0,
            output_tokens: 0,
            content_index: 0,
            sent_message_start: false,
            sent_content_start: false,
            current_tool_index: None,
        }
    }
}

// ============================================================================
// Streaming conversion: OpenAI chunks -> Anthropic events (specification)
// ============================================================================

pub open spec fn stop_event(index: i32) -> AnthropicStreamEventView {
    AnthropicStreamEventView::ContentBlockStop { index }
}

/// Converting one tool-call delta: a new tool index closes the open block and
/// starts a tool-use block (when the delta names the call); argument text
/// becomes an input-JSON delta.
pub open spec fn tool_call_step(st: StreamStateView, tc: DeltaToolCallView) -> (StreamStateView, Seq<AnthropicStreamEventView>) {
    let (s1, e1) = if st.current_tool_index != Some(tc.index) {
        let (s0, e0) = if st.sent_content_start && st.current_tool_index is None {
            (StreamStateView { content_index: (st.content_index + 1) as i32, ..st }, seq![stop_event(st.content_index)])
        } else {
            match st.current_tool_index {
                Some(prev) => (StreamStateView { content_index: (st.content_index + 1) as i32, ..st }, seq![stop_event(prev)]),
                None => (st, seq![]),
            }
        };
        let s0b = StreamStateView { current_tool_index: Some(tc.index), ..s0 };
        let e_start = match (tc.id, tc.function) {
            (Some(id), Some((Some(name), _))) => seq![AnthropicStreamEventView::ContentBlockStart {
                index: s0b.content_index,
                block: ContentBlockStartView::ToolUse { id, name, input: "{}"@ },
            }],
            _ => seq![],
        };
        (s0b, e0 + e_start)
    } else {
        (st, seq![])
    };
    let e2 = match tc.function {
        Some((_, Some(args))) => seq![AnthropicStreamEventView::ContentBlockDelta {
            index: s1.content_index,
            delta: StreamDeltaView::InputJsonDelta(args),
        }],
        _ => seq![],
    };
    (s1, e1 + e2)
}

pub open spec fn tool_calls_step(st: StreamStateView, tcs: Seq<DeltaToolCallView>) -> (StreamStateView, Seq<AnthropicStreamEventView>)
    decreases tcs.len(),
{
    if tcs.len() == 0 {
        (st, seq![])
    } else {
        let (s1, e1) = tool_calls_step(st, tcs.drop_last());
        let (s2, e2) = tool_call_step(s1, tcs.last());
        (s2, e1 + e2)
    }
}

/// Converting a finish reason: the open block is closed, the usage of the
/// chunk (if any) is recorded, and the message delta and stop are emitted.
pub open spec fn finish_step(st: StreamStateView, finish: Seq<char>, usage: Option<Usage>) -> (StreamStateView, Seq<AnthropicStreamEventView>) {
    let e1 = if st.sent_content_start || st.current_tool_index is Some {
        seq![stop_event(st.content_index)]
    } else {
        seq![]
    };
    let s1 = match usage {
        Some(u) => StreamStateView { input_tokens: u.prompt_tokens, output_tokens: u.completion_tokens, ..st },
        None => st,
    };
    (s1, e1 + seq![
        AnthropicStreamEventView::MessageDelta {
            stop_reason: Some(finish_to_stop(finish)),
            stop_sequence: None,
            usage: Some(StreamUsage {
                input_tokens: s1.input_tokens,
                output_tokens: s1.output_tokens,
                cache_creation_input_tokens: None,
                cache_read_input_tokens: None,
            }),
        },
        AnthropicStreamEventView::MessageStop,
    ])
}

pub open spec fn choice_step(st: StreamStateView, ch: ChunkChoiceView, usage: Option<Usage>) -> (StreamStateView, Seq<AnthropicStreamEventView>) {
    let (s1, e1) = match ch.delta.content {
        Some(text) => if !st.sent_content_start {
            (StreamStateView { sent_content_start: true, ..st }, seq![
                AnthropicStreamEventView::ContentBlockStart {
                    index: st.content_index,
                    block: ContentBlockStartView::Text(seq![]),
                },
                AnthropicStreamEventView::ContentBlockDelta {
                    index: st.content_index,
                    delta: StreamDeltaView::TextDelta(text),
                },
            ])
        } else {
            (st, seq![AnthropicStreamEventView::ContentBlockDelta {
                index: st.content_index,
                delta: StreamDeltaView::TextDelta(text),
            }])
        },
        None => (st, seq![]),
    };
    let (s2, e2) = match ch.delta.tool_calls {
        Some(tcs) => tool_calls_step(s1, tcs),
        None => (s1, seq![]),
    };
    let (s3, e3) = match ch.finish_reason {
        Some(f) => finish_step(s2, f, usage),
        None => (s2, seq![]),
    };
    (s3, e1 + e2 + e3)
}

pub open spec fn choices_step(st: StreamStateView, chs: Seq<ChunkChoiceView>, usage: Option<Usage>) -> (StreamStateView, Seq<AnthropicStreamEventView>)
    decreases chs.len(),
{
    if chs.len() == 0 {
        (st, seq![])
    } else {
        let (s1, e1) = choices_step(st, chs.drop_last(), usage);
        let (s2, e2) = choice_step(s1, chs.last(), usage);
        (s2, e1 + e2)
    }
}

/// The message-start event announced before the first content.
pub open spec fn message_start_event(st: StreamStateView) -> AnthropicStreamEventView {
    AnthropicStreamEventView::MessageStart(MessageStartView {
        id: st.message_id,
        kind: "message"@,
        role: "assistant"@,
        content: seq![],
        model: st.model,
        stop_reason: None,
        stop_sequence: None,
        usage: StreamUsage {
            input_tokens: st.input_tokens,
            output_tokens: 0,
            cache_creation_input_tokens: None,
            cache_read_input_tokens: None,
        },
    })
}

/// The state after, and the Anthropic events for, one OpenAI chunk: the first
/// chunk fixes the message id and model and announces the message.
pub open spec fn chunk_to_events_spec(st: StreamStateView, c: ChatCompletionChunkView) -> (StreamStateView, Seq<AnthropicStreamEventView>) {
    let st1 = StreamStateView {
        message_id: if st.message_id.len() == 0 {
            c.id
        } else {
            st.message_id
        },
        model: if st.model.len() == 0 {
            c.model
        } else {
            st.model
        },
        ..st
    };
    let (st2, e1) = if !st1.sent_message_start {
        (StreamStateView { sent_message_start: true, ..st1 }, seq![message_start_event(st1)])
    } else {
        (st1, seq![])
    };
    let (st3, e2) = choices_step(st2, c.choices, c.usage);
    (st3, e1 + e2)
}

/// The number of tool-call deltas in the choices.
pub open spec fn choices_call_count(chs: Seq<ChunkChoiceView>) -> int
    decreases chs.len(),
{
    if chs.len() == 0 {
        0
    } else {
        choices_call_count(chs.drop_last()) + match chs.last().delta.tool_calls {
            Some(tcs) => tcs.len() as int,
            None => 0,
        }
    }
}

/// None of `events` announces a message.
pub open spec fn no_message_start(events: Seq<AnthropicStreamEventView>) -> bool {
    forall|i: int| 0 <= i < events.len() ==> !(#[trigger] events[i] is MessageStart)
}

proof fn lemma_tool_calls_keep_message(st: StreamStateView, tcs: Seq<DeltaToolCallView>)
    ensures
        no_message_start(tool_calls_step(st, tcs).1),
        tool_calls_step(st, tcs).0.sent_message_start == st.sent_message_start,
        tool_calls_step(st, tcs).0.message_id == st.message_id,
        tool_calls_step(st, tcs).0.model == st.model,
    decreases tcs.len(),
{
    if tcs.len() > 0 {
        lemma_tool_calls_keep_message(st, tcs.drop_last());
        let (s1, e1) = tool_calls_step(st, tcs.drop_last());
        let (s2, e2) = tool_call_step(s1, tcs.last());
        assert(no_message_start(e2));
        assert(no_message_start(e1 + e2)) by {
            assert forall|i: int| 0 <= i < (e1 + e2).len() implies !(#[trigger] (e1 + e2)[i] is MessageStart) by {
                if i < e1.len() {
                    assert((e1 + e2)[i] == e1[i]);
                } else {
                    assert((e1 + e2)[i] == e2[i - e1.len()]);
                }
            }
        }
    }
}

proof fn lemma_choices_keep_message(st: StreamStateView, chs: Seq<ChunkChoiceView>, usage: Option<Usage>)
    ensures
        no_message_start(choices_step(st, chs, usage).1),
        choices_step(st, chs, usage).0.sent_message_start == st.sent_message_start,
        choices_step(st, chs, usage).0.message_id == st.message_id,
        choices_step(st, chs, usage).0.model == st.model,
    decreases chs.len(),
{
    if chs.len() > 0 {
        lemma_choices_keep_message(st, chs.drop_last(), usage);
        let (s1, e1) = choices_step(st, chs.drop_last(), usage);
        let ch = chs.last();
        let (a1, x1) = match ch.delta.content {
            Some(text) => if !s1.sent_content_start {
                (StreamStateView { sent_content_start: true, ..s1 }, seq![
                    AnthropicStreamEventView::ContentBlockStart {
                        index: s1.content_index,
                        block: ContentBlockStartView::Text(seq![]),
                    },
                    AnthropicStreamEventView::ContentBlockDelta {
                        index: s1.content_index,
                        delta: StreamDeltaView::TextDelta(text),
                    },
                ])
            } else {
                (s1, seq![AnthropicStreamEventView::ContentBlockDelta {
                    index: s1.content_index,
                    delta: StreamDeltaView::TextDelta(text),
                }])
            },
            None => (s1, seq![]),
        };
        match ch.delta.tool_calls {
            Some(tcs) => lemma_tool_calls_keep_message(a1, tcs),
            None => {},
        }
        let (s2, e2) = choice_step(s1, ch, usage);
        assert(no_message_start(e2)) by {
            let (a2, x2) = match ch.delta.tool_calls {
                Some(tcs) => tool_calls_step(a1, tcs),
                None => (a1, seq![]),
            };
            let (a3, x3) = match ch.finish_reason {
                Some(f) => finish_step(a2, f, usage),
                None => (a2, seq![]),
            };
            assert(e2 == x1 + x2 + x3);
            assert forall|i: int| 0 <= i < e2.len() implies !(#[trigger] e2[i] is MessageStart) by {
                if i < x1.len() {
                    assert(e2[i] == x1[i]);
                } else if i < x1.len() + x2.len() {
                    assert(e2[i] == x2[i - x1.len()]);
                } else {
                    assert(e2[i] == x3[i - x1.len() - x2.len()]);
                }
            }
        }
        assert(no_message_start(e1 + e2)) by {
            assert forall|i: int| 0 <= i < (e1 + e2).len() implies !(#[trigger] (e1 + e2)[i] is MessageStart) by {
                if i < e1.len() {
                    assert((e1 + e2)[i] == e1[i]);
                } else {
                    assert((e1 + e2)[i] == e2[i - e1.len()]);
                }
            }
        }
    }
}

/// A converted stream announces its message exactly once: the events of the
/// first chunk open with the message start and have no other; after it, no
/// chunk's events have one. The message id and model, once known, stay.
pub proof fn law_message_start_once(st: StreamStateView, c: ChatCompletionChunkView)
    ensures
        chunk_to_events_spec(st, c).0.sent_message_start,
        st.sent_message_start ==> no_message_start(chunk_to_events_spec(st, c).1),
        !st.sent_message_start ==> {
            &&& chunk_to_events_spec(st, c).1.len() > 0
            &&& chunk_to_events_spec(st, c).1[0] is MessageStart
            &&& no_message_start(chunk_to_events_spec(st, c).1.drop_first())
        },
        st.message_id.len() > 0 ==> chunk_to_events_spec(st, c).0.message_id == st.message_id,
        st.model.len() > 0 ==> chunk_to_events_spec(st, c).0.model == st.model,
{
    let st1 = StreamStateView {
        message_id: if st.message_id.len() == 0 { c.id } else { st.message_id },
        model: if st.model.len() == 0 { c.model } else { st.model },
        ..st
    };
    let st2 = if !st1.sent_message_start { StreamStateView { sent_message_start: true, ..st1 } } else { st1 };
    lemma_choices_keep_message(st2, c.choices, c.usage);
    let (st3, e2) = choices_step(st2, c.choices, c.usage);
    if !st.sent_message_start {
        let events = seq![message_start_event(st1)] + e2;
        assert(events.drop_first() =~= e2);
    } else {
        assert(seq![] + e2 =~= e2);
    }
}

/// The state after, and all the events for, a stream of OpenAI chunks
/// converted in order from state `st`.
pub open spec fn stream_to_events(st: StreamStateView, cs: Seq<ChatCompletionChunkView>) -> (StreamStateView, Seq<AnthropicStreamEventView>)
    decreases cs.len(),
{
    if cs.len() == 0 {
        (st, seq![])
    } else {
        let (s1, e1) = stream_to_events(st, cs.drop_last());
        let (s2, e2) = chunk_to_events_spec(s1, cs.last());
        (s2, e1 + e2)
    }
}

proof fn lemma_stream_start_once(st: StreamStateView, cs: Seq<ChatCompletionChunkView>)
    requires
        cs.len() > 0,
        !st.sent_message_start,
    ensures
        stream_to_events(st, cs).0.sent_message_start,
        stream_to_events(st, cs).1.len() > 0,
        stream_to_events(st, cs).1[0] == chunk_to_events_spec(st, cs[0]).1[0],
        no_message_start(stream_to_events(st, cs).1.drop_first()),
    decreases cs.len(),
{
    law_message_start_once(st, cs[0]);
    if cs.len() == 1 {
        assert(cs.drop_last() =~= Seq::<ChatCompletionChunkView>::empty());
        assert(stream_to_events(st, cs.drop_last()) == (st, Seq::<AnthropicStreamEventView>::empty()));
        assert(cs.last() == cs[0]);
        let e2 = chunk_to_events_spec(st, cs[0]).1;
        assert(Seq::<AnthropicStreamEventView>::empty() + e2 =~= e2);
    } else {
        let init = cs.drop_last();
        lemma_stream_start_once(st, init);
        assert(init[0] == cs[0]);
        let (s1, e1) = stream_to_events(st, init);
        law_message_start_once(s1, cs.last());
        let e2 = chunk_to_events_spec(s1, cs.last()).1;
        assert((e1 + e2)[0] == e1[0]);
        assert((e1 + e2).drop_first() =~= e1.drop_first() + e2);
        assert forall|i: int| 0 <= i < (e1.drop_first() + e2).len() implies !(#[trigger] (e1.drop_first() + e2)[i] is MessageStart) by {
            if i < e1.drop_first().len() {
                assert((e1.drop_first() + e2)[i] == e1.drop_first()[i]);
            } else {
                assert((e1.drop_first() + e2)[i] == e2[i - e1.drop_first().len()]);
            }
        }
    }
}

/// Converting a whole OpenAI stream from the start announces the message
/// exactly once: all the events open with the message start, carrying the
/// first chunk's id and model, and none after it is a message start.
pub proof fn law_stream_message_start_once(cs: Seq<ChatCompletionChunkView>)
    requires
        cs.len() > 0,
    ensures
        stream_to_events(initial_stream_state(), cs).1.len() > 0,
        stream_to_events(initial_stream_state(), cs).1[0] == message_start_event(
            StreamStateView { message_id: cs[0].id, model: cs[0].model, ..initial_stream_state() },
        ),
        no_message_start(stream_to_events(initial_stream_state(), cs).1.drop_first()),
{
    let st = initial_stream_state();
    lemma_stream_start_once(st, cs);
    let st1 = StreamStateView { message_id: cs[0].id, model: cs[0].model, ..st };
    let (st3, e2) = choices_step(StreamStateView { sent_message_start: true, ..st1 }, cs[0].choices, cs[0].usage);
    assert((seq![message_start_event(st1)] + e2)[0] == message_start_event(st1));
}

// ============================================================================
// Streaming conversion: OpenAI chunks -> Anthropic events (implementation)
// ============================================================================

fn emit_tool_call(state: &mut StreamConversionState, tc: DeltaToolCall, events: &mut Vec<AnthropicStreamEvent>)
    requires
        old(state).content_index < i32::MAX,
    ensures
        final(state)@ == tool_call_step(old(state)@, tc.deep_view()).0,
        final(events).deep_view() == old(events).deep_view() + tool_call_step(old(state)@, tc.deep_view()).1,
        old(state).content_index <= final(state).content_index <= old(state).content_index + 1,
{
    let ghost tcv = tc.deep_view();
    let DeltaToolCall { index: tool_index, id, kind: _, function } = tc;
    if state.current_tool_index != Some(tool_index) {
        if state.sent_content_start && state.current_tool_index.is_none() {
            events.push(AnthropicStreamEvent::ContentBlockStop { index: state.content_index });
            state.content_index = state.content_index + 1;
        } else {
            match state.current_tool_index {
                Some(prev_idx) => {
                    events.push(AnthropicStreamEvent::ContentBlockStop { index: prev_idx });
                    state.content_index = state.content_index + 1;
                },
                None => {},
            }
        }
        state.current_tool_index = Some(tool_index);
        let name = match &function {
            Some(f) => match &f.name {
                Some(n) => Some(n.clone()),
                None => None,
            },
            None => None,
        };
        match (id, name) {
            (Some(id), Some(name)) => {
                events.push(
                    AnthropicStreamEvent::ContentBlockStart {
                        index: state.content_index,
                        content_block: ContentBlockStartData::ToolUse { id, name, input: "{}".to_string() },
                    },
                );
            },
            _ => {},
        }
    }
    match function {
        Some(func) => match func.arguments {
            Some(args) => {
                events.push(
                    AnthropicStreamEvent::ContentBlockDelta {
                        index: state.content_index,
                        delta: StreamDelta::InputJsonDelta { partial_json: args },
                    },
                );
            },
            None => {},
        },
        None => {},
    }
    proof {
        let (s, e) = tool_call_step(old(state)@, tcv);
        assert(events.deep_view() =~= old(events).deep_view() + e);
    }
}

fn emit_text(state: &mut StreamConversionState, content: Option<String>, events: &mut Vec<AnthropicStreamEvent>)
    ensures
        final(state)@ == (match content.deep_view() {
            Some(text) => if !old(state)@.sent_content_start {
                StreamStateView { sent_content_start: true, ..old(state)@ }
            } else {
                old(state)@
            },
            None => old(state)@,
        }),
        final(events).deep_view() == old(events).deep_view() + (match content.deep_view() {
            Some(text) => if !old(state)@.sent_content_start {
                seq![
                    AnthropicStreamEventView::ContentBlockStart {
                        index: old(state)@.content_index,
                        block: ContentBlockStartView::Text(seq![]),
                    },
                    AnthropicStreamEventView::ContentBlockDelta {
                        index: old(state)@.content_index,
                        delta: StreamDeltaView::TextDelta(text),
                    },
                ]
            } else {
                seq![AnthropicStreamEventView::ContentBlockDelta {
                    index: old(state)@.content_index,
                    delta: StreamDeltaView::TextDelta(text),
                }]
            },
            None => seq![],
        }),
{
    match content {
        Some(text) => {
            if !state.sent_content_start {
                state.sent_content_start = true;
                events.push(
                    AnthropicStreamEvent::ContentBlockStart {
                        index: state.content_index,
                        content_block: ContentBlockStartData::Text { text: String::new() },
                    },
                );
            }
            events.push(
                AnthropicStreamEvent::ContentBlockDelta {
                    index: state.content_index,
                    delta: StreamDelta::TextDelta { text },
                },
            );
            assert(events.deep_view() =~= old(events).deep_view() + (if !old(state)@.sent_content_start {
                seq![
                    AnthropicStreamEventView::ContentBlockStart {
                        index: old(state)@.content_index,
                        block: ContentBlockStartView::Text(seq![]),
                    },
                    AnthropicStreamEventView::ContentBlockDelta {
                        index: old(state)@.content_index,
                        delta: StreamDeltaView::TextDelta(content.deep_view()->Some_0),
                    },
                ]
            } else {
                seq![AnthropicStreamEventView::ContentBlockDelta {
                    index: old(state)@.content_index,
                    delta: StreamDeltaView::TextDelta(content.deep_view()->Some_0),
                }]
            }));
        },
        None => {
            assert(events.deep_view() =~= old(events).deep_view() + Seq::<AnthropicStreamEventView>::empty());
        },
    }
}

fn emit_tool_calls(state: &mut StreamConversionState, tcs: Vec<DeltaToolCall>, events: &mut Vec<AnthropicStreamEvent>)
    requires
        old(state).content_index + tcs.len() < i32::MAX,
    ensures
        final(state)@ == tool_calls_step(old(state)@, tcs.deep_view()).0,
        final(events).deep_view() == old(events).deep_view() + tool_calls_step(old(state)@, tcs.deep_view()).1,
        old(state).content_index <= final(state).content_index <= old(state).content_index + tcs.len(),
{
    let ghost st1 = state@;
    let ghost ev1 = events.deep_view();
    let ghost tv = tcs.deep_view();
    for tc in it: tcs.into_iter()
        invariant
            tv.len() == it.seq().len(),
            forall|j: int| 0 <= j < tv.len() ==> tv[j] == it.seq()[j].deep_view(),
            state@ == tool_calls_step(st1, tv.take(it.index() as int)).0,
            events.deep_view() == ev1 + tool_calls_step(st1, tv.take(it.index() as int)).1,
            st1.content_index <= state.content_index <= st1.content_index + it.index(),
            st1.content_index + tv.len() < i32::MAX,
    {
        let ghost i = it.index() as int;
        proof {
            let t = tv.take(i + 1);
            assert(t.drop_last() == tv.take(i));
            assert(t.last() == tv[i]);
        }
        emit_tool_call(state, tc, events);
        proof {
            let (s_a, e_a) = tool_calls_step(st1, tv.take(i));
            let (s_b, e_b) = tool_call_step(s_a, tv[i]);
            assert(events.deep_view() =~= ev1 + (e_a + e_b));
        }
    }
    proof {
        assert(tv.take(tv.len() as int) == tv);
    }
}

fn emit_finish(
    state: &mut StreamConversionState,
    finish_reason: String,
    usage: Option<Usage>,
    events: &mut Vec<AnthropicStreamEvent>,
)
    ensures
        final(state)@ == finish_step(old(state)@, finish_reason@, usage).0,
        final(events).deep_view() == old(events).deep_view() + finish_step(old(state)@, finish_reason@, usage).1,
        final(state).content_index == old(state).content_index,
{
    if state.sent_content_start || state.current_tool_index.is_some() {
        events.push(AnthropicStreamEvent::ContentBlockStop { index: state.content_index });
    }
    let stop_reason = map_finish_to_stop(finish_reason);
    match usage {
        Some(u) => {
            state.input_tokens = u.prompt_tokens;
            state.output_tokens = u.completion_tokens;
        },
        None => {},
    }
    events.push(
        AnthropicStreamEvent::MessageDelta {
            delta: MessageDeltaData { stop_reason: Some(stop_reason), stop_sequence: None },
            usage: Some(
                StreamUsage {
                    input_tokens: state.input_tokens,
                    output_tokens: state.output_tokens,
                    cache_creation_input_tokens: None,
                    cache_read_input_tokens: None,
                },
            ),
        },
    );
    events.push(AnthropicStreamEvent::MessageStop);
    proof {
        let (s3, e3) = finish_step(old(state)@, finish_reason@, usage);
        assert(events.deep_view() =~= old(events).deep_view() + e3);
    }
}

#[verifier::spinoff_prover]
#[verifier::rlimit(40)]
fn emit_choice(
    state: &mut StreamConversionState,
    choice: ChunkChoice,
    usage: Option<Usage>,
    events: &mut Vec<AnthropicStreamEvent>,
)
    requires
        old(state).content_index + match choice.deep_view().delta.tool_calls {
            Some(tcs) => tcs.len() as int,
            None => 0,
        } < i32::MAX,
    ensures
        final(state)@ == choice_step(old(state)@, choice.deep_view(), usage).0,
        final(events).deep_view() == old(events).deep_view() + choice_step(old(state)@, choice.deep_view(), usage).1,
        old(state).content_index <= final(state).content_index <= old(state).content_index + match choice.deep_view().delta.tool_calls {
            Some(tcs) => tcs.len() as int,
            None => 0,
        },
{
    let ghost cv = choice.deep_view();
    let ghost ev0 = events.deep_view();
    let ChunkChoice { index: _, delta, finish_reason, logprobs: _ } = choice;
    let Delta { role: _, content, tool_calls } = delta;
    emit_text(state, content, events);
    let ghost ev1 = events.deep_view();
    match tool_calls {
        Some(tcs) => {
            emit_tool_calls(state, tcs, events);
        },
        None => {
            assert(events.deep_view() =~= ev1 + Seq::<AnthropicStreamEventView>::empty());
        },
    }
    let ghost ev2 = events.deep_view();
    match finish_reason {
        Some(f) => {
            emit_finish(state, f, usage, events);
        },
        None => {
            assert(events.deep_view() =~= ev2 + Seq::<AnthropicStreamEventView>::empty());
        },
    }
    proof {
        assert(events.deep_view() =~= ev0 + (ev1.skip(ev0.len() as int) + ev2.skip(ev1.len() as int) + events.deep_view().skip(ev2.len() as int)));
    }
}

/// Converts one OpenAI stream chunk into the Anthropic stream events it
/// stands for, updating the conversion state (the message id and model are
/// fixed by the first chunk, `message_start` is sent once, text and tool-call
/// deltas open, fill and close content blocks, and a finish reason ends the
/// message).
pub fn openai_chunk_to_anthropic_events(chunk: ChatCompletionChunk, state: &mut StreamConversionState) -> (r: Vec<AnthropicStreamEvent>)
    requires
        old(state).content_index + choices_call_count(chunk@.choices) < i32::MAX,
    ensures
        (final(state)@, r.deep_view()) == chunk_to_events_spec(old(state)@, chunk@),
{
    let ghost c = chunk@;
    let mut events: Vec<AnthropicStreamEvent> = Vec::new();
    let ChatCompletionChunk { id, object: _, created: _, model, choices, system_fingerprint: _, usage } = chunk;
    if state.message_id.as_str().is_empty() {
        state.message_id = id;
    }
    if state.model.as_str().is_empty() {
        state.model = model;
    }
    let ghost st1 = state@;
    if !state.sent_message_start {
        state.sent_message_start = true;
        let message = MessageStartData {
            id: state.message_id.clone(),
            kind: "message".to_string(),
            role: "assistant".to_string(),
            content: Vec::new(),
            model: state.model.clone(),
            stop_reason: None,
            stop_sequence: None,
            usage: StreamUsage {
                input_tokens: state.input_tokens,
                output_tokens: 0,
                cache_creation_input_tokens: None,
                cache_read_input_tokens: None,
            },
        };
        assert(message.content.deep_view() =~= Seq::<ContentBlockView>::empty());
        assert(AnthropicStreamEventView::MessageStart(message.deep_view()) == message_start_event(st1));
        events.push(AnthropicStreamEvent::MessageStart { message });
    }
    let ghost st2 = state@;
    let ghost ev1 = events.deep_view();
    proof {
        let st = old(state)@;
        let st1 = StreamStateView {
            message_id: if st.message_id.len() == 0 { c.id } else { st.message_id },
            model: if st.model.len() == 0 { c.model } else { st.model },
            ..st
        };
        if !st1.sent_message_start {
            assert(ev1 =~= seq![message_start_event(st1)]);
        } else {
            assert(ev1 =~= Seq::<AnthropicStreamEventView>::empty());
        }
    }
    let ghost chv = c.choices;
    for choice in it: choices.into_iter()
        invariant
            chv.len() == it.seq().len(),
            forall|j: int| 0 <= j < chv.len() ==> chv[j] == it.seq()[j].deep_view(),
            state@ == choices_step(st2, chv.take(it.index() as int), usage).0,
            events.deep_view() == ev1 + choices_step(st2, chv.take(it.index() as int), usage).1,
            st2.content_index <= state.content_index <= st2.content_index + choices_call_count(chv.take(it.index() as int)),
            st2.content_index + choices_call_count(chv) < i32::MAX,
    {
        let ghost i = it.index() as int;
        proof {
            let t = chv.take(i + 1);
            assert(t.drop_last() == chv.take(i));
            assert(t.last() == chv[i]);
            lemma_call_count_prefix(chv, i + 1);
        }
        emit_choice(state, choice, usage, &mut events);
        proof {
            let (s_a, e_a) = choices_step(st2, chv.take(i), usage);
            let (s_b, e_b) = choice_step(s_a, chv[i], usage);
            assert(events.deep_view() =~= ev1 + (e_a + e_b));
        }
    }
    proof {
        assert(chv.take(chv.len() as int) == chv);
    }
    events
}

proof fn lemma_call_count_prefix(chs: Seq<ChunkChoiceView>, k: int)
    requires
        0 <= k <= chs.len(),
    ensures
        choices_call_count(chs.take(k)) <= choices_call_count(chs),
    decreases chs.len(),
{
    if k < chs.len() {
        assert(chs.drop_last().take(k) == chs.take(k));
        lemma_call_count_prefix(chs.drop_last(), k);
    } else {
        assert(chs.take(k) == chs);
    }
}

// ============================================================================
// Streaming conversion: Anthropic events -> OpenAI chunks
// ============================================================================

/// A one-choice chunk of the stream identified by `id` and `model`.
pub open spec fn chunk_view(
    id: Seq<char>,
    model: Seq<char>,
    created: i64,
    delta: DeltaView,
    finish_reason: Option<Seq<char>>,
    usage: Option<Usage>,
) -> ChatCompletionChunkView {
    ChatCompletionChunkView {
        id,
        object: "chat.completion.chunk"@,
        created,
        model,
        choices: seq![ChunkChoiceView { index: 0, delta, finish_reason, logprobs: None }],
        system_fingerprint: None,
        usage,
    }
}

pub open spec fn content_delta(text: Seq<char>) -> DeltaView {
    DeltaView { role: None, content: Some(text), tool_calls: None }
}

pub open spec fn tool_start_delta(index: i32, id: Seq<char>, name: Seq<char>) -> DeltaView {
    DeltaView {
        role: None,
        content: None,
        tool_calls: Some(seq![DeltaToolCallView {
            index,
            id: Some(id),
            kind: Some("function"@),
            function: Some((Some(name), None)),
        }]),
    }
}

pub open spec fn tool_args_delta(index: i32, args: Seq<char>) -> DeltaView {
    DeltaView {
        role: None,
        content: None,
        tool_calls: Some(seq![DeltaToolCallView { index, id: None, kind: None, function: Some((None, Some(args))) }]),
    }
}

pub open spec fn empty_delta() -> DeltaView {
    DeltaView { role: None, content: None, tool_calls: None }
}

pub open spec fn role_delta() -> DeltaView {
    DeltaView { role: Some("assistant"@), content: None, tool_calls: None }
}

/// The state after, and the OpenAI chunk (if any) for, one Anthropic event,
/// at Unix time `now`.
pub open spec fn event_to_chunk_spec(st: StreamStateView, e: AnthropicStreamEventView, now: i64) -> (StreamStateView, Option<ChatCompletionChunkView>) {
    match e {
        AnthropicStreamEventView::MessageStart(m) => {
            let s1 = StreamStateView { message_id: m.id, model: m.model, input_tokens: m.usage.input_tokens, ..st };
            (s1, Some(chunk_view(s1.message_id, s1.model, now, role_delta(), None, None)))
        },
        AnthropicStreamEventView::ContentBlockStart { index, block } => match block {
            ContentBlockStartView::Text(t) => if t.len() > 0 {
                (st, Some(chunk_view(st.message_id, st.model, now, content_delta(t), None, None)))
            } else {
                (st, None)
            },
            ContentBlockStartView::ToolUse { id, name, .. } => (
                st,
                Some(chunk_view(st.message_id, st.model, now, tool_start_delta(index, id, name), None, None)),
            ),
            _ => (st, None),
        },
        AnthropicStreamEventView::ContentBlockDelta { index, delta } => match delta {
            StreamDeltaView::TextDelta(t) => (st, Some(chunk_view(st.message_id, st.model, now, content_delta(t), None, None))),
            StreamDeltaView::InputJsonDelta(p) => (
                st,
                Some(chunk_view(st.message_id, st.model, now, tool_args_delta(index, p), None, None)),
            ),
            _ => (st, None),
        },
        AnthropicStreamEventView::MessageDelta { stop_reason, usage, .. } => {
            let s1 = match usage {
                Some(u) => StreamStateView { output_tokens: u.output_tokens, ..st },
                None => st,
            };
            match stop_reason {
                Some(r) => (s1, Some(chunk_view(
                    s1.message_id,
                    s1.model,
                    now,
                    empty_delta(),
                    Some(stop_to_finish(r)),
                    Some(Usage {
                        prompt_tokens: s1.input_tokens,
                        completion_tokens: s1.output_tokens,
                        total_tokens: (s1.input_tokens + s1.output_tokens) as i64,
                    }),
                ))),
                None => (s1, None),
            }
        },
        _ => (st, None),
    }
}

/// The token total reported at the end of the message fits in an `i64`.
pub open spec fn event_total_fits(st: StreamStateView, e: AnthropicStreamEventView) -> bool {
    match e {
        AnthropicStreamEventView::MessageDelta { stop_reason: Some(_), usage, .. } => {
            let out = match usage {
                Some(u) => u.output_tokens,
                None => st.output_tokens,
            };
            i64::MIN <= st.input_tokens + out <= i64::MAX
        },
        _ => true,
    }
}

pub fn make_chunk(
    id: &String,
    model: &String,
    created: i64,
    delta: Delta,
    finish_reason: Option<String>,
    usage: Option<Usage>,
) -> (r: ChatCompletionChunk)
    ensures
        r@ == chunk_view(id@, model@, created, delta.deep_view(), finish_reason.deep_view(), usage),
{
    let mut choices: Vec<ChunkChoice> = Vec::new();
    choices.push(ChunkChoice { index: 0, delta, finish_reason, logprobs: None });
    let r = ChatCompletionChunk {
        id: id.clone(),
        object: "chat.completion.chunk".to_string(),
        created,
        model: model.clone(),
        choices,
        system_fingerprint: None,
        usage,
    };
    assert(r@.choices =~= seq![ChunkChoiceView {
        index: 0,
        delta: delta.deep_view(),
        finish_reason: finish_reason.deep_view(),
        logprobs: None,
    }]);
    r
}

pub fn content_delta_of(text: String) -> (r: Delta)
    ensures
        r.deep_view() == content_delta(text@),
{
    Delta { role: None, content: Some(text), tool_calls: None }
}

pub fn tool_start_delta_of(index: i32, id: String, name: String) -> (r: Delta)
    ensures
        r.deep_view() == tool_start_delta(index, id@, name@),
{
    let mut calls: Vec<DeltaToolCall> = Vec::new();
    calls.push(
        DeltaToolCall {
            index,
            id: Some(id),
            kind: Some("function".to_string()),
            function: Some(DeltaToolCallFunction { name: Some(name), arguments: None }),
        },
    );
    let r = Delta { role: None, content: None, tool_calls: Some(calls) };
    assert(r.deep_view().tool_calls->Some_0 =~= tool_start_delta(index, id@, name@).tool_calls->Some_0);
    r
}

pub fn tool_args_delta_of(index: i32, args: String) -> (r: Delta)
    ensures
        r.deep_view() == tool_args_delta(index, args@),
{
    let mut calls: Vec<DeltaToolCall> = Vec::new();
    calls.push(
        DeltaToolCall {
            index,
            id: None,
            kind: None,
            function: Some(DeltaToolCallFunction { name: None, arguments: Some(args) }),
        },
    );
    let r = Delta { role: None, content: None, tool_calls: Some(calls) };
    assert(r.deep_view().tool_calls->Some_0 =~= tool_args_delta(index, args@).tool_calls->Some_0);
    r
}

pub fn role_delta_of() -> (r: Delta)
    ensures
        r.deep_view() == role_delta(),
{
    Delta { role: Some("assistant".to_string()), content: None, tool_calls: None }
}

/// Converts one Anthropic stream event into the OpenAI chunk it stands for
/// (if any) at Unix time `now`, updating the conversion state: the message
/// start fixes the id, model and input tokens; text and tool-use blocks and
/// deltas become content and tool-call deltas; the message delta records the
/// output tokens and, with a stop reason, ends the stream with the usage.
pub fn anthropic_event_to_openai_chunk_at(
    event: AnthropicStreamEvent,
    state: &mut StreamConversionState,
    now: i64,
) -> (r: Option<ChatCompletionChunk>)
    requires
        event_total_fits(old(state)@, event.deep_view()),
    ensures
        (final(state)@, r.deep_view()) == event_to_chunk_spec(old(state)@, event.deep_view(), now),
{
    match event {
        AnthropicStreamEvent::MessageStart { message } => {
            state.message_id = message.id;
            state.model = message.model;
            state.input_tokens = message.usage.input_tokens;
            Some(make_chunk(&state.message_id, &state.model, now, role_delta_of(), None, None))
        },
        AnthropicStreamEvent::ContentBlockStart { index, content_block } => match content_block {
            ContentBlockStartData::Text { text } => {
                if !text.as_str().is_empty() {
                    Some(make_chunk(&state.message_id, &state.model, now, content_delta_of(text), None, None))
                } else {
                    None
                }
            },
            ContentBlockStartData::ToolUse { id, name, .. } => Some(
                make_chunk(&state.message_id, &state.model, now, tool_start_delta_of(index, id, name), None, None),
            ),
            _ => None,
        },
        AnthropicStreamEvent::ContentBlockDelta { index, delta } => match delta {
            StreamDelta::TextDelta { text } => Some(
                make_chunk(&state.message_id, &state.model, now, content_delta_of(text), None, None),
            ),
            StreamDelta::InputJsonDelta { partial_json } => Some(
                make_chunk(&state.message_id, &state.model, now, tool_args_delta_of(index, partial_json), None, None),
            ),
            _ => None,
        },
        AnthropicStreamEvent::MessageDelta { delta, usage } => {
            match usage {
                Some(u) => {
                    state.output_tokens = u.output_tokens;
                },
                None => {},
            }
            match delta.stop_reason {
                Some(stop_reason) => {
                    let finish_reason = map_stop_to_finish(stop_reason);
                    let usage = Usage {
                        prompt_tokens: state.input_tokens,
                        completion_tokens: state.output_tokens,
                        total_tokens: state.input_tokens + state.output_tokens,
                    };
                    Some(make_chunk(&state.message_id, &state.model, now, Delta::empty(), Some(finish_reason), Some(usage)))
                },
                None => None,
            }
        },
        _ => None,
    }
}

/// Converts one Anthropic stream event into the OpenAI chunk it stands for
/// (if any), stamped with the current time.
pub fn anthropic_event_to_openai_chunk(event: AnthropicStreamEvent, state: &mut StreamConversionState) -> (r: Option<ChatCompletionChunk>)
    requires
        event_total_fits(old(state)@, event.deep_view()),
    ensures
        match r {
            Some(c) => (final(state)@, Some(c@)) == event_to_chunk_spec(old(state)@, event.deep_view(), c.created),
            None => exists|t: i64| (final(state)@, None::<ChatCompletionChunkView>) == event_to_chunk_spec(old(state)@, event.deep_view(), t),
        },
{
    let now = unix_now_secs();
    let r = anthropic_event_to_openai_chunk_at(event, state, now);
    match &r {
        Some(c) => {},
        None => {
            assert((state@, None::<ChatCompletionChunkView>) == event_to_chunk_spec(old(state)@, event.deep_view(), now));
        },
    }
    r
}

// ============================================================================
// Laws of the stream conversions
// ============================================================================

/// `e` starts a tool-use block with call id `id`, function name `name` and
/// empty input.
pub open spec fn starts_tool_use(e: AnthropicStreamEventView, id: Seq<char>, name: Seq<char>) -> bool {
    e matches AnthropicStreamEventView::ContentBlockStart {
        block: ContentBlockStartView::ToolUse { id: i, name: n, input },
        ..
    } && i == id && n == name && input == "{}"@
}

/// A chunk whose one choice carries a single tool-call delta that opens a new
/// call (its index is not the call in progress), naming the call `id` and the
/// function `name`, is converted into events that start a tool-use block
/// whose id is the call's id and whose name is the function's name, with
/// empty input, whatever else the choice carries.
pub proof fn law_new_tool_call_starts_block(
    st: StreamStateView,
    c: ChatCompletionChunkView,
    tc: DeltaToolCallView,
    id: Seq<char>,
    name: Seq<char>,
    args: Option<Seq<char>>,
)
    requires
        c.choices.len() == 1,
        c.choices[0].delta.tool_calls == Some(seq![tc]),
        st.current_tool_index != Some(tc.index),
        tc.id == Some(id),
        tc.function == Some((Some(name), args)),
    ensures
        exists|k: int|
            0 <= k < chunk_to_events_spec(st, c).1.len() && starts_tool_use(
                #[trigger] chunk_to_events_spec(st, c).1[k],
                id,
                name,
            ),
{
    let events = chunk_to_events_spec(st, c).1;
    let st1 = StreamStateView {
        message_id: if st.message_id.len() == 0 { c.id } else { st.message_id },
        model: if st.model.len() == 0 { c.model } else { st.model },
        ..st
    };
    let (st2, e_ms) = if !st1.sent_message_start {
        (StreamStateView { sent_message_start: true, ..st1 }, seq![message_start_event(st1)])
    } else {
        (st1, Seq::<AnthropicStreamEventView>::empty())
    };
    let ch = c.choices[0];
    assert(c.choices.drop_last() =~= Seq::<ChunkChoiceView>::empty());
    assert(c.choices.last() == ch);
    let (sa, xa) = choices_step(st2, c.choices.drop_last(), c.usage);
    assert(sa == st2 && xa == Seq::<AnthropicStreamEventView>::empty());
    let (s1, x1) = match ch.delta.content {
        Some(text) => if !st2.sent_content_start {
            (StreamStateView { sent_content_start: true, ..st2 }, seq![
                AnthropicStreamEventView::ContentBlockStart {
                    index: st2.content_index,
                    block: ContentBlockStartView::Text(seq![]),
                },
                AnthropicStreamEventView::ContentBlockDelta {
                    index: st2.content_index,
                    delta: StreamDeltaView::TextDelta(text),
                },
            ])
        } else {
            (st2, seq![AnthropicStreamEventView::ContentBlockDelta {
                index: st2.content_index,
                delta: StreamDeltaView::TextDelta(text),
            }])
        },
        None => (st2, Seq::<AnthropicStreamEventView>::empty()),
    };
    assert(s1.current_tool_index == st.current_tool_index);
    let tcs = seq![tc];
    assert(tcs.drop_last() =~= Seq::<DeltaToolCallView>::empty());
    assert(tcs.last() == tc);
    let (s2, x2) = tool_calls_step(s1, tcs);
    let (t0, y0) = tool_calls_step(s1, tcs.drop_last());
    assert(t0 == s1 && y0 == Seq::<AnthropicStreamEventView>::empty());
    let (u1, z) = tool_call_step(s1, tc);
    assert(x2 == y0 + z);
    let (s0, e0) = if s1.sent_content_start && s1.current_tool_index is None {
        (StreamStateView { content_index: (s1.content_index + 1) as i32, ..s1 }, seq![stop_event(s1.content_index)])
    } else {
        match s1.current_tool_index {
            Some(prev) => (StreamStateView { content_index: (s1.content_index + 1) as i32, ..s1 }, seq![stop_event(prev)]),
            None => (s1, Seq::<AnthropicStreamEventView>::empty()),
        }
    };
    let start = AnthropicStreamEventView::ContentBlockStart {
        index: s0.content_index,
        block: ContentBlockStartView::ToolUse { id, name, input: "{}"@ },
    };
    let e2 = match tc.function {
        Some((_, Some(a))) => seq![AnthropicStreamEventView::ContentBlockDelta {
            index: s0.content_index,
            delta: StreamDeltaView::InputJsonDelta(a),
        }],
        _ => Seq::<AnthropicStreamEventView>::empty(),
    };
    assert(z == e0 + seq![start] + e2);
    let (s3, x3) = match ch.finish_reason {
        Some(f) => finish_step(s2, f, c.usage),
        None => (s2, Seq::<AnthropicStreamEventView>::empty()),
    };
    assert(choice_step(st2, ch, c.usage).1 == x1 + x2 + x3);
    assert(events == e_ms + (xa + (x1 + x2 + x3)));
    let k: int = (e_ms.len() + x1.len() + e0.len()) as int;
    assert(events[k] == start);
}

/// The conversion of Anthropic stream events into OpenAI chunks keeps what
/// the message start reports and bills with it at the end:
/// - a message start fixes the message id, the model and the prompt (input)
///   tokens of the stream;
/// - a content block event, a stop or a ping changes nothing of the state;
/// - a message delta with a stop reason and usage gives the final chunk, whose
///   finish reason is the stop reason in OpenAI's terms (`end_turn` is
///   `stop`) and whose usage counts the stream's input tokens as prompt
///   tokens and the delta's output tokens as completion tokens.
pub proof fn law_event_usage(st: StreamStateView, e: AnthropicStreamEventView, now: i64)
    ensures
        e matches AnthropicStreamEventView::MessageStart(m) ==> {
            let s = event_to_chunk_spec(st, e, now).0;
            &&& s.input_tokens == m.usage.input_tokens
            &&& s.message_id == m.id
            &&& s.model == m.model
            &&& s.output_tokens == st.output_tokens
        },
        ((e is ContentBlockStart) || (e is ContentBlockDelta) || (e is ContentBlockStop) || (e is MessageStop)
            || (e is Ping) || (e is Error)) ==> event_to_chunk_spec(st, e, now).0 == st,
        e matches AnthropicStreamEventView::MessageDelta { stop_reason: Some(r), usage: Some(u), .. } ==> {
            let c = event_to_chunk_spec(st, e, now).1;
            &&& (c is Some)
            &&& c->0.choices.len() == 1
            &&& c->0.choices[0].finish_reason == Some(stop_to_finish(r))
            &&& (r == "end_turn"@ ==> c->0.choices[0].finish_reason == Some("stop"@))
            &&& c->0.usage == Some((Usage {
                prompt_tokens: st.input_tokens,
                completion_tokens: u.output_tokens,
                total_tokens: (st.input_tokens + u.output_tokens) as i64,
            }))
            &&& event_to_chunk_spec(st, e, now).0.input_tokens == st.input_tokens
            &&& event_to_chunk_spec(st, e, now).0.output_tokens == u.output_tokens
        },
{
}

/// A message start followed by any content events and then a message delta
/// with a stop reason and usage: the final chunk reports the message start's
/// input tokens as prompt tokens and the delta's output tokens as completion
/// tokens, and their sum as the total.
pub proof fn law_final_chunk_usage(
    st: StreamStateView,
    m: MessageStartView,
    content: Seq<AnthropicStreamEventView>,
    stop: Seq<char>,
    stop_sequence: Option<Seq<char>>,
    u: StreamUsage,
    now: i64,
)
    requires
        forall|i: int| 0 <= i < content.len() ==> content_event(#[trigger] content[i]),
    ensures
        ({
            let s1 = event_to_chunk_spec(st, AnthropicStreamEventView::MessageStart(m), now).0;
            let s2 = events_state(s1, content, now);
            let c = event_to_chunk_spec(
                s2,
                (AnthropicStreamEventView::MessageDelta { stop_reason: Some(stop), stop_sequence, usage: Some(u) }),
                now,
            ).1;
            &&& (c is Some)
            &&& c->0.usage == Some((Usage {
                prompt_tokens: m.usage.input_tokens,
                completion_tokens: u.output_tokens,
                total_tokens: (m.usage.input_tokens + u.output_tokens) as i64,
            }))
        }),
    decreases content.len(),
{
    let s1 = event_to_chunk_spec(st, AnthropicStreamEventView::MessageStart(m), now).0;
    law_event_usage(st, AnthropicStreamEventView::MessageStart(m), now);
    lemma_content_keeps_state(s1, content, now);
    let md = AnthropicStreamEventView::MessageDelta { stop_reason: Some(stop), stop_sequence, usage: Some(u) };
    law_event_usage(s1, md, now);
}

/// A content block event or a ping.
pub open spec fn content_event(e: AnthropicStreamEventView) -> bool {
    ||| e is ContentBlockStart
    ||| e is ContentBlockDelta
    ||| e is ContentBlockStop
    ||| e is Ping
}

/// The state after the events `es`, converted in order at time `now`.
pub open spec fn events_state(st: StreamStateView, es: Seq<AnthropicStreamEventView>, now: i64) -> StreamStateView
    decreases es.len(),
{
    if es.len() == 0 {
        st
    } else {
        event_to_chunk_spec(events_state(st, es.drop_last(), now), es.last(), now).0
    }
}

proof fn lemma_content_keeps_state(st: StreamStateView, es: Seq<AnthropicStreamEventView>, now: i64)
    requires
        forall|i: int| 0 <= i < es.len() ==> content_event(#[trigger] es[i]),
    ensures
        events_state(st, es, now) == st,
    decreases es.len(),
{
    if es.len() > 0 {
        let init = es.drop_last();
        assert forall|i: int| 0 <= i < init.len() implies content_event(#[trigger] init[i]) by {
            assert(init[i] == es[i]);
        }
        lemma_content_keeps_state(st, init, now);
        let e = es.last();
        assert(e == es[es.len() - 1]);
        law_event_usage(st, e, now);
    }
}

} // verus!
