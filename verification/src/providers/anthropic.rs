//! The Anthropic provider's own logic: the request body it sends, the reply
//! it reads, and the conversion of its event stream into OpenAI chunks.
use vstd::prelude::*;
use crate::clock::unix_now_secs;
use crate::error::MantiError;
use crate::models::chat::{
    ChatChoice, ChatChoiceView, ChatCompletionRequest, ChatCompletionResponse,
    ChatCompletionResponseView, ChatMessage, ChatMessageView, MessageContent,
    MessageContentView, Tool, ToolView, Usage,
};
use crate::models::conversion::{
    chunk_view, content_delta, content_delta_of, empty_delta, make_chunk, role_delta, role_delta_of,
    tool_args_delta, tool_args_delta_of, tool_start_delta, tool_start_delta_of,
};
use crate::models::streaming::{ChatCompletionChunk, ChatCompletionChunkView, Delta};
use crate::text::str_eq;

verus! {

// ---------------------------------------------------------------------------
// Upstream stream events
// ---------------------------------------------------------------------------

/// Token counts an upstream event may carry.
#[derive(Debug, Clone, Copy)]
pub struct UpstreamUsage {
    pub input_tokens: Option<i64>,
    pub output_tokens: Option<i64>,
}

/// The start of a content block.
#[derive(Debug, Clone)]
pub enum UpstreamBlockStart {
    Text { text: String },
    ToolUse { id: String, name: String },
}

/// An increment of a content block.
#[derive(Debug, Clone)]
pub enum UpstreamDelta {
    TextDelta { text: String },
    InputJsonDelta { partial_json: String },
}

/// One event of the Anthropic Messages stream, as the provider reads it.
#[derive(Debug, Clone)]
pub enum UpstreamEvent {
    MessageStart { id: String, model: String, role: Option<String>, usage: Option<UpstreamUsage> },
    ContentBlockStart { index: i32, content_block: UpstreamBlockStart },
    ContentBlockDelta { index: i32, delta: UpstreamDelta },
    ContentBlockStop { index: i32 },
    MessageDelta { stop_reason: Option<String>, stop_sequence: Option<String>, usage: Option<UpstreamUsage> },
    MessageStop,
    Ping,
    Error { kind: String, message: String },
}

pub enum UpstreamBlockStartView {
    Text(Seq<char>),
    ToolUse { id: Seq<char>, name: Seq<char> },
}

pub enum UpstreamDeltaView {
    TextDelta(Seq<char>),
    InputJsonDelta(Seq<char>),
}

pub enum UpstreamEventView {
    MessageStart { id: Seq<char>, model: Seq<char>, usage: Option<UpstreamUsage> },
    ContentBlockStart { index: i32, block: UpstreamBlockStartView },
    ContentBlockDelta { index: i32, delta: UpstreamDeltaView },
    ContentBlockStop,
    MessageDelta { stop_reason: Option<Seq<char>>, usage: Option<UpstreamUsage> },
    MessageStop,
    Ping,
    Error { kind: Seq<char>, message: Seq<char> },
}

impl DeepView for UpstreamBlockStart {
    type V = UpstreamBlockStartView;

    open spec fn deep_view(&self) -> UpstreamBlockStartView {
        match self {
            UpstreamBlockStart::Text { text } => UpstreamBlockStartView::Text(text@),
            UpstreamBlockStart::ToolUse { id, name } => UpstreamBlockStartView::ToolUse { id: id@, name: name@ },
        }
    }
}

impl DeepView for UpstreamDelta {
    type V = UpstreamDeltaView;

    open spec fn deep_view(&self) -> UpstreamDeltaView {
        match self {
            UpstreamDelta::TextDelta { text } => UpstreamDeltaView::TextDelta(text@),
            UpstreamDelta::InputJsonDelta { partial_json } => UpstreamDeltaView::InputJsonDelta(partial_json@),
        }
    }
}

impl DeepView for UpstreamEvent {
    type V = UpstreamEventView;

    open spec fn deep_view(&self) -> UpstreamEventView {
        match self {
            UpstreamEvent::MessageStart { id, model, usage, .. } => UpstreamEventView::MessageStart {
                id: id@,
                model: model@,
                usage: *usage,
            },
            UpstreamEvent::ContentBlockStart { index, content_block } => UpstreamEventView::ContentBlockStart {
                index: *index,
                block: content_block.deep_view(),
            },
            UpstreamEvent::ContentBlockDelta { index, delta } => UpstreamEventView::ContentBlockDelta {
                index: *index,
                delta: delta.deep_view(),
            },
            UpstreamEvent::ContentBlockStop { .. } => UpstreamEventView::ContentBlockStop,
            UpstreamEvent::MessageDelta { stop_reason, usage, .. } => UpstreamEventView::MessageDelta {
                stop_reason: stop_reason.deep_view(),
                usage: *usage,
            },
            UpstreamEvent::MessageStop => UpstreamEventView::MessageStop,
            UpstreamEvent::Ping => UpstreamEventView::Ping,
            UpstreamEvent::Error { kind, message } => UpstreamEventView::Error { kind: kind@, message: message@ },
        }
    }
}

/// What the provider remembers while converting a stream.
#[derive(Debug, Clone)]
pub struct StreamState {
    pub message_id: String,
    pub model: String,
    pub input_tokens: i64,
    pub output_tokens: i64,
    pub tool_call_index: i32,
}

pub struct StreamStateView {
    pub message_id: Seq<char>,
    pub model: Seq<char>,
    pub input_tokens: i64,
    pub output_tokens: i64,
    pub tool_call_index: i32,
}

impl View for StreamState {
    type V = StreamStateView;

    open spec fn view(&self) -> StreamStateView {
        StreamStateView {
            message_id: self.message_id@,
            model: self.model@,
            input_tokens: self.input_tokens,
            output_tokens: self.output_tokens,
            tool_call_index: self.tool_call_index,
        }
    }
}

impl Default for StreamState {
    fn default() -> (r: Self)
        ensures
            r@.message_id.len() == 0,
            r@.model.len() == 0,
            r.input_tokens == 0,
            r.output_tokens == 0,
            r.tool_call_index == 0,
    {
        StreamState { message_id: String::new(), model: String::new(), input_tokens: 0, output_tokens: 0, tool_call_index: 0 }
    }
}

/// Anthropic stop reasons as OpenAI finish reasons.
pub open spec fn upstream_finish(s: Seq<char>) -> Seq<char> {
    if s == "end_turn"@ {
        "stop"@
    } else if s == "tool_use"@ {
        "tool_calls"@
    } else if s == "max_tokens"@ {
        "length"@
    } else if s == "stop_sequence"@ {
        "stop"@
    } else {
        s
    }
}

/// The message of a provider error for an upstream error event.
pub open spec fn upstream_error_message(kind: Seq<char>, message: Seq<char>) -> Seq<char> {
    "Anthropic stream error: "@ + kind + " - "@ + message
}

/// A chunk of the converted stream, or the text of a provider error.
pub open spec fn chunk_result_view(r: Option<Result<ChatCompletionChunk, MantiError>>) -> Option<Result<ChatCompletionChunkView, Seq<char>>> {
    match r {
        None => None,
        Some(Ok(c)) => Some(Ok(c@)),
        Some(Err(MantiError::Provider(m))) => Some(Err(m@)),
        Some(Err(_)) => Some(Err(seq![])),
    }
}

/// The state after, and what the converted stream gains from, one upstream
/// event at Unix time `now`; `first` tells whether nothing was emitted yet.
pub open spec fn upstream_step(
    st: StreamStateView,
    e: UpstreamEventView,
    first: bool,
    now: i64,
) -> (StreamStateView, Option<Result<ChatCompletionChunkView, Seq<char>>>) {
    match e {
        UpstreamEventView::MessageStart { id, model, usage } => {
            let s1 = StreamStateView {
                message_id: id,
                model,
                input_tokens: match usage {
                    Some(u) => match u.input_tokens {
                        Some(n) => n,
                        None => 0,
                    },
                    None => st.input_tokens,
                },
                ..st
            };
            if first {
                (s1, Some(Ok(chunk_view(s1.message_id, s1.model, now, role_delta(), None, None))))
            } else {
                (s1, None)
            }
        },
        UpstreamEventView::ContentBlockStart { index, block } => match block {
            UpstreamBlockStartView::Text(t) => if t.len() > 0 {
                (st, Some(Ok(chunk_view(st.message_id, st.model, now, content_delta(t), None, None))))
            } else {
                (st, None)
            },
            UpstreamBlockStartView::ToolUse { id, name } => (
                StreamStateView { tool_call_index: index, ..st },
                Some(Ok(chunk_view(st.message_id, st.model, now, tool_start_delta(index, id, name), None, None))),
            ),
        },
        UpstreamEventView::ContentBlockDelta { index, delta } => match delta {
            UpstreamDeltaView::TextDelta(t) => (st, Some(Ok(chunk_view(st.message_id, st.model, now, content_delta(t), None, None)))),
            UpstreamDeltaView::InputJsonDelta(p) => (
                st,
                Some(Ok(chunk_view(st.message_id, st.model, now, tool_args_delta(index, p), None, None))),
            ),
        },
        UpstreamEventView::MessageDelta { stop_reason, usage } => {
            let s1 = match usage {
                Some(u) => StreamStateView {
                    output_tokens: match u.output_tokens {
                        Some(n) => n,
                        None => 0,
                    },
                    ..st
                },
                None => st,
            };
            match stop_reason {
                Some(r) => (s1, Some(Ok(chunk_view(
                    s1.message_id,
                    s1.model,
                    now,
                    empty_delta(),
                    Some(upstream_finish(r)),
                    Some(Usage {
                        prompt_tokens: s1.input_tokens,
                        completion_tokens: s1.output_tokens,
                        total_tokens: (s1.input_tokens + s1.output_tokens) as i64,
                    }),
                )))),
                None => (s1, None),
            }
        },
        UpstreamEventView::Error { kind, message } => (st, Some(Err(upstream_error_message(kind, message)))),
        _ => (st, None),
    }
}

/// The token total reported when the message ends fits in an `i64`.
pub open spec fn upstream_total_fits(st: StreamStateView, e: UpstreamEventView) -> bool {
    match e {
        UpstreamEventView::MessageDelta { stop_reason: Some(_), usage } => {
            let out = match usage {
                Some(u) => match u.output_tokens {
                    Some(n) => n as int,
                    None => 0,
                },
                None => st.output_tokens as int,
            };
            i64::MIN <= st.input_tokens + out <= i64::MAX
        },
        _ => true,
    }
}

/// Anthropic stop reasons as OpenAI finish reasons.
fn finish_reason_of(stop_reason: &String) -> (r: String)
    ensures
        r@ == upstream_finish(stop_reason@),
{
    let s = stop_reason.as_str();
    if str_eq(s, "end_turn") {
        "stop".to_string()
    } else if str_eq(s, "tool_use") {
        "tool_calls".to_string()
    } else if str_eq(s, "max_tokens") {
        "length".to_string()
    } else if str_eq(s, "stop_sequence") {
        "stop".to_string()
    } else {
        stop_reason.clone()
    }
}

/// Converts one upstream event into the OpenAI chunk it stands for, if any,
/// at Unix time `now`, updating the state: the message start fixes the id,
/// model and input tokens (and, first in the stream, opens it with the
/// assistant role); text and tool-use blocks and deltas become content and
/// tool-call chunks; the message delta records the output tokens and, with a
/// stop reason, ends the stream with the usage; an upstream error becomes a
/// provider error.
pub fn process_stream_event_at(
    event: UpstreamEvent,
    state: &mut StreamState,
    first_chunk: bool,
    now: i64,
) -> (r: Option<Result<ChatCompletionChunk, MantiError>>)
    requires
        upstream_total_fits(old(state)@, event.deep_view()),
    ensures
        (final(state)@, chunk_result_view(r)) == upstream_step(old(state)@, event.deep_view(), first_chunk, now),
{
    match event {
        UpstreamEvent::MessageStart { id, model, usage, .. } => {
            state.message_id = id;
            state.model = model;
            if let Some(u) = usage {
                state.input_tokens = match u.input_tokens {
                    Some(n) => n,
                    None => 0,
                };
            }
            if first_chunk {
                Some(Ok(make_chunk(&state.message_id, &state.model, now, role_delta_of(), None, None)))
            } else {
                None
            }
        },
        UpstreamEvent::ContentBlockStart { index, content_block } => match content_block {
            UpstreamBlockStart::Text { text } => {
                if text.as_str().is_empty() {
                    None
                } else {
                    Some(Ok(make_chunk(&state.message_id, &state.model, now, content_delta_of(text), None, None)))
                }
            },
            UpstreamBlockStart::ToolUse { id, name } => {
                state.tool_call_index = index;
                Some(Ok(make_chunk(&state.message_id, &state.model, now, tool_start_delta_of(index, id, name), None, None)))
            },
        },
        UpstreamEvent::ContentBlockDelta { index, delta } => match delta {
            UpstreamDelta::TextDelta { text } => {
                Some(Ok(make_chunk(&state.message_id, &state.model, now, content_delta_of(text), None, None)))
            },
            UpstreamDelta::InputJsonDelta { partial_json } => {
                Some(Ok(make_chunk(&state.message_id, &state.model, now, tool_args_delta_of(index, partial_json), None, None)))
            },
        },
        UpstreamEvent::ContentBlockStop { .. } => None,
        UpstreamEvent::MessageDelta { stop_reason, usage, .. } => {
            if let Some(u) = usage {
                state.output_tokens = match u.output_tokens {
                    Some(n) => n,
                    None => 0,
                };
            }
            match stop_reason {
                Some(reason) => {
                    let finish = finish_reason_of(&reason);
                    let total = state.input_tokens + state.output_tokens;
                    let usage = Usage {
                        prompt_tokens: state.input_tokens,
                        completion_tokens: state.output_tokens,
                        total_tokens: total,
                    };
                    Some(Ok(make_chunk(&state.message_id, &state.model, now, Delta::empty(), Some(finish), Some(usage))))
                },
                None => None,
            }
        },
        UpstreamEvent::MessageStop => None,
        UpstreamEvent::Ping => None,
        UpstreamEvent::Error { kind, message } => {
            let mut m = "Anthropic stream error: ".to_string();
            m.append(kind.as_str());
            m.append(" - ");
            m.append(message.as_str());
            Some(Err(MantiError::Provider(m)))
        },
    }
}

/// Converts one upstream event at the current time.
pub fn process_stream_event(
    event: UpstreamEvent,
    state: &mut StreamState,
    first_chunk: bool,
) -> (r: Option<Result<ChatCompletionChunk, MantiError>>)
    requires
        upstream_total_fits(old(state)@, event.deep_view()),
    ensures
        exists|now: i64| (final(state)@, chunk_result_view(r)) == #[trigger] upstream_step(old(state)@, event.deep_view(), first_chunk, now),
{
    let now = unix_now_secs();
    process_stream_event_at(event, state, first_chunk, now)
}

/// The conversion of a whole upstream stream: the state, and whether the
/// next message start is the first thing the stream emits.
pub struct AnthropicStreamDecoder {
    pub state: StreamState,
    pub first_chunk: bool,
}

impl AnthropicStreamDecoder {
    /// A decoder at the start of a stream.
    pub fn new() -> (r: Self)
        ensures
            r.first_chunk,
            r.state.input_tokens == 0,
            r.state.output_tokens == 0,
    {
        AnthropicStreamDecoder { state: StreamState::default(), first_chunk: true }
    }

    /// Converts the next upstream event at Unix time `now`; once anything
    /// has been emitted, a later message start no longer opens the stream.
    pub fn handle_event_at(&mut self, event: UpstreamEvent, now: i64) -> (r: Option<Result<ChatCompletionChunk, MantiError>>)
        requires
            upstream_total_fits(old(self).state@, event.deep_view()),
        ensures
            (final(self).state@, chunk_result_view(r)) == upstream_step(old(self).state@, event.deep_view(), old(self).first_chunk, now),
            final(self).first_chunk == (old(self).first_chunk && r is None),
    {
        let r = process_stream_event_at(event, &mut self.state, self.first_chunk, now);
        if r.is_some() {
            self.first_chunk = false;
        }
        r
    }
}

// ---------------------------------------------------------------------------
// Request body
// ---------------------------------------------------------------------------

/// A message of the Anthropic request body.
#[derive(Debug, Clone)]
pub struct WireMessage {
    pub role: String,
    pub content: MessageContent,
}

/// A tool of the Anthropic request body.
#[derive(Debug, Clone)]
pub struct WireTool {
    pub name: String,
    pub description: Option<String>,
    /// JSON text of the input schema.
    pub input_schema: Option<String>,
}

/// The body of a request to the Anthropic Messages API.
#[derive(Debug, Clone)]
pub struct AnthropicWireBody {
    pub model: String,
    pub messages: Vec<WireMessage>,
    pub max_tokens: u32,
    pub system: Option<String>,
    /// `f64` bit pattern.
    pub temperature: Option<u64>,
    /// `f64` bit pattern.
    pub top_p: Option<u64>,
    pub stop_sequences: Option<Vec<String>>,
    pub tools: Option<Vec<WireTool>>,
    pub stream: Option<bool>,
}

pub struct WireMessageView {
    pub role: Seq<char>,
    pub content: MessageContentView,
}

pub struct WireToolView {
    pub name: Seq<char>,
    pub description: Option<Seq<char>>,
    pub input_schema: Option<Seq<char>>,
}

pub struct AnthropicWireBodyView {
    pub model: Seq<char>,
    pub messages: Seq<WireMessageView>,
    pub max_tokens: u32,
    pub system: Option<Seq<char>>,
    pub temperature: Option<u64>,
    pub top_p: Option<u64>,
    pub stop_sequences: Option<Seq<Seq<char>>>,
    pub tools: Option<Seq<WireToolView>>,
    pub stream: Option<bool>,
}

impl DeepView for WireMessage {
    type V = WireMessageView;

    open spec fn deep_view(&self) -> WireMessageView {
        WireMessageView { role: self.role@, content: self.content.deep_view() }
    }
}

impl DeepView for WireTool {
    type V = WireToolView;

    open spec fn deep_view(&self) -> WireToolView {
        WireToolView {
            name: self.name@,
            description: self.description.deep_view(),
            input_schema: self.input_schema.deep_view(),
        }
    }
}

impl View for AnthropicWireBody {
    type V = AnthropicWireBodyView;

    open spec fn view(&self) -> AnthropicWireBodyView {
        AnthropicWireBodyView {
            model: self.model@,
            messages: self.messages.deep_view(),
            max_tokens: self.max_tokens,
            system: self.system.deep_view(),
            temperature: self.temperature,
            top_p: self.top_p,
            stop_sequences: self.stop_sequences.deep_view(),
            tools: self.tools.deep_view(),
            stream: self.stream,
        }
    }
}

/// The text of the first system message, if any (a multi-part one counts as
/// empty text).
pub open spec fn first_system_text(msgs: Seq<ChatMessageView>) -> Option<Seq<char>>
    decreases msgs.len(),
{
    if msgs.len() == 0 {
        None
    } else if msgs[0].role == "system"@ {
        Some(
            match msgs[0].content {
                MessageContentView::Text(t) => t,
                MessageContentView::Parts(_) => seq![],
            },
        )
    } else {
        first_system_text(msgs.drop_first())
    }
}

/// The non-system messages, each as an assistant or a user message.
pub open spec fn wire_messages(msgs: Seq<ChatMessageView>) -> Seq<WireMessageView>
    decreases msgs.len(),
{
    if msgs.len() == 0 {
        seq![]
    } else {
        let rest = wire_messages(msgs.drop_last());
        let m = msgs.last();
        if m.role == "system"@ {
            rest
        } else {
            rest.push(WireMessageView {
                role: if m.role == "assistant"@ {
                    "assistant"@
                } else {
                    "user"@
                },
                content: m.content,
            })
        }
    }
}

/// A tool in the Anthropic shape.
pub open spec fn wire_tool(t: ToolView) -> WireToolView {
    WireToolView { name: t.name, description: t.description, input_schema: t.parameters }
}

/// The Anthropic request body for an OpenAI request.
pub open spec fn anthropic_body_spec(r: crate::models::chat::ChatCompletionRequestView) -> AnthropicWireBodyView {
    AnthropicWireBodyView {
        model: r.model,
        messages: wire_messages(r.messages),
        max_tokens: match r.max_tokens {
            Some(n) => n,
            None => match r.max_completion_tokens {
                Some(n) => n,
                None => 4096,
            },
        },
        system: first_system_text(r.messages),
        temperature: r.temperature,
        top_p: r.top_p,
        stop_sequences: r.stop,
        tools: match r.tools {
            Some(ts) => Some(ts.map_values(|t: ToolView| wire_tool(t))),
            None => None,
        },
        stream: None,
    }
}

fn first_system_of(msgs: &Vec<ChatMessage>) -> (r: Option<String>)
    ensures
        r.deep_view() == first_system_text(msgs.deep_view()),
{
    let ghost mv = msgs.deep_view();
    let mut i: usize = 0;
    assert(mv.skip(0) =~= mv);
    while i < msgs.len()
        invariant
            mv == msgs.deep_view(),
            i <= msgs.len(),
            first_system_text(mv) == first_system_text(mv.skip(i as int)),
        decreases msgs.len() - i,
    {
        assert(mv.skip(i as int).drop_first() =~= mv.skip(i + 1));
        assert(mv.skip(i as int)[0] == mv[i as int]);
        if str_eq(msgs[i].role.as_str(), "system") {
            return match &msgs[i].content {
                MessageContent::Text(t) => Some(t.clone()),
                MessageContent::Parts(_) => Some(String::new()),
            };
        }
        i = i + 1;
    }
    assert(mv.skip(i as int).len() == 0);
    None
}

fn wire_messages_of(msgs: Vec<ChatMessage>) -> (r: Vec<WireMessage>)
    ensures
        r.deep_view() == wire_messages(msgs.deep_view()),
{
    let ghost mv = msgs.deep_view();
    let mut out: Vec<WireMessage> = Vec::new();
    for m in it: msgs.into_iter()
        invariant
            mv.len() == it.seq().len(),
            forall|j: int| 0 <= j < mv.len() ==> mv[j] == it.seq()[j].deep_view(),
            out.deep_view() == wire_messages(mv.take(it.index() as int)),
    {
        proof {
            let t = mv.take(it.index() + 1);
            assert(t.drop_last() =~= mv.take(it.index() as int));
            assert(t.last() == mv[it.index() as int]);
        }
        if !str_eq(m.role.as_str(), "system") {
            let role = if str_eq(m.role.as_str(), "assistant") {
                "assistant".to_string()
            } else {
                "user".to_string()
            };
            let ghost o0 = out.deep_view();
            let wm = WireMessage { role, content: m.content };
            out.push(wm);
            assert(out.deep_view() =~= o0.push(wm.deep_view()));
        }
    }
    assert(mv.take(mv.len() as int) =~= mv);
    out
}

fn wire_tools_of(tools: Vec<Tool>) -> (r: Vec<WireTool>)
    ensures
        r.deep_view() == tools.deep_view().map_values(|t: ToolView| wire_tool(t)),
{
    let ghost tv = tools.deep_view();
    let mut out: Vec<WireTool> = Vec::new();
    for t in it: tools.into_iter()
        invariant
            tv.len() == it.seq().len(),
            forall|j: int| 0 <= j < tv.len() ==> tv[j] == it.seq()[j].deep_view(),
            out.deep_view() == tv.take(it.index() as int).map_values(|t: ToolView| wire_tool(t)),
    {
        let ghost o0 = out.deep_view();
        let ghost tvi = tv[it.index() as int];
        let wt = WireTool { name: t.function.name, description: t.function.description, input_schema: t.function.parameters };
        out.push(wt);
        proof {
            let i = it.index() as int;
            assert(wt.deep_view() == wire_tool(tvi));
            assert(out.deep_view() =~= o0.push(wire_tool(tvi)));
            assert(tv.take(i + 1).map_values(|t: ToolView| wire_tool(t))
                =~= tv.take(i).map_values(|t: ToolView| wire_tool(t)).push(wire_tool(tvi)));
        }
    }
    assert(tv.take(tv.len() as int) =~= tv);
    out
}

/// The body of a Messages API request for an OpenAI chat request: the first
/// system message becomes the system prompt, the other messages keep their
/// content as assistant or user messages, `max_tokens` defaults to the
/// request's completion limit and then to 4096, and tools take the
/// Anthropic shape.
pub fn convert_to_anthropic_format(request: ChatCompletionRequest) -> (r: AnthropicWireBody)
    ensures
        r@ == anthropic_body_spec(request@),
{
    let system = first_system_of(&request.messages);
    let max_tokens = match request.max_tokens {
        Some(n) => n,
        None => match request.max_completion_tokens {
            Some(n) => n,
            None => 4096,
        },
    };
    let messages = wire_messages_of(request.messages);
    let tools = match request.tools {
        Some(ts) => Some(wire_tools_of(ts)),
        None => None,
    };
    AnthropicWireBody {
        model: request.model,
        messages,
        max_tokens,
        system,
        temperature: request.temperature,
        top_p: request.top_p,
        stop_sequences: request.stop,
        tools,
        stream: None,
    }
}

// ---------------------------------------------------------------------------
// Non-streaming reply
// ---------------------------------------------------------------------------

/// The fields the provider reads from a Messages API reply: `id`, the text
/// of the first content block, `stop_reason` and the token counts (each
/// absent when missing or of the wrong JSON type).
#[derive(Debug, Clone)]
pub struct AnthropicReplyFields {
    pub id: Option<String>,
    pub first_text: Option<String>,
    pub stop_reason: Option<String>,
    pub input_tokens: Option<i64>,
    pub output_tokens: Option<i64>,
}

pub open spec fn text_or_empty(t: Option<Seq<char>>) -> Seq<char> {
    match t {
        Some(s) => s,
        None => seq![],
    }
}

pub open spec fn count_or_zero(n: Option<i64>) -> i64 {
    match n {
        Some(v) => v,
        None => 0,
    }
}

/// The OpenAI response for a reply, created at `created`, for `model`.
pub open spec fn reply_response_spec(f: AnthropicReplyFields, model: Seq<char>, created: i64) -> ChatCompletionResponseView {
    ChatCompletionResponseView {
        id: text_or_empty(f.id.deep_view()),
        object: "chat.completion"@,
        created,
        model,
        choices: seq![ChatChoiceView {
            index: 0,
            message: ChatMessageView {
                role: "assistant"@,
                content: MessageContentView::Text(text_or_empty(f.first_text.deep_view())),
                name: None,
                tool_calls: None,
                tool_call_id: None,
            },
            finish_reason: f.stop_reason.deep_view(),
            logprobs: None,
        }],
        usage: Usage {
            prompt_tokens: count_or_zero(f.input_tokens),
            completion_tokens: count_or_zero(f.output_tokens),
            total_tokens: (count_or_zero(f.input_tokens) + count_or_zero(f.output_tokens)) as i64,
        },
        system_fingerprint: None,
    }
}

/// The OpenAI response for a Messages API reply, created at Unix time
/// `created`: the first content block's text as the assistant message, the
/// stop reason as the finish reason, missing fields as empty or zero.
pub fn convert_from_anthropic_response_at(fields: AnthropicReplyFields, model: String, created: i64) -> (r: ChatCompletionResponse)
    requires
        i64::MIN <= count_or_zero(fields.input_tokens) + count_or_zero(fields.output_tokens) <= i64::MAX,
    ensures
        r@ == reply_response_spec(fields, model@, created),
{
    let ghost fv = fields;
    let id = match fields.id {
        Some(s) => s,
        None => String::new(),
    };
    let content = match fields.first_text {
        Some(s) => s,
        None => String::new(),
    };
    let input = match fields.input_tokens {
        Some(n) => n,
        None => 0,
    };
    let output = match fields.output_tokens {
        Some(n) => n,
        None => 0,
    };
    let message = ChatMessage {
        role: "assistant".to_string(),
        content: MessageContent::Text(content),
        name: None,
        tool_calls: None,
        tool_call_id: None,
    };
    let mut choices: Vec<ChatChoice> = Vec::new();
    choices.push(ChatChoice { index: 0, message, finish_reason: fields.stop_reason, logprobs: None });
    let r = ChatCompletionResponse {
        id,
        object: "chat.completion".to_string(),
        created,
        model,
        choices,
        usage: Usage { prompt_tokens: input, completion_tokens: output, total_tokens: input + output },
        system_fingerprint: None,
    };
    assert(r@.choices =~= reply_response_spec(fv, r@.model, created).choices);
    r
}

/// The OpenAI response for a Messages API reply, created now.
pub fn convert_from_anthropic_response(fields: AnthropicReplyFields, model: String) -> (r: ChatCompletionResponse)
    requires
        i64::MIN <= count_or_zero(fields.input_tokens) + count_or_zero(fields.output_tokens) <= i64::MAX,
    ensures
        exists|created: i64| r@ == #[trigger] reply_response_spec(fields, model@, created),
{
    let now = unix_now_secs();
    convert_from_anthropic_response_at(fields, model, now)
}

} // verus!
