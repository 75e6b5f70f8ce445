//! Anthropic Messages API wire types and their mathematical models.
//!
//! As in the chat types, JSON values carried through unchanged are held as
//! their JSON text, and floating-point sampling parameters as `f64` bits.
use vstd::prelude::*;

verus! {

#[derive(Debug, Clone)]
pub struct SystemBlock {
    pub text: String,
    /// JSON text.
    pub cache_control: Option<String>,
}

/// The system prompt: plain text or a list of text blocks.
#[derive(Debug, Clone)]
pub enum SystemContent {
    Text(String),
    Blocks(Vec<SystemBlock>),
}

#[derive(Debug, Clone)]
pub struct ImageSource {
    pub kind: String,
    pub media_type: String,
    pub data: Option<String>,
    pub url: Option<String>,
}

#[derive(Debug, Clone)]
pub enum ToolResultBlock {
    Text { text: String },
    Image { source: ImageSource },
}

#[derive(Debug, Clone)]
pub enum ToolResultContent {
    Empty,
    Text(String),
    Blocks(Vec<ToolResultBlock>),
}

#[derive(Debug, Clone)]
pub enum ContentBlock {
    Text {
        text: String,
        /// JSON text.
        cache_control: Option<String>,
        /// JSON text.
        citations: Option<String>,
    },
    Image { source: ImageSource },
    ToolUse {
        id: String,
        name: String,
        /// JSON text of the tool input.
        input: String,
    },
    ToolResult { tool_use_id: String, content: ToolResultContent, is_error: Option<bool> },
    Document {
        /// JSON text of the document source.
        source: String,
    },
    Thinking { thinking: String, signature: Option<String> },
}

#[derive(Debug, Clone)]
pub enum AnthropicContent {
    Text(String),
    Blocks(Vec<ContentBlock>),
}

#[derive(Debug, Clone)]
pub struct AnthropicMessage {
    pub role: String,
    pub content: AnthropicContent,
}

#[derive(Debug, Clone)]
pub enum AnthropicTool {
    ClientTool {
        name: String,
        description: String,
        /// JSON text.
        input_schema: String,
    },
    /// A server-side tool (such as web search), as its JSON text.
    ServerTool(String),
}

#[derive(Debug, Clone)]
pub struct ToolChoiceSpecific {
    pub kind: String,
    pub name: Option<String>,
    pub disable_parallel_tool_use: Option<bool>,
}

#[derive(Debug, Clone)]
pub enum AnthropicToolChoice {
    Auto(String),
    Specific(ToolChoiceSpecific),
}

#[derive(Debug, Clone)]
pub enum OutputFormat {
    JsonSchema {
        /// JSON text.
        schema: String,
    },
    Text,
}

#[derive(Debug, Clone)]
pub struct OutputConfig {
    pub format: OutputFormat,
}

#[derive(Debug, Clone)]
pub struct Metadata {
    pub user_id: Option<String>,
}

/// An Anthropic Messages API request.
#[derive(Debug, Clone)]
pub struct AnthropicRequest {
    pub model: String,
    pub max_tokens: u32,
    pub messages: Vec<AnthropicMessage>,
    pub system: Option<SystemContent>,
    /// `f64` bits.
    pub temperature: Option<u64>,
    /// `f64` bits.
    pub top_p: Option<u64>,
    pub top_k: Option<u32>,
    pub stop_sequences: Option<Vec<String>>,
    pub stream: Option<bool>,
    pub metadata: Option<Metadata>,
    pub service_tier: Option<String>,
    /// JSON text.
    pub thinking: Option<String>,
    pub output_config: Option<OutputConfig>,
    pub tools: Option<Vec<AnthropicTool>>,
    pub tool_choice: Option<AnthropicToolChoice>,
}

#[derive(Debug, Clone)]
pub struct AnthropicUsage {
    pub input_tokens: i64,
    pub output_tokens: i64,
    pub cache_creation_input_tokens: Option<i64>,
    pub cache_read_input_tokens: Option<i64>,
    pub service_tier: Option<String>,
}

/// An Anthropic Messages API (non-streaming) response.
#[derive(Debug, Clone)]
pub struct AnthropicResponse {
    pub id: String,
    pub kind: String,
    pub role: String,
    pub content: Vec<ContentBlock>,
    pub model: String,
    pub stop_reason: Option<String>,
    pub stop_sequence: Option<String>,
    pub usage: AnthropicUsage,
}

#[derive(Debug, Clone, Copy, PartialEq, Eq, Structural)]
pub struct StreamUsage {
    pub input_tokens: i64,
    pub output_tokens: i64,
    pub cache_creation_input_tokens: Option<i64>,
    pub cache_read_input_tokens: Option<i64>,
}

#[derive(Debug, Clone)]
pub struct MessageStartData {
    pub id: String,
    pub kind: String,
    pub role: String,
    pub content: Vec<ContentBlock>,
    pub model: String,
    pub stop_reason: Option<String>,
    pub stop_sequence: Option<String>,
    pub usage: StreamUsage,
}

#[derive(Debug, Clone)]
pub enum ContentBlockStartData {
    Text { text: String },
    ToolUse {
        id: String,
        name: String,
        /// JSON text.
        input: String,
    },
    Thinking { thinking: String },
}

#[derive(Debug, Clone)]
pub enum StreamDelta {
    TextDelta { text: String },
    InputJsonDelta { partial_json: String },
    ThinkingDelta { thinking: String },
    SignatureDelta { signature: String },
}

#[derive(Debug, Clone)]
pub struct MessageDeltaData {
    pub stop_reason: Option<String>,
    pub stop_sequence: Option<String>,
}

#[derive(Debug, Clone)]
pub struct StreamError {
    pub kind: String,
    pub message: String,
}

/// An event of the Anthropic Messages streaming protocol.
#[derive(Debug, Clone)]
pub enum AnthropicStreamEvent {
    MessageStart { message: MessageStartData },
    ContentBlockStart { index: i32, content_block: ContentBlockStartData },
    ContentBlockDelta { index: i32, delta: StreamDelta },
    ContentBlockStop { index: i32 },
    MessageDelta { delta: MessageDeltaData, usage: Option<StreamUsage> },
    MessageStop,
    Ping,
    Error { error: StreamError },
}

#[derive(Debug, Clone)]
pub struct AnthropicErrorDetail {
    pub kind: String,
    pub message: String,
}

#[derive(Debug, Clone)]
pub struct AnthropicErrorResponse {
    pub error: AnthropicErrorDetail,
}

/// The SSE event name of each stream event.
pub open spec fn event_type_name(e: AnthropicStreamEvent) -> Seq<char> {
    match e {
        AnthropicStreamEvent::MessageStart { .. } => "message_start"@,
        AnthropicStreamEvent::ContentBlockStart { .. } => "content_block_start"@,
        AnthropicStreamEvent::ContentBlockDelta { .. } => "content_block_delta"@,
        AnthropicStreamEvent::ContentBlockStop { .. } => "content_block_stop"@,
        AnthropicStreamEvent::MessageDelta { .. } => "message_delta"@,
        AnthropicStreamEvent::MessageStop => "message_stop"@,
        AnthropicStreamEvent::Ping => "ping"@,
        AnthropicStreamEvent::Error { .. } => "error"@,
    }
}

impl AnthropicStreamEvent {
    /// The SSE `event:` name under which this event is sent.
    pub fn event_type(&self) -> (r: &'static str)
        ensures
            r@ == event_type_name(*self),
    {
        match self {
            AnthropicStreamEvent::MessageStart { .. } => "message_start",
            AnthropicStreamEvent::ContentBlockStart { .. } => "content_block_start",
            AnthropicStreamEvent::ContentBlockDelta { .. } => "content_block_delta",
            AnthropicStreamEvent::ContentBlockStop { .. } => "content_block_stop",
            AnthropicStreamEvent::MessageDelta { .. } => "message_delta",
            AnthropicStreamEvent::MessageStop => "message_stop",
            AnthropicStreamEvent::Ping => "ping",
            AnthropicStreamEvent::Error { .. } => "error",
        }
    }
}

// ---------------------------------------------------------------------------
// Models
// ---------------------------------------------------------------------------

pub struct ImageSourceView {
    pub kind: Seq<char>,
    pub media_type: Seq<char>,
    pub data: Option<Seq<char>>,
    pub url: Option<Seq<char>>,
}

pub enum ToolResultContentView {
    Empty,
    Text(Seq<char>),
    /// The texts of the text blocks, in order, with `None` for other blocks.
    Blocks(Seq<Option<Seq<char>>>),
}

pub enum ContentBlockView {
    Text { text: Seq<char>, cache_control: Option<Seq<char>>, citations: Option<Seq<char>> },
    Image { source: ImageSourceView },
    ToolUse { id: Seq<char>, name: Seq<char>, input: Seq<char> },
    ToolResult { tool_use_id: Seq<char>, content: ToolResultContentView, is_error: Option<bool> },
    Document { source: Seq<char> },
    Thinking { thinking: Seq<char>, signature: Option<Seq<char>> },
}

pub enum AnthropicContentView {
    Text(Seq<char>),
    Blocks(Seq<ContentBlockView>),
}

pub struct AnthropicMessageView {
    pub role: Seq<char>,
    pub content: AnthropicContentView,
}

pub enum SystemContentView {
    Text(Seq<char>),
    Blocks(Seq<Seq<char>>),
}

pub enum AnthropicToolView {
    ClientTool { name: Seq<char>, description: Seq<char>, input_schema: Seq<char> },
    ServerTool(Seq<char>),
}

pub enum AnthropicToolChoiceView {
    Auto(Seq<char>),
    Specific { kind: Seq<char>, name: Option<Seq<char>>, disable_parallel_tool_use: Option<bool> },
}

pub enum OutputFormatView {
    JsonSchema(Seq<char>),
    Text,
}

pub struct AnthropicRequestView {
    pub model: Seq<char>,
    pub max_tokens: u32,
    pub messages: Seq<AnthropicMessageView>,
    pub system: Option<SystemContentView>,
    pub temperature: Option<u64>,
    pub top_p: Option<u64>,
    pub top_k: Option<u32>,
    pub stop_sequences: Option<Seq<Seq<char>>>,
    pub stream: Option<bool>,
    /// `Some(user_id)` when metadata is present.
    pub metadata: Option<Option<Seq<char>>>,
    pub service_tier: Option<Seq<char>>,
    pub thinking: Option<Seq<char>>,
    pub output_config: Option<OutputFormatView>,
    pub tools: Option<Seq<AnthropicToolView>>,
    pub tool_choice: Option<AnthropicToolChoiceView>,
}

pub struct AnthropicResponseView {
    pub id: Seq<char>,
    pub kind: Seq<char>,
    pub role: Seq<char>,
    pub content: Seq<ContentBlockView>,
    pub model: Seq<char>,
    pub stop_reason: Option<Seq<char>>,
    pub stop_sequence: Option<Seq<char>>,
    pub usage: AnthropicUsageView,
}

pub struct AnthropicUsageView {
    pub input_tokens: i64,
    pub output_tokens: i64,
    pub cache_creation_input_tokens: Option<i64>,
    pub cache_read_input_tokens: Option<i64>,
    pub service_tier: Option<Seq<char>>,
}

impl DeepView for AnthropicUsage {
    type V = AnthropicUsageView;

    open spec fn deep_view(&self) -> AnthropicUsageView {
        AnthropicUsageView {
            input_tokens: self.input_tokens,
            output_tokens: self.output_tokens,
            cache_creation_input_tokens: self.cache_creation_input_tokens,
            cache_read_input_tokens: self.cache_read_input_tokens,
            service_tier: self.service_tier.deep_view(),
        }
    }
}

pub enum ContentBlockStartView {
    Text(Seq<char>),
    ToolUse { id: Seq<char>, name: Seq<char>, input: Seq<char> },
    Thinking(Seq<char>),
}

pub enum StreamDeltaView {
    TextDelta(Seq<char>),
    InputJsonDelta(Seq<char>),
    ThinkingDelta(Seq<char>),
    SignatureDelta(Seq<char>),
}

pub struct MessageStartView {
    pub id: Seq<char>,
    pub kind: Seq<char>,
    pub role: Seq<char>,
    pub content: Seq<ContentBlockView>,
    pub model: Seq<char>,
    pub stop_reason: Option<Seq<char>>,
    pub stop_sequence: Option<Seq<char>>,
    pub usage: StreamUsage,
}

pub enum AnthropicStreamEventView {
    MessageStart(MessageStartView),
    ContentBlockStart { index: i32, block: ContentBlockStartView },
    ContentBlockDelta { index: i32, delta: StreamDeltaView },
    ContentBlockStop { index: i32 },
    MessageDelta { stop_reason: Option<Seq<char>>, stop_sequence: Option<Seq<char>>, usage: Option<StreamUsage> },
    MessageStop,
    Ping,
    Error { kind: Seq<char>, message: Seq<char> },
}

impl DeepView for ImageSource {
    type V = ImageSourceView;

    open spec fn deep_view(&self) -> ImageSourceView {
        ImageSourceView {
            kind: self.kind@,
            media_type: self.media_type@,
            data: self.data.deep_view(),
            url: self.url.deep_view(),
        }
    }
}

impl DeepView for ToolResultBlock {
    type V = Option<Seq<char>>;

    open spec fn deep_view(&self) -> Option<Seq<char>> {
        match self {
            ToolResultBlock::Text { text } => Some(text@),
            ToolResultBlock::Image { .. } => None,
        }
    }
}

impl DeepView for ToolResultContent {
    type V = ToolResultContentView;

    open spec fn deep_view(&self) -> ToolResultContentView {
        match self {
            ToolResultContent::Empty => ToolResultContentView::Empty,
            ToolResultContent::Text(t) => ToolResultContentView::Text(t@),
            ToolResultContent::Blocks(b) => ToolResultContentView::Blocks(b.deep_view()),
        }
    }
}

impl DeepView for ContentBlock {
    type V = ContentBlockView;

    open spec fn deep_view(&self) -> ContentBlockView {
        match self {
            ContentBlock::Text { text, cache_control, citations } => ContentBlockView::Text {
                text: text@,
                cache_control: cache_control.deep_view(),
                citations: citations.deep_view(),
            },
            ContentBlock::Image { source } => ContentBlockView::Image { source: source.deep_view() },
            ContentBlock::ToolUse { id, name, input } => ContentBlockView::ToolUse {
                id: id@,
                name: name@,
                input: input@,
            },
            ContentBlock::ToolResult { tool_use_id, content, is_error } => ContentBlockView::ToolResult {
                tool_use_id: tool_use_id@,
                content: content.deep_view(),
                is_error: *is_error,
            },
            ContentBlock::Document { source } => ContentBlockView::Document { source: source@ },
            ContentBlock::Thinking { thinking, signature } => ContentBlockView::Thinking {
                thinking: thinking@,
                signature: signature.deep_view(),
            },
        }
    }
}

impl DeepView for AnthropicContent {
    type V = AnthropicContentView;

    open spec fn deep_view(&self) -> AnthropicContentView {
        match self {
            AnthropicContent::Text(t) => AnthropicContentView::Text(t@),
            AnthropicContent::Blocks(b) => AnthropicContentView::Blocks(b.deep_view()),
        }
    }
}

impl DeepView for AnthropicMessage {
    type V = AnthropicMessageView;

    open spec fn deep_view(&self) -> AnthropicMessageView {
        AnthropicMessageView { role: self.role@, content: self.content.deep_view() }
    }
}

impl DeepView for SystemBlock {
    type V = Seq<char>;

    open spec fn deep_view(&self) -> Seq<char> {
        self.text@
    }
}

impl DeepView for SystemContent {
    type V = SystemContentView;

    open spec fn deep_view(&self) -> SystemContentView {
        match self {
            SystemContent::Text(t) => SystemContentView::Text(t@),
            SystemContent::Blocks(b) => SystemContentView::Blocks(b.deep_view()),
        }
    }
}

impl DeepView for AnthropicTool {
    type V = AnthropicToolView;

    open spec fn deep_view(&self) -> AnthropicToolView {
        match self {
            AnthropicTool::ClientTool { name, description, input_schema } => AnthropicToolView::ClientTool {
                name: name@,
                description: description@,
                input_schema: input_schema@,
            },
            AnthropicTool::ServerTool(j) => AnthropicToolView::ServerTool(j@),
        }
    }
}

impl DeepView for AnthropicToolChoice {
    type V = AnthropicToolChoiceView;

    open spec fn deep_view(&self) -> AnthropicToolChoiceView {
        match self {
            AnthropicToolChoice::Auto(s) => AnthropicToolChoiceView::Auto(s@),
            AnthropicToolChoice::Specific(s) => AnthropicToolChoiceView::Specific {
                kind: s.kind@,
                name: s.name.deep_view(),
                disable_parallel_tool_use: s.disable_parallel_tool_use,
            },
        }
    }
}

impl DeepView for OutputConfig {
    type V = OutputFormatView;

    open spec fn deep_view(&self) -> OutputFormatView {
        match self.format {
            OutputFormat::JsonSchema { schema } => OutputFormatView::JsonSchema(schema@),
            OutputFormat::Text => OutputFormatView::Text,
        }
    }
}

impl DeepView for Metadata {
    type V = Option<Seq<char>>;

    open spec fn deep_view(&self) -> Option<Seq<char>> {
        self.user_id.deep_view()
    }
}

impl View for AnthropicRequest {
    type V = AnthropicRequestView;

    open spec fn view(&self) -> AnthropicRequestView {
        AnthropicRequestView {
            model: self.model@,
            max_tokens: self.max_tokens,
            messages: self.messages.deep_view(),
            system: self.system.deep_view(),
            temperature: self.temperature,
            top_p: self.top_p,
            top_k: self.top_k,
            stop_sequences: self.stop_sequences.deep_view(),
            stream: self.stream,
            metadata: self.metadata.deep_view(),
            service_tier: self.service_tier.deep_view(),
            thinking: self.thinking.deep_view(),
            output_config: self.output_config.deep_view(),
            tools: self.tools.deep_view(),
            tool_choice: self.tool_choice.deep_view(),
        }
    }
}

impl View for AnthropicResponse {
    type V = AnthropicResponseView;

    open spec fn view(&self) -> AnthropicResponseView {
        AnthropicResponseView {
            id: self.id@,
            kind: self.kind@,
            role: self.role@,
            content: self.content.deep_view(),
            model: self.model@,
            stop_reason: self.stop_reason.deep_view(),
            stop_sequence: self.stop_sequence.deep_view(),
            usage: self.usage.deep_view(),
        }
    }
}

impl DeepView for ContentBlockStartData {
    type V = ContentBlockStartView;

    open spec fn deep_view(&self) -> ContentBlockStartView {
        match self {
            ContentBlockStartData::Text { text } => ContentBlockStartView::Text(text@),
            ContentBlockStartData::ToolUse { id, name, input } => ContentBlockStartView::ToolUse {
                id: id@,
                name: name@,
                input: input@,
            },
            ContentBlockStartData::Thinking { thinking } => ContentBlockStartView::Thinking(thinking@),
        }
    }
}

impl DeepView for StreamDelta {
    type V = StreamDeltaView;

    open spec fn deep_view(&self) -> StreamDeltaView {
        match self {
            StreamDelta::TextDelta { text } => StreamDeltaView::TextDelta(text@),
            StreamDelta::InputJsonDelta { partial_json } => StreamDeltaView::InputJsonDelta(partial_json@),
            StreamDelta::ThinkingDelta { thinking } => StreamDeltaView::ThinkingDelta(thinking@),
            StreamDelta::SignatureDelta { signature } => StreamDeltaView::SignatureDelta(signature@),
        }
    }
}

impl DeepView for MessageStartData {
    type V = MessageStartView;

    open spec fn deep_view(&self) -> MessageStartView {
        MessageStartView {
            id: self.id@,
            kind: self.kind@,
            role: self.role@,
            content: self.content.deep_view(),
            model: self.model@,
            stop_reason: self.stop_reason.deep_view(),
            stop_sequence: self.stop_sequence.deep_view(),
            usage: self.usage,
        }
    }
}

impl DeepView for AnthropicStreamEvent {
    type V = AnthropicStreamEventView;

    open spec fn deep_view(&self) -> AnthropicStreamEventView {
        match self {
            AnthropicStreamEvent::MessageStart { message } => AnthropicStreamEventView::MessageStart(
                message.deep_view(),
            ),
            AnthropicStreamEvent::ContentBlockStart { index, content_block } => AnthropicStreamEventView::ContentBlockStart {
                index: *index,
                block: content_block.deep_view(),
            },
            AnthropicStreamEvent::ContentBlockDelta { index, delta } => AnthropicStreamEventView::ContentBlockDelta {
                index: *index,
                delta: delta.deep_view(),
            },
            AnthropicStreamEvent::ContentBlockStop { index } => AnthropicStreamEventView::ContentBlockStop {
                index: *index,
            },
            AnthropicStreamEvent::MessageDelta { delta, usage } => AnthropicStreamEventView::MessageDelta {
                stop_reason: delta.stop_reason.deep_view(),
                stop_sequence: delta.stop_sequence.deep_view(),
                usage: *usage,
            },
            AnthropicStreamEvent::MessageStop => AnthropicStreamEventView::MessageStop,
            AnthropicStreamEvent::Ping => AnthropicStreamEventView::Ping,
            AnthropicStreamEvent::Error { error } => AnthropicStreamEventView::Error {
                kind: error.kind@,
                message: error.message@,
            },
        }
    }
}

} // verus!
