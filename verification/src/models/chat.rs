//! OpenAI chat-completions wire types and their mathematical models.
//!
//! JSON values that the gateway only carries through (schemas, tool
//! arguments, logprobs) are held as their JSON text. Sampling parameters that
//! are floating-point numbers on the wire are carried through unchanged as the
//! IEEE-754 bit pattern of the `f64` (`f64::to_bits`).
use vstd::prelude::*;

verus! {

/// A piece of a multi-part message content.
#[derive(Debug, Clone)]
pub enum ContentPart {
    Text { text: String },
    ImageUrl { image_url: ImageUrl },
}

#[derive(Debug, Clone)]
pub struct ImageUrl {
    pub url: String,
    pub detail: Option<String>,
}

/// Message content: plain text or a list of parts.
#[derive(Debug, Clone)]
pub enum MessageContent {
    Text(String),
    Parts(Vec<ContentPart>),
}

#[derive(Debug, Clone)]
pub struct ToolCallFunction {
    pub name: String,
    /// JSON text of the call's arguments.
    pub arguments: String,
}

#[derive(Debug, Clone)]
pub struct ToolCall {
    pub id: String,
    pub kind: String,
    pub function: ToolCallFunction,
}

#[derive(Debug, Clone)]
pub struct ChatMessage {
    pub role: String,
    pub content: MessageContent,
    pub name: Option<String>,
    pub tool_calls: Option<Vec<ToolCall>>,
    pub tool_call_id: Option<String>,
}

#[derive(Debug, Clone)]
pub struct ToolFunction {
    pub name: String,
    pub description: Option<String>,
    /// JSON text of the parameter schema.
    pub parameters: Option<String>,
}

#[derive(Debug, Clone)]
pub struct Tool {
    pub kind: String,
    pub function: ToolFunction,
}

#[derive(Debug, Clone)]
pub struct ToolChoiceFunction {
    pub name: String,
}

#[derive(Debug, Clone)]
pub struct ToolChoiceObject {
    pub kind: String,
    pub function: ToolChoiceFunction,
}

#[derive(Debug, Clone)]
pub enum ToolChoice {
    String(String),
    Object(ToolChoiceObject),
}

#[derive(Debug, Clone)]
pub struct ResponseFormat {
    pub kind: String,
    /// JSON text of the schema.
    pub json_schema: Option<String>,
}

/// An OpenAI chat-completions request.
#[derive(Debug, Clone)]
pub struct ChatCompletionRequest {
    pub model: String,
    pub messages: Vec<ChatMessage>,
    /// `f64` bits.
    pub temperature: Option<u64>,
    /// `f64` bits.
    pub top_p: Option<u64>,
    pub n: Option<u32>,
    pub stream: Option<bool>,
    pub stop: Option<Vec<String>>,
    pub max_tokens: Option<u32>,
    pub max_completion_tokens: Option<u32>,
    /// `f64` bits.
    pub presence_penalty: Option<u64>,
    /// `f64` bits.
    pub frequency_penalty: Option<u64>,
    /// JSON text of the bias map.
    pub logit_bias: Option<String>,
    pub user: Option<String>,
    pub seed: Option<i64>,
    pub tools: Option<Vec<Tool>>,
    pub tool_choice: Option<ToolChoice>,
    pub response_format: Option<ResponseFormat>,
}

#[derive(Debug, Clone, Copy, PartialEq, Eq, Structural)]
pub struct Usage {
    pub prompt_tokens: i64,
    pub completion_tokens: i64,
    pub total_tokens: i64,
}

#[derive(Debug, Clone)]
pub struct ChatChoice {
    pub index: u32,
    pub message: ChatMessage,
    pub finish_reason: Option<String>,
    /// JSON text.
    pub logprobs: Option<String>,
}

/// An OpenAI chat-completions (non-streaming) response.
#[derive(Debug, Clone)]
pub struct ChatCompletionResponse {
    pub id: String,
    pub object: String,
    pub created: i64,
    pub model: String,
    pub choices: Vec<ChatChoice>,
    pub usage: Usage,
    pub system_fingerprint: Option<String>,
}

// ---------------------------------------------------------------------------
// Models
// ---------------------------------------------------------------------------

pub enum ContentPartView {
    Text(Seq<char>),
    ImageUrl { url: Seq<char>, detail: Option<Seq<char>> },
}

pub enum MessageContentView {
    Text(Seq<char>),
    Parts(Seq<ContentPartView>),
}

pub struct ToolCallView {
    pub id: Seq<char>,
    pub kind: Seq<char>,
    pub name: Seq<char>,
    pub arguments: Seq<char>,
}

pub struct ChatMessageView {
    pub role: Seq<char>,
    pub content: MessageContentView,
    pub name: Option<Seq<char>>,
    pub tool_calls: Option<Seq<ToolCallView>>,
    pub tool_call_id: Option<Seq<char>>,
}

pub struct ToolView {
    pub kind: Seq<char>,
    pub name: Seq<char>,
    pub description: Option<Seq<char>>,
    pub parameters: Option<Seq<char>>,
}

pub enum ToolChoiceView {
    String(Seq<char>),
    Object { kind: Seq<char>, name: Seq<char> },
}

pub struct ResponseFormatView {
    pub kind: Seq<char>,
    pub json_schema: Option<Seq<char>>,
}

pub struct ChatCompletionRequestView {
    pub model: Seq<char>,
    pub messages: Seq<ChatMessageView>,
    pub temperature: Option<u64>,
    pub top_p: Option<u64>,
    pub n: Option<u32>,
    pub stream: Option<bool>,
    pub stop: Option<Seq<Seq<char>>>,
    pub max_tokens: Option<u32>,
    pub max_completion_tokens: Option<u32>,
    pub presence_penalty: Option<u64>,
    pub frequency_penalty: Option<u64>,
    pub logit_bias: Option<Seq<char>>,
    pub user: Option<Seq<char>>,
    pub seed: Option<i64>,
    pub tools: Option<Seq<ToolView>>,
    pub tool_choice: Option<ToolChoiceView>,
    pub response_format: Option<ResponseFormatView>,
}

pub struct ChatChoiceView {
    pub index: u32,
    pub message: ChatMessageView,
    pub finish_reason: Option<Seq<char>>,
    pub logprobs: Option<Seq<char>>,
}

pub struct ChatCompletionResponseView {
    pub id: Seq<char>,
    pub object: Seq<char>,
    pub created: i64,
    pub model: Seq<char>,
    pub choices: Seq<ChatChoiceView>,
    pub usage: Usage,
    pub system_fingerprint: Option<Seq<char>>,
}

impl DeepView for ContentPart {
    type V = ContentPartView;

    open spec fn deep_view(&self) -> ContentPartView {
        match self {
            ContentPart::Text { text } => ContentPartView::Text(text@),
            ContentPart::ImageUrl { image_url } => ContentPartView::ImageUrl {
                url: image_url.url@,
                detail: image_url.detail.deep_view(),
            },
        }
    }
}

impl DeepView for MessageContent {
    type V = MessageContentView;

    open spec fn deep_view(&self) -> MessageContentView {
        match self {
            MessageContent::Text(t) => MessageContentView::Text(t@),
            MessageContent::Parts(p) => MessageContentView::Parts(p.deep_view()),
        }
    }
}

impl DeepView for ToolCall {
    type V = ToolCallView;

    open spec fn deep_view(&self) -> ToolCallView {
        ToolCallView {
            id: self.id@,
            kind: self.kind@,
            name: self.function.name@,
            arguments: self.function.arguments@,
        }
    }
}

impl DeepView for ChatMessage {
    type V = ChatMessageView;

    open spec fn deep_view(&self) -> ChatMessageView {
        ChatMessageView {
            role: self.role@,
            content: self.content.deep_view(),
            name: self.name.deep_view(),
            tool_calls: self.tool_calls.deep_view(),
            tool_call_id: self.tool_call_id.deep_view(),
        }
    }
}

impl DeepView for Tool {
    type V = ToolView;

    open spec fn deep_view(&self) -> ToolView {
        ToolView {
            kind: self.kind@,
            name: self.function.name@,
            description: self.function.description.deep_view(),
            parameters: self.function.parameters.deep_view(),
        }
    }
}

impl DeepView for ToolChoice {
    type V = ToolChoiceView;

    open spec fn deep_view(&self) -> ToolChoiceView {
        match self {
            ToolChoice::String(s) => ToolChoiceView::String(s@),
            ToolChoice::Object(o) => ToolChoiceView::Object {
                kind: o.kind@,
                name: o.function.name@,
            },
        }
    }
}

impl DeepView for ResponseFormat {
    type V = ResponseFormatView;

    open spec fn deep_view(&self) -> ResponseFormatView {
        ResponseFormatView { kind: self.kind@, json_schema: self.json_schema.deep_view() }
    }
}

impl View for ChatCompletionRequest {
    type V = ChatCompletionRequestView;

    open spec fn view(&self) -> ChatCompletionRequestView {
        ChatCompletionRequestView {
            model: self.model@,
            messages: self.messages.deep_view(),
            temperature: self.temperature,
            top_p: self.top_p,
            n: self.n,
            stream: self.stream,
            stop: self.stop.deep_view(),
            max_tokens: self.max_tokens,
            max_completion_tokens: self.max_completion_tokens,
            presence_penalty: self.presence_penalty,
            frequency_penalty: self.frequency_penalty,
            logit_bias: self.logit_bias.deep_view(),
            user: self.user.deep_view(),
            seed: self.seed,
            tools: self.tools.deep_view(),
            tool_choice: self.tool_choice.deep_view(),
            response_format: self.response_format.deep_view(),
        }
    }
}

impl DeepView for ChatChoice {
    type V = ChatChoiceView;

    open spec fn deep_view(&self) -> ChatChoiceView {
        ChatChoiceView {
            index: self.index,
            message: self.message.deep_view(),
            finish_reason: self.finish_reason.deep_view(),
            logprobs: self.logprobs.deep_view(),
        }
    }
}

impl View for ChatCompletionResponse {
    type V = ChatCompletionResponseView;

    open spec fn view(&self) -> ChatCompletionResponseView {
        ChatCompletionResponseView {
            id: self.id@,
            object: self.object@,
            created: self.created,
            model: self.model@,
            choices: self.choices.deep_view(),
            usage: self.usage,
            system_fingerprint: self.system_fingerprint.deep_view(),
        }
    }
}

} // verus!
