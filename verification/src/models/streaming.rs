//! OpenAI streaming chunk types and their mathematical models.
use vstd::prelude::*;
use crate::models::chat::Usage;

verus! {

#[derive(Debug, Clone)]
pub struct DeltaToolCallFunction {
    pub name: Option<String>,
    pub arguments: Option<String>,
}

#[derive(Debug, Clone)]
pub struct DeltaToolCall {
    pub index: i32,
    pub id: Option<String>,
    pub kind: Option<String>,
    pub function: Option<DeltaToolCallFunction>,
}

#[derive(Debug, Clone)]
pub struct Delta {
    pub role: Option<String>,
    pub content: Option<String>,
    pub tool_calls: Option<Vec<DeltaToolCall>>,
}

#[derive(Debug, Clone)]
pub struct ChunkChoice {
    pub index: u32,
    pub delta: Delta,
    pub finish_reason: Option<String>,
    /// JSON text.
    pub logprobs: Option<String>,
}

/// One chunk of an OpenAI chat-completions stream.
#[derive(Debug, Clone)]
pub struct ChatCompletionChunk {
    pub id: String,
    pub object: String,
    pub created: i64,
    pub model: String,
    pub choices: Vec<ChunkChoice>,
    pub system_fingerprint: Option<String>,
    pub usage: Option<Usage>,
}

impl Delta {
    /// The empty delta.
    pub fn empty() -> (r: Delta)
        ensures
            r.role is None,
            r.content is None,
            r.tool_calls is None,
    {
        Delta { role: None, content: None, tool_calls: None }
    }
}

pub struct DeltaToolCallView {
    pub index: i32,
    pub id: Option<Seq<char>>,
    pub kind: Option<Seq<char>>,
    /// `Some((name, arguments))` when a function part is present.
    pub function: Option<(Option<Seq<char>>, Option<Seq<char>>)>,
}

pub struct DeltaView {
    pub role: Option<Seq<char>>,
    pub content: Option<Seq<char>>,
    pub tool_calls: Option<Seq<DeltaToolCallView>>,
}

pub struct ChunkChoiceView {
    pub index: u32,
    pub delta: DeltaView,
    pub finish_reason: Option<Seq<char>>,
    pub logprobs: Option<Seq<char>>,
}

pub struct ChatCompletionChunkView {
    pub id: Seq<char>,
    pub object: Seq<char>,
    pub created: i64,
    pub model: Seq<char>,
    pub choices: Seq<ChunkChoiceView>,
    pub system_fingerprint: Option<Seq<char>>,
    pub usage: Option<Usage>,
}

impl DeepView for DeltaToolCallFunction {
    type V = (Option<Seq<char>>, Option<Seq<char>>);

    open spec fn deep_view(&self) -> (Option<Seq<char>>, Option<Seq<char>>) {
        (self.name.deep_view(), self.arguments.deep_view())
    }
}

impl DeepView for DeltaToolCall {
    type V = DeltaToolCallView;

    open spec fn deep_view(&self) -> DeltaToolCallView {
        DeltaToolCallView {
            index: self.index,
            id: self.id.deep_view(),
            kind: self.kind.deep_view(),
            function: self.function.deep_view(),
        }
    }
}

impl DeepView for Delta {
    type V = DeltaView;

    open spec fn deep_view(&self) -> DeltaView {
        DeltaView {
            role: self.role.deep_view(),
            content: self.content.deep_view(),
            tool_calls: self.tool_calls.deep_view(),
        }
    }
}

impl DeepView for ChunkChoice {
    type V = ChunkChoiceView;

    open spec fn deep_view(&self) -> ChunkChoiceView {
        ChunkChoiceView {
            index: self.index,
            delta: self.delta.deep_view(),
            finish_reason: self.finish_reason.deep_view(),
            logprobs: self.logprobs.deep_view(),
        }
    }
}

impl View for ChatCompletionChunk {
    type V = ChatCompletionChunkView;

    open spec fn view(&self) -> ChatCompletionChunkView {
        ChatCompletionChunkView {
            id: self.id@,
            object: self.object@,
            created: self.created,
            model: self.model@,
            choices: self.choices.deep_view(),
            system_fingerprint: self.system_fingerprint.deep_view(),
            usage: self.usage,
        }
    }
}

impl DeepView for ChatCompletionChunk {
    type V = ChatCompletionChunkView;

    open spec fn deep_view(&self) -> ChatCompletionChunkView {
        self@
    }
}

} // verus!
