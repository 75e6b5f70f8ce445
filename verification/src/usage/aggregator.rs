//! Token accounting over streamed responses.
use vstd::prelude::*;
use vstd::utf8::encode_utf8;
use crate::models::anthropic::{AnthropicStreamEvent, AnthropicStreamEventView, StreamDeltaView};
use crate::models::streaming::{ChatCompletionChunk, ChunkChoiceView};

verus! {

/// Accumulates token counts from a streaming response.
#[derive(Debug)]
pub struct StreamUsageAggregator {
    /// Input/prompt tokens (set from the usage chunk or the message start).
    pub prompt_tokens: i64,
    /// Output/completion tokens (set from the final usage).
    pub completion_tokens: i64,
    /// Accumulated UTF-8 length of the streamed text, for estimation.
    pub completion_chars: usize,
    /// Model name captured from the stream.
    pub model: String,
}

pub struct AggregatorView {
    pub prompt_tokens: i64,
    pub completion_tokens: i64,
    pub completion_chars: nat,
    pub model: Seq<char>,
}

impl View for StreamUsageAggregator {
    type V = AggregatorView;

    open spec fn view(&self) -> AggregatorView {
        AggregatorView {
            prompt_tokens: self.prompt_tokens,
            completion_tokens: self.completion_tokens,
            completion_chars: self.completion_chars as nat,
            model: self.model@,
        }
    }
}

/// The UTF-8 length of a text, the unit in which streamed text is counted.
pub open spec fn utf8_len(s: Seq<char>) -> nat {
    encode_utf8(s).len()
}

/// The UTF-8 length of the content deltas of the choices.
pub open spec fn choices_content_bytes(chs: Seq<ChunkChoiceView>) -> nat
    decreases chs.len(),
{
    if chs.len() == 0 {
        0
    } else {
        choices_content_bytes(chs.drop_last()) + match chs.last().delta.content {
            Some(c) => utf8_len(c),
            None => 0,
        }
    }
}

/// The completion tokens to bill: the reported count when positive, else an
/// estimate of one token per four bytes of streamed text, at least one.
pub open spec fn estimated_completion(completion_tokens: i64, completion_chars: nat) -> i64 {
    if completion_tokens > 0 {
        completion_tokens
    } else if completion_chars <= i64::MAX && completion_chars / 4 > 1 {
        (completion_chars / 4) as i64
    } else {
        1
    }
}

/// The model kept after a chunk reporting `offered`: the first non-empty
/// model seen stays.
pub open spec fn kept_model(current: Seq<char>, offered: Seq<char>) -> Seq<char> {
    if current.len() == 0 && offered.len() != 0 {
        offered
    } else {
        current
    }
}

/// The model kept after chunks reporting `offered`, in order.
pub open spec fn models_after(current: Seq<char>, offered: Seq<Seq<char>>) -> Seq<char>
    decreases offered.len(),
{
    if offered.len() == 0 {
        current
    } else {
        kept_model(models_after(current, offered.drop_last()), offered.last())
    }
}

/// The first non-empty model of `offered`, or the empty text.
pub open spec fn first_nonempty(offered: Seq<Seq<char>>) -> Seq<char>
    decreases offered.len(),
{
    if offered.len() == 0 {
        seq![]
    } else if offered[0].len() != 0 {
        offered[0]
    } else {
        first_nonempty(offered.drop_first())
    }
}

proof fn lemma_first_nonempty_push(s: Seq<Seq<char>>, x: Seq<char>)
    ensures
        first_nonempty(s.push(x)) == if first_nonempty(s).len() != 0 {
            first_nonempty(s)
        } else if x.len() != 0 {
            x
        } else {
            seq![]
        },
    decreases s.len(),
{
    if s.len() == 0 {
        assert(s.push(x).drop_first() =~= Seq::<Seq<char>>::empty());
        assert(s.push(x)[0] == x);
        assert(first_nonempty(Seq::<Seq<char>>::empty()) == Seq::<char>::empty());
        assert(first_nonempty(s) == Seq::<char>::empty());
    } else {
        assert(s.push(x)[0] == s[0]);
        if s[0].len() == 0 {
            assert(s.push(x).drop_first() =~= s.drop_first().push(x));
            lemma_first_nonempty_push(s.drop_first(), x);
        }
    }
}

/// The model an aggregator reports after a stream of chunks reporting
/// `offered` is the first non-empty one among them (empty if none is), and
/// one already known is never replaced.
pub proof fn law_first_model_kept(current: Seq<char>, offered: Seq<Seq<char>>)
    ensures
        current.len() != 0 ==> models_after(current, offered) == current,
        current.len() == 0 ==> models_after(current, offered) =~= first_nonempty(offered),
    decreases offered.len(),
{
    if offered.len() > 0 {
        law_first_model_kept(current, offered.drop_last());
        if current.len() == 0 {
            assert(offered.drop_last().push(offered.last()) =~= offered);
            lemma_first_nonempty_push(offered.drop_last(), offered.last());
        }
    }
}

/// The aggregator after an Anthropic stream event.
pub open spec fn after_anthropic_event(a: AggregatorView, e: AnthropicStreamEventView) -> AggregatorView {
    match e {
        AnthropicStreamEventView::MessageStart(m) => AggregatorView {
            prompt_tokens: m.usage.input_tokens,
            model: if a.model.len() == 0 {
                m.model
            } else {
                a.model
            },
            ..a
        },
        AnthropicStreamEventView::MessageDelta { usage: Some(u), .. } => AggregatorView {
            completion_tokens: u.output_tokens,
            ..a
        },
        AnthropicStreamEventView::ContentBlockDelta { delta: StreamDeltaView::TextDelta(t), .. } => AggregatorView {
            completion_chars: a.completion_chars + utf8_len(t),
            ..a
        },
        _ => a,
    }
}

impl StreamUsageAggregator {
    /// An aggregator that has seen nothing.
    pub fn new() -> (r: Self)
        ensures
            r@ == (AggregatorView { prompt_tokens: 0, completion_tokens: 0, completion_chars: 0, model: seq![] }),
    {
        StreamUsageAggregator { prompt_tokens: 0, completion_tokens: 0, completion_chars: 0, model: String::new() }
    }

    /// Takes in an OpenAI chunk: the first non-empty model name is kept, a
    /// usage report replaces both token counts, and the content of every
    /// choice adds its UTF-8 length.
    pub fn process_openai_chunk(&mut self, chunk: &ChatCompletionChunk)
        requires
            old(self).completion_chars + choices_content_bytes(chunk@.choices) <= usize::MAX,
        ensures
            final(self)@.model == kept_model(old(self)@.model, chunk@.model),
            final(self)@.prompt_tokens == (match chunk.usage {
                Some(u) => u.prompt_tokens,
                None => old(self).prompt_tokens,
            }),
            final(self)@.completion_tokens == (match chunk.usage {
                Some(u) => u.completion_tokens,
                None => old(self).completion_tokens,
            }),
            final(self)@.completion_chars == old(self)@.completion_chars + choices_content_bytes(chunk@.choices),
    {
        if self.model.as_str().is_empty() && !chunk.model.as_str().is_empty() {
            self.model = chunk.model.clone();
        }
        match &chunk.usage {
            Some(usage) => {
                self.prompt_tokens = usage.prompt_tokens;
                self.completion_tokens = usage.completion_tokens;
            },
            None => {},
        }
        let ghost chv = chunk@.choices;
        let ghost start = self.completion_chars as nat;
        let ghost model0 = self@.model;
        let ghost prompt0 = self.prompt_tokens;
        let ghost completion0 = self.completion_tokens;
        let n = chunk.choices.len();
        let mut i: usize = 0;
        while i < n
            invariant
                n == chv.len(),
                chv == chunk@.choices,
                i <= n,
                self.completion_chars == start + choices_content_bytes(chv.take(i as int)),
                self@.model == model0,
                self.prompt_tokens == prompt0,
                self.completion_tokens == completion0,
                start + choices_content_bytes(chv) <= usize::MAX,
            decreases n - i,
        {
            proof {
                let t = chv.take(i + 1);
                assert(t.drop_last() == chv.take(i as int));
                lemma_content_bytes_prefix(chv, i + 1);
            }
            match &chunk.choices[i].delta.content {
                Some(content) => {
                    self.completion_chars = self.completion_chars + content.as_str().len();
                },
                None => {},
            }
            i = i + 1;
        }
        proof {
            assert(chv.take(n as int) == chv);
        }
    }

    /// Takes in an Anthropic stream event: the message start gives the prompt
    /// tokens (and the model, if none is known yet), the message delta's usage
    /// gives the completion tokens, and a text delta adds its UTF-8 length.
    pub fn process_anthropic_event(&mut self, event: &AnthropicStreamEvent)
        requires
            (match event.deep_view() {
                AnthropicStreamEventView::ContentBlockDelta { delta: StreamDeltaView::TextDelta(t), .. } =>
                    old(self).completion_chars + utf8_len(t) <= usize::MAX,
                _ => true,
            }),
        ensures
            final(self)@ == after_anthropic_event(old(self)@, event.deep_view()),
    {
        match event {
            AnthropicStreamEvent::MessageStart { message } => {
                self.prompt_tokens = message.usage.input_tokens;
                if self.model.as_str().is_empty() {
                    self.model = message.model.clone();
                }
            },
            AnthropicStreamEvent::MessageDelta { usage, .. } => {
                match usage {
                    Some(u) => {
                        self.completion_tokens = u.output_tokens;
                    },
                    None => {},
                }
            },
            AnthropicStreamEvent::ContentBlockDelta { delta, .. } => {
                match delta {
                    crate::models::anthropic::StreamDelta::TextDelta { text } => {
                        self.completion_chars = self.completion_chars + text.as_str().len();
                    },
                    _ => {},
                }
            },
            _ => {},
        }
    }

    /// The completion tokens reported by the API, or an estimate of one token
    /// per four bytes of streamed text (at least one) when none was reported.
    pub fn estimate_completion_tokens(&self) -> (r: i64)
        ensures
            r == estimated_completion(self.completion_tokens, self.completion_chars as nat),
    {
        if self.completion_tokens > 0 {
            self.completion_tokens
        } else {
            let est: u64 = if self.completion_chars as u64 <= i64::MAX as u64 {
                self.completion_chars as u64 / 4
            } else {
                0
            };
            if est > 1 {
                est as i64
            } else {
                1
            }
        }
    }

    /// The completion tokens to record: actual or estimated.
    pub fn final_completion_tokens(&self) -> (r: i64)
        ensures
            r == estimated_completion(self.completion_tokens, self.completion_chars as nat),
    {
        self.estimate_completion_tokens()
    }

    /// Prompt plus (actual or estimated) completion tokens.
    pub fn total_tokens(&self) -> (r: i64)
        requires
            self.prompt_tokens + estimated_completion(self.completion_tokens, self.completion_chars as nat)
                <= i64::MAX,
            self.prompt_tokens + estimated_completion(self.completion_tokens, self.completion_chars as nat)
                >= i64::MIN,
        ensures
            r == self.prompt_tokens + estimated_completion(self.completion_tokens, self.completion_chars as nat),
    {
        self.prompt_tokens + self.final_completion_tokens()
    }

    /// Whether the API reported the completion tokens (rather than leaving
    /// them to be estimated).
    pub fn has_actual_usage(&self) -> (r: bool)
        ensures
            r == (self.completion_tokens > 0),
    {
        self.completion_tokens > 0
    }
}

proof fn lemma_content_bytes_prefix(chs: Seq<ChunkChoiceView>, k: int)
    requires
        0 <= k <= chs.len(),
    ensures
        choices_content_bytes(chs.take(k)) <= choices_content_bytes(chs),
    decreases chs.len(),
{
    if k < chs.len() {
        assert(chs.drop_last().take(k) == chs.take(k));
        lemma_content_bytes_prefix(chs.drop_last(), k);
    } else {
        assert(chs.take(k) == chs);
    }
}

/// What each Anthropic stream event does to the counts: the message start
/// sets the prompt tokens to its input tokens; the message delta's usage sets
/// the completion tokens to its output tokens; a text delta adds its UTF-8
/// length to the streamed text; no event touches the counts it does not
/// report.
pub proof fn law_anthropic_event_counts(a: AggregatorView, e: AnthropicStreamEventView)
    ensures
        e matches AnthropicStreamEventView::MessageStart(m) ==> {
            let b = after_anthropic_event(a, e);
            &&& b.prompt_tokens == m.usage.input_tokens
            &&& b.completion_tokens == a.completion_tokens
            &&& b.completion_chars == a.completion_chars
        },
        e matches AnthropicStreamEventView::MessageDelta { usage: Some(u), .. } ==> {
            let b = after_anthropic_event(a, e);
            &&& b.completion_tokens == u.output_tokens
            &&& b.prompt_tokens == a.prompt_tokens
            &&& b.completion_chars == a.completion_chars
        },
        e matches AnthropicStreamEventView::ContentBlockDelta { delta: StreamDeltaView::TextDelta(t), .. } ==> {
            let b = after_anthropic_event(a, e);
            &&& b.completion_chars == a.completion_chars + utf8_len(t)
            &&& b.prompt_tokens == a.prompt_tokens
            &&& b.completion_tokens == a.completion_tokens
        },
        !(e is MessageStart) ==> after_anthropic_event(a, e).prompt_tokens == a.prompt_tokens,
{
}

/// A stream that starts with `start`, carries text and ends with a message
/// delta reporting usage `u`, taken in by a fresh aggregator: the prompt
/// tokens are the start's input tokens and the completion tokens the delta's
/// output tokens, so when output was reported the total is their sum.
pub proof fn law_anthropic_stream_counts(
    start: AnthropicStreamEventView,
    text: AnthropicStreamEventView,
    end: AnthropicStreamEventView,
)
    requires
        start is MessageStart,
        text matches AnthropicStreamEventView::ContentBlockDelta { delta: StreamDeltaView::TextDelta(_), .. },
        end matches AnthropicStreamEventView::MessageDelta { usage: Some(_), .. },
    ensures
        ({
            let fresh = AggregatorView { prompt_tokens: 0, completion_tokens: 0, completion_chars: 0, model: seq![] };
            let b = after_anthropic_event(after_anthropic_event(after_anthropic_event(fresh, start), text), end);
            let input = start->MessageStart_0.usage.input_tokens;
            let output = end->usage->0.output_tokens;
            &&& b.prompt_tokens == input
            &&& b.completion_tokens == output
            &&& output > 0 ==> b.prompt_tokens + estimated_completion(b.completion_tokens, b.completion_chars) == input + output
        }),
{
}

} // verus!
