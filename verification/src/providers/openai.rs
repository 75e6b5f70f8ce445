//! The OpenAI provider's own logic: the request body it sends.
use vstd::prelude::*;
use crate::models::chat::{ChatCompletionRequest, ChatCompletionRequestView};

verus! {

/// The OpenAI request body for a request: the request itself with `stream`
/// set; a streaming request does not pass `logit_bias` on.
pub open spec fn openai_body_spec(r: ChatCompletionRequestView, stream: bool) -> ChatCompletionRequestView {
    ChatCompletionRequestView {
        stream: Some(stream),
        logit_bias: if stream {
            None
        } else {
            r.logit_bias
        },
        ..r
    }
}

/// The body of a chat-completions request to OpenAI.
pub fn openai_request_body(request: ChatCompletionRequest, stream: bool) -> (r: ChatCompletionRequest)
    ensures
        r@ == openai_body_spec(request@, stream),
{
    let mut body = request;
    body.stream = Some(stream);
    if stream {
        body.logit_bias = None;
    }
    body
}

} // verus!
