use vstd::prelude::*;

pub mod message;
pub mod stream;

use self::message::Message;

verus! {

/// The path of the chat-completions endpoint, below `BASE_URL`.
pub const API_URL: &'static str = "v1/chat/completions";

/// Marker for the `text` response format.
#[derive(Debug, Clone, Copy, PartialEq, Eq, Structural)]
pub struct TextType;

/// Marker for the `json_object` response format.
#[derive(Debug, Clone, Copy, PartialEq, Eq, Structural)]
pub struct JsonType;

/// The shape in which the model is asked to answer.
#[allow(inconsistent_fields)]
#[derive(Debug, Clone, Copy, PartialEq, Eq, Structural)]
pub enum ResponseFormat {
    Text { format_type: TextType },
    Json { format_type: JsonType },
}

/// Why the model stopped producing tokens.
#[derive(Debug, Clone, Copy, PartialEq, Eq, Structural)]
pub enum FinishReason {
    Stop,
    Limit,
    ContentFilter,
    ToolCalls,
}

/// One answer of a non-streamed completion.
#[derive(Debug)]
pub struct Choice {
    pub index: u32,
    pub message: Message,
    pub finish_reason: FinishReason,
    pub logprobs: Option<serde_json::Value>,
}

/// The text that one chunk adds to a choice.
#[derive(Debug)]
pub struct Delta {
    pub content: Option<String>,
}

/// One choice of a streamed chunk.
#[derive(Debug)]
pub struct ChoiceStreamed {
    pub index: u32,
    pub delta: Delta,
    pub finish_reason: Option<FinishReason>,
    pub logprobs: Option<serde_json::Value>,
}

/// Token accounting of a completion.
#[derive(Debug, Clone, Copy, PartialEq, Eq, Structural)]
pub struct Usage {
    pub prompt_tokens: u32,
    pub completion_tokens: u32,
    pub completion_tokens_details: CompletionTokensDetails,
    pub prompt_tokens_details: PromptTokensDetails,
    pub total_tokens: u32,
}

/// Breakdown of the completion tokens.
#[derive(Debug, Clone, Copy, PartialEq, Eq, Structural)]
pub struct CompletionTokensDetails {
    pub accepted_prediction_tokens: u32,
    pub audio_tokens: u32,
    pub reasoning_tokens: u32,
    pub rejected_prediction_tokens: u32,
}

/// Breakdown of the prompt tokens.
#[derive(Debug, Clone, Copy, PartialEq, Eq, Structural)]
pub struct PromptTokensDetails {
    pub audio_tokens: u32,
    pub cached_tokens: u32,
}

/// The answer of a non-streamed completion.
#[derive(Debug)]
pub struct ChatCompletionResponse {
    pub id: String,
    pub choices: Vec<Choice>,
    pub created: u64,
    pub model: String,
    pub system_fingerprint: String,
    pub object: String,
    pub usage: Usage,
}

/// One decoded chunk of a streamed completion.
#[derive(Debug)]
pub struct ChatCompletionChunkResponse {
    pub id: String,
    pub choices: Vec<ChoiceStreamed>,
    pub created: u64,
    pub model: String,
    pub system_fingerprint: Option<String>,
    pub object: String,
}

/// The text of a choice's delta, the empty text where it has none.
pub open spec fn delta_text(c: ChoiceStreamed) -> Seq<char> {
    match c.delta.content {
        Some(s) => s@,
        None => seq![],
    }
}

/// The delta texts of `cs`, joined in order.
pub open spec fn joined_text(cs: Seq<ChoiceStreamed>) -> Seq<char>
    decreases cs.len(),
{
    if cs.len() == 0 {
        seq![]
    } else {
        joined_text(cs.drop_last()) + delta_text(cs.last())
    }
}

/// The choice's delta content is present and empty.
pub open spec fn has_empty_content(c: ChoiceStreamed) -> bool {
    c.delta.content matches Some(s) && s@.len() == 0
}

/// Every choice of the chunk carries a delta whose content is present and empty: a no-op
/// chunk that some servers send to keep the connection alive.
pub open spec fn is_heartbeat(chunk: ChatCompletionChunkResponse) -> bool {
    forall|i: int| 0 <= i < chunk.choices@.len() ==> has_empty_content(#[trigger] chunk.choices@[i])
}

impl ChatCompletionChunkResponse {
    /// Whether this chunk is a heartbeat: every choice's delta content present and empty.
    pub fn is_heartbeat(&self) -> (r: bool)
        ensures
            r == is_heartbeat(*self),
    {
        let mut i: usize = 0;
        while i < self.choices.len()
            invariant
                i <= self.choices@.len(),
                forall|j: int| 0 <= j < i ==> has_empty_content(#[trigger] self.choices@[j]),
            decreases self.choices.len() - i,
        {
            match &self.choices[i].delta.content {
                Some(s) => {
                    if s.as_str().unicode_len() != 0 {
                        return false;
                    }
                },
                None => {
                    return false;
                },
            }
            i = i + 1;
        }
        true
    }
}

impl From<ChatCompletionChunkResponse> for String {
    /// The delta texts of all choices, joined in order; a choice without content adds nothing.
    fn from(response: ChatCompletionChunkResponse) -> (r: String)
        ensures
            r@ == joined_text(response.choices@),
    {
        let mut r = String::new();
        let mut i: usize = 0;
        while i < response.choices.len()
            invariant
                i <= response.choices@.len(),
                r@ == joined_text(response.choices@.subrange(0, i as int)),
            decreases response.choices.len() - i,
        {
            proof {
                let s = response.choices@.subrange(0, i + 1);
                assert(s.drop_last() =~= response.choices@.subrange(0, i as int));
            }
            match &response.choices[i].delta.content {
                Some(s) => r.append(s.as_str()),
                None => {},
            }
            i = i + 1;
        }
        assert(response.choices@.subrange(0, i as int) =~= response.choices@);
        r
    }
}

impl vstd::std_specs::convert::FromSpecImpl<ChatCompletionChunkResponse> for String {
    open spec fn obeys_from_spec() -> bool {
        false
    }

    open spec fn from_spec(response: ChatCompletionChunkResponse) -> String {
        arbitrary()
    }
}

} // verus!
