//! Request and response types of the OpenAI-compatible chat and embedding
//! API that OpenRouter serves.

use vstd::prelude::*;
use crate::text::{owned, str_eq};

verus! {

/// Role of a message in a conversation.
#[derive(Debug, Clone, Copy, PartialEq, Eq, Structural)]
pub enum MessageRole {
    /// System message (instructions/context)
    System,
    /// User message (human input)
    User,
    /// Assistant message (LLM response)
    Assistant,
}

/// The name of a role, as the API writes it.
pub open spec fn role_text(r: MessageRole) -> Seq<char> {
    match r {
        MessageRole::System => "system"@,
        MessageRole::User => "user"@,
        MessageRole::Assistant => "assistant"@,
    }
}

impl MessageRole {
    /// The name of the role.
    pub fn as_str(&self) -> (r: &'static str)
        ensures
            r@ == role_text(*self),
    {
        match self {
            MessageRole::System => "system",
            MessageRole::User => "user",
            MessageRole::Assistant => "assistant",
        }
    }

    /// The name of the role, owned.
    pub fn to_string(&self) -> (r: String)
        ensures
            r@ == role_text(*self),
    {
        owned(self.as_str())
    }
}

/// A message in a conversation.
#[derive(Debug, Clone)]
pub struct Message {
    /// Role of the message sender
    pub role: MessageRole,
    /// Content of the message
    pub content: String,
}

impl Message {
    /// Create a new message.
    pub fn new(role: MessageRole, content: &str) -> (r: Message)
        ensures
            r.role == role,
            r.content@ == content@,
    {
        Message { role, content: owned(content) }
    }

    /// Create a system message.
    pub fn system(content: &str) -> (r: Message)
        ensures
            r.role == MessageRole::System,
            r.content@ == content@,
    {
        Message::new(MessageRole::System, content)
    }

    /// Create a user message.
    pub fn user(content: &str) -> (r: Message)
        ensures
            r.role == MessageRole::User,
            r.content@ == content@,
    {
        Message::new(MessageRole::User, content)
    }

    /// Create an assistant message.
    pub fn assistant(content: &str) -> (r: Message)
        ensures
            r.role == MessageRole::Assistant,
            r.content@ == content@,
    {
        Message::new(MessageRole::Assistant, content)
    }
}

/// Token usage information from the API response.
#[derive(Debug, Clone, Copy, PartialEq, Eq, Structural)]
pub struct Usage {
    /// Number of tokens in the prompt
    pub prompt_tokens: u32,
    /// Number of tokens in the completion
    pub completion_tokens: u32,
    /// Total tokens used
    pub total_tokens: u32,
}

/// Reason for completion finishing.
#[derive(Debug, Clone, Copy, PartialEq, Eq, Structural)]
pub enum FinishReason {
    /// Natural stop (end of response)
    Stop,
    /// Max tokens reached
    Length,
    /// Tool/function calls requested
    ToolCalls,
    /// Content filtered by safety system
    ContentFilter,
    /// Error occurred
    Error,
    /// Unknown reason (catch-all)
    Unknown,
}

/// The name of a finish reason, as the API writes it.
pub open spec fn finish_text(f: FinishReason) -> Seq<char> {
    match f {
        FinishReason::Stop => "stop"@,
        FinishReason::Length => "length"@,
        FinishReason::ToolCalls => "tool_calls"@,
        FinishReason::ContentFilter => "content_filter"@,
        FinishReason::Error => "error"@,
        FinishReason::Unknown => "unknown"@,
    }
}

/// The finish reason the API means by a name: the named one, or `Unknown`
/// for any other name.
pub open spec fn finish_of_text(s: Seq<char>) -> FinishReason {
    if s == "stop"@ {
        FinishReason::Stop
    } else if s == "length"@ {
        FinishReason::Length
    } else if s == "tool_calls"@ {
        FinishReason::ToolCalls
    } else if s == "content_filter"@ {
        FinishReason::ContentFilter
    } else if s == "error"@ {
        FinishReason::Error
    } else {
        FinishReason::Unknown
    }
}

impl FinishReason {
    /// The name of the reason.
    pub fn as_str(&self) -> (r: &'static str)
        ensures
            r@ == finish_text(*self),
    {
        match self {
            FinishReason::Stop => "stop",
            FinishReason::Length => "length",
            FinishReason::ToolCalls => "tool_calls",
            FinishReason::ContentFilter => "content_filter",
            FinishReason::Error => "error",
            FinishReason::Unknown => "unknown",
        }
    }

    /// The name of the reason, owned.
    pub fn to_string(&self) -> (r: String)
        ensures
            r@ == finish_text(*self),
    {
        owned(self.as_str())
    }

    /// The reason named by the API; an unrecognised name is `Unknown`.
    pub fn from_api_name(s: &str) -> (r: FinishReason)
        ensures
            r == finish_of_text(s@),
    {
        if str_eq(s, "stop") {
            FinishReason::Stop
        } else if str_eq(s, "length") {
            FinishReason::Length
        } else if str_eq(s, "tool_calls") {
            FinishReason::ToolCalls
        } else if str_eq(s, "content_filter") {
            FinishReason::ContentFilter
        } else if str_eq(s, "error") {
            FinishReason::Error
        } else {
            FinishReason::Unknown
        }
    }
}

/// Reading a reason's name back gives the reason, for every reason but
/// `Unknown`, and `Unknown` for its own name too.
pub proof fn lemma_finish_text_round_trip(f: FinishReason)
    ensures
        finish_of_text(finish_text(f)) == f,
{
    reveal_strlit("stop");
    reveal_strlit("length");
    reveal_strlit("tool_calls");
    reveal_strlit("content_filter");
    reveal_strlit("error");
    reveal_strlit("unknown");
    let t = finish_text(f);
    if f != FinishReason::Stop {
        assert(t[0] != 's' || t.len() != 4);
        assert(t != "stop"@);
    }
    if f != FinishReason::Length {
        assert(t[0] != 'l');
        assert(t != "length"@);
    }
    if f != FinishReason::ToolCalls {
        assert(t[0] != 't');
        assert(t != "tool_calls"@);
    }
    if f != FinishReason::ContentFilter {
        assert(t[0] != 'c');
        assert(t != "content_filter"@);
    }
    if f != FinishReason::Error {
        assert(t[0] != 'e');
        assert(t != "error"@);
    }
}

/// A single completion choice from the API response.
#[derive(Debug, Clone)]
pub struct Choice {
    /// Index of this choice
    pub index: usize,
    /// The generated message
    pub message: Message,
    /// Reason the generation stopped
    pub finish_reason: Option<FinishReason>,
}

/// Response from the chat completions API.
#[derive(Debug, Clone)]
pub struct ChatResponse {
    /// Unique identifier for this completion
    pub id: String,
    /// Object type (always "chat.completion")
    pub object: String,
    /// Unix timestamp of when the completion was created
    pub created: u64,
    /// Model used for the completion
    pub model: String,
    /// List of completion choices
    pub choices: Vec<Choice>,
    /// Token usage information
    pub usage: Option<Usage>,
}

/// Simplified response returned by the LLM client.
#[derive(Debug, Clone)]
pub struct LlmResponse {
    /// The generated content
    pub content: String,
    /// Model that generated the response
    pub model: String,
    /// Total tokens used (input + output)
    pub tokens_used: u32,
    /// Input tokens
    pub input_tokens: u32,
    /// Output tokens
    pub output_tokens: u32,
    /// Reason for stopping
    pub finish_reason: FinishReason,
}

impl LlmResponse {
    /// Create a new LLM response from an API response: the first choice's
    /// content and finish reason (`Unknown` when absent), the response's model,
    /// and the usage counts (zero when absent); `None` when there is no choice.
    pub fn from_chat_response(response: ChatResponse) -> (r: Option<LlmResponse>)
        ensures
            response.choices@.len() == 0 <==> r.is_none(),
            r matches Some(l) ==> ({
                let c = response.choices@[0];
                &&& l.content@ == c.message.content@
                &&& l.model == response.model
                &&& l.finish_reason == (match c.finish_reason {
                    Some(f) => f,
                    None => FinishReason::Unknown,
                })
                &&& match response.usage {
                    Some(u) => l.tokens_used == u.total_tokens && l.input_tokens == u.prompt_tokens
                        && l.output_tokens == u.completion_tokens,
                    None => l.tokens_used == 0 && l.input_tokens == 0 && l.output_tokens == 0,
                }
            }),
    {
        if response.choices.len() == 0 {
            return None;
        }
        let choice = &response.choices[0];
        let content = owned(choice.message.content.as_str());
        let finish_reason = match choice.finish_reason {
            Some(f) => f,
            None => FinishReason::Unknown,
        };
        let (tokens_used, input_tokens, output_tokens) = match response.usage {
            Some(u) => (u.total_tokens, u.prompt_tokens, u.completion_tokens),
            None => (0, 0, 0),
        };
        Some(
            LlmResponse {
                content,
                model: response.model,
                tokens_used,
                input_tokens,
                output_tokens,
                finish_reason,
            },
        )
    }
}

/// Input for embedding requests (single or batch).
#[derive(Debug, Clone)]
pub enum EmbeddingInput {
    /// Single text input
    Single(String),
    /// Batch of text inputs
    Batch(Vec<String>),
}

/// Request body for embeddings.
#[derive(Debug, Clone)]
pub struct EmbeddingRequest {
    /// Model identifier for embeddings (e.g., "openai/text-embedding-3-small")
    pub model: String,
    /// Input text(s) to embed
    pub input: EmbeddingInput,
    /// Output dimensions (if model supports it)
    pub dimensions: Option<usize>,
}

impl EmbeddingRequest {
    /// Create a new embedding request for a single text.
    pub fn new(model: &str, input: &str) -> (r: EmbeddingRequest)
        ensures
            r.model@ == model@,
            r.input matches EmbeddingInput::Single(t) && t@ == input@,
            r.dimensions.is_none(),
    {
        EmbeddingRequest {
            model: owned(model),
            input: EmbeddingInput::Single(owned(input)),
            dimensions: None,
        }
    }

    /// Create a batch embedding request.
    pub fn batch(model: &str, inputs: Vec<String>) -> (r: EmbeddingRequest)
        ensures
            r.model@ == model@,
            r.input == EmbeddingInput::Batch(inputs),
            r.dimensions.is_none(),
    {
        EmbeddingRequest { model: owned(model), input: EmbeddingInput::Batch(inputs), dimensions: None }
    }

    /// Set output dimensions.
    pub fn with_dimensions(self, dimensions: usize) -> (r: EmbeddingRequest)
        ensures
            r == (EmbeddingRequest { dimensions: Some(dimensions), ..self }),
    {
        EmbeddingRequest { dimensions: Some(dimensions), ..self }
    }
}

/// Usage information for embeddings.
#[derive(Debug, Clone, Copy, PartialEq, Eq, Structural)]
pub struct EmbeddingUsage {
    /// Number of tokens in the prompt
    pub prompt_tokens: u32,
    /// Total tokens (same as prompt for embeddings)
    pub total_tokens: u32,
}

} // verus!
