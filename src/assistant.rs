//! The local chat assistant: its message and status records and how the
//! outcome of a status probe becomes a status.

use vstd::prelude::*;
use crate::decode::opt_text;
use crate::transport::{decimal, push_decimal};
use crate::clock::{utc_now_rfc3339, utc_rfc3339};

verus! {

/// One message of a chat.
#[derive(Debug, Clone)]
pub struct ChatMessage {
    pub role: String,
    pub content: String,
    pub timestamp: String,
}

/// Whether the assistant answers, and with which model.
#[derive(Debug, Clone)]
pub struct OllamaStatus {
    pub connected: bool,
    pub model: Option<String>,
    pub error: Option<String>,
}

/// What the probe of the assistant's model list produced.
#[derive(Debug, Clone)]
pub enum TagsOutcome {
    /// No response; the text describes the failure.
    Unreachable(String),
    /// A response with a non-success status.
    Rejected(u16),
    /// A success response whose body is not a model list; the text says why.
    Unparsable(String),
    /// The names of the models offered, in order.
    Models(Vec<String>),
}

/// The status of the assistant after a probe: connected on any success
/// response, reporting the first model offered.
pub fn ollama_status(outcome: TagsOutcome) -> (r: OllamaStatus)
    ensures
        match outcome {
            TagsOutcome::Unreachable(m) => !r.connected && r.model is None && opt_text(r.error)
                == Some("Connection failed: "@ + m@),
            TagsOutcome::Rejected(s) => !r.connected && r.model is None && opt_text(r.error)
                == Some("Server returned status: "@ + decimal(s as nat)),
            TagsOutcome::Unparsable(m) => r.connected && r.model is None && opt_text(r.error)
                == Some("Failed to parse response: "@ + m@),
            TagsOutcome::Models(names) => r.connected && r.error is None && (if names@.len() > 0 {
                r.model is Some && r.model->Some_0@ == names@[0]@
            } else {
                r.model is None
            }),
        },
{
    match outcome {
        TagsOutcome::Unreachable(m) => OllamaStatus {
            connected: false,
            model: None,
            error: Some(String::from_str("Connection failed: ").concat(m.as_str())),
        },
        TagsOutcome::Rejected(s) => {
            let mut e = String::from_str("Server returned status: ");
            push_decimal(&mut e, s as u64);
            OllamaStatus { connected: false, model: None, error: Some(e) }
        },
        TagsOutcome::Unparsable(m) => OllamaStatus {
            connected: true,
            model: None,
            error: Some(String::from_str("Failed to parse response: ").concat(m.as_str())),
        },
        TagsOutcome::Models(names) => {
            let model = if names.len() > 0 {
                Some(names[0].clone())
            } else {
                None
            };
            OllamaStatus { connected: true, model, error: None }
        },
    }
}

/// The model-list endpoint of the assistant at `base`.
pub fn tags_url(base: &str) -> (r: String)
    ensures
        r@ == base@ + "/api/tags"@,
{
    String::from_str(base).concat("/api/tags")
}

/// The chat endpoint of the assistant at `base`.
pub fn chat_url(base: &str) -> (r: String)
    ensures
        r@ == base@ + "/api/chat"@,
{
    String::from_str(base).concat("/api/chat")
}

/// The assistant's reply as a chat message, stamped with the current instant.
pub fn chat_reply(role: String, content: String) -> (r: ChatMessage)
    ensures
        r.role == role,
        r.content == content,
        utc_rfc3339(r.timestamp@),
{
    ChatMessage { role, content, timestamp: utc_now_rfc3339() }
}

} // verus!
