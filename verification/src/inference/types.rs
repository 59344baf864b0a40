//! Request and response types of the gateway that hold no floating-point data.
use vstd::prelude::*;

verus! {

/// One message of a conversation.
#[derive(Debug, Clone)]
pub struct ChatMessage {
    pub role: String,
    pub content: String,
}

/// One generated alternative of a chat completion.
#[derive(Debug, Clone)]
pub struct ChatChoice {
    pub index: usize,
    pub message: ChatMessage,
    pub finish_reason: Option<String>,
}

/// Token accounting of a request.
#[derive(Debug, Clone, Copy, PartialEq, Eq, Structural)]
pub struct Usage {
    pub prompt_tokens: usize,
    pub completion_tokens: usize,
    pub total_tokens: usize,
}

/// The answer to a chat completion request.
#[derive(Debug, Clone)]
pub struct ChatResponse {
    pub id: String,
    pub object: String,
    pub created: u64,
    pub model: String,
    pub choices: Vec<ChatChoice>,
    pub usage: Usage,
}

/// The input of an embedding request: one text, several texts, or token arrays.
#[derive(Debug, Clone)]
pub enum InputType {
    String(String),
    ArrayOfStrings(Vec<String>),
    ArrayOfTokens(Vec<Vec<usize>>),
}

/// A request for embeddings.
#[derive(Debug, Clone)]
pub struct EmbeddingRequest {
    pub model: String,
    pub input: InputType,
}

/// A request to rank documents against a query.
#[derive(Debug, Clone)]
pub struct RerankRequest {
    pub model: String,
    pub query: String,
    pub documents: Vec<String>,
    pub top_n: Option<usize>,
}

/// The number of ranked documents a rerank request returns when it names none.
pub fn default_rerank_top_n() -> (r: Option<usize>)
    ensures
        r == Some(10usize),
{
    Some(10)
}

/// A usage record in which nothing was counted.
pub fn zero_usage() -> (r: Usage)
    ensures
        r.prompt_tokens == 0 && r.completion_tokens == 0 && r.total_tokens == 0,
{
    Usage { prompt_tokens: 0, completion_tokens: 0, total_tokens: 0 }
}

} // verus!
