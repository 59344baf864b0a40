//! Pieces of the HTTP answers that the gateway builds itself.
use crate::config::ModelConfig;
use crate::inference::{zero_usage, ChatChoice, ChatMessage, ChatResponse};
use crate::text::joined;
use vstd::prelude::*;

verus! {

/// A request to load the model of a configuration.
#[derive(Debug)]
pub struct LoadModelRequest {
    pub config: ModelConfig,
}

/// A request to unload a model.
#[derive(Debug)]
pub struct UnloadModelRequest {
    pub model_id: String,
}

/// `c` is a lower-case hexadecimal digit.
pub open spec fn is_lower_hex_digit(c: char) -> bool {
    ('0' <= c && c <= '9') || ('a' <= c && c <= 'f')
}

/// `u` is a random (version 4, RFC 4122 variant) UUID written in its hyphenated lower-case
/// form: 8-4-4-4-12 hexadecimal digits, the version digit `4`, the variant digit one of
/// `8`, `9`, `a`, `b`.
pub open spec fn is_uuid_v4_text(u: Seq<char>) -> bool {
    &&& u.len() == 36
    &&& forall|i: int| 0 <= i < 36 ==> if i == 8 || i == 13 || i == 18 || i == 23 {
        #[trigger] u[i] == '-'
    } else {
        is_lower_hex_digit(u[i])
    }
    &&& u[14] == '4'
    &&& (u[19] == '8' || u[19] == '9' || u[19] == 'a' || u[19] == 'b')
}

/// Calls `uuid::Uuid::new_v4` and writes the identifier with `Display`. `new_v4` sets the
/// version nibble to 4 and the variant bits to `10`, the rest at random; `Display` writes
/// the hyphenated lower-case form. Which random digits come out is not stated.
#[verifier::external_body]
fn random_uuid_text() -> (r: String)
    ensures
        is_uuid_v4_text(r@),
{
    format!("{}", uuid::Uuid::new_v4())
}

/// A fresh identifier: `prefix` followed by a random UUID in hyphenated lower-case form.
pub fn fresh_id(prefix: &str) -> (r: String)
    ensures
        exists|u: Seq<char>| is_uuid_v4_text(u) && r@ == prefix@ + u,
        r@.len() == prefix@.len() + 36,
        r@.subrange(0, prefix@.len() as int) == prefix@,
{
    let u = random_uuid_text();
    let r = joined(prefix, u.as_str());
    assert(r@.subrange(0, prefix@.len() as int) =~= prefix@);
    r
}

/// `r` is a chat completion of `model` created at `created` without usage counts, whose
/// identifier is "chat-" followed by a random UUID in hyphenated lower-case form.
pub open spec fn is_chat_reply(r: ChatResponse, model: Seq<char>, created: u64) -> bool {
    &&& exists|u: Seq<char>| is_uuid_v4_text(u) && r.id@ == "chat-"@ + u
    &&& r.object@ == "chat.completion"@
    &&& r.created == created
    &&& r.model@ == model
    &&& r.usage.prompt_tokens == 0 && r.usage.completion_tokens == 0 && r.usage.total_tokens == 0
}

/// `c` is the single, finished choice of an answer whose assistant text is `content`.
pub open spec fn is_final_choice(c: ChatChoice, content: Seq<char>) -> bool {
    &&& c.index == 0
    &&& c.message.role@ == "assistant"@
    &&& c.message.content@ == content
    &&& c.finish_reason matches Some(f) && f@ == "stop"@
}

/// A chat completion with the given choices and no usage counts, under a fresh "chat-" id.
pub fn chat_reply(model: &str, created: u64, choices: Vec<ChatChoice>) -> (r: ChatResponse)
    ensures
        is_chat_reply(r, model@, created),
        r.choices@ == choices@,
{
    proof { reveal_strlit("chat-"); }
    ChatResponse {
        id: fresh_id("chat-"),
        object: String::from_str("chat.completion"),
        created,
        model: String::from_str(model),
        choices,
        usage: zero_usage(),
    }
}

/// The single finished choice whose assistant text is `content`.
pub fn final_choice(content: String) -> (r: ChatChoice)
    ensures
        is_final_choice(r, content@),
{
    ChatChoice {
        index: 0,
        message: ChatMessage { role: String::from_str("assistant"), content },
        finish_reason: Some(String::from_str("stop")),
    }
}

/// The chat answer given when a model answered a chat request with another kind of
/// response: one finished choice saying "Model response".
pub fn fallback_chat_response(model: &str, created: u64) -> (r: ChatResponse)
    ensures
        is_chat_reply(r, model@, created),
        r.choices@.len() == 1,
        is_final_choice(r.choices@[0], "Model response"@),
{
    let mut choices = Vec::new();
    choices.push(final_choice(String::from_str("Model response")));
    chat_reply(model, created, choices)
}

} // verus!
