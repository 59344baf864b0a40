//! What a backend reads from the free-form input of an inference request, and the
//! rules by which it turns that input into chat messages or texts to embed.
use crate::inference::error::InferenceError;
use crate::inference::types::ChatMessage;
use vstd::prelude::*;

verus! {

/// The parts of a request's JSON input that the backends consult.
///
/// `capability`: the `"capability"` field, when it is a string.
/// `messages`: the `"messages"` field, when it is an array of chat messages.
/// `text`: the input itself, when it is a string.
/// `input_text`: the `"input"` field, when it is a string.
/// `input_items`: the `"input"` field, when it is an array: each element as a string, if it is one.
/// `max_tokens`, `timeout`: the fields of those names, when they are unsigned integers.
#[derive(Debug, Clone)]
pub struct RequestInput {
    pub capability: Option<String>,
    pub messages: Option<Vec<ChatMessage>>,
    pub text: Option<String>,
    pub input_text: Option<String>,
    pub input_items: Option<Vec<Option<String>>>,
    pub max_tokens: Option<u64>,
    pub timeout: Option<u64>,
}

/// `m` is a message from the user with the given content.
pub open spec fn is_user_message(m: ChatMessage, content: Seq<char>) -> bool {
    m.role@ == "user"@ && m.content@ == content
}

/// The texts among `items` that are present, in order.
pub open spec fn present_texts(items: Seq<Option<String>>) -> Seq<Seq<char>>
    decreases items.len(),
{
    if items.len() == 0 {
        Seq::empty()
    } else {
        present_texts(items.drop_last()) + match items.last() {
            Some(s) => seq![s@],
            None => Seq::empty(),
        }
    }
}

/// The views of a sequence of strings.
pub open spec fn texts_view(v: Seq<String>) -> Seq<Seq<char>> {
    v.map_values(|s: String| s@)
}

/// The role and content texts of each message, in order.
pub open spec fn message_texts(msgs: Seq<ChatMessage>) -> Seq<(Seq<char>, Seq<char>)> {
    msgs.map_values(|m: ChatMessage| (m.role@, m.content@))
}

/// The role and content texts of the messages a chat request yields: its `messages`
/// array when there is one and it is not empty; else one user message made of the input
/// string, or of its `"input"` field; `None` when the request is refused.
pub open spec fn chat_request_texts(input: RequestInput) -> Option<Seq<(Seq<char>, Seq<char>)>> {
    match input.messages {
        Some(m) => if m@.len() > 0 { Some(message_texts(m@)) } else { None },
        None => match input.text {
            Some(t) => Some(seq![("user"@, t@)]),
            None => match input.input_text {
                Some(t) => Some(seq![("user"@, t@)]),
                None => None,
            },
        },
    }
}

/// The number of tokens a chat request may generate: its `max_tokens`, else 64.
pub open spec fn chat_token_limit(input: RequestInput) -> usize {
    (match input.max_tokens { Some(n) => n, None => 64u64 }) as usize
}

/// The number of seconds a chat request may take: its `timeout`, else `default_secs`.
pub open spec fn chat_time_limit(input: RequestInput, default_secs: u64) -> u64 {
    match input.timeout { Some(n) => n, None => default_secs }
}

/// `e` is an invalid-request error with exactly this message.
pub open spec fn is_invalid_request(e: InferenceError, msg: Seq<char>) -> bool {
    e matches InferenceError::InvalidRequest(s) && s@ == msg
}

fn user_message(content: String) -> (r: ChatMessage)
    ensures
        is_user_message(r, content@),
{
    ChatMessage { role: String::from_str("user"), content }
}

impl RequestInput {
    /// The messages of a chat request: the `messages` array when there is one (it must not
    /// be empty), else a single user message made of the input string or of its `"input"`
    /// field.
    pub fn into_chat_messages(self) -> (r: Result<Vec<ChatMessage>, InferenceError>)
        ensures
            self.messages matches Some(m) ==> (
                if m@.len() > 0 {
                    r matches Ok(v) && v@ == m@
                } else {
                    r matches Err(e) && is_invalid_request(e,
                        "messages array is empty, at least one message is required"@)
                }),
            self.messages is None && self.text is Some ==>
                (r matches Ok(v) && v@.len() == 1 && is_user_message(v@[0], self.text->0@)),
            self.messages is None && self.text is None && self.input_text is Some ==>
                (r matches Ok(v) && v@.len() == 1 && is_user_message(v@[0], self.input_text->0@)),
            self.messages is None && self.text is None && self.input_text is None ==>
                (r matches Err(e) && is_invalid_request(e,
                    "No messages or string input found. Provide 'messages' array or a string 'input'."@)),
            r is Err <==> chat_request_texts(self) is None,
            r matches Ok(v) ==> chat_request_texts(self) == Some(message_texts(v@)),
    {
        match self.messages {
            Some(m) => {
                if m.len() == 0 {
                    Err(InferenceError::InvalidRequest(String::from_str(
                        "messages array is empty, at least one message is required",
                    )))
                } else {
                    Ok(m)
                }
            },
            None => match self.text {
                Some(t) => {
                    let mut v = Vec::new();
                    v.push(user_message(t));
                    Ok(v)
                },
                None => match self.input_text {
                    Some(t) => {
                        let mut v = Vec::new();
                        v.push(user_message(t));
                        Ok(v)
                    },
                    None => Err(InferenceError::InvalidRequest(String::from_str(
                        "No messages or string input found. Provide 'messages' array or a string 'input'.",
                    ))),
                },
            },
        }
    }

    /// The texts of an embedding request: the `"input"` string, or the strings of the
    /// `"input"` array (other elements are skipped); an empty list is refused.
    pub fn into_embedding_texts(self) -> (r: Result<Vec<String>, InferenceError>)
        ensures
            self.input_text matches Some(t) ==> r matches Ok(v) && texts_view(v@) == seq![t@],
            self.input_text is None && self.input_items is Some ==> ({
                let items = self.input_items->0;
                if present_texts(items@).len() > 0 {
                    r matches Ok(v) && texts_view(v@) == present_texts(items@)
                } else {
                    r matches Err(e) && is_invalid_request(e, "Embedding input is empty"@)
                }
            }),
            self.input_text is None && self.input_items is None ==>
                (r matches Err(e) && is_invalid_request(e,
                    "Embedding input must be a string or array of strings"@)),
    {
        match self.input_text {
            Some(t) => {
                let mut v = Vec::new();
                v.push(t);
                assert(texts_view(v@) =~= seq![t@]);
                Ok(v)
            },
            None => match self.input_items {
                Some(items) => {
                    let texts = present_strings(&items);
                    if texts.len() == 0 {
                        Err(InferenceError::InvalidRequest(String::from_str("Embedding input is empty")))
                    } else {
                        Ok(texts)
                    }
                },
                None => Err(InferenceError::InvalidRequest(String::from_str(
                    "Embedding input must be a string or array of strings",
                ))),
            },
        }
    }

    /// The number of tokens a chat request may generate: 64 unless the input names one.
    pub fn chat_max_tokens(&self) -> (r: usize)
        ensures
            r == chat_token_limit(*self),
            self.max_tokens matches Some(n) ==> (n <= usize::MAX ==> r == n),
            self.max_tokens is None ==> r == 64,
    {
        match self.max_tokens {
            Some(n) => n as usize,
            None => 64,
        }
    }

    /// The number of seconds a chat request may take: `default_secs` unless the input names one.
    pub fn chat_timeout(&self, default_secs: u64) -> (r: u64)
        ensures
            r == chat_time_limit(*self, default_secs),
            self.timeout matches Some(n) ==> r == n,
            self.timeout is None ==> r == default_secs,
    {
        match self.timeout {
            Some(n) => n,
            None => default_secs,
        }
    }
}

/// Keeps the present strings of `items`, in order.
pub fn present_strings(items: &Vec<Option<String>>) -> (r: Vec<String>)
    ensures
        texts_view(r@) == present_texts(items@),
{
    let mut out: Vec<String> = Vec::new();
    let n = items.len();
    for i in 0..n
        invariant
            n == items@.len(),
            texts_view(out@) == present_texts(items@.take(i as int)),
    {
        assert(items@.take(i + 1).drop_last() =~= items@.take(i as int));
        match &items[i] {
            Some(s) => {
                out.push(s.clone());
                assert(texts_view(out@) =~= texts_view(out@.drop_last()) + seq![s@]);
            },
            None => {},
        }
    }
    assert(items@.take(n as int) =~= items@);
    out
}

/// A chat request's token limit is the one it names, unchanged (when it fits the machine's
/// `usize`), and 64 when it names none; its time limit is the one it names, else the default.
pub proof fn law_named_limits_pass_through(input: RequestInput, default_secs: u64)
    ensures
        input.max_tokens matches Some(n) ==> (n <= usize::MAX ==> chat_token_limit(input) == n),
        input.max_tokens is None ==> chat_token_limit(input) == 64,
        input.timeout matches Some(n) ==> chat_time_limit(input, default_secs) == n,
        input.timeout is None ==> chat_time_limit(input, default_secs) == default_secs,
{
}

} // verus!
