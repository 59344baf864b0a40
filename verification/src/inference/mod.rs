//! Capabilities a model can offer, and the request and error types of the gateway.
pub mod error;
pub mod request;
pub mod types;

pub use error::{BackendResult, InferenceError};
pub use request::RequestInput;
pub use types::{
    default_rerank_top_n, zero_usage, ChatChoice, ChatMessage, ChatResponse, EmbeddingRequest,
    InputType, RerankRequest, Usage,
};

use crate::text::{joined, text_eq};
use vstd::prelude::*;

verus! {

/// A kind of work a model can perform.
#[derive(Clone, Copy, Debug, PartialEq, Eq, Structural, Hash)]
pub enum Capability {
    Chat,
    Embedding,
    Rerank,
    Classification,
    Detection,
    OcR,
    Asr,
    Tts,
}

/// The lower-case name under which a capability is written and parsed.
pub open spec fn capability_name(c: Capability) -> Seq<char> {
    match c {
        Capability::Chat => "chat"@,
        Capability::Embedding => "embedding"@,
        Capability::Rerank => "rerank"@,
        Capability::Classification => "classification"@,
        Capability::Detection => "detection"@,
        Capability::OcR => "ocr"@,
        Capability::Asr => "asr"@,
        Capability::Tts => "tts"@,
    }
}

/// What the standard library's `str::to_lowercase` returns for a string.
pub uninterp spec fn lowercase_of(s: Seq<char>) -> Seq<char>;

/// Calls `str::to_lowercase` (Unicode lower-case mapping) and names its result:
/// the contract claims only that the result is a function of the input text.
#[verifier::external_body]
fn to_lowercase(s: &str) -> (r: String)
    ensures
        r@ == lowercase_of(s@),
{
    s.to_lowercase()
}

/// What parsing an already lower-cased name gives: the capability whose name it is,
/// or the "Unknown capability" message built from the text the caller supplied.
pub open spec fn parse_capability_spec(lowered: Seq<char>, written: Seq<char>) -> Result<Capability, Seq<char>> {
    if lowered == "chat"@ {
        Ok(Capability::Chat)
    } else if lowered == "embedding"@ {
        Ok(Capability::Embedding)
    } else if lowered == "rerank"@ {
        Ok(Capability::Rerank)
    } else if lowered == "classification"@ {
        Ok(Capability::Classification)
    } else if lowered == "detection"@ {
        Ok(Capability::Detection)
    } else if lowered == "ocr"@ {
        Ok(Capability::OcR)
    } else if lowered == "asr"@ {
        Ok(Capability::Asr)
    } else if lowered == "tts"@ {
        Ok(Capability::Tts)
    } else {
        Err("Unknown capability: "@ + written)
    }
}

/// Views a parse result as plain values.
pub open spec fn parse_result_view(r: Result<Capability, String>) -> Result<Capability, Seq<char>> {
    match r {
        Ok(c) => Ok(c),
        Err(e) => Err(e@),
    }
}

/// Matches an already lower-cased name against the capability names; the error
/// message quotes `written`, the text as the caller wrote it.
pub fn parse_capability(lowered: &str, written: &str) -> (r: Result<Capability, String>)
    ensures
        parse_result_view(r) == parse_capability_spec(lowered@, written@),
{
    if text_eq(lowered, "chat") {
        Ok(Capability::Chat)
    } else if text_eq(lowered, "embedding") {
        Ok(Capability::Embedding)
    } else if text_eq(lowered, "rerank") {
        Ok(Capability::Rerank)
    } else if text_eq(lowered, "classification") {
        Ok(Capability::Classification)
    } else if text_eq(lowered, "detection") {
        Ok(Capability::Detection)
    } else if text_eq(lowered, "ocr") {
        Ok(Capability::OcR)
    } else if text_eq(lowered, "asr") {
        Ok(Capability::Asr)
    } else if text_eq(lowered, "tts") {
        Ok(Capability::Tts)
    } else {
        Err(joined("Unknown capability: ", written))
    }
}

impl Capability {
    /// Parses a capability name, ignoring case.
    pub fn from_str(s: &str) -> (r: Result<Capability, String>)
        ensures
            parse_result_view(r) == parse_capability_spec(lowercase_of(s@), s@),
    {
        let lowered = to_lowercase(s);
        parse_capability(lowered.as_str(), s)
    }

    /// The capability's lower-case name.
    pub fn to_string(&self) -> (r: String)
        ensures
            r@ == capability_name(*self),
    {
        let s = match self {
            Capability::Chat => "chat",
            Capability::Embedding => "embedding",
            Capability::Rerank => "rerank",
            Capability::Classification => "classification",
            Capability::Detection => "detection",
            Capability::OcR => "ocr",
            Capability::Asr => "asr",
            Capability::Tts => "tts",
        };
        String::from_str(s)
    }
}

/// Writing a capability and parsing the lower-cased text back gives the same capability.
pub proof fn law_capability_name_round_trip(c: Capability, written: Seq<char>)
    ensures
        parse_capability_spec(capability_name(c), written) == Ok::<Capability, Seq<char>>(c),
{
    reveal_strlit("chat");
    reveal_strlit("embedding");
    reveal_strlit("rerank");
    reveal_strlit("classification");
    reveal_strlit("detection");
    reveal_strlit("ocr");
    reveal_strlit("asr");
    reveal_strlit("tts");
    assert("chat"@.len() == 4 && "chat"@[0] == 'c');
    assert("embedding"@.len() == 9 && "embedding"@[0] == 'e');
    assert("rerank"@.len() == 6 && "rerank"@[0] == 'r');
    assert("classification"@.len() == 14 && "classification"@[0] == 'c');
    assert("detection"@.len() == 9 && "detection"@[0] == 'd');
    assert("ocr"@.len() == 3 && "ocr"@[0] == 'o');
    assert("asr"@.len() == 3 && "asr"@[0] == 'a');
    assert("tts"@.len() == 3 && "tts"@[0] == 't');
}

/// Parsing ignores case: two texts with the same lower-case form name the same capability,
/// or both name none.
pub proof fn law_parse_ignores_case(a: Seq<char>, b: Seq<char>)
    requires
        lowercase_of(a) == lowercase_of(b),
    ensures
        parse_capability_spec(lowercase_of(a), a) is Ok <==> parse_capability_spec(lowercase_of(b), b) is Ok,
        parse_capability_spec(lowercase_of(a), a) is Ok ==> parse_capability_spec(lowercase_of(a), a) == parse_capability_spec(lowercase_of(b), b),
{
}

/// Different capabilities have different names.
pub proof fn law_capability_names_distinct(a: Capability, b: Capability)
    requires
        a != b,
    ensures
        capability_name(a) != capability_name(b),
{
    law_capability_name_round_trip(a, Seq::empty());
    law_capability_name_round_trip(b, Seq::empty());
}

} // verus!
