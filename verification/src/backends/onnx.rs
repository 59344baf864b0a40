//! The ONNX backend: it opens a session on first use and routes each request to a capability.
use crate::api::{chat_reply, is_chat_reply};
use crate::backends::{default_capability, default_capability_of, info_of, is_missing_file_error, model_file_missing, model_info_for, path_debug_text, BackendType, ModelInfo};
use crate::config::{copy_vec, ModelConfig, ModelConfigView};
use crate::inference::{parse_capability_spec, lowercase_of, zero_usage, Capability, ChatResponse, InferenceError, Usage};
use vstd::prelude::*;

verus! {

/// A model configured for the ONNX backend, and whether its session is open.
pub struct OnnxBackend {
    config: ModelConfig,
    session_ready: bool,
}

/// What an ONNX backend decides a request is for: the capability the request names (an
/// unknown name is refused with that name), else the model's default capability.
pub open spec fn onnx_capability(config: ModelConfigView, requested: Option<Seq<char>>) -> Result<Capability, Seq<char>> {
    match requested {
        Some(name) => match parse_capability_spec(lowercase_of(name), name) {
            Ok(c) => Ok(c),
            Err(_) => Err(name),
        },
        None => Ok(default_capability_of(config.capabilities)),
    }
}

/// Views a capability decision as plain values: the refusal becomes its message.
pub open spec fn decision_view(r: Result<Capability, InferenceError>) -> Result<Capability, Seq<char>> {
    match r {
        Ok(c) => Ok(c),
        Err(InferenceError::CapabilityNotSupported(s)) => Err(s@),
        Err(_) => Err(Seq::empty()),
    }
}

/// The answer the ONNX backend gives a request it serves.
#[derive(Debug)]
pub enum OnnxAnswer {
    /// A chat completion.
    Chat(ChatResponse),
    /// An embedding list of the model with no vectors and these usage counts.
    EmptyEmbedding { model: String, usage: Usage },
    /// The placeholder answer given for every other capability.
    Placeholder,
}

/// `a` is the answer of an ONNX model with id `model` to a request served by `c`, created
/// at `created`: a chat completion without choices, an empty embedding list without usage
/// counts, or the placeholder.
pub open spec fn is_onnx_answer(a: OnnxAnswer, c: Capability, model: Seq<char>, created: u64) -> bool {
    match c {
        Capability::Chat => a matches OnnxAnswer::Chat(r) && is_chat_reply(r, model, created) && r.choices@.len() == 0,
        Capability::Embedding => a matches OnnxAnswer::EmptyEmbedding { model: m, usage: u } && m@ == model
            && u.prompt_tokens == 0 && u.completion_tokens == 0 && u.total_tokens == 0,
        _ => a is Placeholder,
    }
}

impl OnnxBackend {
    /// The configuration this backend was created from.
    pub closed spec fn model_config(&self) -> ModelConfigView {
        self.config@
    }

    /// Whether the session is open.
    pub closed spec fn has_session(&self) -> bool {
        self.session_ready
    }

    /// Creates the backend for `config`, with no session yet; this always succeeds.
    pub fn new(config: &ModelConfig) -> (r: Result<Self, InferenceError>)
        ensures
            r matches Ok(b) && b.model_config() == config@ && !b.has_session(),
    {
        Ok(OnnxBackend { config: config.duplicate(), session_ready: false })
    }

    /// Opens the session if it is not open yet. Opening needs the model file: when it is
    /// missing the session stays closed and the error names the path.
    pub fn ensure_session(&mut self, model_file_present: bool) -> (r: Result<(), InferenceError>)
        ensures
            final(self).model_config() == old(self).model_config(),
            old(self).has_session() ==> r is Ok && final(self).has_session(),
            !old(self).has_session() && model_file_present ==> r is Ok && final(self).has_session(),
            !old(self).has_session() && !model_file_present ==> !final(self).has_session()
                && (r matches Err(e) && is_missing_file_error(e)),
    {
        if self.session_ready {
            return Ok(());
        }
        if !model_file_present {
            return Err(model_file_missing(path_debug_text(&self.config.path).as_str()));
        }
        self.session_ready = true;
        Ok(())
    }

    /// Decides which capability serves a request that names `requested`, if anything.
    pub fn determine_capability(&self, requested: Option<&str>) -> (r: Result<Capability, InferenceError>)
        ensures
            decision_view(r) == onnx_capability(self.model_config(), match requested { Some(s) => Some(s@), None => None }),
            r is Err ==> (r matches Err(e) && e is CapabilityNotSupported),
    {
        match requested {
            Some(name) => match Capability::from_str(name) {
                Ok(c) => Ok(c),
                Err(_) => Err(InferenceError::CapabilityNotSupported(String::from_str(name))),
            },
            None => Ok(default_capability(&self.config.capabilities)),
        }
    }

    /// The chat answer of the ONNX backend: no choices yet, under a fresh "chat-" id.
    pub fn infer_chat(&self, created: u64) -> (r: ChatResponse)
        ensures
            is_chat_reply(r, self.model_config().id, created),
            r.choices@.len() == 0,
    {
        chat_reply(self.config.id.as_str(), created, Vec::new())
    }

    /// Serves a request that names `requested`, if anything: opens the session (which
    /// needs the model file), decides the capability, and answers for it.
    pub fn infer(&mut self, requested: Option<&str>, model_file_present: bool, created: u64) -> (r: Result<OnnxAnswer, InferenceError>)
        ensures
            final(self).model_config() == old(self).model_config(),
            final(self).has_session() == (old(self).has_session() || model_file_present),
            !old(self).has_session() && !model_file_present ==> (r matches Err(e) && is_missing_file_error(e)),
            old(self).has_session() || model_file_present ==> match onnx_capability(old(self).model_config(),
                match requested { Some(s) => Some(s@), None => None }) {
                Ok(c) => r matches Ok(a) && is_onnx_answer(a, c, old(self).model_config().id, created),
                Err(m) => r matches Err(e) && (e matches InferenceError::CapabilityNotSupported(s) && s@ == m),
            },
    {
        self.ensure_session(model_file_present)?;
        let c = self.determine_capability(requested)?;
        match c {
            Capability::Chat => Ok(OnnxAnswer::Chat(self.infer_chat(created))),
            Capability::Embedding => Ok(OnnxAnswer::EmptyEmbedding {
                model: String::from_str(self.config.id.as_str()),
                usage: zero_usage(),
            }),
            _ => Ok(OnnxAnswer::Placeholder),
        }
    }

    /// Describes the model: the configuration's id, name, capabilities and metadata, on ONNX.
    pub fn get_model_info(&self) -> (r: ModelInfo)
        ensures
            r@ == info_of(self.model_config(), BackendType::Onnx),
    {
        model_info_for(&self.config, BackendType::Onnx)
    }

    /// The configured capabilities.
    pub fn capabilities(&self) -> (r: Vec<Capability>)
        ensures
            r@ == self.model_config().capabilities,
    {
        copy_vec(&self.config.capabilities)
    }

    /// Whether the session is open.
    pub fn session_open(&self) -> (r: bool)
        ensures
            r == self.has_session(),
    {
        self.session_ready
    }

    /// The path of the model file.
    pub fn model_path(&self) -> (r: &std::path::PathBuf)
        ensures
            *r == self.model_config().path,
    {
        &self.config.path
    }

    /// The id of the configured model.
    pub fn model_id(&self) -> (r: &str)
        ensures
            r@ == self.model_config().id,
    {
        self.config.id.as_str()
    }
}

/// A request that names no capability on an ONNX model is served by chat whenever the model
/// offers chat, and by embedding when it offers embedding but not chat.
pub proof fn law_onnx_unnamed_request_prefers_chat(config: ModelConfigView)
    ensures
        config.capabilities.contains(Capability::Chat)
            ==> onnx_capability(config, None) == Ok::<Capability, Seq<char>>(Capability::Chat),
        !config.capabilities.contains(Capability::Chat) && config.capabilities.contains(Capability::Embedding)
            ==> onnx_capability(config, None) == Ok::<Capability, Seq<char>>(Capability::Embedding),
{
    crate::backends::law_default_capability_prefers_chat(config.capabilities);
}

} // verus!
