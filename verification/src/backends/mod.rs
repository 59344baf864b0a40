//! The model backends and what every backend reports about the model it serves.
pub mod candle;
pub mod gguf;
pub mod onnx;
pub mod prompt;

use crate::config::{copy_vec, ModelConfig, ModelConfigView};
use crate::inference::{Capability, InferenceError};
use crate::text::joined;
use std::collections::HashMap;
use vstd::prelude::*;

verus! {

/// The engine family that runs a model.
#[derive(Debug, Clone, Copy, PartialEq, Eq, Structural, Hash)]
pub enum BackendType {
    Onnx,
    Gguf,
    Candle,
    TensorRT,
}

/// The lower-case name of a backend type.
pub open spec fn backend_name(b: BackendType) -> Seq<char> {
    match b {
        BackendType::Onnx => "onnx"@,
        BackendType::Gguf => "gguf"@,
        BackendType::Candle => "candle"@,
        BackendType::TensorRT => "tensorrt"@,
    }
}

impl BackendType {
    /// The lower-case name of this backend type.
    pub fn to_string(&self) -> (r: String)
        ensures
            r@ == backend_name(*self),
    {
        let s = match self {
            BackendType::Onnx => "onnx",
            BackendType::Gguf => "gguf",
            BackendType::Candle => "candle",
            BackendType::TensorRT => "tensorrt",
        };
        String::from_str(s)
    }
}

/// What a backend reports about the model it serves.
#[derive(Debug, Clone)]
pub struct ModelInfo {
    pub id: String,
    pub name: String,
    pub backend: BackendType,
    pub capabilities: Vec<Capability>,
    pub metadata: HashMap<String, String>,
}

/// The content of a model description as plain values.
#[verifier::ext_equal]
pub struct ModelInfoView {
    pub id: Seq<char>,
    pub name: Seq<char>,
    pub backend: BackendType,
    pub capabilities: Seq<Capability>,
    pub metadata: Map<String, String>,
}

impl View for ModelInfo {
    type V = ModelInfoView;

    open spec fn view(&self) -> ModelInfoView {
        ModelInfoView {
            id: self.id@,
            name: self.name@,
            backend: self.backend,
            capabilities: self.capabilities@,
            metadata: self.metadata@,
        }
    }
}

/// The description of a model loaded from `config` on a backend of type `backend`.
pub open spec fn info_of(config: ModelConfigView, backend: BackendType) -> ModelInfoView {
    ModelInfoView {
        id: config.id,
        name: config.name,
        backend: backend,
        capabilities: config.capabilities,
        metadata: config.metadata,
    }
}

/// Describes the model of `config` served by a backend of type `backend`: its id, name,
/// capabilities and metadata come from the configuration.
pub fn model_info_for(config: &ModelConfig, backend: BackendType) -> (r: ModelInfo)
    ensures
        r@ == info_of(config@, backend),
        r.id@ == config.id@,
        r.name@ == config.name@,
        r.backend == backend,
        r.capabilities@ == config.capabilities@,
        r.metadata@ == config.metadata@,
{
    ModelInfo {
        id: config.id.clone(),
        name: config.name.clone(),
        backend,
        capabilities: copy_vec(&config.capabilities),
        metadata: config.metadata.clone(),
    }
}

/// The capability a request gets when it names none: chat if the model offers it, else
/// embedding if it offers that, else the model's first capability, else chat.
pub open spec fn default_capability_of(caps: Seq<Capability>) -> Capability {
    if caps.contains(Capability::Chat) {
        Capability::Chat
    } else if caps.contains(Capability::Embedding) {
        Capability::Embedding
    } else if caps.len() > 0 {
        caps[0]
    } else {
        Capability::Chat
    }
}

/// Whether `caps` holds `c`.
pub fn has_capability(caps: &Vec<Capability>, c: Capability) -> (r: bool)
    ensures
        r == caps@.contains(c),
{
    let n = caps.len();
    for i in 0..n
        invariant
            n == caps@.len(),
            forall|j: int| 0 <= j < i ==> caps@[j] != c,
    {
        if caps[i] == c {
            return true;
        }
    }
    false
}

/// The capability a request gets when it names none.
pub fn default_capability(caps: &Vec<Capability>) -> (r: Capability)
    ensures
        r == default_capability_of(caps@),
{
    if has_capability(caps, Capability::Chat) {
        Capability::Chat
    } else if has_capability(caps, Capability::Embedding) {
        Capability::Embedding
    } else if caps.len() > 0 {
        caps[0]
    } else {
        Capability::Chat
    }
}

/// `e` is the error of a missing model file: a backend error whose message starts with
/// "Model file not found: " (the path follows, as `Debug` writes it).
pub open spec fn is_missing_file_error(e: InferenceError) -> bool {
    e matches InferenceError::BackendError(s) && s@.len() >= "Model file not found: "@.len()
        && s@.subrange(0, "Model file not found: "@.len() as int) == "Model file not found: "@
}

/// `e` is the error of a missing model file whose path `Debug` writes as `path_text`.
pub open spec fn is_missing_file_error_for(e: InferenceError, path_text: Seq<char>) -> bool {
    e matches InferenceError::BackendError(s) && s@ == "Model file not found: "@ + path_text
}

/// The error of a backend whose model file is missing: "Model file not found: "
/// followed by `path_text`, the path as `Debug` writes it.
pub fn model_file_missing(path_text: &str) -> (r: InferenceError)
    ensures
        is_missing_file_error_for(r, path_text@),
        is_missing_file_error(r),
{
    let s = joined("Model file not found: ", path_text);
    assert(s@.subrange(0, "Model file not found: "@.len() as int) =~= "Model file not found: "@);
    InferenceError::BackendError(s)
}

/// Formats a path with its `Debug` implementation; nothing is claimed of the text.
#[verifier::external_body]
pub(crate) fn path_debug_text(p: &std::path::PathBuf) -> String {
    format!("{:?}", p)
}

/// A model is described by its own configuration: the description carries the configured
/// id, name, capabilities (all of them, in order) and metadata, and the backend that runs it.
pub proof fn law_model_info_describes_config(config: ModelConfigView, backend: BackendType)
    ensures
        info_of(config, backend).id == config.id,
        info_of(config, backend).name == config.name,
        info_of(config, backend).backend == backend,
        info_of(config, backend).capabilities == config.capabilities,
        info_of(config, backend).metadata == config.metadata,
{
}

/// A request that names no capability is served by chat whenever the model offers chat
/// (whatever else it offers), by embedding when it offers embedding but not chat, else by the
/// model's first capability, and by chat when none is configured; the chosen capability is
/// always one the model offers, if it offers any.
pub proof fn law_default_capability_prefers_chat(caps: Seq<Capability>)
    ensures
        caps.contains(Capability::Chat) ==> default_capability_of(caps) == Capability::Chat,
        !caps.contains(Capability::Chat) && caps.contains(Capability::Embedding)
            ==> default_capability_of(caps) == Capability::Embedding,
        !caps.contains(Capability::Chat) && !caps.contains(Capability::Embedding) && caps.len() > 0
            ==> default_capability_of(caps) == caps[0],
        caps.len() == 0 ==> default_capability_of(caps) == Capability::Chat,
        caps.len() > 0 ==> caps.contains(default_capability_of(caps)),
{
    if caps.len() > 0 && !caps.contains(Capability::Chat) && !caps.contains(Capability::Embedding) {
        assert(caps[0] == caps[0]);
    }
}

} // verus!
