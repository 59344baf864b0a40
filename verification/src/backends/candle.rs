//! The Candle backend, reserved for safetensors models; it serves no inference yet.
use crate::backends::{info_of, model_info_for, BackendType, ModelInfo};
use crate::config::{copy_vec, ModelConfig, ModelConfigView};
use crate::inference::{Capability, InferenceError};
use vstd::prelude::*;

verus! {

/// A model configured for the Candle backend.
pub struct CandleBackend {
    config: ModelConfig,
}

/// `e` is the error with which every Candle inference is refused.
pub open spec fn is_candle_unimplemented(e: InferenceError) -> bool {
    e matches InferenceError::BackendError(s) && s@ == "Candle backend not yet implemented"@
}

impl CandleBackend {
    /// The configuration this backend was created from.
    pub closed spec fn model_config(&self) -> ModelConfigView {
        self.config@
    }

    /// Creates the backend for `config`; this always succeeds.
    pub fn new(config: &ModelConfig) -> (r: Result<Self, InferenceError>)
        ensures
            r matches Ok(b) && b.model_config() == config@,
    {
        Ok(CandleBackend { config: config.duplicate() })
    }

    /// The error every inference on this backend gives.
    pub fn unimplemented() -> (r: InferenceError)
        ensures
            is_candle_unimplemented(r),
    {
        InferenceError::BackendError(String::from_str("Candle backend not yet implemented"))
    }

    /// Describes the model: the configuration's id, name, capabilities and metadata, on Candle.
    pub fn get_model_info(&self) -> (r: ModelInfo)
        ensures
            r@ == info_of(self.model_config(), BackendType::Candle),
    {
        model_info_for(&self.config, BackendType::Candle)
    }

    /// The configured capabilities.
    pub fn capabilities(&self) -> (r: Vec<Capability>)
        ensures
            r@ == self.model_config().capabilities,
    {
        copy_vec(&self.config.capabilities)
    }
}

} // verus!
