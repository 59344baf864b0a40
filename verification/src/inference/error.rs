//! The error type of the gateway, its HTTP status and its message.
use crate::text::joined;
use vstd::prelude::*;

verus! {

/// `std::io::Error`, carried as an opaque value.
#[verifier::external_type_specification]
#[verifier::external_body]
pub struct ExIoError(std::io::Error);

/// Everything that can go wrong while serving a request.
#[derive(Debug)]
pub enum InferenceError {
    ModelNotFound(String),
    ModelNotLoaded(String),
    ModelLoading(String),
    BackendError(String),
    InvalidRequest(String),
    CapabilityNotSupported(String),
    SerializationError(String),
    IoError(std::io::Error),
    TokenizationError(String),
    InferenceExecutionError(String),
}

/// The result of a backend operation.
pub type BackendResult<T> = Result<T, InferenceError>;

/// The HTTP status code with which an error is answered.
pub open spec fn status_of(e: InferenceError) -> u16 {
    match e {
        InferenceError::ModelNotFound(_) => 404,
        InferenceError::ModelNotLoaded(_) => 503,
        InferenceError::ModelLoading(_) => 202,
        InferenceError::BackendError(_) => 500,
        InferenceError::InvalidRequest(_) => 400,
        InferenceError::CapabilityNotSupported(_) => 400,
        InferenceError::SerializationError(_) => 500,
        InferenceError::IoError(_) => 500,
        InferenceError::TokenizationError(_) => 400,
        InferenceError::InferenceExecutionError(_) => 500,
    }
}

/// The message of an error that carries text: a fixed prefix followed by that text.
pub open spec fn message_of(e: InferenceError) -> Seq<char>
    recommends
        !(e is IoError),
{
    match e {
        InferenceError::ModelNotFound(s) => "Model not found: "@ + s@,
        InferenceError::ModelNotLoaded(s) => "Model not loaded: "@ + s@,
        InferenceError::ModelLoading(s) => "Model is loading, please wait: "@ + s@,
        InferenceError::BackendError(s) => "Backend error: "@ + s@,
        InferenceError::InvalidRequest(s) => "Invalid request: "@ + s@,
        InferenceError::CapabilityNotSupported(s) => "Capability not supported: "@ + s@,
        InferenceError::SerializationError(s) => "Serialization error: "@ + s@,
        InferenceError::TokenizationError(s) => "Tokenization error: "@ + s@,
        InferenceError::InferenceExecutionError(s) => "Inference error: "@ + s@,
        InferenceError::IoError(_) => "IO error: "@,
    }
}

/// Formats a `std::io::Error` with its `Display` implementation; nothing is claimed
/// of the text, which depends on the operating system's error description.
#[verifier::external_body]
fn io_error_text(e: &std::io::Error) -> String {
    format!("{}", e)
}

impl InferenceError {
    /// The HTTP status code with which this error is answered.
    pub fn status_code(&self) -> (r: u16)
        ensures
            r == status_of(*self),
    {
        match self {
            InferenceError::ModelNotFound(_) => 404,
            InferenceError::ModelNotLoaded(_) => 503,
            InferenceError::ModelLoading(_) => 202,
            InferenceError::BackendError(_) => 500,
            InferenceError::InvalidRequest(_) => 400,
            InferenceError::CapabilityNotSupported(_) => 400,
            InferenceError::SerializationError(_) => 500,
            InferenceError::IoError(_) => 500,
            InferenceError::TokenizationError(_) => 400,
            InferenceError::InferenceExecutionError(_) => 500,
        }
    }

    /// The human-readable message of this error.
    pub fn to_string(&self) -> (r: String)
        ensures
            !(*self is IoError) ==> r@ == message_of(*self),
            *self is IoError ==> r@.len() >= message_of(*self).len()
                && r@.subrange(0, message_of(*self).len() as int) == message_of(*self),
    {
        match self {
            InferenceError::ModelNotFound(s) => joined("Model not found: ", s.as_str()),
            InferenceError::ModelNotLoaded(s) => joined("Model not loaded: ", s.as_str()),
            InferenceError::ModelLoading(s) => joined("Model is loading, please wait: ", s.as_str()),
            InferenceError::BackendError(s) => joined("Backend error: ", s.as_str()),
            InferenceError::InvalidRequest(s) => joined("Invalid request: ", s.as_str()),
            InferenceError::CapabilityNotSupported(s) => joined("Capability not supported: ", s.as_str()),
            InferenceError::SerializationError(s) => joined("Serialization error: ", s.as_str()),
            InferenceError::TokenizationError(s) => joined("Tokenization error: ", s.as_str()),
            InferenceError::InferenceExecutionError(s) => joined("Inference error: ", s.as_str()),
            InferenceError::IoError(e) => {
                let text = io_error_text(e);
                let r = joined("IO error: ", text.as_str());
                assert(r@.subrange(0, message_of(*self).len() as int) =~= message_of(*self));
                r
            }
        }
    }
}

} // verus!
