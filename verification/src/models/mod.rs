//! The registry of loaded models.
pub mod manager;

pub use manager::{LoadedModel, ModelManager};
