//! Verified core of an inference gateway: model configuration, capability
//! routing, the registry of loaded models, request scheduling and the
//! decisions each model backend takes around the engines it drives.
pub mod api;
pub mod backends;
pub mod config;
pub mod inference;
pub mod text;
pub mod models;
pub mod scheduler;
