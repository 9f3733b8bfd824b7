//! Provider authentication detection and configuration paths, with proofs.

pub mod antigravity_config;
pub mod error;
pub mod gemini_auth;
pub mod gemini_laws;
pub mod provider;
pub mod text;
