//! The wallet MoMo.
pub mod effects;
pub mod laws;
pub mod transformers;
