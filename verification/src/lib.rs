//! State model behind an interactive argument-entry bar: a fixed list of typed
//! input fields, a focus cursor that cycles through them, and a per-field rule
//! deciding, key by key, whether a character may be appended to what was typed.

pub mod models;
pub mod text;
