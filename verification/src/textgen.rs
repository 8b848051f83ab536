//! Prompt construction and the generation backend's wire format.

pub mod api;
pub mod character;
pub mod json;
pub mod template;
