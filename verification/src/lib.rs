//! A character session engine: binds generative-text personas to chat
//! channels, windows the recent conversation, renders prompts, frames
//! generation requests and plans how replies are delivered.

pub mod botmanager;
pub mod commands;
pub mod error;
pub mod history;
pub mod identity;
pub mod registry;
pub mod text;
pub mod textgen;
