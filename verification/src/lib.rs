//! Conversation lifecycle and chat channels.

pub mod channels;
pub mod delivery;
pub mod error;
pub mod json;
pub mod lifecycle;
pub mod serverchan;
pub mod settings;
pub mod table;
pub mod text;
pub mod tokens;
pub mod weixin;
