//! The chat services' own wire values.

pub mod openai_chat_model;
pub mod perplexity_chat_model;
