//! The models that the client can address, and the plain values of their
//! requests and replies.

pub mod base;
pub mod chat;
pub mod completion;
pub mod embedding;
