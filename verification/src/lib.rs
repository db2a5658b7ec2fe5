//! Conversation orchestration and streaming dispatch for a chat front-end.
//!
//! The crate decides, for one user turn, which execution path a model takes,
//! keeps the ordered conversation history, and folds the backend's partial
//! results into notifications and at most one history commit per turn.

pub mod client;
pub mod embedding;
pub mod error;
pub mod history;
pub mod lifecycle;
pub mod message;
pub mod metadata;
pub mod model;
pub mod orchestrator;
pub mod registry;
pub mod report;
pub mod router;
pub mod streaming;
pub mod text;
pub mod tool_chat;
