//! A small gateway core for forwarding natural-language questions to
//! chat-completion providers: it builds upstream requests, normalizes the
//! heterogeneous response shapes and failure modes of two backends into one
//! uniform reply, and fixes the process-startup configuration rules.

pub mod config;
pub mod dispatch;
pub mod encode;
pub mod extract;
pub mod greet;
pub mod json;
