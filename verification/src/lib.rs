//! Conversational orchestration core for a command-line assistant.
//!
//! The crate owns three pieces of logic: a token-bounded conversation
//! window with deterministic eviction, a decoder for the line-delimited
//! `data:` streaming wire protocol, and a bounded agent loop that turns
//! model-requested tool invocations into validated, executed and
//! replayed results.  Network transport, terminal rendering and the
//! tools' own side effects live outside the crate; they reach the logic
//! here only as plain values.

pub mod models;
pub mod config;
pub mod text;
pub mod tokenizer;
pub mod json;
pub mod context_manager;
pub mod streaming;
pub mod tools;
pub mod web_search;
pub mod command_execution;
pub mod code_intelligence;
pub mod registry;
pub mod tool_result_format;
pub mod execution;
pub mod pipeline;
pub mod agent;
pub mod explain;
pub mod cli;
pub mod prompts;
