//! A conversational task-entry dialogue engine.
//!
//! The library guides a remote user through a fixed chain of prompts
//! (date, start time, duration, task name) and, when the chain
//! completes, produces a summary of the collected task. Each
//! conversation's progress is kept in a session store keyed by the
//! conversation identifier. The transport that delivers inbound
//! messages and sends replies lives outside the library; the engine
//! works on plain values: a conversation id, an optional text payload,
//! and the reply to send back.

pub mod engine;
pub mod laws;
pub mod state;
pub mod store;
