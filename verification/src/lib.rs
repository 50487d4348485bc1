//! Core of an alert bridge: it routes a monitoring alert by its leading
//! token, composes the chat text for every outcome of the completion call,
//! and drives one invocation as a state machine whose transitions are proved
//! against their mathematical model.

pub mod chat;
pub mod classify;
pub mod completion;
pub mod compose;
pub mod config;
pub mod decimal;
pub mod guarantees;
pub mod json;
pub mod orchestrator;
