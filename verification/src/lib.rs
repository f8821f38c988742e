//! A verified core for a keyboard-driven browser automation agent.
//!
//! The library models conversation sessions, builds prompts for a remote
//! planning service, parses and validates the service's structured plans,
//! and drives a bounded plan-execute-observe loop as a state machine.
//! All I/O (process spawning, HTTP, screenshots, sleeps) is left to the host
//! application, which performs each requested action and feeds the outcome
//! back into the state machine as an event.

pub mod agent;
pub mod errors;
pub mod gemini;
pub mod outside;
pub mod qutebrowser;
pub mod store;
pub mod text;
pub mod types;
