//! State and message routing for two small interactive exercises, a counter
//! and a todo list, and for a switcher that hosts one of them at a time.
//!
//! Every state change is a pure transition: each `update` is specified by a
//! spec-level step function over the state's model, so the behaviour of any
//! message sequence can be reasoned about in proofs.

pub mod counter;
pub mod todo;
pub mod app;
