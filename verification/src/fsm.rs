//! The state machine engine.
//!
//! Only one state runs at a time: the one on top of the [`StateStack`].
//! Transitions happen based on the value returned by the running state's
//! `update` callback.
pub mod handler;
pub mod laws;
pub mod machine;
pub mod protocol;
pub mod stack;

pub use handler::{Callback, Handler, StateTransition};
pub use machine::StateMachine;
pub use stack::StateStack;
