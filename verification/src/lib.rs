//! A stack-based finite state machine for driving autonomous agents, with
//! the inhabitants of a small mining town built on it.
//!
//! The engine lives in [`fsm`]: a stack of state values, a handler trait
//! with lifecycle callbacks, and a dispatcher that asks the active state for
//! a transition and applies it. Every callback the dispatcher fires, and the
//! order in which it fires them, is part of its contract.
//!
//! [`miner`] and [`partner`] are two agents run by the engine. They act on
//! plain data and keep a journal of what they have to say; printing it is
//! the caller's business. [`timer`] fires events a number of ticks after
//! they were scheduled.
pub mod fsm;
pub mod log;
pub mod miner;
pub mod partner;
pub mod timer;
