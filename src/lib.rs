//! Cooperative coroutine runtime: the decisions of a stackful coroutine
//! engine and of a symmetric coroutine group, as verified state machines.
//!
//! The machine-level context swap is not part of this library: a runner
//! activates a coroutine body when told to (`Transfer::Enter`) and reports
//! back how the body suspended (`Suspension`).

pub mod stack;
pub mod coroutine;
pub mod symmetric;
