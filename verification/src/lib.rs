//! A small pool of shared, rentable resources (bicycles) whose availability
//! is tracked through an explicit per-slot state machine, together with the
//! reconciliation protocol that folds the outcome of an asynchronous reward
//! transfer back into a slot's state.
//!
//! The pool itself is a plain value: the hosting runtime owns it, supplies
//! the caller's identity for every mutating operation, performs the outbound
//! token transfer that [`reward`] describes, and later hands the transfer's
//! outcome back to the pool's callback.

pub mod account;
pub mod pool;
pub mod reward;
