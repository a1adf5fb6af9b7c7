//! Promise-style settlement and chaining over single-slot channels.
//!
//! A [`settled::Settled`] value is published on a one-shot channel and handed on
//! through [`chain::chain_promise`], which logs one line per step and republishes
//! the value unchanged. [`scenario`] drives a whole chain and states which lines
//! it logs.

pub mod chain;
pub mod channel;
pub mod decimal;
pub mod lines;
pub mod scenario;
pub mod settled;
