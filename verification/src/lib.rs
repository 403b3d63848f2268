//! A minimal per-authority counter program and its client-side logic.
//!
//! The on-chain half is a state-transition function: it dispatches on a
//! one-byte discriminator to either create a counter account or increase
//! its stored value, after validating the accounts it was handed. The
//! off-chain half derives the counter's program-derived address, builds
//! the corresponding instructions, and decodes fetched account bytes.
//! Both halves share a fixed 41-byte account layout.

pub mod client;
pub mod error;
pub mod instruction;
pub mod pda;
pub mod processor;
pub mod state;
