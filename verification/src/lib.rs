//! State-transition core of an incentivized-survey campaign engine.
//!
//! The library decodes raw byte commands into typed operations, validates
//! authorization, lifecycle and capacity rules against the loaded campaign
//! and participant records, and computes the updated records together with
//! the token-transfer actions an external gateway must perform. All record
//! mutation is expressed as pure functions: an operation either yields a
//! complete new state or an error and no change, so a host that persists
//! only successful outcomes gets all-or-nothing semantics for free.

pub mod codec;
pub mod error;
pub mod instruction;
pub mod processor;
pub mod state;
