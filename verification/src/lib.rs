//! A minimal ledger-resident state machine: a persisted account holds one
//! fixed-width integer, and each invocation decodes the account's bytes and an
//! instruction buffer, applies one arithmetic operation, and writes the new
//! state back.
//!
//! The crate is split into a wire codec (fixed-layout binary encode/decode),
//! an instruction evaluator (the pure state transition), and the processing
//! routine that ties ownership validation, decode, evaluate and encode
//! together. The host (entrypoint registration, logging, account iteration)
//! stays outside.

pub mod calculator;
pub mod codec;
pub mod error;
pub mod math_stuff;
pub mod process;
