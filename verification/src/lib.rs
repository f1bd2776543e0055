//! Stateful, coverage-guided fuzzing core for EVM smart contracts.
//!
//! The library models one blockchain world state per fuzzing run
//! ([`vm::EVMState`]), schedules transaction inputs and intermediate states
//! ([`scheduler`]), turns raw execution traces into accept/reject decisions
//! ([`feedback`]), and evaluates bug oracles over post-execution state
//! ([`oracles`]). Network access, file handling and command-line plumbing
//! live outside this crate; the core consumes and produces plain values.

pub mod abi;
pub mod config;
pub mod encoding;
pub mod executor;
pub mod feedback;
pub mod fuzzer;
pub mod host;
pub mod input;
pub mod oracles;
pub mod producers;
pub mod rng;
pub mod onchain;
pub mod scheduler;
pub mod solution;
pub mod state;
pub mod tokens;
pub mod types;
pub mod vm;
