//! Attestation-gated worker registry.
//!
//! An agent may act for a contract only after it has proved that it runs
//! approved code inside a trusted execution environment. It proves this with
//! a quote: the quote is verified against its collateral, bound to the
//! identity of the caller, and its measurement is resolved to the code
//! identities of the two images that the agent runs; where both are on the
//! allow-list that the owner curates, the caller is recorded as a worker.
//! Privileged operations then ask the authorization gate, which looks the
//! caller up and checks its code identity against the allow-list of the day.
//!
//! - [`quote`]: raw quotes and their order.
//! - [`encoding`]: hexadecimal text.
//! - [`attestation`]: quote verification and identity binding.
//! - [`measurement`]: from a measurement to code identities.
//! - [`registry`]: the allow-list and the record of workers.
//! - [`contract`]: the state of the contract and its operations.
//! - [`laws`]: what holds of the operations in every state.
//! - [`will`]: a will that a worker executes.
//! - [`error`]: the ways in which operations fail.

pub mod attestation;
pub mod contract;
pub mod encoding;
pub mod error;
pub mod laws;
pub mod measurement;
pub mod quote;
pub mod registry;
pub mod will;
