//! Typed contract handles over interchangeable execution environments, with
//! per-deployment bookkeeping of contract addresses and code ids.
pub mod address;
pub mod code_ref;
pub mod contract;
pub mod daemon;
pub mod environment;
pub mod error;
pub mod laws;
pub mod mock;
pub mod network;
pub mod response;
pub mod state;
