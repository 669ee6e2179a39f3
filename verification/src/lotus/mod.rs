//! What the full node says and hears: its configuration, the shapes of its
//! chain and miner data, and the frame of its JSON-RPC calls.

pub mod api;
pub mod chain;
pub mod config;
pub mod miner;
pub mod state;
