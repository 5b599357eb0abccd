//! Stratum V2 template data handling for a Bitcoin Core node reached over IPC.
//!
//! The verified library holds the logic that the IPC client runs on what the node
//! sends: decoding block templates, the coinbase merkle path, the store of
//! templates keyed by their id, the reserved block weight asked of the node, and
//! the decisions taken when the chain tip changes.

pub mod error;
pub mod merkle;
pub mod mining;
pub mod template_data;
pub mod template_store;
pub mod tip;
