//! Core of a framework for nodes of the Maelstrom test harness: the message
//! model, the init handshake, the network façade with its registry of
//! pending RPCs, and the decisions of the message pump.
pub mod error;
pub mod types;
pub mod network;
pub mod runtime;
