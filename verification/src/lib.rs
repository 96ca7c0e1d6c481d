//! Verified core of a terminal client for Stellar's JSON-RPC interface: request
//! forms, per-method parameter building and validation, network settings, response
//! pagination and search, and the input state machine of the interface.

pub mod app;
pub mod rpc;
pub mod settings;
pub mod pattern;
pub mod text;
pub mod ui;
