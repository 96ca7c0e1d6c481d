//! JSON-RPC 2.0 envelopes.

use vstd::prelude::*;

use crate::text::owned;

verus! {

/// Outgoing JSON-RPC 2.0 request envelope.
#[derive(Debug)]
pub struct RpcRequest<P> {
    pub jsonrpc: &'static str,
    /// Request ID always 1 since the TUI sends one request at a time
    pub id: u64,
    pub method: String,
    pub params: P,
}

impl<P> RpcRequest<P> {
    /// A version 2.0 request with id 1.
    pub fn new(method: &str, params: P) -> (r: Self)
        ensures
            r.jsonrpc == "2.0",
            r.id == 1,
            r.method@ == method@,
            r.params == params,
    {
        RpcRequest { jsonrpc: "2.0", id: 1, method: owned(method), params }
    }
}

/// JSON-RPC 2.0 error object.
#[derive(Debug)]
pub struct RpcError {
    pub code: i64,
    pub message: String,
}

/// Incoming JSON-RPC 2.0 response envelope.
#[derive(Debug)]
pub struct RpcResponse<T> {
    pub jsonrpc: String,
    pub id: u64,
    /// Present on success
    pub result: Option<T>,
    /// Present on failure
    pub error: Option<RpcError>,
}

} // verus!
