//! The wire record of a direct RPC response.

use vstd::prelude::*;

verus! {

/// Identifier of an RPC exchange: a number or a string.
#[derive(Debug, Clone, PartialEq, Eq)]
pub enum Id {
    Number(u32),
    Text(String),
}

/// One RPC response as received from the transport.  Only `result`, a
/// hex-encoded string, matters to watch determination.
#[derive(Debug, Clone, PartialEq, Eq)]
pub struct RpcResponse {
    /// Identifier the response answers.
    pub id: Id,
    /// Protocol version tag.
    pub jsonrpc: String,
    /// Hex-encoded payload: an envelope or, on one legacy call, a bare
    /// hash.
    pub result: String,
}

} // verus!
