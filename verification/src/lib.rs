//! Watch determination for a direct RPC server.
//!
//! A client submits a trusted operation over a direct (consensus-bypassing)
//! RPC channel and may ask to watch its progress.  The server must decide,
//! from the immediate RPC response alone, whether the operation's hash is to
//! be registered for push notifications, and if so extract that hash.  The
//! response's `result` field is a hex-encoded string carrying either a
//! structured return-value envelope or, on one specific legacy call, a bare
//! encoded hash.

pub mod envelope;
pub mod hash;
pub mod hex_codec;
pub mod rpc_response;
pub mod rpc_response_builder;
pub mod rpc_return_value_builder;
pub mod scale;
pub mod status;
pub mod watch_extractor;

pub use envelope::RpcReturnValue;
pub use hash::RpcHash;
pub use hex_codec::hex_decode;
pub use hex_codec::hex_encode;
pub use rpc_response::Id;
pub use rpc_response::RpcResponse;
pub use rpc_response_builder::RpcResponseBuilder;
pub use rpc_return_value_builder::RpcReturnValueBuilder;
pub use status::DirectRequestStatus;
pub use status::TrustedOperationStatus;
pub use watch_extractor::DirectRpcError;
pub use watch_extractor::DirectRpcResult;
pub use watch_extractor::RpcWatchExtractor;
