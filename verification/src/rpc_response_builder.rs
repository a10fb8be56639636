//! Builder for RPC responses, mainly for tests and examples.

use crate::envelope::spec_return_value_encode;
use crate::envelope::RpcReturnValue;
use crate::envelope::RpcReturnValueModel;
use crate::hex_codec::spec_hex_encode;
use crate::rpc_response::Id;
use crate::rpc_response::RpcResponse;
use crate::status::DirectRequestStatus;
use crate::status::DirectRequestStatusModel;
use crate::status::TrustedOperationStatus;
use crate::status::TrustedOperationStatusModel;
use vstd::prelude::*;

verus! {

/// Collects the fields of an `RpcResponse`; the `result` field is the
/// hex-encoded envelope.  Unset fields fall back to id 1 and an empty
/// unwatched envelope.
pub struct RpcResponseBuilder {
    pub maybe_id: Option<Id>,
    pub maybe_result: Option<RpcReturnValue>,
}

impl RpcResponseBuilder {
    /// Starts with no field set.
    pub fn new() -> (r: RpcResponseBuilder)
        ensures
            r.maybe_id is None,
            r.maybe_result is None,
    {
        RpcResponseBuilder { maybe_id: None, maybe_result: None }
    }

    /// Sets the exchange identifier.
    pub fn with_id(self, id: Id) -> (r: RpcResponseBuilder)
        ensures
            r.maybe_id == Some(id),
            r.maybe_result == self.maybe_result,
    {
        RpcResponseBuilder { maybe_id: Some(id), ..self }
    }

    /// Sets the envelope the response carries.
    pub fn with_result(self, result: RpcReturnValue) -> (r: RpcResponseBuilder)
        ensures
            r.maybe_id == self.maybe_id,
            r.maybe_result matches Some(rv) && rv@ == result@,
    {
        RpcResponseBuilder { maybe_result: Some(result), ..self }
    }

    /// Assembles the response, hex-encoding the envelope into `result`.
    pub fn build(self) -> (r: RpcResponse)
        requires
            match self.maybe_result {
                Some(rv) => rv@.wf(),
                None => true,
            },
        ensures
            r.id == match self.maybe_id {
                Some(id) => id,
                None => Id::Number(1),
            },
            r.jsonrpc@ == "2.0"@,
            r.result@ == spec_hex_encode(
                spec_return_value_encode(
                    match self.maybe_result {
                        Some(rv) => rv@,
                        None => (RpcReturnValueModel {
                            value: Seq::<u8>::empty(),
                            do_watch: false,
                            status: DirectRequestStatusModel::TrustedOperationStatus(
                                TrustedOperationStatusModel::Submitted,
                            ),
                        }),
                    },
                ),
            ),
{
        let id = match self.maybe_id {
            Some(id) => id,
            None => Id::Number(1),
        };
        let return_value = match self.maybe_result {
            Some(rv) => rv,
            None => RpcReturnValue {
                value: Vec::new(),
                do_watch: false,
                status: DirectRequestStatus::TrustedOperationStatus(
                    TrustedOperationStatus::Submitted,
                ),
            },
        };
        let result = return_value.to_hex();
        RpcResponse { id, jsonrpc: "2.0".to_owned(), result }
    }
}

} // verus!
