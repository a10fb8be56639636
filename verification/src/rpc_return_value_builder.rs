//! Builder for return-value envelopes, mainly for tests and examples.

use crate::envelope::RpcReturnValue;
use crate::status::DirectRequestStatus;
use crate::status::DirectRequestStatusModel;
use crate::status::TrustedOperationStatus;
use crate::status::TrustedOperationStatusModel;
use vstd::prelude::*;

verus! {

/// Collects the fields of an `RpcReturnValue`; unset fields fall back to
/// an empty payload, a cleared watch flag, and the submitted status.
pub struct RpcReturnValueBuilder {
    pub maybe_value: Option<Vec<u8>>,
    pub maybe_do_watch: Option<bool>,
    pub maybe_status: Option<DirectRequestStatus>,
}

impl RpcReturnValueBuilder {
    /// Starts with no field set.
    pub fn new() -> (r: RpcReturnValueBuilder)
        ensures
            r.maybe_value is None,
            r.maybe_do_watch is None,
            r.maybe_status is None,
    {
        RpcReturnValueBuilder { maybe_value: None, maybe_do_watch: None, maybe_status: None }
    }

    /// Sets the payload.
    pub fn with_value(self, value: Vec<u8>) -> (r: RpcReturnValueBuilder)
        ensures
            r.maybe_value matches Some(v) && v@ == value@,
            r.maybe_do_watch == self.maybe_do_watch,
            r.maybe_status == self.maybe_status,
    {
        RpcReturnValueBuilder { maybe_value: Some(value), ..self }
    }

    /// Sets the watch flag.
    pub fn with_do_watch(self, do_watch: bool) -> (r: RpcReturnValueBuilder)
        ensures
            r.maybe_value == self.maybe_value,
            r.maybe_do_watch == Some(do_watch),
            r.maybe_status == self.maybe_status,
    {
        RpcReturnValueBuilder { maybe_do_watch: Some(do_watch), ..self }
    }

    /// Sets the status.
    pub fn with_status(self, status: DirectRequestStatus) -> (r: RpcReturnValueBuilder)
        ensures
            r.maybe_value == self.maybe_value,
            r.maybe_do_watch == self.maybe_do_watch,
            r.maybe_status matches Some(s) && s@ == status@,
    {
        RpcReturnValueBuilder { maybe_status: Some(status), ..self }
    }

    /// Assembles the envelope, filling unset fields with the defaults.
    pub fn build(self) -> (r: RpcReturnValue)
        ensures
            r@.value == match self.maybe_value {
                Some(v) => v@,
                None => Seq::<u8>::empty(),
            },
            r@.do_watch == match self.maybe_do_watch {
                Some(w) => w,
                None => false,
            },
            r@.status == match self.maybe_status {
                Some(s) => s@,
                None => DirectRequestStatusModel::TrustedOperationStatus(
                    TrustedOperationStatusModel::Submitted,
                ),
            },
    {
        let value = match self.maybe_value {
            Some(v) => v,
            None => Vec::new(),
        };
        let do_watch = match self.maybe_do_watch {
            Some(w) => w,
            None => false,
        };
        let status = match self.maybe_status {
            Some(s) => s,
            None => DirectRequestStatus::TrustedOperationStatus(TrustedOperationStatus::Submitted),
        };
        RpcReturnValue { value, do_watch, status }
    }
}

} // verus!
