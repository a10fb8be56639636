//! Watch determination.
//!
//! One RPC response comes in; out comes one of: do not watch, watch under
//! this hash, or a typed failure.  The response's `result` string is first
//! read as a return-value envelope.  If that fails, one legacy call's
//! first streamed message is instead a bare encoded hash, so the bytes are
//! read once more as a hash before the response is rejected — and only
//! then, never before the envelope was tried.  A decoded envelope is
//! watched only when its watch flag is set and its status belongs to the
//! trusted-operation family, and then under the hash its payload encodes.

use crate::envelope::spec_envelope_of;
use crate::envelope::RpcReturnValue;
use crate::hash::RpcHash;
use crate::hex_codec::hex_decode;
use crate::hex_codec::spec_hex_decode;
use crate::rpc_response::RpcResponse;
use crate::status::DirectRequestStatus;
use crate::status::DirectRequestStatusModel;
use core::marker::PhantomData;
use vstd::prelude::*;

verus! {

/// A failure to classify one response.
#[derive(Debug, Clone, PartialEq, Eq)]
pub enum DirectRpcError {
    /// The envelope indicated a watchable status, but its payload did not
    /// decode as a hash.
    EncodingError(String),
    /// The response was neither a return-value envelope nor a bare hash.
    Other(String),
}

/// Result of classifying one response.
pub type DirectRpcResult<T> = Result<T, DirectRpcError>;

/// The decision a response calls for, at the level of views.
#[verifier::ext_equal]
pub enum WatchVerdict<V> {
    /// Do not watch; the response is fine.
    NotWatched,
    /// Watch under this hash.
    Watched(V),
    /// The response is neither an envelope nor a bare hash.
    Unrecognized,
    /// The envelope promised a hash payload that did not decode.
    BadPayload,
}

/// Message of the `Other` failure: it describes which decoding stage
/// failed.
pub open spec fn spec_unrecognized_message(result: Seq<char>) -> Seq<char> {
    if spec_hex_decode(result) is None {
        "rpc response result is not a hex string"@
    } else {
        "rpc response is neither a return value envelope nor a bare hash"@
    }
}

/// Message of the `EncodingError` failure.
pub open spec fn spec_bad_payload_message() -> Seq<char> {
    "envelope payload does not decode as a hash"@
}

/// The hash carried by a hex string read as a bare hash (the legacy
/// fallback shape), if it holds one.
pub open spec fn spec_raw_hash_of<H: RpcHash>(result: Seq<char>) -> Option<H::V> {
    match spec_hex_decode(result) {
        Some(bytes) => H::spec_decode(bytes),
        None => None,
    }
}

/// The decision a response's `result` string calls for.  The envelope
/// shape is tried first; the bare-hash fallback only after it failed,
/// never before, since a valid envelope that merely looks like a hash
/// must not be misread.
pub open spec fn spec_watch_verdict<H: RpcHash>(result: Seq<char>) -> WatchVerdict<H::V> {
    match spec_envelope_of(result) {
        Some(env) => if !env.do_watch {
            WatchVerdict::NotWatched
        } else {
            match env.status {
                DirectRequestStatusModel::TrustedOperationStatus(_) => match H::spec_decode(
                    env.value,
                ) {
                    Some(v) => WatchVerdict::Watched(v),
                    None => WatchVerdict::BadPayload,
                },
                _ => WatchVerdict::NotWatched,
            }
        },
        None => match spec_raw_hash_of::<H>(result) {
            Some(v) => WatchVerdict::Watched(v),
            None => WatchVerdict::Unrecognized,
        },
    }
}

/// The decision a classification result carries.
pub open spec fn decision_view<H: RpcHash>(r: DirectRpcResult<Option<H>>) -> WatchVerdict<H::V> {
    match r {
        Result::Ok(Option::None) => WatchVerdict::NotWatched,
        Result::Ok(Option::Some(h)) => WatchVerdict::Watched(h.view()),
        Result::Err(DirectRpcError::Other(_)) => WatchVerdict::Unrecognized,
        Result::Err(DirectRpcError::EncodingError(_)) => WatchVerdict::BadPayload,
    }
}

/// What classifying a response guarantees: the result carries exactly the
/// decision the `result` string calls for, and each failure carries its
/// fixed message.
pub open spec fn watch_contract<H: RpcHash>(result: Seq<char>, r: DirectRpcResult<Option<H>>) -> bool {
    &&& decision_view(r) == spec_watch_verdict::<H>(result)
    &&& (r matches Result::Err(DirectRpcError::Other(m)) ==> m@ == spec_unrecognized_message(
        result,
    ))
    &&& (r matches Result::Err(DirectRpcError::EncodingError(m)) ==> m@
        == spec_bad_payload_message())
}

fn not_hex_message() -> (r: String)
    ensures
        r@ == "rpc response result is not a hex string"@,
{
    "rpc response result is not a hex string".to_owned()
}

fn unrecognized_message() -> (r: String)
    ensures
        r@ == "rpc response is neither a return value envelope nor a bare hash"@,
{
    "rpc response is neither a return value envelope nor a bare hash".to_owned()
}

fn bad_payload_message() -> (r: String)
    ensures
        r@ == spec_bad_payload_message(),
{
    "envelope payload does not decode as a hash".to_owned()
}

/// Stateless watch determiner for a hash type.
pub struct RpcWatchExtractor<Hash> where Hash: RpcHash {
    phantom_data: PhantomData<Hash>,
}

impl<Hash> RpcWatchExtractor<Hash> where Hash: RpcHash {
    /// Creates a watch extractor.
    pub fn new() -> (r: Self) {
        Self::default()
    }
}

impl<Hash> Default for RpcWatchExtractor<Hash> where Hash: RpcHash {
    fn default() -> (r: Self) {
        RpcWatchExtractor { phantom_data: PhantomData }
    }
}

impl<Hash> RpcWatchExtractor<Hash> where Hash: RpcHash {
    /// Decides, from one RPC response alone, whether its operation is to
    /// be watched, and under which hash.
    pub fn must_be_watched(&self, rpc_response: &RpcResponse) -> (r: DirectRpcResult<Option<Hash>>)
        ensures
            watch_contract::<Hash>(rpc_response.result@, r),
    {
        let bytes = match hex_decode(rpc_response.result.as_str()) {
            Some(b) => b,
            None => {
                return Err(DirectRpcError::Other(not_hex_message()));
            },
        };
        match RpcReturnValue::decode(&bytes) {
            Some(return_value) => {
                if !return_value.do_watch {
                    return Ok(None);
                }
                match &return_value.status {
                    DirectRequestStatus::TrustedOperationStatus(_) => {
                        match Hash::decode(&return_value.value) {
                            Some(hash) => Ok(Some(hash)),
                            None => Err(DirectRpcError::EncodingError(bad_payload_message())),
                        }
                    },
                    _ => Ok(None),
                }
            },
            None => {
                // Legacy path: one subscription call's first streamed
                // message is a bare hash rather than an envelope.
                match Hash::decode(&bytes) {
                    Some(hash) => Ok(Some(hash)),
                    None => Err(DirectRpcError::Other(unrecognized_message())),
                }
            },
        }
    }
}

/// A response whose `result` is neither a valid envelope nor a valid bare
/// hash is always rejected with the unrecognized-response failure.
pub proof fn lemma_unrecognized_fails<H: RpcHash>(result: Seq<char>)
    requires
        spec_envelope_of(result) is None,
        spec_raw_hash_of::<H>(result) is None,
    ensures
        spec_watch_verdict::<H>(result) == WatchVerdict::<H::V>::Unrecognized,
{
}

/// A valid envelope with the watch flag cleared is never watched, whatever
/// its status or payload.
pub proof fn lemma_no_watch_flag_no_watch<H: RpcHash>(
    result: Seq<char>,
    env: crate::envelope::RpcReturnValueModel,
)
    requires
        spec_envelope_of(result) == Some(env),
        !env.do_watch,
    ensures
        spec_watch_verdict::<H>(result) == WatchVerdict::<H::V>::NotWatched,
{
}

/// A valid envelope with the watch flag set, a status in the
/// trusted-operation family, and a payload that validly encodes a hash is
/// watched under exactly that hash.
pub proof fn lemma_watch_flag_watches_payload_hash<H: RpcHash>(
    result: Seq<char>,
    env: crate::envelope::RpcReturnValueModel,
    v: H::V,
)
    requires
        spec_envelope_of(result) == Some(env),
        env.do_watch,
        env.status matches DirectRequestStatusModel::TrustedOperationStatus(_),
        env.value == H::spec_encoding(v),
        H::spec_encodable(v),
    ensures
        spec_watch_verdict::<H>(result) == WatchVerdict::Watched(v),
{
    assert(H::spec_encoding(v) + Seq::<u8>::empty() =~= H::spec_encoding(v));
    H::lemma_decode_encoding(v, Seq::<u8>::empty());
}

/// A valid envelope with the watch flag set but a status outside the
/// trusted-operation family is not watched.
pub proof fn lemma_other_status_not_watched<H: RpcHash>(
    result: Seq<char>,
    env: crate::envelope::RpcReturnValueModel,
)
    requires
        spec_envelope_of(result) == Some(env),
        env.do_watch,
        !(env.status matches DirectRequestStatusModel::TrustedOperationStatus(_)),
    ensures
        spec_watch_verdict::<H>(result) == WatchVerdict::<H::V>::NotWatched,
{
}

/// Legacy fallback: when the `result` is no envelope but its bytes decode
/// as a hash, that hash is watched.
pub proof fn lemma_fallback_watches_bare_hash<H: RpcHash>(result: Seq<char>, v: H::V)
    requires
        spec_envelope_of(result) is None,
        spec_raw_hash_of::<H>(result) == Some(v),
    ensures
        spec_watch_verdict::<H>(result) == WatchVerdict::Watched(v),
{
}

/// Watch determination is a pure function of the response: any two results
/// meeting the contract for the same `result` string carry the same
/// decision, hash and message.
pub proof fn lemma_determination_deterministic<H: RpcHash>(
    result: Seq<char>,
    a: DirectRpcResult<Option<H>>,
    b: DirectRpcResult<Option<H>>,
)
    requires
        watch_contract::<H>(result, a),
        watch_contract::<H>(result, b),
    ensures
        decision_view(a) == decision_view(b),
        a matches Ok(Some(h1)) ==> b matches Ok(Some(h2)) && h1.view() == h2.view(),
        a matches Ok(None) ==> b matches Ok(None),
        a matches Err(DirectRpcError::Other(m1)) ==> b matches Err(DirectRpcError::Other(m2))
            && m1@ == m2@,
        a matches Err(DirectRpcError::EncodingError(m1)) ==> b matches Err(
            DirectRpcError::EncodingError(m2),
        ) && m1@ == m2@,
{
}

} // verus!
