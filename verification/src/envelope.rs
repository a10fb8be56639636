//! The return-value envelope of a direct RPC response.
//!
//! A response's `result` string, once hex-decoded, carries an envelope of
//! three fields in wire order: an opaque byte payload (`value`), a watch
//! flag (`do_watch`), and a status tag (`status`).  The payload decodes
//! into a hash only when the status belongs to the trusted-operation
//! family.

use crate::hex_codec::hex_decode;
use crate::hex_codec::hex_encode;
use crate::hex_codec::spec_hex_decode;
use crate::hex_codec::spec_hex_encode;
use crate::scale::decode_bool;
use crate::scale::decode_byte_vec;
use crate::scale::encode_bool;
use crate::scale::encode_byte_vec;
use crate::scale::lemma_bool_round_trip;
use crate::scale::lemma_bytes_round_trip;
use crate::scale::spec_bool_decode;
use crate::scale::spec_bool_encode;
use crate::scale::spec_bytes_decode;
use crate::scale::spec_bytes_encode;
use crate::status::decode_status;
use crate::status::encode_status;
use crate::status::lemma_status_round_trip;
use crate::status::spec_status_decode;
use crate::status::spec_status_encode;
use crate::status::DirectRequestStatus;
use crate::status::DirectRequestStatusModel;
use vstd::prelude::*;

verus! {

/// Decoded structured payload of a direct RPC response.
#[derive(Debug, Clone, PartialEq, Eq)]
pub struct RpcReturnValue {
    /// Opaque byte payload; a hash when `status` is in the
    /// trusted-operation family.
    pub value: Vec<u8>,
    /// Whether the caller wants to watch this operation.
    pub do_watch: bool,
    /// Status tag of the response.
    pub status: DirectRequestStatus,
}

/// Mathematical model of `RpcReturnValue`.
#[verifier::ext_equal]
pub struct RpcReturnValueModel {
    pub value: Seq<u8>,
    pub do_watch: bool,
    pub status: DirectRequestStatusModel,
}

impl View for RpcReturnValue {
    type V = RpcReturnValueModel;

    open spec fn view(&self) -> RpcReturnValueModel {
        RpcReturnValueModel { value: self.value@, do_watch: self.do_watch, status: self.status@ }
    }
}

impl RpcReturnValueModel {
    /// The payload fits the length prefix and the status is well formed.
    pub open spec fn wf(self) -> bool {
        self.value.len() < 0x100000000 && self.status.wf()
    }
}

/// Decodes an envelope prefix: payload bytes, watch flag, status, in wire
/// order.
pub open spec fn spec_return_value_decode(b: Seq<u8>) -> Option<(RpcReturnValueModel, Seq<u8>)> {
    match spec_bytes_decode(b) {
        None => None,
        Some((value, b1)) => match spec_bool_decode(b1) {
            None => None,
            Some((w, b2)) => match spec_status_decode(b2) {
                None => None,
                Some((st, b3)) => Some(
                    (RpcReturnValueModel { value: value, do_watch: w, status: st }, b3),
                ),
            },
        },
    }
}

/// Encodes an envelope: payload bytes, watch flag, status, in wire order.
pub open spec fn spec_return_value_encode(m: RpcReturnValueModel) -> Seq<u8>
    recommends
        m.wf(),
{
    spec_bytes_encode(m.value) + spec_bool_encode(m.do_watch) + spec_status_encode(m.status)
}

/// Decoding an encoded envelope, whatever follows it, yields the envelope
/// and the tail.
pub proof fn lemma_return_value_round_trip(m: RpcReturnValueModel, tail: Seq<u8>)
    requires
        m.wf(),
    ensures
        spec_return_value_decode(spec_return_value_encode(m) + tail) == Some((m, tail)),
{
    let bytes_part = spec_bytes_encode(m.value);
    let bool_part = spec_bool_encode(m.do_watch);
    let status_part = spec_status_encode(m.status);
    let full = spec_return_value_encode(m) + tail;
    assert(full =~= bytes_part + (bool_part + (status_part + tail)));
    lemma_bytes_round_trip(m.value, bool_part + (status_part + tail));
    lemma_bool_round_trip(m.do_watch, status_part + tail);
    lemma_status_round_trip(m.status, tail);
}

/// The envelope model carried by a hex string, if it holds one: hex-decode,
/// then read an envelope prefix, trailing bytes ignored.
pub open spec fn spec_envelope_of(result: Seq<char>) -> Option<RpcReturnValueModel> {
    match spec_hex_decode(result) {
        Some(bytes) => match spec_return_value_decode(bytes) {
            Some((m, _rest)) => Some(m),
            None => None,
        },
        None => None,
    }
}

/// A `result` string written as the hex encoding of a well-formed
/// envelope's wire bytes carries exactly that envelope.
pub proof fn lemma_built_result_carries_envelope(m: RpcReturnValueModel)
    requires
        m.wf(),
    ensures
        spec_envelope_of(spec_hex_encode(spec_return_value_encode(m))) == Some(m),
{
    let wire = spec_return_value_encode(m);
    crate::hex_codec::lemma_hex_round_trip(wire);
    assert(wire + Seq::<u8>::empty() =~= wire);
    lemma_return_value_round_trip(m, Seq::<u8>::empty());
}

impl RpcReturnValue {
    /// Builds an envelope from its fields.
    pub fn new(value: Vec<u8>, do_watch: bool, status: DirectRequestStatus) -> (r: RpcReturnValue)
        ensures
            r@ == (RpcReturnValueModel { value: value@, do_watch: do_watch, status: status@ }),
    {
        RpcReturnValue { value, do_watch, status }
    }

    /// Reads an envelope from the start of `bytes`; trailing bytes are
    /// ignored, as the wire format allows.
    pub fn decode(bytes: &Vec<u8>) -> (r: Option<RpcReturnValue>)
        ensures
            match spec_return_value_decode(bytes@) {
                Some(p) => r matches Some(rv) && rv@ == p.0,
                None => r is None,
            },
    {
        proof {
            assert(bytes@.skip(0) =~= bytes@);
        }
        let (value, p1) = match decode_byte_vec(bytes, 0) {
            Some(p) => p,
            None => {
                return None;
            },
        };
        let (do_watch, p2) = match decode_bool(bytes, p1) {
            Some(p) => p,
            None => {
                return None;
            },
        };
        let (status, _p3) = match decode_status(bytes, p2) {
            Some(p) => p,
            None => {
                return None;
            },
        };
        Some(RpcReturnValue { value, do_watch, status })
    }

    /// Writes the envelope's wire bytes.
    pub fn encode(&self) -> (r: Vec<u8>)
        requires
            self@.wf(),
        ensures
            r@ == spec_return_value_encode(self@),
    {
        let mut out = encode_byte_vec(&self.value);
        let mut flag = encode_bool(self.do_watch);
        out.append(&mut flag);
        let mut status = encode_status(&self.status);
        out.append(&mut status);
        proof {
            assert(out@ =~= spec_return_value_encode(self@));
        }
        out
    }

    /// Reads an envelope from a hex-prefixed string, as a response's
    /// `result` field carries it.
    pub fn from_hex(s: &str) -> (r: Option<RpcReturnValue>)
        ensures
            match spec_envelope_of(s@) {
                Some(m) => r matches Some(rv) && rv@ == m,
                None => r is None,
            },
    {
        let bytes = match hex_decode(s) {
            Some(b) => b,
            None => {
                return None;
            },
        };
        RpcReturnValue::decode(&bytes)
    }

    /// Writes the envelope as a hex-prefixed string.
    pub fn to_hex(&self) -> (r: String)
        requires
            self@.wf(),
        ensures
            r@ == spec_hex_encode(spec_return_value_encode(self@)),
    {
        let bytes = self.encode();
        hex_encode(&bytes)
    }
}

} // verus!
