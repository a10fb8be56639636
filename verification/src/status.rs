//! Status tags carried by the return-value envelope.
//!
//! A response's status is one of three top-level kinds; only the
//! trusted-operation family carries a watchable hash in the envelope's
//! payload.  The trusted-operation family further distinguishes lifecycle
//! states of a submitted operation; the in-block state carries the 32-byte
//! hash of the block that included the operation.  On the wire each enum is
//! a tag byte, in declaration order, followed by the variant's payload.

use vstd::prelude::*;

verus! {

/// Lifecycle state of a submitted trusted operation.
#[derive(Debug, Clone, PartialEq, Eq)]
pub enum TrustedOperationStatus {
    /// The operation entered the pool.
    Submitted,
    /// The operation sits in the future queue.
    Future,
    /// The operation sits in the ready queue.
    Ready,
    /// The operation was broadcast to peers.
    Broadcast,
    /// The operation was included in the block with this 32-byte hash.
    InSidechainBlock(Vec<u8>),
    /// The block holding the operation was retracted.
    Retracted,
    /// Finality watchers timed out.
    FinalityTimeout,
    /// The operation was finalized.
    Finalized,
    /// The operation was replaced in the pool.
    Usurped,
    /// The operation was dropped from the pool.
    Dropped,
    /// The operation is no longer valid.
    Invalid,
}

/// Mathematical model of `TrustedOperationStatus`.
#[verifier::ext_equal]
pub enum TrustedOperationStatusModel {
    Submitted,
    Future,
    Ready,
    Broadcast,
    InSidechainBlock(Seq<u8>),
    Retracted,
    FinalityTimeout,
    Finalized,
    Usurped,
    Dropped,
    Invalid,
}

impl View for TrustedOperationStatus {
    type V = TrustedOperationStatusModel;

    open spec fn view(&self) -> TrustedOperationStatusModel {
        match self {
            TrustedOperationStatus::Submitted => TrustedOperationStatusModel::Submitted,
            TrustedOperationStatus::Future => TrustedOperationStatusModel::Future,
            TrustedOperationStatus::Ready => TrustedOperationStatusModel::Ready,
            TrustedOperationStatus::Broadcast => TrustedOperationStatusModel::Broadcast,
            TrustedOperationStatus::InSidechainBlock(h) => TrustedOperationStatusModel::InSidechainBlock(h@),
            TrustedOperationStatus::Retracted => TrustedOperationStatusModel::Retracted,
            TrustedOperationStatus::FinalityTimeout => TrustedOperationStatusModel::FinalityTimeout,
            TrustedOperationStatus::Finalized => TrustedOperationStatusModel::Finalized,
            TrustedOperationStatus::Usurped => TrustedOperationStatusModel::Usurped,
            TrustedOperationStatus::Dropped => TrustedOperationStatusModel::Dropped,
            TrustedOperationStatus::Invalid => TrustedOperationStatusModel::Invalid,
        }
    }
}

impl TrustedOperationStatusModel {
    /// An in-block hash holds exactly 32 bytes.
    pub open spec fn wf(self) -> bool {
        match self {
            TrustedOperationStatusModel::InSidechainBlock(h) => h.len() == 32,
            _ => true,
        }
    }
}

/// Top-level status of a direct RPC response.
#[derive(Debug, Clone, PartialEq, Eq)]
pub enum DirectRequestStatus {
    /// The request was executed.
    Success,
    /// The request is a trusted operation in this lifecycle state.
    TrustedOperationStatus(TrustedOperationStatus),
    /// The request could not be executed.
    Error,
}

/// Mathematical model of `DirectRequestStatus`.
#[verifier::ext_equal]
pub enum DirectRequestStatusModel {
    Success,
    TrustedOperationStatus(TrustedOperationStatusModel),
    Error,
}

impl View for DirectRequestStatus {
    type V = DirectRequestStatusModel;

    open spec fn view(&self) -> DirectRequestStatusModel {
        match self {
            DirectRequestStatus::Success => DirectRequestStatusModel::Success,
            DirectRequestStatus::TrustedOperationStatus(s) => DirectRequestStatusModel::TrustedOperationStatus(s@),
            DirectRequestStatus::Error => DirectRequestStatusModel::Error,
        }
    }
}

impl DirectRequestStatusModel {
    /// The payload, if any, is well formed.
    pub open spec fn wf(self) -> bool {
        match self {
            DirectRequestStatusModel::TrustedOperationStatus(s) => s.wf(),
            _ => true,
        }
    }
}

/// Decodes a trusted-operation status prefix: a tag byte in declaration
/// order; the in-block tag is followed by a 32-byte hash.
pub open spec fn spec_trusted_status_decode(b: Seq<u8>) -> Option<(TrustedOperationStatusModel, Seq<u8>)> {
    if b.len() == 0 {
        None
    } else {
        let tag = b[0];
        let rest = b.skip(1);
        if tag == 0 {
            Some((TrustedOperationStatusModel::Submitted, rest))
        } else if tag == 1 {
            Some((TrustedOperationStatusModel::Future, rest))
        } else if tag == 2 {
            Some((TrustedOperationStatusModel::Ready, rest))
        } else if tag == 3 {
            Some((TrustedOperationStatusModel::Broadcast, rest))
        } else if tag == 4 {
            if rest.len() >= 32 {
                Some((TrustedOperationStatusModel::InSidechainBlock(rest.take(32)), rest.skip(32)))
            } else {
                None
            }
        } else if tag == 5 {
            Some((TrustedOperationStatusModel::Retracted, rest))
        } else if tag == 6 {
            Some((TrustedOperationStatusModel::FinalityTimeout, rest))
        } else if tag == 7 {
            Some((TrustedOperationStatusModel::Finalized, rest))
        } else if tag == 8 {
            Some((TrustedOperationStatusModel::Usurped, rest))
        } else if tag == 9 {
            Some((TrustedOperationStatusModel::Dropped, rest))
        } else if tag == 10 {
            Some((TrustedOperationStatusModel::Invalid, rest))
        } else {
            None
        }
    }
}

/// Encodes a trusted-operation status: its tag byte, then its payload.
pub open spec fn spec_trusted_status_encode(s: TrustedOperationStatusModel) -> Seq<u8>
    recommends
        s.wf(),
{
    match s {
        TrustedOperationStatusModel::Submitted => seq![0u8],
        TrustedOperationStatusModel::Future => seq![1u8],
        TrustedOperationStatusModel::Ready => seq![2u8],
        TrustedOperationStatusModel::Broadcast => seq![3u8],
        TrustedOperationStatusModel::InSidechainBlock(h) => seq![4u8] + h,
        TrustedOperationStatusModel::Retracted => seq![5u8],
        TrustedOperationStatusModel::FinalityTimeout => seq![6u8],
        TrustedOperationStatusModel::Finalized => seq![7u8],
        TrustedOperationStatusModel::Usurped => seq![8u8],
        TrustedOperationStatusModel::Dropped => seq![9u8],
        TrustedOperationStatusModel::Invalid => seq![10u8],
    }
}

/// Decodes a top-level status prefix: a tag byte in declaration order; the
/// trusted-operation tag is followed by the sub-status.
pub open spec fn spec_status_decode(b: Seq<u8>) -> Option<(DirectRequestStatusModel, Seq<u8>)> {
    if b.len() == 0 {
        None
    } else {
        let tag = b[0];
        let rest = b.skip(1);
        if tag == 0 {
            Some((DirectRequestStatusModel::Success, rest))
        } else if tag == 1 {
            match spec_trusted_status_decode(rest) {
                Some((s, rest2)) => Some((DirectRequestStatusModel::TrustedOperationStatus(s), rest2)),
                None => None,
            }
        } else if tag == 2 {
            Some((DirectRequestStatusModel::Error, rest))
        } else {
            None
        }
    }
}

/// Encodes a top-level status: its tag byte, then its payload.
pub open spec fn spec_status_encode(s: DirectRequestStatusModel) -> Seq<u8>
    recommends
        s.wf(),
{
    match s {
        DirectRequestStatusModel::Success => seq![0u8],
        DirectRequestStatusModel::TrustedOperationStatus(t) => seq![1u8] + spec_trusted_status_encode(t),
        DirectRequestStatusModel::Error => seq![2u8],
    }
}

/// Decoding an encoded trusted-operation status, whatever follows it,
/// yields the status and the tail.
pub proof fn lemma_trusted_status_round_trip(s: TrustedOperationStatusModel, tail: Seq<u8>)
    requires
        s.wf(),
    ensures
        spec_trusted_status_decode(spec_trusted_status_encode(s) + tail) == Some((s, tail)),
{
    let full = spec_trusted_status_encode(s) + tail;
    match s {
        TrustedOperationStatusModel::InSidechainBlock(h) => {
            assert(full.skip(1) =~= h + tail);
            assert((h + tail).take(32) =~= h);
            assert((h + tail).skip(32) =~= tail);
            assert(spec_trusted_status_decode(full) == Some((
                TrustedOperationStatusModel::InSidechainBlock(h),
                tail,
            )));
        },
        _ => {
            assert(full.skip(1) =~= tail);
        },
    }
}

/// Decoding an encoded status, whatever follows it, yields the status and
/// the tail.
pub proof fn lemma_status_round_trip(s: DirectRequestStatusModel, tail: Seq<u8>)
    requires
        s.wf(),
    ensures
        spec_status_decode(spec_status_encode(s) + tail) == Some((s, tail)),
{
    let full = spec_status_encode(s) + tail;
    match s {
        DirectRequestStatusModel::TrustedOperationStatus(t) => {
            assert(full.skip(1) =~= spec_trusted_status_encode(t) + tail);
            lemma_trusted_status_round_trip(t, tail);
        },
        _ => {
            assert(full.skip(1) =~= tail);
        },
    }
}

/// Reads a trusted-operation status at `pos`; on success the returned
/// position starts the remainder.
pub fn decode_trusted_status(b: &Vec<u8>, pos: usize) -> (r: Option<(TrustedOperationStatus, usize)>)
    requires
        pos <= b@.len(),
    ensures
        match spec_trusted_status_decode(b@.skip(pos as int)) {
            Some(p) => r matches Some(q) && q.0@ == p.0 && pos <= q.1 <= b@.len() && b@.skip(
                q.1 as int,
            ) == p.1,
            None => r is None,
        },
{
    let ghost t = b@.skip(pos as int);
    if pos >= b.len() {
        return None;
    }
    proof {
        assert(t[0] == b@[pos as int]);
        assert(t.skip(1) =~= b@.skip(pos as int + 1));
    }
    let tag = b[pos];
    let rest_pos = pos + 1;
    if tag == 0 {
        Some((TrustedOperationStatus::Submitted, rest_pos))
    } else if tag == 1 {
        Some((TrustedOperationStatus::Future, rest_pos))
    } else if tag == 2 {
        Some((TrustedOperationStatus::Ready, rest_pos))
    } else if tag == 3 {
        Some((TrustedOperationStatus::Broadcast, rest_pos))
    } else if tag == 4 {
        if b.len() - rest_pos < 32 {
            return None;
        }
        let h = crate::scale::copy_range(b, rest_pos, rest_pos + 32);
        proof {
            let rest = b@.skip(rest_pos as int);
            assert(rest.take(32) =~= b@.subrange(rest_pos as int, rest_pos + 32));
            assert(rest.skip(32) =~= b@.skip(rest_pos + 32));
        }
        Some((TrustedOperationStatus::InSidechainBlock(h), rest_pos + 32))
    } else if tag == 5 {
        Some((TrustedOperationStatus::Retracted, rest_pos))
    } else if tag == 6 {
        Some((TrustedOperationStatus::FinalityTimeout, rest_pos))
    } else if tag == 7 {
        Some((TrustedOperationStatus::Finalized, rest_pos))
    } else if tag == 8 {
        Some((TrustedOperationStatus::Usurped, rest_pos))
    } else if tag == 9 {
        Some((TrustedOperationStatus::Dropped, rest_pos))
    } else if tag == 10 {
        Some((TrustedOperationStatus::Invalid, rest_pos))
    } else {
        None
    }
}

/// Reads a top-level status at `pos`; on success the returned position
/// starts the remainder.
pub fn decode_status(b: &Vec<u8>, pos: usize) -> (r: Option<(DirectRequestStatus, usize)>)
    requires
        pos <= b@.len(),
    ensures
        match spec_status_decode(b@.skip(pos as int)) {
            Some(p) => r matches Some(q) && q.0@ == p.0 && pos <= q.1 <= b@.len() && b@.skip(
                q.1 as int,
            ) == p.1,
            None => r is None,
        },
{
    let ghost t = b@.skip(pos as int);
    if pos >= b.len() {
        return None;
    }
    proof {
        assert(t[0] == b@[pos as int]);
        assert(t.skip(1) =~= b@.skip(pos as int + 1));
    }
    let tag = b[pos];
    let rest_pos = pos + 1;
    if tag == 0 {
        Some((DirectRequestStatus::Success, rest_pos))
    } else if tag == 1 {
        match decode_trusted_status(b, rest_pos) {
            Some((s, p2)) => Some((DirectRequestStatus::TrustedOperationStatus(s), p2)),
            None => None,
        }
    } else if tag == 2 {
        Some((DirectRequestStatus::Error, rest_pos))
    } else {
        None
    }
}

/// Writes a trusted-operation status: its tag byte, then its payload.
pub fn encode_trusted_status(s: &TrustedOperationStatus) -> (r: Vec<u8>)
    ensures
        r@ == spec_trusted_status_encode(s@),
{
    let mut out: Vec<u8> = Vec::new();
    match s {
        TrustedOperationStatus::Submitted => out.push(0u8),
        TrustedOperationStatus::Future => out.push(1u8),
        TrustedOperationStatus::Ready => out.push(2u8),
        TrustedOperationStatus::Broadcast => {
            out.push(3u8);
        },
        TrustedOperationStatus::InSidechainBlock(h) => {
            out.push(4u8);
            let mut i: usize = 0;
            while i < h.len()
                invariant
                    i <= h@.len(),
                    out@ =~= seq![4u8] + h@.take(i as int),
                decreases h@.len() - i,
            {
                out.push(h[i]);
                proof {
                    assert(out@ =~= seq![4u8] + h@.take(i as int + 1));
                }
                i = i + 1;
            }
            proof {
                assert(h@.take(h@.len() as int) =~= h@);
            }
        },
        TrustedOperationStatus::Retracted => out.push(5u8),
        TrustedOperationStatus::FinalityTimeout => out.push(6u8),
        TrustedOperationStatus::Finalized => out.push(7u8),
        TrustedOperationStatus::Usurped => out.push(8u8),
        TrustedOperationStatus::Dropped => out.push(9u8),
        TrustedOperationStatus::Invalid => out.push(10u8),
    }
    proof {
        assert(out@ =~= spec_trusted_status_encode(s@));
    }
    out
}

/// Writes a top-level status: its tag byte, then its payload.
pub fn encode_status(s: &DirectRequestStatus) -> (r: Vec<u8>)
    ensures
        r@ == spec_status_encode(s@),
{
    let mut out: Vec<u8> = Vec::new();
    match s {
        DirectRequestStatus::Success => out.push(0u8),
        DirectRequestStatus::TrustedOperationStatus(t) => {
            out.push(1u8);
            let mut tail = encode_trusted_status(t);
            out.append(&mut tail);
        },
        DirectRequestStatus::Error => out.push(2u8),
    }
    proof {
        assert(out@ =~= spec_status_encode(s@));
    }
    out
}

} // verus!
