//! Request/response engine: the verified part of one full anonymous round
//! trip.
//!
//! A fetch draws a fresh random request id, encodes the request — a
//! request that fails to encode is aborted before anything is registered,
//! so no pending entry can outlive a failed encode — and registers a
//! completion under the id. The caller then hands the payload to the
//! external send channel and suspends on the completion; a closed channel
//! or an abandoned wait evicts the entry again, so a late reply cannot
//! resolve into nothing.

use crate::codec::{
    encode_request, spec_encode_envelope, spec_request_bytes, EncodingError, EnvelopeModel,
    Request, MAX_BODY_LEN, REQUEST_HEAD_LEN,
};
use crate::correlator::ActiveRequests;
use vstd::prelude::*;

verus! {

/// Why a fetch failed; each variant is caller-visible through the
/// asynchronous result.
#[derive(Clone, Copy, PartialEq, Eq, Structural, Debug)]
pub enum FetchError {
    /// The outbound request was structurally invalid; nothing was sent and
    /// nothing was registered.
    Encoding(EncodingError),
    /// The freshly drawn id was already pending — an id-generation
    /// anomaly, surfaced instead of overwriting the earlier waiter.
    DuplicateRequestId,
    /// The external send channel is gone; fatal for this call.
    ChannelClosed,
    /// The completion was dropped before a reply resolved it.
    Cancelled,
}

/// An encoded request, registered and ready to be handed to the send
/// channel, tagged by the id its reply will carry.
pub struct PreparedFetch {
    pub request_id: u64,
    pub payload: Vec<u8>,
}

/// Relies on `rand::random`: one uniformly distributed draw over the
/// 64-bit space. Nothing is promised of a random value.
#[verifier::external_body]
fn random_request_id() -> u64 {
    rand::random()
}

/// Starts one fetch: draws a fresh request id, encodes the request and
/// registers the completion under the id.
///
/// The request is encoded before anything is registered: the encoding
/// error comes exactly on a request too large to frame, and every error
/// leaves the table unchanged. When encoding succeeds, the fetch is
/// prepared unless the random draw collided with an id that was already
/// pending — rejected rather than overwriting the earlier waiter, and
/// impossible while nothing is pending, so against an empty table a
/// well-sized fetch always succeeds.
pub fn begin_fetch<C>(
    requests: &mut ActiveRequests<C>,
    connection_id: u64,
    local_closed: bool,
    ordered_message_index: u64,
    request: &Request,
    completion: C,
) -> (result: Result<PreparedFetch, FetchError>)
    ensures
        REQUEST_HEAD_LEN + request.target@.len() + request.content@.len() > MAX_BODY_LEN
            <==> result == Err::<PreparedFetch, FetchError>(
            FetchError::Encoding(EncodingError::OversizedBody),
        ),
        result == Err::<PreparedFetch, FetchError>(FetchError::DuplicateRequestId)
            ==> exists|id: u64| #[trigger] old(requests)@.contains_key(id),
        old(requests)@ == Map::<u64, C>::empty() && REQUEST_HEAD_LEN + request.target@.len()
            + request.content@.len() <= MAX_BODY_LEN ==> result is Ok,
        match result {
            Ok(prepared) => {
                &&& REQUEST_HEAD_LEN + request.target@.len() + request.content@.len()
                    <= MAX_BODY_LEN
                &&& !old(requests)@.contains_key(prepared.request_id)
                &&& final(requests)@ == old(requests)@.insert(prepared.request_id, completion)
                &&& prepared.payload@ == spec_encode_envelope(
                    EnvelopeModel {
                        connection_id,
                        ordered_message_index,
                        local_closed,
                        body: spec_request_bytes(request@),
                    },
                )
            },
            Err(err) => {
                &&& final(requests)@ == old(requests)@
                &&& (err matches FetchError::Encoding(encoding_err) ==> encoding_err
                    == EncodingError::OversizedBody)
                &&& (err is Encoding || err is DuplicateRequestId)
            },
        },
{
    let request_id = random_request_id();
    let payload = match encode_request(connection_id, local_closed, ordered_message_index, request) {
        Ok(payload) => payload,
        Err(err) => {
            return Err(FetchError::Encoding(err));
        },
    };
    match requests.register(request_id, completion) {
        Ok(()) => Ok(PreparedFetch { request_id, payload }),
        Err(_) => {
            proof {
                assert(old(requests)@.contains_key(request_id));
            }
            Err(FetchError::DuplicateRequestId)
        },
    }
}

/// Evicts the pending entry of a fetch that will never resolve — the send
/// channel was closed, or the caller abandoned the wait — and returns its
/// completion. Evicting an id that is no longer pending changes nothing.
pub fn abort_pending<C>(requests: &mut ActiveRequests<C>, request_id: u64) -> (completion: Option<
    C,
>)
    ensures
        old(requests)@.contains_key(request_id) ==> completion == Some(
            old(requests)@[request_id],
        ) && final(requests)@ == old(requests)@.remove(request_id),
        !old(requests)@.contains_key(request_id) ==> completion is None && final(requests)@ == old(
            requests,
        )@,
{
    requests.resolve(request_id)
}

} // verus!
