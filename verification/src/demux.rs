//! Output demultiplexer: routes each message drained from the single
//! shared stream of reconstructed application messages to exactly one
//! consumer.
//!
//! The sink has two variants, chosen once when the client is built and
//! never switched at runtime: correlated builds match each decodable reply
//! against the correlation table, passthrough builds hand the raw bytes
//! and tag unchanged to an externally registered listener. Malformed or
//! unknown input is dropped with a diagnostic and never escalates, so the
//! drain loop keeps running on adversarial input.

use crate::codec::{
    decode_envelope, spec_decode_envelope, spec_decode_error, spec_envelope_well_formed,
    DecodingError, EnvelopeModel,
};
use crate::correlator::ActiveRequests;
use vstd::prelude::*;

verus! {

/// Decoded reply payload, associated with the id of the request that
/// produced it.
pub struct Response {
    pub connection_id: u64,
    pub body: Vec<u8>,
}

/// Mathematical model of a [`Response`].
pub struct ResponseModel {
    pub connection_id: u64,
    pub body: Seq<u8>,
}

impl View for Response {
    type V = ResponseModel;

    open spec fn view(&self) -> ResponseModel {
        ResponseModel { connection_id: self.connection_id, body: self.body@ }
    }
}

/// The reply an envelope carries.
pub open spec fn spec_response_of(envelope: EnvelopeModel) -> ResponseModel {
    ResponseModel { connection_id: envelope.connection_id, body: envelope.body }
}

/// The single active consumer of the shared reply stream, fixed when the
/// client is built.
#[verifier::reject_recursive_types(C)]
pub enum ReplySink<C> {
    /// Replies are decoded and matched against the correlation table.
    CorrelatedReply(ActiveRequests<C>),
    /// Raw messages are forwarded unchanged to an external listener.
    RawPassthrough,
}

/// What became of one drained message.
pub enum RouteOutcome<C> {
    /// Correlated mode: the reply matched a pending request; the completion
    /// must now be fired with the response.
    Completed { completion: C, response: Response },
    /// Correlated mode: the bytes do not form an envelope; dropped.
    DroppedMalformed { error: DecodingError },
    /// Correlated mode: no request with this id is pending — a duplicate
    /// delivery, a reply after cancellation, or a foreign id; dropped.
    DroppedUnknownId { connection_id: u64 },
    /// Passthrough mode: the raw bytes and tag, unchanged, for the
    /// external listener.
    Forwarded { message: Vec<u8>, tag: Option<Vec<u8>> },
}

impl<C> ReplySink<C> {
    /// The requests pending behind this sink; empty in passthrough mode.
    pub open spec fn spec_pending(&self) -> Map<u64, C> {
        match self {
            ReplySink::CorrelatedReply(requests) => requests@,
            ReplySink::RawPassthrough => Map::empty(),
        }
    }

    /// Routes one message from the shared stream to this sink's consumer.
    ///
    /// In passthrough mode the message and tag are forwarded unchanged. In
    /// correlated mode the message is decoded and resolved: a decodable
    /// reply whose id is pending completes exactly that request; everything
    /// else is dropped and leaves every pending entry untouched.
    pub fn route_message(&mut self, message: Vec<u8>, tag: Option<Vec<u8>>) -> (outcome:
        RouteOutcome<C>)
        ensures
            (*old(self)) is RawPassthrough <==> (*final(self)) is RawPassthrough,
            (*old(self)) is RawPassthrough ==> final(self).spec_pending() == old(
                self,
            ).spec_pending() && (outcome matches RouteOutcome::Forwarded { message: m, tag: t }
                && m == message && t == tag),
            (*old(self)) is CorrelatedReply ==> match outcome {
                RouteOutcome::Completed { completion, response } => {
                    &&& spec_envelope_well_formed(message@)
                    &&& {
                        let envelope = spec_decode_envelope(message@)->Some_0;
                        &&& old(self).spec_pending().contains_key(envelope.connection_id)
                        &&& completion == old(self).spec_pending()[envelope.connection_id]
                        &&& response@ == spec_response_of(envelope)
                        &&& final(self).spec_pending() == old(self).spec_pending().remove(
                            envelope.connection_id,
                        )
                    }
                },
                RouteOutcome::DroppedMalformed { error } => {
                    &&& !spec_envelope_well_formed(message@)
                    &&& error == spec_decode_error(message@)
                    &&& final(self).spec_pending() == old(self).spec_pending()
                },
                RouteOutcome::DroppedUnknownId { connection_id } => {
                    &&& spec_envelope_well_formed(message@)
                    &&& connection_id == spec_decode_envelope(message@)->Some_0.connection_id
                    &&& !old(self).spec_pending().contains_key(connection_id)
                    &&& final(self).spec_pending() == old(self).spec_pending()
                },
                RouteOutcome::Forwarded { .. } => false,
            },
    {
        match self {
            ReplySink::RawPassthrough => RouteOutcome::Forwarded { message, tag },
            ReplySink::CorrelatedReply(requests) => match decode_envelope(message.as_slice()) {
                Err(error) => RouteOutcome::DroppedMalformed { error },
                Ok(envelope) => match requests.resolve(envelope.connection_id) {
                    Some(completion) => RouteOutcome::Completed {
                        completion,
                        response: Response {
                            connection_id: envelope.connection_id,
                            body: envelope.body,
                        },
                    },
                    None => RouteOutcome::DroppedUnknownId {
                        connection_id: envelope.connection_id,
                    },
                },
            },
        }
    }
}

/// Declares futures' oneshot `Sender` so completions of that type can run
/// through the correlation table; the value itself is opaque here.
#[verifier::external_type_specification]
#[verifier::external_body]
#[verifier::reject_recursive_types(T)]
pub struct ExOneshotSender<T>(futures::channel::oneshot::Sender<T>);

/// Relies on futures' oneshot `Sender::send`: consumes the sender and
/// enqueues the response for the receiving end, or hands the response back
/// unchanged when the receiver was already dropped.
#[verifier::external_body]
fn send_completion(completion: futures::channel::oneshot::Sender<Response>, response: Response) -> (result:
    Result<(), Response>)
    ensures
        result matches Err(returned) ==> returned == response,
{
    completion.send(response)
}

/// What became of one drained message after delivery was attempted.
pub enum Delivery {
    /// The reply was handed to the waiter that registered this id.
    Delivered { connection_id: u64 },
    /// The reply matched a pending id but its waiter was already gone.
    ReceiverGone { connection_id: u64 },
    /// The bytes do not form an envelope; dropped.
    DroppedMalformed { error: DecodingError },
    /// No request with this id is pending; dropped.
    DroppedUnknownId { connection_id: u64 },
}

impl ReplySink<futures::channel::oneshot::Sender<Response>> {
    /// Drains one message in correlated mode: decodes it, resolves the
    /// pending request and fires its completion.
    ///
    /// A decodable reply with a pending id always evicts that entry and
    /// reaches its waiter unless the waiter was cancelled meanwhile; every
    /// other message is dropped and changes nothing.
    pub fn route_and_deliver(&mut self, message: Vec<u8>) -> (delivery: Delivery)
        requires
            (*old(self)) is CorrelatedReply,
        ensures
            (*final(self)) is CorrelatedReply,
            match delivery {
                Delivery::Delivered { connection_id } | Delivery::ReceiverGone {
                    connection_id,
                } => {
                    &&& spec_envelope_well_formed(message@)
                    &&& connection_id == spec_decode_envelope(message@)->Some_0.connection_id
                    &&& old(self).spec_pending().contains_key(connection_id)
                    &&& final(self).spec_pending() == old(self).spec_pending().remove(
                        connection_id,
                    )
                },
                Delivery::DroppedMalformed { error } => {
                    &&& !spec_envelope_well_formed(message@)
                    &&& error == spec_decode_error(message@)
                    &&& final(self).spec_pending() == old(self).spec_pending()
                },
                Delivery::DroppedUnknownId { connection_id } => {
                    &&& spec_envelope_well_formed(message@)
                    &&& connection_id == spec_decode_envelope(message@)->Some_0.connection_id
                    &&& !old(self).spec_pending().contains_key(connection_id)
                    &&& final(self).spec_pending() == old(self).spec_pending()
                },
            },
    {
        match self.route_message(message, None) {
            RouteOutcome::Completed { completion, response } => {
                let connection_id = response.connection_id;
                match send_completion(completion, response) {
                    Ok(()) => Delivery::Delivered { connection_id },
                    Err(_) => Delivery::ReceiverGone { connection_id },
                }
            },
            RouteOutcome::DroppedMalformed { error } => Delivery::DroppedMalformed { error },
            RouteOutcome::DroppedUnknownId { connection_id } => Delivery::DroppedUnknownId {
                connection_id,
            },
            RouteOutcome::Forwarded { .. } => {
                // a correlated sink never forwards, as route_message ensures
                proof {
                    assert(false);
                }
                Delivery::DroppedMalformed { error: DecodingError::Truncated }
            },
        }
    }
}

} // verus!
