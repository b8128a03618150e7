use futures::channel::oneshot;
use mix_fetch::codec::{encode_envelope, Envelope, Method, Request, MAX_BODY_LEN};
use mix_fetch::correlator::{ActiveRequests, CorrelationError};
use mix_fetch::demux::{Delivery, ReplySink, Response};
use mix_fetch::engine::{abort_pending, begin_fetch, FetchError};

fn small_request() -> Request {
    Request { method: Method::Get, target: b"/".to_vec(), content: Vec::new() }
}

fn reply_bytes(connection_id: u64, body: &[u8]) -> Vec<u8> {
    let envelope = Envelope {
        connection_id,
        ordered_message_index: 0,
        local_closed: false,
        body: body.to_vec(),
    };
    encode_envelope(&envelope).unwrap()
}

#[test]
fn register_then_resolve_delivers_exactly_once() {
    let mut requests: ActiveRequests<u32> = ActiveRequests::new();
    requests.register(7, 700).unwrap();
    // the first resolution hands back the registered completion
    assert_eq!(requests.resolve(7), Some(700));
    // a second resolution of the same id is a no-op, not an error
    assert_eq!(requests.resolve(7), None);
    assert_eq!(requests.pending_count(), 0);
}

#[test]
fn duplicate_registration_is_rejected_not_overwritten() {
    let mut requests: ActiveRequests<u32> = ActiveRequests::new();
    requests.register(7, 700).unwrap();
    assert_eq!(requests.register(7, 999), Err(CorrelationError::DuplicateRequestId));
    // the original waiter is still the one that resolves
    assert_eq!(requests.resolve(7), Some(700));
}

#[test]
fn resolving_unknown_id_leaves_other_entries_untouched() {
    let mut requests: ActiveRequests<u32> = ActiveRequests::new();
    requests.register(1, 100).unwrap();
    requests.register(2, 200).unwrap();
    assert_eq!(requests.resolve(42), None);
    assert_eq!(requests.pending_count(), 2);
    assert!(requests.is_pending(1));
    assert!(requests.is_pending(2));
    assert_eq!(requests.resolve(1), Some(100));
    assert_eq!(requests.resolve(2), Some(200));
}

#[test]
fn pending_ids_never_collide_under_load() {
    let mut requests: ActiveRequests<usize> = ActiveRequests::new();
    let mut ids = Vec::new();
    for n in 0..512 {
        let prepared = begin_fetch(&mut requests, 1, false, n as u64, &small_request(), n)
            .expect("fresh ids should register");
        ids.push(prepared.request_id);
        // every registration added exactly one pending entry: no id was
        // drawn twice among the simultaneously pending ones
        assert_eq!(requests.pending_count(), n + 1);
    }
    ids.sort_unstable();
    ids.dedup();
    assert_eq!(ids.len(), 512);
}

#[test]
fn failed_encode_registers_nothing() {
    let mut requests: ActiveRequests<u32> = ActiveRequests::new();
    let oversized = Request {
        method: Method::Get,
        target: Vec::new(),
        content: vec![0; MAX_BODY_LEN],
    };
    let result = begin_fetch(&mut requests, 1, false, 0, &oversized, 5);
    assert!(matches!(result, Err(FetchError::Encoding(_))));
    assert_eq!(requests.pending_count(), 0);
}

#[test]
fn fetch_on_closed_channel_leaves_no_entry() {
    // the outbound channel: dropping the receiving end closes it
    let (payload_sender, payload_receiver) = oneshot::channel::<Vec<u8>>();
    drop(payload_receiver);

    let mut requests: ActiveRequests<oneshot::Sender<Response>> = ActiveRequests::new();
    let (completion, mut waiter) = oneshot::channel::<Response>();
    let prepared = begin_fetch(&mut requests, 1, false, 0, &small_request(), completion).unwrap();
    assert!(requests.is_pending(prepared.request_id));

    // the send fails because the channel is closed; the call reports
    // ChannelClosed and must evict the pending entry again
    let send_result = payload_sender.send(prepared.payload);
    assert!(send_result.is_err());
    abort_pending(&mut requests, prepared.request_id);

    assert!(!requests.is_pending(prepared.request_id));
    assert_eq!(requests.pending_count(), 0);
    // the abandoned waiter sees cancellation instead of hanging
    assert!(waiter.try_recv().is_err());
}

#[test]
fn concurrent_fetches_resolve_correctly_in_reverse_order() {
    let mut sink: ReplySink<oneshot::Sender<Response>> =
        ReplySink::CorrelatedReply(ActiveRequests::new());

    let (first_id, second_id, mut first_waiter, mut second_waiter) = match &mut sink {
        ReplySink::CorrelatedReply(requests) => {
            let (first_completion, first_waiter) = oneshot::channel::<Response>();
            let (second_completion, second_waiter) = oneshot::channel::<Response>();
            let first = begin_fetch(requests, 1, false, 0, &small_request(), first_completion)
                .unwrap();
            let second = begin_fetch(requests, 2, false, 0, &small_request(), second_completion)
                .unwrap();
            (first.request_id, second.request_id, first_waiter, second_waiter)
        }
        ReplySink::RawPassthrough => unreachable!(),
    };

    // the replies arrive on the shared stream in reverse order
    let second_delivery = sink.route_and_deliver(reply_bytes(second_id, b"reply two"));
    assert!(matches!(second_delivery, Delivery::Delivered { .. }));
    let first_delivery = sink.route_and_deliver(reply_bytes(first_id, b"reply one"));
    assert!(matches!(first_delivery, Delivery::Delivered { .. }));

    // each fetch resolved to its own response
    let first_response = first_waiter.try_recv().unwrap().unwrap();
    assert_eq!(first_response.connection_id, first_id);
    assert_eq!(first_response.body, b"reply one".to_vec());
    let second_response = second_waiter.try_recv().unwrap().unwrap();
    assert_eq!(second_response.connection_id, second_id);
    assert_eq!(second_response.body, b"reply two".to_vec());
}

#[test]
fn duplicate_delivery_is_a_no_op() {
    let mut sink: ReplySink<oneshot::Sender<Response>> =
        ReplySink::CorrelatedReply(ActiveRequests::new());
    let (request_id, mut waiter) = match &mut sink {
        ReplySink::CorrelatedReply(requests) => {
            let (completion, waiter) = oneshot::channel::<Response>();
            let prepared =
                begin_fetch(requests, 1, false, 0, &small_request(), completion).unwrap();
            (prepared.request_id, waiter)
        }
        ReplySink::RawPassthrough => unreachable!(),
    };

    let reply = reply_bytes(request_id, b"only once");
    let first = sink.route_and_deliver(reply.clone());
    assert!(matches!(first, Delivery::Delivered { .. }));
    // the adversarial transport replays the same message
    let second = sink.route_and_deliver(reply);
    assert!(matches!(second, Delivery::DroppedUnknownId { .. }));
    // the waiter saw exactly one response
    let response = waiter.try_recv().unwrap().unwrap();
    assert_eq!(response.body, b"only once".to_vec());
    assert!(waiter.try_recv().is_err());
}
