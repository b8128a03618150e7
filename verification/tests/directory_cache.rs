use futures::channel::oneshot;
use mix_fetch::cache::Cache;
use mix_fetch::correlator::ActiveRequests;
use mix_fetch::demux::{ReplySink, Response, RouteOutcome};
use mix_fetch::directory::{
    filter_gateways_by_performance, filter_out_inactive, flatten_services, select_services,
    DirectoryService, DirectoryServiceProvider, GatewayRecord, HarbourMasterService, PagedResult,
    GATEWAY_PERFORMANCE_SCORE_THRESHOLD, SERVICE_ROUTING_SCORE_THRESHOLD,
};
use mix_fetch::validator::{active_set, verify_gateways, verify_mixnodes, CoinValue, NodeBond};

fn provider(address: &str) -> DirectoryServiceProvider {
    DirectoryServiceProvider {
        id: format!("id-{address}"),
        description: String::new(),
        address: address.to_string(),
        gateway: "gw".to_string(),
    }
}

fn report(address: &str, routing_score: u32) -> HarbourMasterService {
    HarbourMasterService { service_provider_client_id: address.to_string(), routing_score }
}

fn paged(items: Vec<HarbourMasterService>) -> PagedResult<HarbourMasterService> {
    PagedResult { page: 0, size: items.len() as u32, total: items.len() as u32, items }
}

#[test]
fn inactive_and_low_scoring_providers_are_filtered_out() {
    let all = vec![provider("a"), provider("b"), provider("c"), provider("d")];
    let active = paged(vec![
        // exactly at the threshold: not enough
        report("a", SERVICE_ROUTING_SCORE_THRESHOLD),
        // above the threshold: kept
        report("b", SERVICE_ROUTING_SCORE_THRESHOLD + 1),
        report("d", 10000),
    ]);
    let filtered = filter_out_inactive(&all, &active);
    let kept: Vec<&str> = filtered.iter().map(|sp| sp.address.as_str()).collect();
    assert_eq!(kept, vec!["b", "d"]);
}

#[test]
fn select_falls_back_to_all_services_when_monitor_is_silent() {
    let all = vec![provider("a"), provider("b")];
    let selected = select_services(all, &paged(Vec::new()));
    assert_eq!(selected.len(), 2);
}

#[test]
fn select_falls_back_to_all_services_when_nothing_survives() {
    let all = vec![provider("a"), provider("b")];
    let active = paged(vec![report("zzz", 10000)]);
    let selected = select_services(all, &active);
    assert_eq!(selected.len(), 2);
}

#[test]
fn select_keeps_only_active_services_otherwise() {
    let all = vec![provider("a"), provider("b")];
    let active = paged(vec![report("b", 9500)]);
    let selected = select_services(all, &active);
    assert_eq!(selected.len(), 1);
    assert_eq!(selected[0].address, "b");
}

#[test]
fn flatten_concatenates_all_categories_in_order() {
    let services = vec![
        DirectoryService {
            id: "cat1".to_string(),
            description: String::new(),
            items: vec![provider("a"), provider("b")],
        },
        DirectoryService { id: "cat2".to_string(), description: String::new(), items: Vec::new() },
        DirectoryService {
            id: "cat3".to_string(),
            description: String::new(),
            items: vec![provider("c")],
        },
    ];
    let providers = flatten_services(services);
    let addresses: Vec<&str> = providers.iter().map(|sp| sp.address.as_str()).collect();
    assert_eq!(addresses, vec!["a", "b", "c"]);
}

#[test]
fn low_performance_gateways_are_filtered_out() {
    let gateways = vec![
        GatewayRecord {
            identity_key: "g1".to_string(),
            owner: "o1".to_string(),
            performance: GATEWAY_PERFORMANCE_SCORE_THRESHOLD,
        },
        GatewayRecord {
            identity_key: "g2".to_string(),
            owner: "o2".to_string(),
            performance: GATEWAY_PERFORMANCE_SCORE_THRESHOLD + 1,
        },
    ];
    let filtered = filter_gateways_by_performance(&gateways);
    assert_eq!(filtered.len(), 1);
    assert_eq!(filtered[0].identity_key, "g2");
}

#[test]
fn cache_returns_the_value_it_was_set_to() {
    let mut cache: Cache<Vec<u8>> = Cache::default();
    assert_eq!(cache.as_at(), 0);
    cache.set(vec![1, 2, 3]);
    cache.set(vec![4, 5]);
    assert_eq!(cache.into_inner(), vec![4, 5]);
}

fn bond(denom: &str, delegation_denom: &str) -> NodeBond {
    NodeBond {
        bond_amount: CoinValue { amount: 100, denom: denom.to_string() },
        total_delegation: CoinValue { amount: 5, denom: delegation_denom.to_string() },
        owner: "owner".to_string(),
    }
}

#[test]
fn uniform_denominations_verify() {
    assert!(verify_mixnodes(&Vec::new()));
    assert!(verify_gateways(&Vec::new()));
    let nodes = vec![bond("unym", "unym"), bond("unym", "unym")];
    assert!(verify_mixnodes(&nodes));
    assert!(verify_gateways(&nodes));
}

#[test]
fn mixed_denominations_fail_verification() {
    let mixed_bond = vec![bond("unym", "unym"), bond("upunk", "unym")];
    assert!(!verify_mixnodes(&mixed_bond));
    let mixed_delegation = vec![bond("unym", "unym"), bond("unym", "upunk")];
    assert!(!verify_gateways(&mixed_delegation));
}

#[test]
fn active_set_is_a_prefix_of_the_sorted_list() {
    let nodes = vec![bond("unym", "unym"), bond("unym", "unym"), bond("unym", "unym")];
    let two = active_set(&nodes, 2);
    assert_eq!(two.len(), 2);
    let all = active_set(&nodes, 10);
    assert_eq!(all.len(), 3);
}

#[test]
fn passthrough_sink_forwards_bytes_and_tag_unchanged() {
    let mut sink: ReplySink<u32> = ReplySink::RawPassthrough;
    let outcome = sink.route_message(vec![9, 9, 9], Some(vec![1, 2]));
    match outcome {
        RouteOutcome::Forwarded { message, tag } => {
            assert_eq!(message, vec![9, 9, 9]);
            assert_eq!(tag, Some(vec![1, 2]));
        }
        _ => panic!("passthrough must forward"),
    }
}

#[test]
fn malformed_replies_are_dropped_without_touching_the_table() {
    let mut requests: ActiveRequests<u32> = ActiveRequests::new();
    requests.register(5, 50).unwrap();
    let mut sink = ReplySink::CorrelatedReply(requests);
    let outcome = sink.route_message(b"garbage".to_vec(), None);
    assert!(matches!(outcome, RouteOutcome::DroppedMalformed { .. }));
    match sink {
        ReplySink::CorrelatedReply(ref requests) => {
            assert!(requests.is_pending(5));
        }
        _ => unreachable!(),
    }
}

#[test]
fn delivery_to_a_gone_waiter_still_evicts_the_entry() {
    let mut requests: ActiveRequests<oneshot::Sender<Response>> = ActiveRequests::new();
    let (completion, waiter) = oneshot::channel::<Response>();
    drop(waiter);
    requests.register(8, completion).unwrap();
    let mut sink = ReplySink::CorrelatedReply(requests);
    let reply = mix_fetch::codec::encode_envelope(&mix_fetch::codec::Envelope {
        connection_id: 8,
        ordered_message_index: 0,
        local_closed: false,
        body: vec![1],
    })
    .unwrap();
    let delivery = sink.route_and_deliver(reply);
    assert!(matches!(delivery, mix_fetch::demux::Delivery::ReceiverGone { connection_id: 8 }));
    match sink {
        ReplySink::CorrelatedReply(ref requests) => {
            assert!(!requests.is_pending(8));
        }
        _ => unreachable!(),
    }
}

#[test]
fn unknown_reply_ids_are_dropped() {
    let requests: ActiveRequests<oneshot::Sender<Response>> = ActiveRequests::new();
    let mut sink = ReplySink::CorrelatedReply(requests);
    let reply = mix_fetch::codec::encode_envelope(&mix_fetch::codec::Envelope {
        connection_id: 77,
        ordered_message_index: 0,
        local_closed: false,
        body: Vec::new(),
    })
    .unwrap();
    let delivery = sink.route_and_deliver(reply);
    assert!(matches!(
        delivery,
        mix_fetch::demux::Delivery::DroppedUnknownId { connection_id: 77 }
    ));
}
