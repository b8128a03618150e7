//! Service-directory filters: which network requesters and gateways the
//! client should offer, given what the health monitor reports as active.
//!
//! Scores arrive as fractions of a percent; the library holds them in
//! hundredths of a percent, so a routing score of 90% is 9000.

use vstd::prelude::*;

verus! {

/// Only network requesters whose routing score lies strictly above this
/// threshold (in hundredths of a percent) are offered.
pub const SERVICE_ROUTING_SCORE_THRESHOLD: u32 = 9000;

/// Only gateways whose performance lies strictly above this threshold
/// (in hundredths of a percent) are offered.
pub const GATEWAY_PERFORMANCE_SCORE_THRESHOLD: u32 = 9000;

/// One network requester as listed in the service directory.
pub struct DirectoryServiceProvider {
    pub id: String,
    pub description: String,
    /// Client address of the provider.
    pub address: String,
    /// Identity of the gateway the provider sits behind.
    pub gateway: String,
}

/// One category of the service directory, with the providers under it.
pub struct DirectoryService {
    pub id: String,
    pub description: String,
    pub items: Vec<DirectoryServiceProvider>,
}

/// One provider as the health monitor reports it.
pub struct HarbourMasterService {
    /// Client id of the provider this report is about.
    pub service_provider_client_id: String,
    /// Observed routing score, in hundredths of a percent.
    pub routing_score: u32,
}

/// One page of a paged directory answer.
pub struct PagedResult<T> {
    pub page: u32,
    pub size: u32,
    pub total: u32,
    pub items: Vec<T>,
}

/// One gateway with its observed performance, in hundredths of a
/// percent.
pub struct GatewayRecord {
    /// Identity key of the gateway.
    pub identity_key: String,
    /// Account that bonded the gateway.
    pub owner: String,
    /// Observed performance, in hundredths of a percent.
    pub performance: u32,
}

impl Clone for DirectoryServiceProvider {
    fn clone(&self) -> (provider: Self)
        ensures
            provider == *self,
    {
        DirectoryServiceProvider {
            id: self.id.clone(),
            description: self.description.clone(),
            address: self.address.clone(),
            gateway: self.gateway.clone(),
        }
    }
}

impl Clone for GatewayRecord {
    fn clone(&self) -> (record: Self)
        ensures
            record == *self,
    {
        GatewayRecord {
            identity_key: self.identity_key.clone(),
            owner: self.owner.clone(),
            performance: self.performance,
        }
    }
}

/// Whether the health monitor lists this provider as active with a
/// routing score above the threshold.
pub open spec fn spec_service_is_active(
    provider: DirectoryServiceProvider,
    active: Seq<HarbourMasterService>,
) -> bool {
    exists|k: int|
        0 <= k < active.len() && (#[trigger] active[k]).service_provider_client_id@
            == provider.address@ && active[k].routing_score > SERVICE_ROUTING_SCORE_THRESHOLD
}

/// The providers of the list that the health monitor lists as active,
/// in their original order.
pub open spec fn spec_active_services(
    all: Seq<DirectoryServiceProvider>,
    active: Seq<HarbourMasterService>,
) -> Seq<DirectoryServiceProvider>
    decreases all.len(),
{
    if all.len() == 0 {
        Seq::empty()
    } else {
        let rest = spec_active_services(all.drop_last(), active);
        if spec_service_is_active(all.last(), active) {
            rest + seq![all.last()]
        } else {
            rest
        }
    }
}

/// The gateways of the list whose performance clears the threshold, in
/// their original order.
pub open spec fn spec_high_performance_gateways(all: Seq<GatewayRecord>) -> Seq<GatewayRecord>
    decreases all.len(),
{
    if all.len() == 0 {
        Seq::empty()
    } else {
        let rest = spec_high_performance_gateways(all.drop_last());
        if all.last().performance > GATEWAY_PERFORMANCE_SCORE_THRESHOLD {
            rest + seq![all.last()]
        } else {
            rest
        }
    }
}

/// Keeps the providers that the health monitor lists as active with a
/// routing score above the threshold, in their original order.
pub fn filter_out_inactive(
    all_services: &Vec<DirectoryServiceProvider>,
    active_services: &PagedResult<HarbourMasterService>,
) -> (filtered: Vec<DirectoryServiceProvider>)
    ensures
        filtered@ == spec_active_services(all_services@, active_services.items@),
{
    let mut filtered: Vec<DirectoryServiceProvider> = Vec::new();
    let mut i: usize = 0;
    while i < all_services.len()
        invariant
            i <= all_services@.len(),
            filtered@ == spec_active_services(
                all_services@.take(i as int),
                active_services.items@,
            ),
        decreases all_services@.len() - i,
    {
        let provider = &all_services[i];
        let mut is_active = false;
        let mut k: usize = 0;
        while k < active_services.items.len()
            invariant
                k <= active_services.items@.len(),
                is_active == exists|j: int|
                    0 <= j < k && (#[trigger] active_services.items@[j]).service_provider_client_id@
                        == provider.address@ && active_services.items@[j].routing_score
                        > SERVICE_ROUTING_SCORE_THRESHOLD,
            decreases active_services.items@.len() - k,
        {
            let candidate = &active_services.items[k];
            if candidate.service_provider_client_id == provider.address
                && candidate.routing_score > SERVICE_ROUTING_SCORE_THRESHOLD {
                is_active = true;
            }
            k += 1;
        }
        proof {
            assert(is_active == spec_service_is_active(*provider, active_services.items@));
            assert(all_services@.take(i + 1).drop_last() =~= all_services@.take(i as int));
            assert(all_services@.take(i + 1).last() == all_services@[i as int]);
        }
        if is_active {
            filtered.push(provider.clone());
        }
        proof {
            assert(filtered@ =~= spec_active_services(
                all_services@.take(i + 1),
                active_services.items@,
            ));
        }
        i += 1;
    }
    proof {
        assert(all_services@.take(all_services@.len() as int) =~= all_services@);
    }
    filtered
}

/// Flattens the categorized directory into the plain list of providers,
/// category by category.
pub open spec fn spec_all_providers(services: Seq<DirectoryService>) -> Seq<
    DirectoryServiceProvider,
>
    decreases services.len(),
{
    if services.len() == 0 {
        Seq::empty()
    } else {
        spec_all_providers(services.drop_last()) + services.last().items@
    }
}

/// Flattens all services into a single vector, forgetting the
/// categories.
pub fn flatten_services(services: Vec<DirectoryService>) -> (providers: Vec<
    DirectoryServiceProvider,
>)
    ensures
        providers@ == spec_all_providers(services@),
{
    let mut providers: Vec<DirectoryServiceProvider> = Vec::new();
    let mut i: usize = 0;
    while i < services.len()
        invariant
            i <= services@.len(),
            providers@ == spec_all_providers(services@.take(i as int)),
        decreases services@.len() - i,
    {
        let mut batch = clone_providers(&services[i].items);
        providers.append(&mut batch);
        proof {
            assert(services@.take(i + 1).drop_last() =~= services@.take(i as int));
            assert(services@.take(i + 1).last() == services@[i as int]);
        }
        i += 1;
    }
    proof {
        assert(services@.take(services@.len() as int) =~= services@);
    }
    providers
}

fn clone_providers(providers: &Vec<DirectoryServiceProvider>) -> (cloned: Vec<
    DirectoryServiceProvider,
>)
    ensures
        cloned@ == providers@,
{
    let mut cloned: Vec<DirectoryServiceProvider> = Vec::new();
    let mut j: usize = 0;
    while j < providers.len()
        invariant
            j <= providers@.len(),
            cloned@.len() == j,
            forall|k: int| 0 <= k < j ==> cloned@[k] == providers@[k],
        decreases providers@.len() - j,
    {
        cloned.push(providers[j].clone());
        j += 1;
    }
    proof {
        assert(cloned@ =~= providers@);
    }
    cloned
}

/// Chooses which providers to offer: all of them while the health
/// monitor reports nothing or while filtering would leave nothing — both
/// fallbacks keep the client usable — and otherwise exactly the active
/// ones.
pub fn select_services(
    all_services: Vec<DirectoryServiceProvider>,
    active_services: &PagedResult<HarbourMasterService>,
) -> (selected: Vec<DirectoryServiceProvider>)
    ensures
        ({
            let filtered = spec_active_services(all_services@, active_services.items@);
            if active_services.items@.len() == 0 {
                selected@ == all_services@
            } else if filtered.len() == 0 {
                selected@ == all_services@
            } else {
                selected@ == filtered
            }
        }),
{
    if active_services.items.is_empty() {
        return all_services;
    }
    let filtered = filter_out_inactive(&all_services, active_services);
    if filtered.is_empty() {
        return all_services;
    }
    filtered
}

/// Keeps the gateways whose performance clears the threshold, in their
/// original order.
pub fn filter_gateways_by_performance(all_gateways: &Vec<GatewayRecord>) -> (filtered: Vec<
    GatewayRecord,
>)
    ensures
        filtered@ == spec_high_performance_gateways(all_gateways@),
{
    let mut filtered: Vec<GatewayRecord> = Vec::new();
    let mut i: usize = 0;
    while i < all_gateways.len()
        invariant
            i <= all_gateways@.len(),
            filtered@ == spec_high_performance_gateways(all_gateways@.take(i as int)),
        decreases all_gateways@.len() - i,
    {
        let gateway = &all_gateways[i];
        proof {
            assert(all_gateways@.take(i + 1).drop_last() =~= all_gateways@.take(i as int));
            assert(all_gateways@.take(i + 1).last() == all_gateways@[i as int]);
        }
        if gateway.performance > GATEWAY_PERFORMANCE_SCORE_THRESHOLD {
            filtered.push(gateway.clone());
        }
        proof {
            assert(filtered@ =~= spec_high_performance_gateways(all_gateways@.take(i + 1)));
        }
        i += 1;
    }
    proof {
        assert(all_gateways@.take(all_gateways@.len() as int) =~= all_gateways@);
    }
    filtered
}

} // verus!
