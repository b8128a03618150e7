//! Validity checks over the node lists the directory cache stores: all
//! bonds of one list must be counted in a single denomination before the
//! nodes can be compared, and only a prefix of the sorted list belongs
//! to the active set.

use vstd::prelude::*;

verus! {

/// An amount of one denomination, as a bond or delegation is counted.
pub struct CoinValue {
    pub amount: u128,
    pub denom: String,
}

impl Clone for CoinValue {
    fn clone(&self) -> (coin: Self)
        ensures
            coin == *self,
    {
        CoinValue { amount: self.amount, denom: self.denom.clone() }
    }
}

/// One bonded node: what its operator pledged and what others delegated
/// to it.
pub struct NodeBond {
    pub bond_amount: CoinValue,
    pub total_delegation: CoinValue,
    /// Account that bonded the node.
    pub owner: String,
}

impl Clone for NodeBond {
    fn clone(&self) -> (bond: Self)
        ensures
            bond == *self,
    {
        NodeBond {
            bond_amount: self.bond_amount.clone(),
            total_delegation: self.total_delegation.clone(),
            owner: self.owner.clone(),
        }
    }
}

/// Whether every bond and delegation of the list is counted in the
/// denomination of the first bond, so the nodes can be compared with one
/// another. An empty list is trivially uniform.
pub open spec fn spec_uniform_denomination(bonds: Seq<NodeBond>) -> bool {
    bonds.len() == 0 || (forall|k: int|
        0 <= k < bonds.len() ==> (#[trigger] bonds[k]).bond_amount.denom@
            == bonds[0].bond_amount.denom@ && bonds[k].total_delegation.denom@
            == bonds[0].bond_amount.denom@)
}

/// Checks that all mixnode bonds of the list can be compared together,
/// i.e. they all have the same denomination for bonds and delegations.
pub fn verify_mixnodes(mixnodes: &Vec<NodeBond>) -> (uniform: bool)
    ensures
        uniform == spec_uniform_denomination(mixnodes@),
{
    verify_bonds(mixnodes)
}

/// Checks that all gateway bonds of the list can be compared together,
/// i.e. they all have the same denomination for bonds and delegations.
pub fn verify_gateways(gateways: &Vec<NodeBond>) -> (uniform: bool)
    ensures
        uniform == spec_uniform_denomination(gateways@),
{
    verify_bonds(gateways)
}

fn verify_bonds(bonds: &Vec<NodeBond>) -> (uniform: bool)
    ensures
        uniform == spec_uniform_denomination(bonds@),
{
    if bonds.len() == 0 {
        return true;
    }
    let expected = &bonds[0].bond_amount.denom;
    let mut k: usize = 0;
    while k < bonds.len()
        invariant
            bonds@.len() > 0,
            k <= bonds@.len(),
            expected@ == bonds@[0].bond_amount.denom@,
            forall|j: int|
                0 <= j < k ==> (#[trigger] bonds@[j]).bond_amount.denom@
                    == bonds@[0].bond_amount.denom@ && bonds@[j].total_delegation.denom@
                    == bonds@[0].bond_amount.denom@,
        decreases bonds@.len() - k,
    {
        let bond = &bonds[k];
        if !(bond.bond_amount.denom == *expected) || !(bond.total_delegation.denom == *expected) {
            return false;
        }
        k += 1;
    }
    true
}

/// Copies the first `active_set_size` nodes of an already sorted list —
/// the whole list when it is shorter — as the active set.
pub fn active_set(sorted: &Vec<NodeBond>, active_set_size: usize) -> (active: Vec<NodeBond>)
    ensures
        active@ == sorted@.take(if active_set_size <= sorted@.len() {
            active_set_size as int
        } else {
            sorted@.len() as int
        }),
{
    let limit = if active_set_size <= sorted.len() {
        active_set_size
    } else {
        sorted.len()
    };
    let mut active: Vec<NodeBond> = Vec::new();
    let mut k: usize = 0;
    while k < limit
        invariant
            k <= limit <= sorted@.len(),
            active@.len() == k,
            forall|j: int| 0 <= j < k ==> active@[j] == sorted@[j],
        decreases limit - k,
    {
        active.push(sorted[k].clone());
        k += 1;
    }
    proof {
        assert(active@ =~= sorted@.take(limit as int));
    }
    active
}

} // verus!
