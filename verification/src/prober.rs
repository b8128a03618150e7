//! Topology prober: answers whether one specific relay node is alive
//! without relying on request/response correlation.
//!
//! The prober reads a versioned topology snapshot, locates the target node
//! by identity, and derives a restricted topology whose node set on the
//! target's layer is the singleton target — traffic routed with it is
//! forced through that node. Alongside the topology it emits tagged
//! synthetic probe payloads; their leading format tag differs from the
//! data envelope's, so a relay or exit endpoint can never mistake a probe
//! for application traffic.

use crate::codec::{spec_decode_envelope, spec_envelope_well_formed};
use crate::text::str_equal;
use vstd::bytes::*;
use vstd::prelude::*;
use vstd::string::*;

verus! {

/// First byte of every probe payload; data envelopes carry
/// [`ENVELOPE_FORMAT_TAG`](crate::codec::ENVELOPE_FORMAT_TAG) instead.
pub const PROBE_FORMAT_TAG: u8 = 2;

/// How many probe payloads a test request carries when the caller does
/// not choose a count.
pub const DEFAULT_TEST_PACKETS: u32 = 20;

/// One relay node of the topology: its identity and the addressing data a
/// sender needs.
pub struct MixNode {
    /// Base58 identity key the node is looked up by.
    pub identity_key: String,
    /// Sphinx key packets to this node are wrapped with.
    pub sphinx_key: String,
    /// Network address of the node.
    pub host: String,
}

/// Mathematical model of a [`MixNode`].
pub struct MixNodeModel {
    pub identity_key: Seq<char>,
    pub sphinx_key: Seq<char>,
    pub host: Seq<char>,
}

impl View for MixNode {
    type V = MixNodeModel;

    open spec fn view(&self) -> MixNodeModel {
        MixNodeModel {
            identity_key: self.identity_key@,
            sphinx_key: self.sphinx_key@,
            host: self.host@,
        }
    }
}

impl Clone for MixNode {
    fn clone(&self) -> (node: Self)
        ensures
            node == *self,
    {
        MixNode {
            identity_key: self.identity_key.clone(),
            sphinx_key: self.sphinx_key.clone(),
            host: self.host.clone(),
        }
    }
}

pub open spec fn spec_nodes_view(nodes: Seq<MixNode>) -> Seq<MixNodeModel> {
    Seq::new(nodes.len(), |j: int| nodes[j]@)
}

/// Versioned snapshot of the routing topology: each inner vector holds the
/// nodes of one layer, in hop order. A node's layer is its position here,
/// counted from 1.
pub struct Topology {
    /// Version of the directory snapshot this topology came from.
    pub version: u64,
    /// Nodes per layer; `layers[i]` is layer `i + 1`.
    pub layers: Vec<Vec<MixNode>>,
}

/// Mathematical model of a [`Topology`].
pub struct TopologyModel {
    pub version: u64,
    pub layers: Seq<Seq<MixNodeModel>>,
}

impl View for Topology {
    type V = TopologyModel;

    open spec fn view(&self) -> TopologyModel {
        TopologyModel {
            version: self.version,
            layers: Seq::new(self.layers@.len(), |i: int| spec_nodes_view(self.layers@[i]@)),
        }
    }
}

/// Whether some node of the topology carries this identity.
pub open spec fn spec_topology_contains(topology: TopologyModel, identity: Seq<char>) -> bool {
    exists|a: int, b: int|
        0 <= a < topology.layers.len() && 0 <= b < topology.layers[a].len()
            && topology.layers[a][b].identity_key == identity
}

/// Whether `(a, b)` is the first position, scanning layers in hop order
/// and each layer front to back, whose node carries this identity.
pub open spec fn spec_first_match(
    topology: TopologyModel,
    identity: Seq<char>,
    a: int,
    b: int,
) -> bool {
    &&& 0 <= a < topology.layers.len()
    &&& 0 <= b < topology.layers[a].len()
    &&& topology.layers[a][b].identity_key == identity
    &&& forall|x: int, y: int|
        0 <= x < topology.layers.len() && 0 <= y < topology.layers[x].len() && (x < a || (x == a
            && y < b)) ==> topology.layers[x][y].identity_key != identity
}

fn clone_nodes(nodes: &Vec<MixNode>) -> (cloned_nodes: Vec<MixNode>)
    ensures
        cloned_nodes@ == nodes@,
{
    let mut cloned_nodes: Vec<MixNode> = Vec::new();
    let mut j: usize = 0;
    while j < nodes.len()
        invariant
            j <= nodes@.len(),
            cloned_nodes@.len() == j,
            forall|k: int| 0 <= k < j ==> cloned_nodes@[k] == nodes@[k],
        decreases nodes@.len() - j,
    {
        cloned_nodes.push(nodes[j].clone());
        j += 1;
    }
    proof {
        assert(cloned_nodes@ =~= nodes@);
    }
    cloned_nodes
}

impl Clone for Topology {
    fn clone(&self) -> (topology: Self)
        ensures
            topology@ == self@,
    {
        let mut layers: Vec<Vec<MixNode>> = Vec::new();
        let mut i: usize = 0;
        while i < self.layers.len()
            invariant
                i <= self.layers@.len(),
                layers@.len() == i,
                forall|k: int| 0 <= k < i ==> layers@[k]@ == self.layers@[k]@,
            decreases self.layers@.len() - i,
        {
            layers.push(clone_nodes(&self.layers[i]));
            i += 1;
        }
        let topology = Topology { version: self.version, layers };
        proof {
            assert(topology@.layers =~= self@.layers);
        }
        topology
    }
}

impl Topology {
    /// Finds the first position, in layer order, of the node carrying this
    /// identity, or `None` when no node of the topology carries it.
    pub fn find_node_position(&self, mixnode_identity: &String) -> (position: Option<
        (usize, usize),
    >)
        ensures
            match position {
                Some(found) => spec_first_match(
                    self@,
                    mixnode_identity@,
                    found.0 as int,
                    found.1 as int,
                ),
                None => !spec_topology_contains(self@, mixnode_identity@),
            },
    {
        let mut a: usize = 0;
        while a < self.layers.len()
            invariant
                a <= self.layers@.len(),
                forall|x: int, y: int|
                    0 <= x < a && 0 <= y < self@.layers[x].len()
                        ==> self@.layers[x][y].identity_key != mixnode_identity@,
            decreases self.layers@.len() - a,
        {
            let layer = &self.layers[a];
            let mut b: usize = 0;
            while b < layer.len()
                invariant
                    a < self.layers@.len(),
                    b <= layer@.len(),
                    layer == self.layers@[a as int],
                    forall|x: int, y: int|
                        0 <= x < a && 0 <= y < self@.layers[x].len()
                            ==> self@.layers[x][y].identity_key != mixnode_identity@,
                    forall|y: int|
                        0 <= y < b ==> self@.layers[a as int][y].identity_key
                            != mixnode_identity@,
                decreases layer@.len() - b,
            {
                if str_equal(layer[b].identity_key.as_str(), mixnode_identity.as_str()) {
                    return Some((a, b));
                }
                b += 1;
            }
            a += 1;
        }
        None
    }

    /// Looks the node up by identity: returns the first node carrying it,
    /// and never a node when the identity is absent from the topology.
    pub fn find_mix_by_identity(&self, mixnode_identity: &String) -> (node: Option<&MixNode>)
        ensures
            match node {
                Some(found) => found@.identity_key == mixnode_identity@ && spec_topology_contains(
                    self@,
                    mixnode_identity@,
                ),
                None => !spec_topology_contains(self@, mixnode_identity@),
            },
    {
        match self.find_node_position(mixnode_identity) {
            Some((a, b)) => Some(&self.layers[a][b]),
            None => None,
        }
    }

    /// Replaces the node set of one layer; every other layer and the
    /// version are unchanged.
    pub fn set_mixes_in_layer(&mut self, layer_index: usize, mixes: Vec<MixNode>)
        requires
            layer_index < old(self)@.layers.len(),
        ensures
            final(self)@.version == old(self)@.version,
            final(self)@.layers == old(self)@.layers.update(
                layer_index as int,
                spec_nodes_view(mixes@),
            ),
    {
        let ghost mixes_model = spec_nodes_view(mixes@);
        self.layers.set(layer_index, mixes);
        proof {
            assert(self@.layers =~= old(self)@.layers.update(layer_index as int, mixes_model));
        }
    }
}

/// Why a probe request could not be built; both are reported to the
/// caller, never absorbed.
#[derive(Debug)]
pub enum TopologyError {
    /// No topology snapshot is known yet.
    UnavailableNetworkTopology,
    /// No node of the current topology carries this identity.
    NonExistentMixnode { mixnode_identity: String },
}

/// The exact byte sequence of one probe payload: probe format tag, the
/// caller-supplied test id, this payload's number within the round, the
/// round's size, then the probed node's identity.
pub open spec fn spec_probe_message(
    test_id: u32,
    current: u32,
    total: u32,
    identity: Seq<char>,
) -> Seq<u8> {
    seq![PROBE_FORMAT_TAG] + spec_u32_to_le_bytes(test_id) + spec_u32_to_le_bytes(current)
        + spec_u32_to_le_bytes(total) + vstd::utf8::encode_utf8(identity)
}

/// The test id a probe payload is stamped with.
pub open spec fn spec_probe_tag(message: Seq<u8>) -> u32 {
    spec_u32_from_le_bytes(message.subrange(1, 5))
}

/// The probe count a caller's choice resolves to.
pub open spec fn spec_packet_count(num_test_packets: Option<u32>) -> u32 {
    match num_test_packets {
        Some(count) => count,
        None => DEFAULT_TEST_PACKETS,
    }
}

fn build_probe_message(test_id: u32, current: u32, total: u32, identity: &String) -> (message: Vec<
    u8,
>)
    ensures
        message@ == spec_probe_message(test_id, current, total, identity@),
{
    let mut message: Vec<u8> = Vec::new();
    message.push(PROBE_FORMAT_TAG);
    let mut test_id_bytes = u32_to_le_bytes(test_id);
    message.append(&mut test_id_bytes);
    let mut current_bytes = u32_to_le_bytes(current);
    message.append(&mut current_bytes);
    let mut total_bytes = u32_to_le_bytes(total);
    message.append(&mut total_bytes);
    let mut identity_bytes = identity.as_str().as_bytes_vec();
    message.append(&mut identity_bytes);
    proof {
        assert(message@ =~= spec_probe_message(test_id, current, total, identity@));
    }
    message
}

fn build_probe_messages(test_id: u32, total: u32, identity: &String) -> (messages: Vec<Vec<u8>>)
    ensures
        messages@.len() == total,
        forall|k: int|
            0 <= k < total ==> #[trigger] messages@[k]@ == spec_probe_message(
                test_id,
                (k + 1) as u32,
                total,
                identity@,
            ),
{
    let mut messages: Vec<Vec<u8>> = Vec::new();
    let mut k: u32 = 0;
    while k < total
        invariant
            k <= total,
            messages@.len() == k,
            forall|j: int|
                0 <= j < k ==> #[trigger] messages@[j]@ == spec_probe_message(
                    test_id,
                    (j + 1) as u32,
                    total,
                    identity@,
                ),
        decreases total - k,
    {
        messages.push(build_probe_message(test_id, k + 1, total, identity));
        k += 1;
    }
    messages
}

/// A probe request ready for the caller: the serialized test payloads and
/// the restricted topology to inject while sending them.
pub struct NymClientTestRequest {
    /// Serialized probe payloads, in sending order.
    pub test_msgs: Vec<Vec<u8>>,
    /// Topology that forces traffic through the target: the probed layer
    /// holds exactly the target node, every other layer is unchanged.
    pub testable_topology: Topology,
}

/// Mathematical model of a [`NymClientTestRequest`].
pub struct TestRequestModel {
    pub test_msgs: Seq<Seq<u8>>,
    pub testable_topology: TopologyModel,
}

impl View for NymClientTestRequest {
    type V = TestRequestModel;

    open spec fn view(&self) -> TestRequestModel {
        TestRequestModel {
            test_msgs: Seq::new(self.test_msgs@.len(), |k: int| self.test_msgs@[k]@),
            testable_topology: self.testable_topology@,
        }
    }
}

impl NymClientTestRequest {
    /// The restricted topology, as a value the caller can inject.
    pub fn injectable_topology(&self) -> (topology: Topology)
        ensures
            topology@ == self@.testable_topology,
    {
        self.testable_topology.clone()
    }
}

/// What a correctly built probe request looks like relative to the source
/// topology and the target's first position `(a, b)`: the probed layer is
/// collapsed to the singleton target, every other layer and the version
/// are unchanged, and the payloads are the full stamped round.
pub open spec fn spec_probe_bundle_ok(
    bundle: TestRequestModel,
    source: TopologyModel,
    a: int,
    b: int,
    test_id: u32,
    count: u32,
) -> bool {
    &&& bundle.testable_topology.version == source.version
    &&& bundle.testable_topology.layers == source.layers.update(
        a,
        seq![source.layers[a][b]],
    )
    &&& bundle.test_msgs.len() == count
    &&& forall|k: int|
        0 <= k < count ==> bundle.test_msgs[k] == spec_probe_message(
            test_id,
            (k + 1) as u32,
            count,
            source.layers[a][b].identity_key,
        )
}

/// Holder of the live topology: readers always observe one consistent
/// snapshot, writers publish whole new snapshots.
pub struct TopologyStore {
    current: Option<Topology>,
}

impl View for TopologyStore {
    type V = Option<TopologyModel>;

    closed spec fn view(&self) -> Option<TopologyModel> {
        match self.current {
            Some(topology) => Some(topology@),
            None => None,
        }
    }
}

impl TopologyStore {
    /// A store that has not learned any topology yet.
    pub fn new() -> (store: Self)
        ensures
            store@ is None,
    {
        TopologyStore { current: None }
    }

    /// Overrides the topology consulted by subsequent operations: an
    /// operator or diagnostic action that atomically publishes the given
    /// snapshot in place of the previous one.
    pub fn change_hardcoded_topology(&mut self, topology: Topology)
        ensures
            final(self)@ == Some(topology@),
    {
        self.current = Some(topology);
    }

    /// The latest known snapshot, or the typed error while none is known.
    pub fn current_topology(&self) -> (result: Result<&Topology, TopologyError>)
        ensures
            match result {
                Ok(topology) => self@ == Some(topology@),
                Err(err) => self@ is None && (err is UnavailableNetworkTopology),
            },
    {
        match &self.current {
            Some(topology) => Ok(topology),
            None => Err(TopologyError::UnavailableNetworkTopology),
        }
    }

    /// Whether the target node exists in the known topology, and on which
    /// layer (counted from 1, in hop order).
    ///
    /// Reports the missing topology or the unknown identity as the typed
    /// error; a layer comes back exactly when a node with the identity is
    /// present.
    pub fn check_for_mixnode_existence(&self, mixnode_identity: &String) -> (result: Result<
        usize,
        TopologyError,
    >)
        ensures
            self@ is None <==> (result matches Err(TopologyError::UnavailableNetworkTopology)),
            match result {
                Ok(layer) => {
                    &&& self@ is Some
                    &&& 1 <= layer
                    &&& exists|a: int, b: int|
                        #[trigger] spec_first_match(self@->Some_0, mixnode_identity@, a, b)
                            && layer == a + 1
                },
                Err(TopologyError::NonExistentMixnode { mixnode_identity: reported }) => {
                    &&& self@ matches Some(topology) && !spec_topology_contains(
                        topology,
                        mixnode_identity@,
                    )
                    &&& reported@ == mixnode_identity@
                },
                Err(TopologyError::UnavailableNetworkTopology) => self@ is None,
            },
    {
        let topology = match &self.current {
            Some(topology) => topology,
            None => {
                return Err(TopologyError::UnavailableNetworkTopology);
            },
        };
        match topology.find_node_position(mixnode_identity) {
            Some((a, b)) => {
                let layer_count = topology.layers.len();
                proof {
                    assert(a < layer_count);
                    assert(self@->Some_0 == topology@);
                    assert(spec_first_match(self@->Some_0, mixnode_identity@, a as int, b as int));
                }
                Ok(a + 1)
            },
            None => Err(
                TopologyError::NonExistentMixnode { mixnode_identity: mixnode_identity.clone() },
            ),
        }
    }

    /// Builds a probe request against the target node: locates it,
    /// generates the stamped payload round, and derives a topology whose
    /// probed layer holds exactly the target while every other layer is
    /// copied unchanged.
    pub fn mix_test_request(
        &self,
        test_id: u32,
        mixnode_identity: &String,
        num_test_packets: Option<u32>,
    ) -> (result: Result<NymClientTestRequest, TopologyError>)
        ensures
            self@ is None <==> (result matches Err(TopologyError::UnavailableNetworkTopology)),
            match result {
                Ok(bundle) => {
                    &&& self@ is Some
                    &&& exists|a: int, b: int|
                        #[trigger] spec_first_match(self@->Some_0, mixnode_identity@, a, b)
                            && spec_probe_bundle_ok(
                            bundle@,
                            self@->Some_0,
                            a,
                            b,
                            test_id,
                            spec_packet_count(num_test_packets),
                        )
                },
                Err(TopologyError::NonExistentMixnode { mixnode_identity: reported }) => {
                    &&& self@ matches Some(topology) && !spec_topology_contains(
                        topology,
                        mixnode_identity@,
                    )
                    &&& reported@ == mixnode_identity@
                },
                Err(TopologyError::UnavailableNetworkTopology) => self@ is None,
            },
    {
        let topology = match &self.current {
            Some(topology) => topology,
            None => {
                return Err(TopologyError::UnavailableNetworkTopology);
            },
        };
        let (a, b) = match topology.find_node_position(mixnode_identity) {
            Some(position) => position,
            None => {
                return Err(
                    TopologyError::NonExistentMixnode {
                        mixnode_identity: mixnode_identity.clone(),
                    },
                );
            },
        };
        let count = match num_test_packets {
            Some(count) => count,
            None => DEFAULT_TEST_PACKETS,
        };
        let target = topology.layers[a][b].clone();
        let test_msgs = build_probe_messages(test_id, count, &target.identity_key);
        let mut testable_topology = topology.clone();
        let mut single_node_layer: Vec<MixNode> = Vec::new();
        single_node_layer.push(target);
        testable_topology.set_mixes_in_layer(a, single_node_layer);
        let bundle = NymClientTestRequest { test_msgs, testable_topology };
        proof {
            assert(self@->Some_0 == topology@);
            assert(spec_nodes_view(single_node_layer@) =~= seq![
                topology@.layers[a as int][b as int],
            ]);
            assert(spec_first_match(self@->Some_0, mixnode_identity@, a as int, b as int));
            assert(spec_probe_bundle_ok(
                bundle@,
                self@->Some_0,
                a as int,
                b as int,
                test_id,
                spec_packet_count(num_test_packets),
            ));
        }
        Ok(bundle)
    }
}

/// Law: a probe payload is stamped with exactly the test id it was built
/// with.
pub proof fn lemma_probe_message_tag(test_id: u32, current: u32, total: u32, identity: Seq<char>)
    ensures
        spec_probe_tag(spec_probe_message(test_id, current, total, identity)) == test_id,
{
    lemma_auto_spec_u32_to_from_le_bytes();
    assert(spec_probe_message(test_id, current, total, identity).subrange(1, 5)
        =~= spec_u32_to_le_bytes(test_id));
}

/// Law: probe rounds built with different test ids can never collide —
/// the tags of any two of their payloads differ, whatever their position,
/// round size or probed node.
pub proof fn lemma_probe_tags_never_collide(
    first_test_id: u32,
    first_current: u32,
    first_total: u32,
    first_identity: Seq<char>,
    second_test_id: u32,
    second_current: u32,
    second_total: u32,
    second_identity: Seq<char>,
)
    requires
        first_test_id != second_test_id,
    ensures
        spec_probe_tag(spec_probe_message(first_test_id, first_current, first_total, first_identity))
            != spec_probe_tag(
            spec_probe_message(second_test_id, second_current, second_total, second_identity),
        ),
        spec_probe_message(first_test_id, first_current, first_total, first_identity)
            != spec_probe_message(
            second_test_id,
            second_current,
            second_total,
            second_identity,
        ),
{
    lemma_probe_message_tag(first_test_id, first_current, first_total, first_identity);
    lemma_probe_message_tag(second_test_id, second_current, second_total, second_identity);
}

/// Law: two probe requests built with different test ids can never be
/// confused — whatever their targets, rounds or positions, no payload of
/// the one carries the tag of any payload of the other.
pub proof fn lemma_probe_bundles_never_collide(
    first: TestRequestModel,
    first_source: TopologyModel,
    first_layer: int,
    first_index: int,
    first_test_id: u32,
    first_count: u32,
    second: TestRequestModel,
    second_source: TopologyModel,
    second_layer: int,
    second_index: int,
    second_test_id: u32,
    second_count: u32,
)
    requires
        first_test_id != second_test_id,
        spec_probe_bundle_ok(
            first,
            first_source,
            first_layer,
            first_index,
            first_test_id,
            first_count,
        ),
        spec_probe_bundle_ok(
            second,
            second_source,
            second_layer,
            second_index,
            second_test_id,
            second_count,
        ),
    ensures
        forall|i: int, j: int|
            0 <= i < first.test_msgs.len() && 0 <= j < second.test_msgs.len()
                ==> spec_probe_tag(#[trigger] first.test_msgs[i]) != spec_probe_tag(
                #[trigger] second.test_msgs[j],
            ),
{
    assert forall|i: int, j: int|
        0 <= i < first.test_msgs.len() && 0 <= j < second.test_msgs.len()
            implies spec_probe_tag(#[trigger] first.test_msgs[i]) != spec_probe_tag(
            #[trigger] second.test_msgs[j],
        ) by {
        lemma_probe_tags_never_collide(
            first_test_id,
            (i + 1) as u32,
            first_count,
            first_source.layers[first_layer][first_index].identity_key,
            second_test_id,
            (j + 1) as u32,
            second_count,
            second_source.layers[second_layer][second_index].identity_key,
        );
    }
}

/// Law: a probe payload never decodes as a data envelope — its leading
/// format tag already differs — so a relay or exit endpoint cannot
/// mistake a probe for application traffic.
pub proof fn lemma_probe_message_is_no_envelope(
    test_id: u32,
    current: u32,
    total: u32,
    identity: Seq<char>,
)
    ensures
        !spec_envelope_well_formed(spec_probe_message(test_id, current, total, identity)),
        spec_decode_envelope(spec_probe_message(test_id, current, total, identity)) is None,
{
    let message = spec_probe_message(test_id, current, total, identity);
    assert(message[0] == PROBE_FORMAT_TAG);
}

} // verus!
