//! The three-region network simulation: validators split into three
//! regions of equal size, with the delays measured between the regions and
//! a bandwidth limit for every node.

use vstd::prelude::*;
use crate::bytes::{clone_bytes, seq_view};

verus! {

/// The identity of a validator.
pub type PeerId = Vec<u8>;

/// A delay imposed on the traffic from one group of nodes to another.
#[derive(Clone, Debug, PartialEq, Eq)]
pub struct GroupNetworkDelay {
    pub name: String,
    pub source_nodes: Vec<PeerId>,
    pub target_nodes: Vec<PeerId>,
    pub latency_ms: u64,
    pub jitter_ms: u64,
    pub correlation_percentage: u64,
}

/// What a [`GroupNetworkDelay`] holds, as mathematical values.
#[verifier::ext_equal]
pub struct GroupNetworkDelayView {
    pub name: Seq<char>,
    pub source_nodes: Seq<Seq<u8>>,
    pub target_nodes: Seq<Seq<u8>>,
    pub latency_ms: u64,
    pub jitter_ms: u64,
    pub correlation_percentage: u64,
}

impl View for GroupNetworkDelay {
    type V = GroupNetworkDelayView;

    open spec fn view(&self) -> GroupNetworkDelayView {
        GroupNetworkDelayView {
            name: self.name@,
            source_nodes: seq_view(self.source_nodes),
            target_nodes: seq_view(self.target_nodes),
            latency_ms: self.latency_ms,
            jitter_ms: self.jitter_ms,
            correlation_percentage: self.correlation_percentage,
        }
    }
}

/// The delays between the groups of a swarm.
#[derive(Clone, Debug, PartialEq, Eq)]
pub struct SwarmNetworkDelay {
    pub group_network_delays: Vec<GroupNetworkDelay>,
}

/// The bandwidth that every node of a swarm is limited to.
#[derive(Clone, Copy, Debug, PartialEq, Eq, Structural)]
pub struct SwarmNetworkBandwidth {
    pub rate: u64,
    pub limit: u64,
    pub buffer: u64,
}

/// Jitter of every delay between regions, in milliseconds.
pub const JITTER_MS: u64 = 50;

/// Correlation of every delay between regions, in percent.
pub const CORRELATION_PERCENTAGE: u64 = 50;

/// Median latency between the western United States and southern Africa.
pub const US_WEST_AF_SOUTH_LATENCY_MS: u64 = 300;

/// Median latency between the western United States and northern Europe.
pub const US_WEST_EU_NORTH_LATENCY_MS: u64 = 150;

/// Median latency between northern Europe and southern Africa.
pub const EU_NORTH_AF_SOUTH_LATENCY_MS: u64 = 200;

/// A network test that places the validators in three regions.
#[derive(Clone, Copy, Debug, PartialEq, Eq, Structural)]
pub struct ThreeRegionSimulationTest {
    /// Whether the validators also get a delay on execution.
    pub add_execution_delay: bool,
}

impl ThreeRegionSimulationTest {
    /// The name under which the test is listed.
    pub fn name(&self) -> (name: &'static str)
        ensures
            name@ == "network::three-region-simulation"@,
    {
        "network::three-region-simulation"
    }
}

/// The size of a region: a third of the validators, rounded down.
pub open spec fn region_size(validators: nat) -> nat {
    validators / 3
}

/// The validators of the first region: the first third.
pub open spec fn us_west(validators: Seq<Seq<u8>>) -> Seq<Seq<u8>> {
    validators.subrange(0, region_size(validators.len()) as int)
}

/// The validators of the second region: the second third.
pub open spec fn af_south(validators: Seq<Seq<u8>>) -> Seq<Seq<u8>> {
    validators.subrange(
        region_size(validators.len()) as int,
        2 * region_size(validators.len()) as int,
    )
}

/// The validators of the third region: all that are left.
pub open spec fn eu_north(validators: Seq<Seq<u8>>) -> Seq<Seq<u8>> {
    validators.subrange(2 * region_size(validators.len()) as int, validators.len() as int)
}

/// A delay between two regions, with the jitter and the correlation common
/// to all of them.
pub open spec fn region_delay(
    name: Seq<char>,
    source_nodes: Seq<Seq<u8>>,
    target_nodes: Seq<Seq<u8>>,
    latency_ms: u64,
) -> GroupNetworkDelayView {
    GroupNetworkDelayView {
        name,
        source_nodes,
        target_nodes,
        latency_ms,
        jitter_ms: JITTER_MS,
        correlation_percentage: CORRELATION_PERCENTAGE,
    }
}

/// The six delays of the three-region topology: one for each ordered pair
/// of regions, with the median latency measured between the two.
pub open spec fn three_region_delays(validators: Seq<Seq<u8>>) -> Seq<GroupNetworkDelayView> {
    let west = us_west(validators);
    let south = af_south(validators);
    let north = eu_north(validators);
    seq![
        region_delay("us-west-to-af-south"@, west, south, US_WEST_AF_SOUTH_LATENCY_MS),
        region_delay("af-south-to-us-west"@, south, west, US_WEST_AF_SOUTH_LATENCY_MS),
        region_delay("us-west-to-eu-north"@, west, north, US_WEST_EU_NORTH_LATENCY_MS),
        region_delay("eu-north-to-us-west"@, north, west, US_WEST_EU_NORTH_LATENCY_MS),
        region_delay("eu-north-to-af-south"@, north, south, EU_NORTH_AF_SOUTH_LATENCY_MS),
        region_delay("af-south-to-eu-north"@, south, north, EU_NORTH_AF_SOUTH_LATENCY_MS),
    ]
}

/// Every validator is in exactly one region, and the first two regions have
/// the same size.
pub proof fn lemma_regions_partition(validators: Seq<Seq<u8>>)
    ensures
        us_west(validators) + af_south(validators) + eu_north(validators) == validators,
        us_west(validators).len() == af_south(validators).len(),
        us_west(validators).len() == region_size(validators.len()),
        eu_north(validators).len() >= region_size(validators.len()),
        eu_north(validators).len() <= region_size(validators.len()) + 2,
{
    assert(us_west(validators) + af_south(validators) + eu_north(validators) =~= validators);
}

/// A copy of the validators from `from` up to, not including, `to`.
fn clone_range(validators: &Vec<PeerId>, from: usize, to: usize) -> (copy: Vec<PeerId>)
    requires
        from <= to <= validators.len(),
    ensures
        seq_view(copy) == seq_view(*validators).subrange(from as int, to as int),
{
    let mut copy: Vec<PeerId> = Vec::new();
    let mut i: usize = from;
    while i < to
        invariant
            from <= i <= to,
            to <= validators.len(),
            seq_view(copy) =~= seq_view(*validators).subrange(from as int, i as int),
        decreases to - i,
    {
        let peer = clone_bytes(&validators[i]);
        let ghost before = seq_view(copy);
        copy.push(peer);
        assert(seq_view(copy) =~= before.push(peer@));
        i = i + 1;
    }
    copy
}

/// A delay from the validators in `source` to those in `target`.
fn build_region_delay(
    name: &str,
    validators: &Vec<PeerId>,
    source: (usize, usize),
    target: (usize, usize),
    latency_ms: u64,
) -> (delay: GroupNetworkDelay)
    requires
        source.0 <= source.1 <= validators.len(),
        target.0 <= target.1 <= validators.len(),
    ensures
        delay@ == region_delay(
            name@,
            seq_view(*validators).subrange(source.0 as int, source.1 as int),
            seq_view(*validators).subrange(target.0 as int, target.1 as int),
            latency_ms,
        ),
{
    GroupNetworkDelay {
        name: name.to_owned(),
        source_nodes: clone_range(validators, source.0, source.1),
        target_nodes: clone_range(validators, target.0, target.1),
        latency_ms,
        jitter_ms: JITTER_MS,
        correlation_percentage: CORRELATION_PERCENTAGE,
    }
}

/// The delays of the three-region topology for these validators: the first
/// third in the western United States, the second in southern Africa, the
/// rest in northern Europe.
pub fn create_three_region_swarm_network_delay(all_validators: &Vec<PeerId>) -> (delay:
    SwarmNetworkDelay)
    ensures
        seq_view(delay.group_network_delays) == three_region_delays(seq_view(*all_validators)),
{
    let count = all_validators.len();
    let size = count / 3;
    let west = (0usize, size);
    let south = (size, 2 * size);
    let north = (2 * size, count);
    let mut delays: Vec<GroupNetworkDelay> = Vec::new();
    delays.push(
        build_region_delay(
            "us-west-to-af-south",
            all_validators,
            west,
            south,
            US_WEST_AF_SOUTH_LATENCY_MS,
        ),
    );
    delays.push(
        build_region_delay(
            "af-south-to-us-west",
            all_validators,
            south,
            west,
            US_WEST_AF_SOUTH_LATENCY_MS,
        ),
    );
    delays.push(
        build_region_delay(
            "us-west-to-eu-north",
            all_validators,
            west,
            north,
            US_WEST_EU_NORTH_LATENCY_MS,
        ),
    );
    delays.push(
        build_region_delay(
            "eu-north-to-us-west",
            all_validators,
            north,
            west,
            US_WEST_EU_NORTH_LATENCY_MS,
        ),
    );
    delays.push(
        build_region_delay(
            "eu-north-to-af-south",
            all_validators,
            north,
            south,
            EU_NORTH_AF_SOUTH_LATENCY_MS,
        ),
    );
    delays.push(
        build_region_delay(
            "af-south-to-eu-north",
            all_validators,
            south,
            north,
            EU_NORTH_AF_SOUTH_LATENCY_MS,
        ),
    );
    assert(seq_view(delays) =~= three_region_delays(seq_view(*all_validators)));
    SwarmNetworkDelay { group_network_delays: delays }
}

/// The bandwidth limit of the simulation: one gigabit per second.
pub open spec fn bandwidth_limit() -> SwarmNetworkBandwidth {
    SwarmNetworkBandwidth { rate: 1000, limit: 20971520, buffer: 10000 }
}

/// The bandwidth limit of the simulation.
pub fn create_bandwidth_limit() -> (bandwidth: SwarmNetworkBandwidth)
    ensures
        bandwidth == bandwidth_limit(),
{
    SwarmNetworkBandwidth { rate: 1000, limit: 20971520, buffer: 10000 }
}

} // verus!
