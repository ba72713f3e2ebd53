//! What holds of every plan.

use vstd::prelude::*;
use crate::text::{decimal, lemma_decimal_injective};
use crate::topology::{
    data_dir_name, planned_node, planned_peers, ports_fit, ConnectionMode, GenesisMaterial,
    PortOffsets,
};

verus! {

/// No two nodes of a plan listen on the same port, and no two serve RPC on the same port.
pub proof fn lemma_ports_pairwise_distinct(
    n: usize,
    mode: ConnectionMode,
    genesis: GenesisMaterial,
    ports: PortOffsets,
    i: usize,
    j: usize,
)
    requires
        ports_fit(n, ports),
        i < n,
        j < n,
        i != j,
    ensures
        planned_node(n, mode, genesis, ports, i).listen_port != planned_node(
            n,
            mode,
            genesis,
            ports,
            j,
        ).listen_port,
        planned_node(n, mode, genesis, ports, i).rpc_port != planned_node(
            n,
            mode,
            genesis,
            ports,
            j,
        ).rpc_port,
{
}

/// Where the two offsets lie at least as far apart as there are nodes, no
/// node's listen port is any node's RPC port.
pub proof fn lemma_port_ranges_disjoint(
    n: usize,
    mode: ConnectionMode,
    genesis: GenesisMaterial,
    ports: PortOffsets,
    i: usize,
    j: usize,
)
    requires
        ports_fit(n, ports),
        i < n,
        j < n,
        ports.rpc + n <= ports.peer || ports.peer + n <= ports.rpc,
    ensures
        planned_node(n, mode, genesis, ports, i).listen_port != planned_node(
            n,
            mode,
            genesis,
            ports,
            j,
        ).rpc_port,
{
}

/// In a line every node but the last connects to its successor and to no one
/// else, and the last connects to no one.
pub proof fn lemma_sequential_peers(
    n: usize,
    genesis: GenesisMaterial,
    ports: PortOffsets,
    i: usize,
)
    requires
        ports_fit(n, ports),
        i < n,
    ensures
        i + 1 < n ==> planned_node(
            n,
            ConnectionMode::Sequential,
            genesis,
            ports,
            i,
        ).peer_set() == set![(i + 1) as usize],
        i + 1 == n ==> planned_node(
            n,
            ConnectionMode::Sequential,
            genesis,
            ports,
            i,
        ).peer_set() == Set::<usize>::empty(),
{
    let node = planned_node(n, ConnectionMode::Sequential, genesis, ports, i);
    if i + 1 < n {
        assert(node.peers[0].index == (i + 1) as usize);
        assert(node.peer_set() =~= set![(i + 1) as usize]);
    } else {
        assert(node.peer_set() =~= Set::<usize>::empty());
    }
}

/// In a line only the last node bakes, unless there is a credentials file for
/// every node: then every node bakes.
pub proof fn lemma_sequential_bakers(
    n: usize,
    genesis: GenesisMaterial,
    ports: PortOffsets,
    i: usize,
)
    requires
        i < n,
    ensures
        planned_node(n, ConnectionMode::Sequential, genesis, ports, i).is_baker <==> (i + 1 == n
            || genesis.credential_files >= n),
{
}

/// In a full mesh every node connects to all the others and to nothing else,
/// and wants as many peers as there are other nodes.
pub proof fn lemma_full_mesh_peers(
    n: usize,
    genesis: GenesisMaterial,
    ports: PortOffsets,
    i: usize,
)
    requires
        ports_fit(n, ports),
        i < n,
    ensures
        planned_node(n, ConnectionMode::FullMesh, genesis, ports, i).peer_set() == Set::new(
            |j: usize| j < n && j != i,
        ),
        planned_node(n, ConnectionMode::FullMesh, genesis, ports, i).desired_peers == n - 1,
{
    let node = planned_node(n, ConnectionMode::FullMesh, genesis, ports, i);
    let others = Set::new(|j: usize| j < n && j != i);
    assert(node.peers == planned_peers(n, ConnectionMode::FullMesh, ports, i));
    assert forall|j: usize| others.contains(j) implies node.peer_set().contains(j) by {
        let k: int = if j < i {
            j as int
        } else {
            j - 1
        };
        assert(0 <= k < node.peers.len() && node.peers[k].index == j);
    }
    assert forall|j: usize| node.peer_set().contains(j) implies others.contains(j) by {
        let k = choose|k: int| 0 <= k < node.peers.len() && node.peers[k].index == j;
        assert(node.peers[k].index == j);
    }
    assert(node.peer_set() =~= others);
}

/// In a full mesh the first nodes bake, as many as there are credentials files.
pub proof fn lemma_full_mesh_bakers(
    n: usize,
    genesis: GenesisMaterial,
    ports: PortOffsets,
    i: usize,
)
    requires
        i < n,
    ensures
        planned_node(n, ConnectionMode::FullMesh, genesis, ports, i).is_baker <==> i
            < genesis.credential_files,
{
}

/// Every link of a plan points at a node of the plan other than the one that
/// holds it, and carries the port on which that node listens.
pub proof fn lemma_links_point_at_listeners(
    n: usize,
    mode: ConnectionMode,
    genesis: GenesisMaterial,
    ports: PortOffsets,
    i: usize,
    k: int,
)
    requires
        ports_fit(n, ports),
        i < n,
        0 <= k < planned_peers(n, mode, ports, i).len(),
    ensures
        planned_peers(n, mode, ports, i)[k].index < n,
        planned_peers(n, mode, ports, i)[k].index != i,
        planned_peers(n, mode, ports, i)[k].port == planned_node(
            n,
            mode,
            genesis,
            ports,
            planned_peers(n, mode, ports, i)[k].index,
        ).listen_port,
{
}

/// No two nodes share a private directory.
pub proof fn lemma_data_dirs_distinct(i: usize, j: usize)
    requires
        i != j,
    ensures
        data_dir_name(i) != data_dir_name(j),
{
    if data_dir_name(i) == data_dir_name(j) {
        let prefix = "peer-"@;
        assert(data_dir_name(i).skip(prefix.len() as int) == decimal(i as nat));
        assert(data_dir_name(j).skip(prefix.len() as int) == decimal(j as nat));
        lemma_decimal_injective(i as nat, j as nat);
    }
}

} // verus!
