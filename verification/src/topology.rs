//! The topology planner: which node listens where, connects to whom, and bakes.

use vstd::prelude::*;
use vstd::string::StringExecFns;
use crate::text::{append_decimal, decimal};

verus! {

/// How the nodes of the network are wired to each other.
#[derive(Clone, Copy, Debug, PartialEq, Eq, Structural)]
pub enum ConnectionMode {
    /// A line: every node connects to the next one.
    Sequential,
    /// Every node connects to every other node.
    FullMesh,
}

/// Why no plan could be made.
#[derive(Clone, Copy, Debug, PartialEq, Eq, Structural)]
pub enum ConfigurationError {
    /// No node was asked for.
    NoNodes,
    /// The genesis root lacks the genesis data or the credentials that the mode needs.
    MissingGenesisMaterial,
}

/// What the genesis root holds, as found by whoever looked at the disk.
#[derive(Clone, Copy, Debug, PartialEq, Eq, Structural)]
pub struct GenesisMaterial {
    /// Whether the genesis data file is there.
    pub has_genesis_data: bool,
    /// How many baker credential files are there, numbered from zero.
    pub credential_files: usize,
}

/// The first port of each of the two ranges; node `i` gets offset plus `i`.
#[derive(Clone, Copy, Debug, PartialEq, Eq, Structural)]
pub struct PortOffsets {
    pub rpc: usize,
    pub peer: usize,
}

/// A peer that a node connects to: its index and the port it listens on.
#[derive(Clone, Copy, Debug, PartialEq, Eq, Structural)]
pub struct PeerLink {
    pub index: usize,
    pub port: usize,
}

/// The launch configuration of one node.
#[derive(Debug)]
pub struct NodeSpec {
    pub index: usize,
    pub listen_port: usize,
    pub rpc_port: usize,
    /// The peers to connect to, by ascending index.
    pub peers: Vec<PeerLink>,
    /// The number of peers the node wants, which is also the most it accepts.
    pub desired_peers: usize,
    pub is_baker: bool,
    /// The baker's credentials file, relative to the genesis root.
    pub credentials_path: Option<String>,
    /// The node's private directory.
    pub data_dir: String,
}

/// A node's launch configuration as a mathematical value.
pub ghost struct NodeSpecView {
    pub index: usize,
    pub listen_port: usize,
    pub rpc_port: usize,
    pub peers: Seq<PeerLink>,
    pub desired_peers: usize,
    pub is_baker: bool,
    pub credentials_path: Option<Seq<char>>,
    pub data_dir: Seq<char>,
}

impl View for NodeSpec {
    type V = NodeSpecView;

    open spec fn view(&self) -> NodeSpecView {
        NodeSpecView {
            index: self.index,
            listen_port: self.listen_port,
            rpc_port: self.rpc_port,
            peers: self.peers@,
            desired_peers: self.desired_peers,
            is_baker: self.is_baker,
            credentials_path: match self.credentials_path {
                Some(p) => Some(p@),
                None => None,
            },
            data_dir: self.data_dir@,
        }
    }
}

impl NodeSpecView {
    /// The indices of the peers this node connects to.
    pub open spec fn peer_set(self) -> Set<usize> {
        Set::new(|j: usize| exists|k: int| 0 <= k < self.peers.len() && self.peers[k].index == j)
    }
}

/// The name of node `i`'s private directory.
pub open spec fn data_dir_name(i: usize) -> Seq<char> {
    "peer-"@ + decimal(i as nat)
}

/// The place of the `k`-th baker credentials file under the genesis root.
pub open spec fn credentials_file(k: usize) -> Seq<char> {
    "bakers/baker-"@ + decimal(k as nat) + "-credentials.json"@
}

/// Whether the genesis root holds what a plan in this mode needs: the genesis
/// data, and for a line the credentials of at least one baker.
pub open spec fn genesis_sufficient(mode: ConnectionMode, genesis: GenesisMaterial) -> bool {
    genesis.has_genesis_data && (mode == ConnectionMode::Sequential ==> genesis.credential_files
        >= 1)
}

/// The link to node `j`.
pub open spec fn link_to(ports: PortOffsets, j: usize) -> PeerLink {
    PeerLink { index: j, port: (ports.peer + j) as usize }
}

/// The peers of node `i` among `n` nodes.
pub open spec fn planned_peers(n: usize, mode: ConnectionMode, ports: PortOffsets, i: usize) -> Seq<
    PeerLink,
> {
    match mode {
        ConnectionMode::Sequential => if i + 1 < n {
            seq![link_to(ports, (i + 1) as usize)]
        } else {
            Seq::empty()
        },
        ConnectionMode::FullMesh => Seq::new(
            (n - 1) as nat,
            |k: int|
                if k < i {
                    link_to(ports, k as usize)
                } else {
                    link_to(ports, (k + 1) as usize)
                },
        ),
    }
}

/// The credentials file that node `i` bakes with, if it bakes.
///
/// In a line the last node bakes with the first file, unless there is a file
/// for every node: then each node bakes with its own. In a full mesh the first
/// nodes bake, as many as there are files, each with its own.
pub open spec fn planned_credentials(
    n: usize,
    mode: ConnectionMode,
    genesis: GenesisMaterial,
    i: usize,
) -> Option<usize> {
    match mode {
        ConnectionMode::Sequential => if genesis.credential_files >= n {
            Some(i)
        } else if i + 1 == n {
            Some(0usize)
        } else {
            None
        },
        ConnectionMode::FullMesh => if i < genesis.credential_files {
            Some(i)
        } else {
            None
        },
    }
}

/// The number of peers a node wants and at most accepts.
pub open spec fn planned_desired_peers(n: usize, mode: ConnectionMode) -> usize {
    match mode {
        ConnectionMode::Sequential => 1,
        ConnectionMode::FullMesh => (n - 1) as usize,
    }
}

/// The launch configuration of node `i` among `n` nodes.
pub open spec fn planned_node(
    n: usize,
    mode: ConnectionMode,
    genesis: GenesisMaterial,
    ports: PortOffsets,
    i: usize,
) -> NodeSpecView {
    let credentials = planned_credentials(n, mode, genesis, i);
    NodeSpecView {
        index: i,
        listen_port: (ports.peer + i) as usize,
        rpc_port: (ports.rpc + i) as usize,
        peers: planned_peers(n, mode, ports, i),
        desired_peers: planned_desired_peers(n, mode),
        is_baker: credentials is Some,
        credentials_path: match credentials {
            Some(k) => Some(credentials_file(k)),
            None => None,
        },
        data_dir: data_dir_name(i),
    }
}

/// Whether the ports of `n` nodes can be counted from these offsets.
pub open spec fn ports_fit(n: usize, ports: PortOffsets) -> bool {
    ports.rpc + n <= usize::MAX && ports.peer + n <= usize::MAX
}

/// The outcome of planning: the error that the inputs call for, or none.
pub open spec fn plan_error(n: usize, mode: ConnectionMode, genesis: GenesisMaterial) -> Option<
    ConfigurationError,
> {
    if n == 0 {
        Some(ConfigurationError::NoNodes)
    } else if !genesis_sufficient(mode, genesis) {
        Some(ConfigurationError::MissingGenesisMaterial)
    } else {
        None
    }
}

/// The name of node `i`'s private directory, as a string.
pub fn data_dir_of(i: usize) -> (r: String)
    ensures
        r@ == data_dir_name(i),
{
    let mut r = String::from_str("peer-");
    append_decimal(&mut r, i);
    r
}

/// The place of the `k`-th baker credentials file under the genesis root, as a string.
pub fn credentials_file_of(k: usize) -> (r: String)
    ensures
        r@ == credentials_file(k),
{
    let mut r = String::from_str("bakers/baker-");
    append_decimal(&mut r, k);
    r.append("-credentials.json");
    r
}

/// The peers that node `i` among `n` connects to.
pub fn peers_of(n: usize, mode: ConnectionMode, ports: PortOffsets, i: usize) -> (r: Vec<PeerLink>)
    requires
        i < n,
        ports_fit(n, ports),
    ensures
        r@ == planned_peers(n, mode, ports, i),
{
    let mut r: Vec<PeerLink> = Vec::new();
    match mode {
        ConnectionMode::Sequential => {
            if i + 1 < n {
                r.push(PeerLink { index: i + 1, port: ports.peer + (i + 1) });
            }
        },
        ConnectionMode::FullMesh => {
            let mut j: usize = 0;
            while j < n
                invariant
                    i < n,
                    j <= n,
                    ports_fit(n, ports),
                    r.len() == if j <= i {
                        j as int
                    } else {
                        j - 1
                    },
                    forall|k: int|
                        0 <= k < r.len() ==> r[k] == planned_peers(n, mode, ports, i)[k],
                    mode == ConnectionMode::FullMesh,
                decreases n - j,
            {
                if j != i {
                    r.push(PeerLink { index: j, port: ports.peer + j });
                }
                j += 1;
            }
        },
    }
    assert(r@ =~= planned_peers(n, mode, ports, i));
    r
}

/// The credentials file that node `i` among `n` bakes with, if it bakes.
pub fn credentials_of(n: usize, mode: ConnectionMode, genesis: GenesisMaterial, i: usize) -> (r:
    Option<usize>)
    requires
        i < n,
    ensures
        r == planned_credentials(n, mode, genesis, i),
{
    match mode {
        ConnectionMode::Sequential => {
            if genesis.credential_files >= n {
                Some(i)
            } else if i + 1 == n {
                Some(0)
            } else {
                None
            }
        },
        ConnectionMode::FullMesh => {
            if i < genesis.credential_files {
                Some(i)
            } else {
                None
            }
        },
    }
}

/// The launch configuration of node `i` among `n`.
pub fn node_spec_of(
    n: usize,
    mode: ConnectionMode,
    genesis: GenesisMaterial,
    ports: PortOffsets,
    i: usize,
) -> (r: NodeSpec)
    requires
        i < n,
        ports_fit(n, ports),
    ensures
        r@ == planned_node(n, mode, genesis, ports, i),
{
    let credentials = credentials_of(n, mode, genesis, i);
    let credentials_path = match credentials {
        Some(k) => Some(credentials_file_of(k)),
        None => None,
    };
    let desired_peers = match mode {
        ConnectionMode::Sequential => 1,
        ConnectionMode::FullMesh => n - 1,
    };
    NodeSpec {
        index: i,
        listen_port: ports.peer + i,
        rpc_port: ports.rpc + i,
        peers: peers_of(n, mode, ports, i),
        desired_peers,
        is_baker: credentials.is_some(),
        credentials_path,
        data_dir: data_dir_of(i),
    }
}

/// Plans the network: one launch configuration per node, in index order.
///
/// Nothing is planned for an empty network, nor where the genesis root lacks
/// what the mode needs.
pub fn plan(n: usize, mode: ConnectionMode, genesis: GenesisMaterial, ports: PortOffsets) -> (r:
    Result<Vec<NodeSpec>, ConfigurationError>)
    requires
        ports_fit(n, ports),
    ensures
        match r {
            Ok(specs) => {
                &&& plan_error(n, mode, genesis) is None
                &&& specs.len() == n
                &&& forall|i: int|
                    0 <= i < n ==> (#[trigger] specs[i])@ == planned_node(
                        n,
                        mode,
                        genesis,
                        ports,
                        i as usize,
                    )
                &&& forall|i: int, j: int|
                    0 <= i < j < n ==> (#[trigger] specs[i]).listen_port != (
                    #[trigger] specs[j]).listen_port && specs[i].rpc_port != specs[j].rpc_port
            },
            Err(e) => plan_error(n, mode, genesis) == Some(e),
        },
{
    if n == 0 {
        return Err(ConfigurationError::NoNodes);
    }
    let credentials_found = match mode {
        ConnectionMode::Sequential => genesis.credential_files >= 1,
        ConnectionMode::FullMesh => true,
    };
    if !genesis.has_genesis_data || !credentials_found {
        return Err(ConfigurationError::MissingGenesisMaterial);
    }
    let mut specs: Vec<NodeSpec> = Vec::new();
    let mut i: usize = 0;
    while i < n
        invariant
            i <= n,
            ports_fit(n, ports),
            specs.len() == i,
            forall|k: int|
                0 <= k < i ==> (#[trigger] specs[k])@ == planned_node(
                    n,
                    mode,
                    genesis,
                    ports,
                    k as usize,
                ),
        decreases n - i,
    {
        specs.push(node_spec_of(n, mode, genesis, ports, i));
        i += 1;
    }
    Ok(specs)
}


} // verus!
