//! How a planned node is started: its directory, its log file, and the
//! command line and environment of its process.

use vstd::prelude::*;
use vstd::string::StringExecFns;
use crate::text::{append_decimal, append_hex16, decimal, hex_padded};
use crate::topology::{NodeSpec, NodeSpecView, PeerLink};

verus! {

/// What all nodes of one run share.
#[derive(Debug)]
pub struct RuntimeConfig {
    /// The manifest of the node, handed to the build tool that runs it.
    pub node_manifest: String,
    /// Flags for the node's runtime system.
    pub rts_flags: String,
    /// Seconds between two clean-ups of the node's connections.
    pub housekeeping_interval: usize,
    /// Whether data directories of an earlier run are kept.
    pub keep_state: bool,
    /// Whether each node's output is mirrored to a log file.
    pub emit_logs: bool,
}

/// The shared settings as a mathematical value.
pub ghost struct RuntimeConfigView {
    pub node_manifest: Seq<char>,
    pub rts_flags: Seq<char>,
    pub housekeeping_interval: usize,
    pub keep_state: bool,
    pub emit_logs: bool,
}

impl View for RuntimeConfig {
    type V = RuntimeConfigView;

    open spec fn view(&self) -> RuntimeConfigView {
        RuntimeConfigView {
            node_manifest: self.node_manifest@,
            rts_flags: self.rts_flags@,
            housekeeping_interval: self.housekeeping_interval,
            keep_state: self.keep_state,
            emit_logs: self.emit_logs,
        }
    }
}

/// One variable of a process environment.
#[derive(Debug)]
pub struct EnvVar {
    pub name: String,
    pub value: String,
}

impl DeepView for EnvVar {
    type V = (Seq<char>, Seq<char>);

    open spec fn deep_view(&self) -> (Seq<char>, Seq<char>) {
        (self.name@, self.value@)
    }
}

/// The process to start for one node.
#[derive(Debug)]
pub struct LaunchCommand {
    pub program: String,
    pub args: Vec<String>,
    pub env: Vec<EnvVar>,
}

/// A command as a mathematical value.
pub ghost struct LaunchCommandView {
    pub program: Seq<char>,
    pub args: Seq<Seq<char>>,
    pub env: Seq<(Seq<char>, Seq<char>)>,
}

impl View for LaunchCommand {
    type V = LaunchCommandView;

    open spec fn view(&self) -> LaunchCommandView {
        LaunchCommandView {
            program: self.program@,
            args: self.args.deep_view(),
            env: self.env.deep_view(),
        }
    }
}

/// Everything that starting one node takes, in the order it is done: clear
/// and create the directory, copy the genesis data, open the log, run the command.
#[derive(Debug)]
pub struct LaunchPlan {
    /// Whether what an earlier run left in the data directory is removed first.
    pub clear_data_dir: bool,
    pub data_dir: String,
    /// Where the copy of the genesis data goes.
    pub genesis_target: String,
    /// The file that mirrors the node's output, if any.
    pub log_file: Option<String>,
    pub command: LaunchCommand,
}

/// A launch plan as a mathematical value.
pub ghost struct LaunchPlanView {
    pub clear_data_dir: bool,
    pub data_dir: Seq<char>,
    pub genesis_target: Seq<char>,
    pub log_file: Option<Seq<char>>,
    pub command: LaunchCommandView,
}

impl View for LaunchPlan {
    type V = LaunchPlanView;

    open spec fn view(&self) -> LaunchPlanView {
        LaunchPlanView {
            clear_data_dir: self.clear_data_dir,
            data_dir: self.data_dir@,
            genesis_target: self.genesis_target@,
            log_file: match self.log_file {
                Some(f) => Some(f@),
                None => None,
            },
            command: self.command@,
        }
    }
}

/// The address of a peer that listens on `port` of this machine.
pub open spec fn peer_address(port: usize) -> Seq<char> {
    "127.0.0.1:"@ + decimal(port as nat)
}

/// The name of the log file of node `i`.
pub open spec fn log_file_name(i: usize) -> Seq<char> {
    "peer-"@ + decimal(i as nat) + ".log"@
}

/// The tail of the argument list: one `--connect-to` and one address per peer.
pub open spec fn connect_args(peers: Seq<PeerLink>) -> Seq<Seq<char>> {
    Seq::new(
        2 * peers.len(),
        |k: int|
            if k % 2 == 0 {
                "--connect-to"@
            } else {
                peer_address(peers[k / 2].port)
            },
    )
}

/// The head of the argument list, the same for every node.
pub open spec fn fixed_args(runtime: RuntimeConfigView) -> Seq<Seq<char>> {
    seq!["run"@, "--manifest-path"@, runtime.node_manifest, "--release"@, "--quiet"@, "--"@]
}

/// The environment that every node gets, baker or not.
pub open spec fn common_env(node: NodeSpecView, runtime: RuntimeConfigView) -> Seq<
    (Seq<char>, Seq<char>),
> {
    seq![
        ("RUST_BACKTRACE"@, "full"@),
        ("CONCORDIUM_NODE_RUNTIME_HASKELL_RTS_FLAGS"@, runtime.rts_flags),
        ("CONCORDIUM_NODE_CONNECTION_NO_BOOTSTRAP_DNS"@, "1"@),
        ("CONCORDIUM_NODE_ID"@, hex_padded(node.index as nat, 16)),
        ("CONCORDIUM_NODE_CONFIG_DIR"@, node.data_dir),
        ("CONCORDIUM_NODE_DATA_DIR"@, node.data_dir),
        ("CONCORDIUM_NODE_RPC_SERVER_PORT"@, decimal(node.rpc_port as nat)),
        ("CONCORDIUM_NODE_LISTEN_PORT"@, decimal(node.listen_port as nat)),
        ("CONCORDIUM_NODE_LISTEN_ADDRESS"@, "0.0.0.0"@),
        (
            "CONCORDIUM_NODE_CONNECTION_HOUSEKEEPING_INTERVAL"@,
            decimal(runtime.housekeeping_interval as nat),
        ),
        (
            "CONCORDIUM_NODE_MAX_NORMAL_KEEP_ALIVE"@,
            decimal((runtime.housekeeping_interval * 3) as nat),
        ),
        ("CONCORDIUM_NODE_CONNECTION_DESIRED_NODES"@, decimal(node.desired_peers as nat)),
        ("CONCORDIUM_NODE_CONNECTION_MAX_ALLOWED_NODES"@, decimal(node.desired_peers as nat)),
    ]
}

/// The environment of a node: the common part, and for a baker its credentials.
pub open spec fn planned_env(node: NodeSpecView, runtime: RuntimeConfigView) -> Seq<
    (Seq<char>, Seq<char>),
> {
    match node.credentials_path {
        Some(path) => common_env(node, runtime).push(
            ("CONCORDIUM_NODE_BAKER_CREDENTIALS_FILE"@, path),
        ),
        None => common_env(node, runtime),
    }
}

/// The command that runs a node.
pub open spec fn planned_command(node: NodeSpecView, runtime: RuntimeConfigView)
    -> LaunchCommandView {
    LaunchCommandView {
        program: "cargo"@,
        args: fixed_args(runtime) + connect_args(node.peers),
        env: planned_env(node, runtime),
    }
}

/// Everything that starting a node takes.
pub open spec fn planned_launch(node: NodeSpecView, runtime: RuntimeConfigView) -> LaunchPlanView {
    LaunchPlanView {
        clear_data_dir: !runtime.keep_state,
        data_dir: node.data_dir,
        genesis_target: node.data_dir + "/genesis.dat"@,
        log_file: if runtime.emit_logs {
            Some(log_file_name(node.index))
        } else {
            None
        },
        command: planned_command(node, runtime),
    }
}

/// One variable of the environment.
pub fn env_var(name: &str, value: String) -> (r: EnvVar)
    ensures
        r.deep_view() == (name@, value@),
{
    EnvVar { name: String::from_str(name), value }
}

/// The decimal numeral of `n`, as a string.
pub fn decimal_string(n: usize) -> (r: String)
    ensures
        r@ == decimal(n as nat),
{
    let mut r = String::new();
    append_decimal(&mut r, n);
    assert(Seq::<char>::empty() + decimal(n as nat) == decimal(n as nat));
    r
}

/// The address of a peer that listens on `port` of this machine, as a string.
pub fn peer_address_of(port: usize) -> (r: String)
    ensures
        r@ == peer_address(port),
{
    let mut r = String::from_str("127.0.0.1:");
    append_decimal(&mut r, port);
    r
}

/// The name of the log file of node `i`, as a string.
pub fn log_file_of(i: usize) -> (r: String)
    ensures
        r@ == log_file_name(i),
{
    let mut r = String::from_str("peer-");
    append_decimal(&mut r, i);
    r.append(".log");
    r
}

/// The argument list of a node's command.
pub fn launch_args(node: &NodeSpec, runtime: &RuntimeConfig) -> (r: Vec<String>)
    ensures
        r.deep_view() == fixed_args(runtime@) + connect_args(node@.peers),
{
    let mut r: Vec<String> = Vec::new();
    r.push(String::from_str("run"));
    r.push(String::from_str("--manifest-path"));
    r.push(runtime.node_manifest.clone());
    r.push(String::from_str("--release"));
    r.push(String::from_str("--quiet"));
    r.push(String::from_str("--"));
    assert(r.deep_view() =~= fixed_args(runtime@));
    let mut j: usize = 0;
    while j < node.peers.len()
        invariant
            j <= node.peers.len(),
            r.len() == 6 + 2 * j,
            forall|k: int| 0 <= k < 6 ==> (#[trigger] r[k])@ == fixed_args(runtime@)[k],
            forall|k: int|
                0 <= k < 2 * j ==> (#[trigger] r[6 + k])@ == connect_args(node@.peers)[k],
        decreases node.peers.len() - j,
    {
        r.push(String::from_str("--connect-to"));
        r.push(peer_address_of(node.peers[j].port));
        j += 1;
    }
    assert(r.deep_view() =~= fixed_args(runtime@) + connect_args(node@.peers)) by {
        let want = fixed_args(runtime@) + connect_args(node@.peers);
        assert(r.deep_view().len() == want.len());
        assert forall|k: int| 0 <= k < want.len() implies r.deep_view()[k] == want[k] by {
            if k >= 6 {
                assert(r[6 + (k - 6)]@ == connect_args(node@.peers)[k - 6]);
            } else {
                assert(r[k]@ == fixed_args(runtime@)[k]);
            }
        }
    }
    r
}

/// The environment of a node's process.
pub fn launch_env(node: &NodeSpec, runtime: &RuntimeConfig) -> (r: Vec<EnvVar>)
    requires
        runtime.housekeeping_interval * 3 <= usize::MAX,
    ensures
        r.deep_view() == planned_env(node@, runtime@),
{
    let mut id = String::new();
    append_hex16(&mut id, node.index as u64);
    assert(id@ == hex_padded(node.index as nat, 16)) by {
        assert(Seq::<char>::empty() + hex_padded(node.index as nat, 16) == hex_padded(
            node.index as nat,
            16,
        ));
    }
    let mut r: Vec<EnvVar> = Vec::new();
    r.push(env_var("RUST_BACKTRACE", String::from_str("full")));
    r.push(env_var("CONCORDIUM_NODE_RUNTIME_HASKELL_RTS_FLAGS", runtime.rts_flags.clone()));
    r.push(env_var("CONCORDIUM_NODE_CONNECTION_NO_BOOTSTRAP_DNS", String::from_str("1")));
    r.push(env_var("CONCORDIUM_NODE_ID", id));
    r.push(env_var("CONCORDIUM_NODE_CONFIG_DIR", node.data_dir.clone()));
    r.push(env_var("CONCORDIUM_NODE_DATA_DIR", node.data_dir.clone()));
    r.push(env_var("CONCORDIUM_NODE_RPC_SERVER_PORT", decimal_string(node.rpc_port)));
    r.push(env_var("CONCORDIUM_NODE_LISTEN_PORT", decimal_string(node.listen_port)));
    r.push(env_var("CONCORDIUM_NODE_LISTEN_ADDRESS", String::from_str("0.0.0.0")));
    r.push(
        env_var(
            "CONCORDIUM_NODE_CONNECTION_HOUSEKEEPING_INTERVAL",
            decimal_string(runtime.housekeeping_interval),
        ),
    );
    r.push(
        env_var(
            "CONCORDIUM_NODE_MAX_NORMAL_KEEP_ALIVE",
            decimal_string(runtime.housekeeping_interval * 3),
        ),
    );
    r.push(
        env_var("CONCORDIUM_NODE_CONNECTION_DESIRED_NODES", decimal_string(node.desired_peers)),
    );
    r.push(
        env_var(
            "CONCORDIUM_NODE_CONNECTION_MAX_ALLOWED_NODES",
            decimal_string(node.desired_peers),
        ),
    );
    assert(r.deep_view() =~= common_env(node@, runtime@));
    match &node.credentials_path {
        Some(path) => {
            r.push(env_var("CONCORDIUM_NODE_BAKER_CREDENTIALS_FILE", path.clone()));
            assert(r.deep_view() =~= planned_env(node@, runtime@));
        },
        None => {},
    }
    r
}

/// The command that runs a node.
pub fn launch_command(node: &NodeSpec, runtime: &RuntimeConfig) -> (r: LaunchCommand)
    requires
        runtime.housekeeping_interval * 3 <= usize::MAX,
    ensures
        r@ == planned_command(node@, runtime@),
{
    LaunchCommand {
        program: String::from_str("cargo"),
        args: launch_args(node, runtime),
        env: launch_env(node, runtime),
    }
}

/// Everything that starting a node takes.
pub fn launch_plan(node: &NodeSpec, runtime: &RuntimeConfig) -> (r: LaunchPlan)
    requires
        runtime.housekeeping_interval * 3 <= usize::MAX,
    ensures
        r@ == planned_launch(node@, runtime@),
{
    let mut genesis_target = node.data_dir.clone();
    genesis_target.append("/genesis.dat");
    let log_file = if runtime.emit_logs {
        Some(log_file_of(node.index))
    } else {
        None
    };
    LaunchPlan {
        clear_data_dir: !runtime.keep_state,
        data_dir: node.data_dir.clone(),
        genesis_target,
        log_file,
        command: launch_command(node, runtime),
    }
}


} // verus!
