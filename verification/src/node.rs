use vstd::prelude::*;

use crate::hex_codec::{hex_encode, hex_encoding};

verus! {

/// Calls `rand::random_range(low..high)`; claims only that the number drawn
/// lies in `low..high` (which one is chance). An empty range would panic.
#[verifier::external_body]
fn random_in_range(low: u64, high: u64) -> (res: u64)
    requires
        low < high,
    ensures
        low <= res < high,
{
    rand::random_range(low..high)
}

/// The least delay, in milliseconds, before a joining node starts P2P.
pub open spec fn min_join_delay_ms() -> u64 {
    500
}

/// The bound (exclusive), in milliseconds, of that delay.
pub open spec fn max_join_delay_ms() -> u64 {
    2000
}

/// How a node starts its P2P layer.
#[derive(Clone, Copy, Debug, PartialEq, Eq, Structural)]
pub struct StartupPlan {
    /// Whether the node acts as a bootstrap node (it dials no one first).
    pub is_bootstrap_node: bool,
    /// How long to wait before starting P2P, if at all.
    pub delay_ms: Option<u64>,
}

/// How a node with the configured bootstrap peers `bootstrap_nodes` starts:
/// with none it is itself a bootstrap node and starts at once; otherwise it
/// waits a random 500 to 1999 ms so that joining nodes do not dial at once.
pub fn plan_startup(bootstrap_nodes: &Vec<String>) -> (res: StartupPlan)
    ensures
        res.is_bootstrap_node == (bootstrap_nodes@.len() == 0),
        res.delay_ms is Some <==> bootstrap_nodes@.len() != 0,
        res.delay_ms matches Some(d) ==> min_join_delay_ms() <= d < max_join_delay_ms(),
{
    if bootstrap_nodes.len() == 0 {
        StartupPlan { is_bootstrap_node: true, delay_ms: None }
    } else {
        let d = random_in_range(500, 2000);
        StartupPlan { is_bootstrap_node: false, delay_ms: Some(d) }
    }
}

/// How the P2P task of a running node ended.
#[derive(Clone, Copy, Debug, PartialEq, Eq, Structural)]
pub enum P2pExit {
    /// It returned without error.
    Clean,
    /// It returned an error.
    Failed,
    /// It panicked.
    Panicked,
}

/// What ends the main wait of a running node.
#[derive(Clone, Copy, Debug, PartialEq, Eq, Structural)]
pub enum NodeEvent {
    /// The P2P task ended.
    P2pStopped(P2pExit),
    /// The operator asked the node to stop (Ctrl+C).
    Interrupted,
}

/// How a node winds down after the event that ended its main wait.
#[derive(Clone, Copy, Debug, PartialEq, Eq, Structural)]
pub struct Shutdown {
    /// Whether to ask the consensus engine to stop.
    pub stop_engine: bool,
    /// Whether the cause is reported as an error.
    pub is_error: bool,
    /// How long to let tasks clean up before exiting, in milliseconds.
    pub grace_ms: u64,
}

/// How a node winds down: an interrupt stops the consensus engine; a P2P
/// task that failed or panicked is reported as an error; either way the node
/// gives its tasks 500 ms before it exits.
pub fn on_node_event(event: NodeEvent) -> (res: Shutdown)
    ensures
        res.stop_engine == (event == NodeEvent::Interrupted),
        res.is_error == (event == NodeEvent::P2pStopped(P2pExit::Failed) || event
            == NodeEvent::P2pStopped(P2pExit::Panicked)),
        res.grace_ms == 500,
{
    match event {
        NodeEvent::Interrupted => Shutdown { stop_engine: true, is_error: false, grace_ms: 500 },
        NodeEvent::P2pStopped(P2pExit::Clean) => Shutdown {
            stop_engine: false,
            is_error: false,
            grace_ms: 500,
        },
        NodeEvent::P2pStopped(_) => Shutdown { stop_engine: false, is_error: true, grace_ms: 500 },
    }
}

/// The short form of a batch hash shown when a batch is confirmed: the hex
/// of its first 8 bytes.
pub fn batch_hash_prefix(hash: &[u8]) -> (res: String)
    requires
        hash@.len() >= 8,
    ensures
        res@ == hex_encoding(hash@.subrange(0, 8)),
{
    hex_encode(vstd::slice::slice_subrange(hash, 0, 8))
}

} // verus!
