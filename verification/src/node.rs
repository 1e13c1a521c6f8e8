//! The worker node: its configuration-bearing root object, its startup
//! conversation with the host, and the connection-cache discipline of
//! its client.

use vstd::prelude::*;
use std::sync::Arc;
use crate::node_config::NodeConfig;
use crate::rpc::RpcRequest;

verus! {

/// Lifecycle phase of one worker node.
#[derive(Debug, Clone, Copy, PartialEq, Eq, Structural)]
pub enum NodeState {
    Initialization,
    InitialTraining,
    ActiveTrading,
}

/// Role of one worker node within the fleet.
#[derive(Debug, Clone, Copy, PartialEq, Eq, Structural)]
pub enum NodeMode {
    MainNode,
    BackupNode,
}

/// One worker node.
pub struct Node {
    pub config: NodeConfig,
}

impl Node {
    /// A node over the given configuration, handed out shared.
    pub fn new(config: NodeConfig) -> (r: Arc<Self>)
        ensures
            r.config == config,
    {
        Arc::new(Node { config })
    }
}

/// Marker for the development-mode trust policy: the node accepts the
/// host's self-signed certificate without chain validation. The
/// process around the library installs this policy into its TLS
/// configuration.
#[derive(Debug, Clone, Copy, PartialEq, Eq, Structural)]
pub struct NoVerifier;

/// Number of heartbeats the node sends to prove the connection before
/// it asks for work.
pub const STARTUP_HEARTBEATS: usize = 100;

/// The node's startup conversation: a fixed number of heartbeats, then
/// exactly one allocation request.
pub fn session_requests() -> (r: Vec<RpcRequest>)
    ensures
        r@.len() == STARTUP_HEARTBEATS + 1,
        forall|j: int| 0 <= j < STARTUP_HEARTBEATS ==> r@[j] is SendHeartbeat,
        r@[STARTUP_HEARTBEATS as int] is RequestAllocation,
{
    let mut out: Vec<RpcRequest> = Vec::new();
    let mut i: usize = 0;
    while i < STARTUP_HEARTBEATS
        invariant
            i <= STARTUP_HEARTBEATS,
            out@.len() == i,
            forall|j: int| 0 <= j < i ==> out@[j] is SendHeartbeat,
        decreases STARTUP_HEARTBEATS - i,
    {
        out.push(RpcRequest::SendHeartbeat);
        i = i + 1;
    }
    out.push(RpcRequest::RequestAllocation);
    out
}

/// Connection-cache state of the node's client: one transport
/// connection is established lazily and cached only once an attempt
/// succeeds; every later connect call reuses the cache, a failed
/// attempt leaves nothing cached (the caller sees the error and may
/// connect again), and closing is explicit and happens once.
#[derive(Debug, Clone, Copy, PartialEq, Eq, Structural)]
pub struct ClientState {
    /// Whether a connection is cached.
    pub connected: bool,
    /// Whether the endpoint was closed gracefully.
    pub closed: bool,
}

impl ClientState {
    /// A fresh client: nothing cached, not closed.
    pub fn new() -> (r: ClientState)
        ensures
            !r.connected && !r.closed,
    {
        ClientState { connected: false, closed: false }
    }

    /// Whether a connect call must establish a new transport
    /// connection: only when none is cached; otherwise the cached one
    /// is reused.
    pub fn needs_connection(&self) -> (r: bool)
        ensures
            r == !self.connected,
    {
        !self.connected
    }

    /// Record that an establish attempt succeeded and its connection
    /// was cached. A failed attempt records nothing: the state is
    /// untouched, so the next connect call tries again.
    pub fn on_established(&mut self)
        ensures
            final(self).connected,
            final(self).closed == old(self).closed,
    {
        self.connected = true;
    }

    /// The explicit graceful close of the endpoint.
    pub fn on_close(&mut self)
        ensures
            final(self).closed,
            final(self).connected == old(self).connected,
    {
        self.closed = true;
    }

    /// Whether the drop path must still hard-close the endpoint: only
    /// when no graceful close has happened.
    pub fn needs_hard_close(&self) -> (r: bool)
        ensures
            r == !self.closed,
    {
        !self.closed
    }
}

} // verus!
