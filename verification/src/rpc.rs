//! The RPC dispatch layer: the three typed operations the host serves
//! over the secure transport — greeting, heartbeat, and symbol
//! allocation — and the per-request dispatcher that maps each request
//! on a connection to its response.
//!
//! The transport hands the dispatcher one request per logical stream
//! together with the connection's stable identifier; the allocation
//! pool behind its lock is the only state a request may touch.

use vstd::prelude::*;
use vstd::string::StringExecFns;
use crate::allocation::{AllocationPool, spec_allocate};

verus! {

/// One request arriving on a logical stream.
#[derive(Debug, Clone, PartialEq, Eq)]
pub enum RpcRequest {
    /// Greet the host by name.
    Hello(String),
    /// Liveness signal; carries nothing and changes nothing.
    SendHeartbeat,
    /// Ask for a symbol from the allocation pool.
    RequestAllocation,
}

/// The response to one request.
#[derive(Debug, Clone, PartialEq, Eq)]
pub enum RpcResponse {
    /// The greeting's answer.
    Hello(String),
    /// The heartbeat's bare acknowledgement.
    HeartbeatAck,
    /// The allocated symbol, or nothing when the pool is exhausted.
    Allocation(Option<String>),
}

/// Per-connection handler surface of the financial service; the host
/// implements it against the shared allocation pool, and a deployment
/// may substitute its own.
pub trait FinancialServiceHandler {
    /// Answer a greeting.
    fn hello(&mut self, name: String) -> String;

    /// Accept a liveness signal.
    fn send_heartbeat(&mut self);

    /// Bind a symbol to this handler's connection, if one is free.
    fn request_allocation(&mut self) -> Option<String>;
}

/// The host's handler for one connection: greets with a fixed word,
/// accepts heartbeats, and binds symbols from its pool to the
/// connection's stable identifier.
pub struct FinancialServiceImpl {
    pub pool: AllocationPool,
    /// The connection's stable identifier, set at accept time.
    pub node_id: usize,
}

impl FinancialServiceHandler for FinancialServiceImpl {
    /// The greeting is the fixed word, whatever the name; the handler
    /// is untouched.
    fn hello(&mut self, _name: String) -> (r: String)
        ensures
            r@ == "Hello"@,
            *final(self) == *old(self),
    {
        String::from_str("Hello")
    }

    /// A heartbeat changes nothing.
    fn send_heartbeat(&mut self)
        ensures
            *final(self) == *old(self),
    {
    }

    /// First-fit allocation from this handler's pool, bound to its
    /// connection's stable identifier.
    fn request_allocation(&mut self) -> (r: Option<String>)
        ensures
            final(self).node_id == old(self).node_id,
            final(self).pool@ == spec_allocate(old(self).pool@, old(self).node_id as int).0,
            match r {
                Some(s) => spec_allocate(old(self).pool@, old(self).node_id as int).1 == Some(s@),
                None => spec_allocate(old(self).pool@, old(self).node_id as int).1 is None,
            },
    {
        self.pool.allocate(self.node_id)
    }
}

/// Serve one request on a connection: a greeting is answered with the
/// fixed word and a heartbeat with a bare acknowledgement, both leaving
/// the pool untouched; an allocation request binds the first free
/// symbol to the requesting connection, or reports exhaustion with the
/// pool unchanged.
pub fn dispatch_request(pool: &mut AllocationPool, node_id: usize, request: &RpcRequest) -> (r:
    RpcResponse)
    ensures
        request is Hello ==> final(pool)@ == old(pool)@ && (r matches RpcResponse::Hello(greeting)
            && greeting@ == "Hello"@),
        request is SendHeartbeat ==> final(pool)@ == old(pool)@ && r is HeartbeatAck,
        request is RequestAllocation ==> final(pool)@ == spec_allocate(
            old(pool)@,
            node_id as int,
        ).0 && (r matches RpcResponse::Allocation(sym) && (match sym {
            Some(s) => spec_allocate(old(pool)@, node_id as int).1 == Some(s@),
            None => spec_allocate(old(pool)@, node_id as int).1 is None,
        })),
{
    match request {
        RpcRequest::Hello(_) => RpcResponse::Hello(String::from_str("Hello")),
        RpcRequest::SendHeartbeat => RpcResponse::HeartbeatAck,
        RpcRequest::RequestAllocation => RpcResponse::Allocation(pool.allocate(node_id)),
    }
}

/// What the per-connection loop observed while waiting for the next
/// logical stream of its connection.
#[derive(Debug, Clone, Copy, PartialEq, Eq, Structural)]
pub enum ConnectionEvent {
    /// A new bidirectional stream arrived: one request to serve.
    Incoming,
    /// The peer closed the connection deliberately.
    ApplicationClosed,
    /// The transport failed underneath the connection.
    TransportFailed,
}

/// What the per-connection loop does next.
#[derive(Debug, Clone, Copy, PartialEq, Eq, Structural)]
pub enum ConnectionStep {
    /// Frame the stream and serve its single request/response exchange.
    ServeRequest,
    /// End this connection cleanly; the listener keeps accepting.
    FinishCleanly,
    /// Report this connection as failed; the listener still keeps
    /// accepting others.
    FailConnection,
}

/// One step of the per-connection loop: each incoming stream is served
/// as one request, a deliberate close ends the connection cleanly, and
/// a transport failure fails only this connection — never the
/// listener.
pub fn connection_step(event: ConnectionEvent) -> (r: ConnectionStep)
    ensures
        event is Incoming ==> r is ServeRequest,
        event is ApplicationClosed ==> r is FinishCleanly,
        event is TransportFailed ==> r is FailConnection,
{
    match event {
        ConnectionEvent::Incoming => ConnectionStep::ServeRequest,
        ConnectionEvent::ApplicationClosed => ConnectionStep::FinishCleanly,
        ConnectionEvent::TransportFailed => ConnectionStep::FailConnection,
    }
}

} // verus!
