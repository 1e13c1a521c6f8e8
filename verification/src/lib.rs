//! Control plane of a distributed trading fleet: a host process that
//! supervises long-running services, issues and rotates its own TLS
//! identity, and allocates tradable symbols to connecting worker nodes
//! over a custom request/response protocol.
//!
//! The library holds the verified logic: the packet codec and framing,
//! the symbol allocation coordinator, the service lifecycle and shutdown
//! escalation rules, and the certificate staleness decisions. The
//! surrounding process (sockets, files, the async runtime) lives outside
//! and hands this crate plain values.

pub mod allocation;
pub mod certificate;
pub mod codec;
pub mod host;
pub mod host_config;
pub mod lifecycle;
pub mod node;
pub mod node_config;
pub mod recovery;
pub mod rpc;
pub mod packets;
pub mod shutdown;
pub mod wire;
