//! Node-side configuration, as derived from the environment by the
//! surrounding process and handed to the library as plain values.

use vstd::prelude::*;
use vstd::string::StringExecFns;

verus! {

/// How telemetry spans are exported.
#[derive(Debug, Clone, Copy, PartialEq, Eq, Structural)]
pub enum TracingMode {
    Simple,
    Batch,
}

/// Which deployment environment the node runs in.
#[derive(Debug, Clone, Copy, PartialEq, Eq, Structural)]
pub enum NodeEnvironment {
    Development,
    Staging,
    Production,
}

/// Configuration of one worker node.
#[derive(Debug, Clone)]
pub struct NodeConfig {
    pub environment: NodeEnvironment,
    /// Address of the host the node connects to.
    pub host_address: String,
    pub host_port: u16,
    /// Local address the node's transport endpoint binds to.
    pub local_address: String,
    pub local_port: u16,
    pub tracing_mode: Option<TracingMode>,
    pub jaeger_agent_endpoint: Option<String>,
    pub jaeger_collector_endpoint: Option<String>,
}

impl Default for NodeConfig {
    /// The development defaults: the host on the loopback interface at
    /// port 4001, the local endpoint on every interface at port 4002.
    fn default() -> (r: Self)
        ensures
            r.environment == NodeEnvironment::Development,
            r.host_address@ == "127.0.0.1"@,
            r.host_port == 4001,
            r.local_address@ == "0.0.0.0"@,
            r.local_port == 4002,
            r.tracing_mode is None,
            r.jaeger_agent_endpoint is None,
            r.jaeger_collector_endpoint is None,
    {
        NodeConfig {
            environment: NodeEnvironment::Development,
            host_address: String::from_str("127.0.0.1"),
            host_port: 4001,
            local_address: String::from_str("0.0.0.0"),
            local_port: 4002,
            tracing_mode: None,
            jaeger_agent_endpoint: None,
            jaeger_collector_endpoint: None,
        }
    }
}

} // verus!
