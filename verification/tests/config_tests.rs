use trade_fleet::host::Host;
use trade_fleet::host_config::{HostConfig, HostEnvironment};
use trade_fleet::node::{session_requests, ClientState, Node, STARTUP_HEARTBEATS};
use trade_fleet::node_config::{NodeConfig, NodeEnvironment};
use trade_fleet::rpc::RpcRequest;

#[test]
fn host_config_defaults() {
    let config = HostConfig::default();
    assert_eq!(config.environment, HostEnvironment::Development);
    assert_eq!(config.cert_path, "./data/certs");
    assert_eq!(config.misc_path, "./data/misc");
    assert_eq!(config.cert_names, vec!["localhost".to_string(), "host".to_string()]);
    assert_eq!(config.host, "0.0.0.0");
    assert_eq!(config.port, 4001);
    assert!(config.binance_api_key.is_none());
    assert!(config.binance_secret_key.is_none());
    assert!(config.tracing_mode.is_none());
    assert!(config.jaeger_agent_endpoint.is_none());
    assert!(config.jaeger_collector_endpoint.is_none());
    assert!(config.influx_url.is_none());
    assert!(config.influx_username.is_none());
    assert!(config.influx_password.is_none());
}

#[test]
fn node_config_defaults() {
    let config = NodeConfig::default();
    assert_eq!(config.environment, NodeEnvironment::Development);
    assert_eq!(config.host_address, "127.0.0.1");
    assert_eq!(config.host_port, 4001);
    assert_eq!(config.local_address, "0.0.0.0");
    assert_eq!(config.local_port, 4002);
    assert!(config.tracing_mode.is_none());
}

#[test]
fn host_keeps_its_configuration() {
    let mut config = HostConfig::default();
    config.port = 5555;
    let host = Host::new(config);
    assert_eq!(host.config.port, 5555);
    assert_eq!(host.config.host, "0.0.0.0");
}

#[test]
fn node_keeps_its_configuration() {
    let mut config = NodeConfig::default();
    config.host_port = 6666;
    let node = Node::new(config);
    assert_eq!(node.config.host_port, 6666);
}

#[test]
fn startup_conversation_shape() {
    let requests = session_requests();
    assert_eq!(requests.len(), STARTUP_HEARTBEATS + 1);
    for request in requests.iter().take(STARTUP_HEARTBEATS) {
        assert_eq!(*request, RpcRequest::SendHeartbeat);
    }
    assert_eq!(requests[STARTUP_HEARTBEATS], RpcRequest::RequestAllocation);
}

#[test]
fn client_connection_cache_discipline() {
    let mut client = ClientState::new();
    assert!(!client.connected);
    assert!(client.needs_hard_close());

    // nothing cached yet, so a connect call must establish; a failed
    // attempt records nothing and the next call tries again
    assert!(client.needs_connection());
    assert!(client.needs_connection());

    // only a successful attempt is cached; later calls reuse it
    client.on_established();
    assert!(!client.needs_connection());
    assert!(client.connected);

    // the explicit close makes the hard close on drop unnecessary
    client.on_close();
    assert!(!client.needs_hard_close());
    assert!(client.connected);
}
