use trade_fleet::allocation::AllocationPool;
use trade_fleet::rpc::{
    connection_step, dispatch_request, ConnectionEvent, ConnectionStep, FinancialServiceHandler,
    FinancialServiceImpl, RpcRequest, RpcResponse,
};

fn one_symbol_pool() -> AllocationPool {
    let mut pool = AllocationPool::new();
    pool.populate(vec!["AAPL".to_string()]);
    pool
}

#[test]
fn hello_answers_with_the_fixed_greeting() {
    let mut pool = one_symbol_pool();
    let response = dispatch_request(&mut pool, 1, &RpcRequest::Hello("x".to_string()));
    assert_eq!(response, RpcResponse::Hello("Hello".to_string()));
    // greeting leaves the pool untouched
    assert_eq!(pool.entry_at(0).owner, None);
}

#[test]
fn heartbeat_is_acknowledged_and_changes_nothing() {
    let mut pool = one_symbol_pool();
    let response = dispatch_request(&mut pool, 1, &RpcRequest::SendHeartbeat);
    assert_eq!(response, RpcResponse::HeartbeatAck);
    assert_eq!(pool.entry_at(0).owner, None);
}

#[test]
fn two_connections_against_one_entry_get_one_symbol_and_one_refusal() {
    let mut pool = one_symbol_pool();
    let first = dispatch_request(&mut pool, 7, &RpcRequest::RequestAllocation);
    let second = dispatch_request(&mut pool, 8, &RpcRequest::RequestAllocation);
    assert_eq!(first, RpcResponse::Allocation(Some("AAPL".to_string())));
    assert_eq!(second, RpcResponse::Allocation(None));
    assert_eq!(pool.entry_at(0).owner, Some(7));
}

#[test]
fn handler_serves_the_same_surface() {
    let mut handler = FinancialServiceImpl {
        pool: one_symbol_pool(),
        node_id: 5,
    };
    assert_eq!(handler.hello("x".to_string()), "Hello".to_string());
    handler.send_heartbeat();
    assert_eq!(handler.request_allocation(), Some("AAPL".to_string()));
    assert_eq!(handler.request_allocation(), None);
    assert_eq!(handler.pool.entry_at(0).owner, Some(5));
}

#[test]
fn connection_loop_decisions() {
    assert_eq!(
        connection_step(ConnectionEvent::Incoming),
        ConnectionStep::ServeRequest
    );
    assert_eq!(
        connection_step(ConnectionEvent::ApplicationClosed),
        ConnectionStep::FinishCleanly
    );
    assert_eq!(
        connection_step(ConnectionEvent::TransportFailed),
        ConnectionStep::FailConnection
    );
}
