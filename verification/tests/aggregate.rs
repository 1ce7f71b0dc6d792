use chain_ping::{
    aggregate_attempts, client_failure_summary, validate_endpoints, AttemptOutcome, PingError,
    PingStatus,
};

fn success(latency_ms: u64, value: &str) -> AttemptOutcome {
    AttemptOutcome::Success { latency_ms, value: value.to_string() }
}

#[test]
fn test_partial_success_scenario() {
    // Three extracted values and one connection failure out of four attempts.
    let outcomes = vec![
        success(100, "0x1"),
        success(200, "0x1"),
        success(300, "0x1"),
        AttemptOutcome::Failure(PingError::TransportConnection),
    ];
    let r = aggregate_attempts("https://node.example", 4, &outcomes);
    assert_eq!(r.endpoint, "https://node.example");
    assert_eq!(r.ping_count, 4);
    assert_eq!(r.success_count, 3);
    assert_eq!(r.status, PingStatus::PartialSuccess);
    assert_eq!(r.block_number.as_deref(), Some("0x1"));
    assert_eq!(r.error_message.as_deref(), Some("Connection failed"));
    assert_eq!(r.avg_latency_ms, Some(200));
    assert_eq!(r.min_latency_ms, Some(100));
    assert_eq!(r.max_latency_ms, Some(300));
}

#[test]
fn test_all_timeouts_scenario() {
    // Every attempt exceeded its deadline.
    let outcomes = vec![
        AttemptOutcome::Failure(PingError::TransportTimeout),
        AttemptOutcome::Failure(PingError::TransportTimeout),
        AttemptOutcome::Failure(PingError::TransportTimeout),
        AttemptOutcome::Failure(PingError::TransportTimeout),
    ];
    let r = aggregate_attempts("https://node.example", 4, &outcomes);
    assert_eq!(r.ping_count, 4);
    assert_eq!(r.success_count, 0);
    assert_eq!(r.status, PingStatus::Failure);
    assert_eq!(r.avg_latency_ms, None);
    assert_eq!(r.min_latency_ms, None);
    assert_eq!(r.max_latency_ms, None);
    assert_eq!(r.block_number, None);
    assert_eq!(r.error_message.as_deref(), Some("Request timed out"));
}

#[test]
fn test_all_succeeded() {
    let outcomes = vec![success(10, "0x10"), success(30, "0x11")];
    let r = aggregate_attempts("https://node.example", 2, &outcomes);
    assert_eq!(r.success_count, 2);
    assert_eq!(r.status, PingStatus::Success);
    assert_eq!(r.block_number.as_deref(), Some("0x11"));
    assert_eq!(r.error_message, None);
    assert_eq!(r.avg_latency_ms, Some(20));
}

#[test]
fn test_zero_attempts() {
    let outcomes = vec![];
    let r = aggregate_attempts("https://node.example", 0, &outcomes);
    assert_eq!(r.ping_count, 0);
    assert_eq!(r.success_count, 0);
    assert_eq!(r.status, PingStatus::Failure);
    assert_eq!(r.avg_latency_ms, None);
    assert_eq!(r.min_latency_ms, None);
    assert_eq!(r.max_latency_ms, None);
    assert_eq!(r.block_number, None);
    assert_eq!(r.error_message, None);
}

#[test]
fn test_value_survives_later_failure() {
    let outcomes = vec![
        success(10, "0x5"),
        AttemptOutcome::Failure(PingError::ProtocolHttpStatus(503)),
    ];
    let r = aggregate_attempts("https://node.example", 2, &outcomes);
    assert_eq!(r.status, PingStatus::PartialSuccess);
    assert_eq!(r.block_number.as_deref(), Some("0x5"));
    assert_eq!(r.error_message.as_deref(), Some("HTTP Error: 503"));
}

#[test]
fn test_last_failure_wins() {
    let outcomes = vec![
        AttemptOutcome::Failure(PingError::TransportTimeout),
        AttemptOutcome::Failure(PingError::ProtocolRpcError("boom".to_string())),
    ];
    let r = aggregate_attempts("https://node.example", 2, &outcomes);
    assert_eq!(r.error_message.as_deref(), Some("JSON-RPC error: boom"));
}

#[test]
fn test_last_value_wins() {
    let outcomes = vec![success(10, "0xa"), success(20, "0xb")];
    let r = aggregate_attempts("https://node.example", 2, &outcomes);
    assert_eq!(r.block_number.as_deref(), Some("0xb"));
}

#[test]
fn test_validate_endpoints() {
    let empty: Vec<String> = vec![];
    let r = validate_endpoints(&empty);
    assert_eq!(r, Err("At least one endpoint URL is required".to_string()));
    let one = vec!["https://node.example".to_string()];
    assert_eq!(validate_endpoints(&one), Ok(()));
}

#[test]
fn test_client_failure_summary() {
    let r = client_failure_summary(
        "https://node.example",
        4,
        "Failed to build HTTP client: bad configuration".to_string(),
    );
    assert_eq!(r.endpoint, "https://node.example");
    assert_eq!(r.ping_count, 4);
    assert_eq!(r.success_count, 0);
    assert_eq!(r.status, PingStatus::Failure);
    assert_eq!(r.avg_latency_ms, None);
    assert_eq!(r.min_latency_ms, None);
    assert_eq!(r.max_latency_ms, None);
    assert_eq!(r.block_number, None);
    assert_eq!(
        r.error_message.as_deref(),
        Some("Failed to build HTTP client: bad configuration")
    );
}
