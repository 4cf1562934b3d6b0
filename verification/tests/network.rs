use envio_hyperindex_blueprint::network::{
    networks_with_traces, supported_network_ids, validate_network,
};

#[test]
fn test_network_validation() {
    // Test valid network
    assert!(validate_network(1).is_ok());

    // Test invalid network
    assert!(validate_network(999999).is_err());
}

#[test]
fn test_networks_with_traces() {
    let trace_networks = networks_with_traces();
    assert!(trace_networks.iter().any(|n| n.network_id == 1)); // Ethereum should support traces
}

#[test]
fn validate_network_returns_the_row() {
    let info = validate_network(10).unwrap();
    assert_eq!(info.name, "Optimism");
    assert_eq!(info.network_id, 10);
    assert_eq!(info.rpc_url, "https://optimism.hypersync.xyz");
    assert!(!info.supports_traces);
    let eth = validate_network(1).unwrap();
    assert_eq!(eth.name, "Ethereum Mainnet");
    assert_eq!(eth.rpc_url, "https://eth.hypersync.xyz");
    assert!(eth.supports_traces);
}

#[test]
fn validate_network_reports_the_unsupported_id() {
    assert_eq!(
        validate_network(999999).unwrap_err(),
        "Unsupported network ID: 999999"
    );
    assert_eq!(validate_network(0).unwrap_err(), "Unsupported network ID: 0");
    assert_eq!(
        validate_network(u64::MAX).unwrap_err(),
        "Unsupported network ID: 18446744073709551615"
    );
}

#[test]
fn supported_ids_follow_the_table() {
    let ids = supported_network_ids();
    assert_eq!(ids.len(), 68);
    assert_eq!(ids[0], 42161);
    assert_eq!(ids[21], 1);
    assert_eq!(ids[67], 7777777);
    for id in ids {
        assert!(validate_network(id).is_ok());
    }
}

#[test]
fn trace_networks_are_exactly_three() {
    let ids: Vec<u64> = networks_with_traces().iter().map(|n| n.network_id).collect();
    assert_eq!(ids, vec![1, 100, 204]);
}
