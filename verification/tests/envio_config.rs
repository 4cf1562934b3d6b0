use envio_hyperindex_blueprint::envio_utils::config::{
    folded_names, number_by_folded_name, ContractConfig, ContractDeployment, ContractSource,
    IndexerConfig,
};
use envio_hyperindex_blueprint::test_utils::{
    create_test_contract, create_test_explorer_contract, generate_multi_address_contract,
    generate_multi_chain_contract, generate_random_contract_config,
};

#[test]
fn test_single_contract_single_chain() {
    let contract = create_test_contract("SimpleContract", "1");
    let config = IndexerConfig::new("single_test".to_string(), vec![contract]);
    assert!(config.validate().is_ok());
    assert_eq!(
        config.contracts[0].deployments[0].resolve_network_to_number(),
        "1"
    );
}

#[test]
fn test_single_contract_multiple_chains() {
    let contract = generate_multi_chain_contract();
    let config = IndexerConfig::new("multi_chain_test".to_string(), vec![contract]);
    assert!(config.validate().is_ok());

    // Verify first few networks resolve correctly
    assert_eq!(
        config.contracts[0].deployments[0].resolve_network_to_number(),
        "1"
    );
    assert_eq!(
        config.contracts[0].deployments[1].resolve_network_to_number(),
        "10"
    );
    assert_eq!(
        config.contracts[0].deployments[2].resolve_network_to_number(),
        "137"
    );
}

#[test]
fn test_multiple_contracts_same_chain() {
    let contract1 = create_test_contract("Contract1", "1");
    let contract2 = create_test_explorer_contract("Contract2", "1");

    let config = IndexerConfig::new(
        "multi_contract_test".to_string(),
        vec![contract1, contract2],
    );
    assert!(config.validate().is_ok());
}

#[test]
fn test_same_contract_multiple_addresses() {
    let contract = generate_multi_address_contract("1", 3);
    let config = IndexerConfig::new("multi_address_test".to_string(), vec![contract]);
    assert!(config.validate().is_ok());
}

#[test]
fn test_multiple_contracts_different_chains() {
    let contract1 = create_test_contract("EthContract", "1");
    let contract2 = create_test_explorer_contract("OptContract", "10");

    let config = IndexerConfig::new(
        "multi_chain_contract_test".to_string(),
        vec![contract1, contract2],
    );
    assert!(config.validate().is_ok());
}

#[test]
fn test_contract_source_validation() {
    // Test random contract configs with different source types
    let contract = generate_random_contract_config();
    assert!(IndexerConfig::new("test".to_string(), vec![contract])
        .validate()
        .is_ok());

    // Test specific contract with ABI source
    let contract = create_test_contract("AbiTest", "1");
    assert!(IndexerConfig::new("test".to_string(), vec![contract])
        .validate()
        .is_ok());

    // Test specific contract with Explorer source
    let contract = create_test_explorer_contract("ExplorerTest", "1");
    assert!(IndexerConfig::new("test".to_string(), vec![contract])
        .validate()
        .is_ok());
}

#[test]
fn tests_test_indexer_config_validation() {
    // Test empty contracts
    let config = IndexerConfig::new("test".to_string(), vec![]);
    assert!(config.validate().is_err());

    // Test empty name
    let config = IndexerConfig::new("".to_string(), vec![create_test_contract("Test", "1")]);
    assert!(config.validate().is_err());
}

fn on(network_id: &str) -> ContractDeployment {
    ContractDeployment::new(
        network_id.to_string(),
        "0x00".to_string(),
        "https://rpc.example".to_string(),
        None,
        None,
    )
}

#[test]
fn validation_reports_the_first_broken_rule() {
    let bare = |name: &str| ContractConfig::new(name.to_string(), ContractSource::Inferred, vec![]);
    assert_eq!(
        IndexerConfig::new(String::new(), vec![]).validate(),
        Err("Indexer name cannot be empty".to_string())
    );
    assert_eq!(
        IndexerConfig::new("x".to_string(), vec![]).validate(),
        Err("At least one contract configuration is required".to_string())
    );
    let config = IndexerConfig::new(
        "x".to_string(),
        vec![
            create_test_contract("Good", "1"),
            bare("First"),
            bare("Second"),
        ],
    );
    assert_eq!(
        config.validate(),
        Err("Contract First has no deployments".to_string())
    );
    assert_eq!(IndexerConfig::default().name, "");
    assert!(IndexerConfig::default().contracts.is_empty());
}

#[test]
fn network_identifiers_resolve_to_numbers() {
    assert_eq!(on("1").resolve_network_to_number(), "1");
    assert_eq!(on("007").resolve_network_to_number(), "7");
    assert_eq!(on("+42").resolve_network_to_number(), "42");
    assert_eq!(on("999999").resolve_network_to_number(), "999999");
    assert_eq!(
        on("18446744073709551615").resolve_network_to_number(),
        "18446744073709551615"
    );
    // Too large for a chain id: kept as it is.
    assert_eq!(
        on("18446744073709551616").resolve_network_to_number(),
        "18446744073709551616"
    );
    // Names are matched without regard to case.
    assert_eq!(on("Optimism").resolve_network_to_number(), "10");
    assert_eq!(on("OPTIMISM").resolve_network_to_number(), "10");
    assert_eq!(on("ethereum mainnet").resolve_network_to_number(), "1");
    assert_eq!(on("zksync").resolve_network_to_number(), "324");
    assert_eq!(on("opbnb").resolve_network_to_number(), "204");
    assert_eq!(on("Zora").resolve_network_to_number(), "7777777");
    assert_eq!(on("arbitrum").resolve_network_to_number(), "42161");
    // Unknown names are kept as they are.
    assert_eq!(on("Atlantis").resolve_network_to_number(), "Atlantis");
    assert_eq!(on("").resolve_network_to_number(), "");
    assert_eq!(on("-1").resolve_network_to_number(), "-1");
    assert_eq!(on(" 1").resolve_network_to_number(), " 1");
}

#[test]
fn network_identifiers_resolve_to_names() {
    assert_eq!(on("1").resolve_network_to_string(), "Ethereum Mainnet");
    assert_eq!(on("10").resolve_network_to_string(), "Optimism");
    assert_eq!(on("+10").resolve_network_to_string(), "Optimism");
    assert_eq!(on("0010").resolve_network_to_string(), "Optimism");
    assert_eq!(on("7777777").resolve_network_to_string(), "Zora");
    assert_eq!(on("999999").resolve_network_to_string(), "999999");
    assert_eq!(on("Optimism").resolve_network_to_string(), "Optimism");
    assert_eq!(on("optimism").resolve_network_to_string(), "optimism");
    assert_eq!(on("").resolve_network_to_string(), "");
}

#[test]
fn names_are_folded_by_row() {
    let folded = folded_names();
    assert_eq!(folded.len(), 68);
    assert_eq!(folded[0], "arbitrum");
    assert_eq!(folded[21], "ethereum mainnet");
    assert_eq!(folded[48], "opbnb");
    assert_eq!(
        number_by_folded_name(&folded, "optimism"),
        Some("10".to_string())
    );
    assert_eq!(number_by_folded_name(&folded, "Optimism"), None);
    let swapped = vec!["b".to_string(), "a".to_string(), "a".to_string()];
    assert_eq!(
        number_by_folded_name(&swapped, "a"),
        Some("42170".to_string())
    );
    assert_eq!(number_by_folded_name(&swapped, "c"), None);
}

#[test]
fn contracts_take_deployments_in_order() {
    let mut contract = ContractConfig::new("C".to_string(), ContractSource::Inferred, vec![on("1")]);
    contract.add_deployment(
        "10".to_string(),
        "0xAB".to_string(),
        "wss://x".to_string(),
        Some("0xCD".to_string()),
        Some(7),
    );
    assert_eq!(contract.deployments.len(), 2);
    assert_eq!(contract.deployments[0], on("1"));
    assert_eq!(
        contract.deployments[1],
        ContractDeployment {
            network_id: "10".to_string(),
            address: "0xAB".to_string(),
            rpc_url: "wss://x".to_string(),
            proxy_address: Some("0xCD".to_string()),
            start_block: Some(7),
        }
    );
    assert!(contract.source.is_inferred());
    assert!(!contract.source.is_abi());
    assert!(!contract.source.is_explorer());
}
