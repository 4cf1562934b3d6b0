use envio_hyperindex_blueprint::envio_utils::config::ContractSource;
use envio_hyperindex_blueprint::test_utils::{
    abi_file_name, address_from, api_key_from, common_network, contract_name_from,
    create_deployment, create_test_contract, create_test_explorer_contract, create_usdc_contract,
    erc20_abi, generate_multi_address_contract, generate_multi_chain_contract,
    generate_random_address, generate_random_api_key, generate_random_contract_config,
    generate_random_contract_name, generate_random_rpc_url, greeter_abi, rpc_url_from,
    sample_deployments,
};

fn is_address(text: &str) -> bool {
    text.len() == 42
        && text.starts_with("0x000000000000000000000000")
        && text[2..]
            .chars()
            .all(|c| c.is_ascii_digit() || ('a'..='f').contains(&c))
}

#[test]
fn addresses_have_forty_digits() {
    assert_eq!(
        address_from(0),
        "0x0000000000000000000000000000000000000000"
    );
    assert_eq!(
        address_from(0xdead_beef),
        "0x00000000000000000000000000000000deadbeef"
    );
    assert_eq!(
        address_from(u64::MAX),
        "0x000000000000000000000000ffffffffffffffff"
    );
    assert_eq!(
        address_from(0x0123_4567_89ab_cdef),
        "0x0000000000000000000000000123456789abcdef"
    );
    for _ in 0..20 {
        assert!(is_address(&generate_random_address()));
    }
}

#[test]
fn endpoints_are_made_of_protocol_host_and_suffix() {
    assert_eq!(rpc_url_from(0, "acme corp", "com"), "http://acme-corp.com");
    assert_eq!(rpc_url_from(1, "a  b", "io"), "https://a--b.io");
    assert_eq!(rpc_url_from(2, "", ""), "ws://.");
    assert_eq!(rpc_url_from(3, "x", "org"), "wss://x.org");
    assert_eq!(rpc_url_from(9, "x", "org"), "wss://x.org");
    for _ in 0..20 {
        let url = generate_random_rpc_url();
        assert!(
            ["http://", "https://", "ws://", "wss://"]
                .iter()
                .any(|p| url.starts_with(p)),
            "{}",
            url
        );
        assert!(!url.contains(' '));
        assert_eq!(url.to_lowercase()[..url.rfind('.').unwrap()], url[..url.rfind('.').unwrap()]);
    }
}

#[test]
fn names_and_keys_are_joined() {
    assert_eq!(contract_name_from("Acme Data Corp"), "AcmeDataCorpContract");
    assert_eq!(contract_name_from(""), "Contract");
    assert_eq!(api_key_from("DE", "abc"), "DE_abc_key");
    assert_eq!(api_key_from("", ""), "__key");
    assert_eq!(abi_file_name("idx", "Token"), "idx_Token_abi.json");
    for _ in 0..20 {
        let name = generate_random_contract_name();
        assert!(name.ends_with("Contract"));
        assert!(!name.contains(' '));
        let key = generate_random_api_key();
        assert!(key.ends_with("_key"));
        assert!(key.contains('_'));
    }
}

#[test]
fn common_networks_are_five() {
    let ids: Vec<&str> = (0..5).map(common_network).collect();
    assert_eq!(ids, vec!["1", "10", "137", "42161", "43114"]);
    assert_eq!(common_network(17), "43114");
}

#[test]
fn deployments_fill_in_what_is_missing() {
    let given = create_deployment(
        "10",
        Some("0xAB".to_string()),
        Some("https://rpc".to_string()),
        Some("0xCD".to_string()),
        Some(5),
    );
    assert_eq!(given.network_id, "10");
    assert_eq!(given.address, "0xAB");
    assert_eq!(given.rpc_url, "https://rpc");
    assert_eq!(given.proxy_address, Some("0xCD".to_string()));
    assert_eq!(given.start_block, Some(5));
    let random = create_deployment("137", None, None, None, None);
    assert_eq!(random.network_id, "137");
    assert!(is_address(&random.address));
    assert!(random.rpc_url.contains("://"));
    assert_eq!(random.proxy_address, None);
    assert_eq!(random.start_block, None);
}

#[test]
fn fixed_contracts_are_as_described() {
    let contract = create_test_contract("Greeter", "1");
    assert_eq!(contract.name, "Greeter");
    assert_eq!(
        contract.source,
        ContractSource::Abi {
            abi: Some(greeter_abi().to_string()),
            url: None
        }
    );
    assert_eq!(contract.deployments.len(), 1);
    assert_eq!(contract.deployments[0].network_id, "1");
    assert_eq!(
        contract.deployments[0].address,
        "0xd8dA6BF26964aF9D7eEd9e03E53415D37aA96045"
    );
    assert_eq!(contract.deployments[0].proxy_address, None);
    assert_eq!(contract.deployments[0].start_block, None);

    let explorer = create_test_explorer_contract("Weth", "10");
    assert_eq!(explorer.name, "Weth");
    assert_eq!(
        explorer.source,
        ContractSource::Explorer {
            api_url: "test_key".to_string()
        }
    );
    assert_eq!(explorer.deployments.len(), 1);
    assert_eq!(explorer.deployments[0].network_id, "10");
    assert_eq!(
        explorer.deployments[0].address,
        "0xC02aaA39b223FE8D0A0e5C4F27eAD9083C756Cc2"
    );
    assert_eq!(
        explorer.deployments[0].proxy_address,
        Some("0x7a250d5630B4cF539739dF2C5dAcb4c659F2488D".to_string())
    );

    let usdc = create_usdc_contract();
    assert_eq!(usdc.name, "usdc_indexer_test");
    assert_eq!(usdc.contracts.len(), 1);
    assert_eq!(usdc.contracts[0].name, "USDC");
    assert_eq!(
        usdc.contracts[0].source,
        ContractSource::Abi {
            abi: Some(erc20_abi().to_string()),
            url: None
        }
    );
    let deployment = &usdc.contracts[0].deployments[0];
    assert_eq!(deployment.network_id, "1");
    assert_eq!(deployment.address, "0xA0b86991c6218b36c1d19D4a2e9Eb0cE3606eB48");
    assert_eq!(deployment.rpc_url, "https://eth-mainnet.g.alchemy.com/v2/demo");
    assert_eq!(deployment.proxy_address, None);
    assert_eq!(deployment.start_block, Some(10_000_000));
    assert!(usdc.validate().is_ok());
}

#[test]
fn random_contracts_stay_within_bounds() {
    for _ in 0..50 {
        let contract = generate_random_contract_config();
        assert!((1..=5).contains(&contract.deployments.len()));
        let network = contract.deployments[0].network_id.clone();
        assert!(["1", "10", "137", "42161", "43114"].contains(&network.as_str()));
        for deployment in &contract.deployments {
            assert_eq!(deployment.network_id, network);
            assert!(is_address(&deployment.address));
            if let Some(proxy) = &deployment.proxy_address {
                assert!(is_address(proxy));
            }
            assert_eq!(deployment.start_block, None);
        }
        match &contract.source {
            ContractSource::Abi { abi, url } => {
                assert_eq!(abi.as_deref(), Some(greeter_abi()));
                assert_eq!(*url, None);
            }
            ContractSource::Explorer { api_url } => assert!(api_url.ends_with("_key")),
            ContractSource::Inferred => panic!("no sample contract is inferred"),
        }
    }
}

#[test]
fn multi_contracts_have_the_deployments_asked_for() {
    let chains = generate_multi_chain_contract();
    let ids: Vec<&str> = chains
        .deployments
        .iter()
        .map(|d| d.network_id.as_str())
        .collect();
    assert_eq!(ids, vec!["1", "10", "137", "42161", "43114"]);
    assert!(chains.deployments.iter().all(|d| d.proxy_address.is_none()));
    for count in [0, 1, 3] {
        let contract = generate_multi_address_contract("137", count);
        assert_eq!(contract.deployments.len(), count);
        assert!(contract
            .deployments
            .iter()
            .all(|d| d.network_id == "137" && d.proxy_address.is_none()));
    }
    let plain = sample_deployments("5", 4, false);
    assert_eq!(plain.len(), 4);
    assert!(plain.iter().all(|d| d.proxy_address.is_none()));
    assert_eq!(sample_deployments("5", 0, true).len(), 0);
}

#[test]
fn fixture_abis_are_json_abis() {
    let greeter: alloy_json_abi::JsonAbi = serde_json::from_str(greeter_abi()).unwrap();
    assert_eq!(greeter.events().count(), 2);
    let erc20: alloy_json_abi::JsonAbi = serde_json::from_str(erc20_abi()).unwrap();
    let names: Vec<&str> = erc20.events().map(|e| e.name.as_str()).collect();
    assert_eq!(names, vec!["Approval", "Transfer"]);
}
