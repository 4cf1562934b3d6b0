use envio_hyperindex_blueprint::generator::config::ConfigGenerator;
use envio_hyperindex_blueprint::generator::event_handlers::{
    handler_content, handler_file_named, EventHandlerGenerator,
};
use envio_hyperindex_blueprint::generator::schema::SchemaGenerator;
use envio_hyperindex_blueprint::generator::{GeneratedFile, IndexerGenerator};
use envio_hyperindex_blueprint::indexer_utils::{ContractConfig, ContractEvent, IndexerConfig};

fn sample() -> IndexerConfig {
    let token = ContractConfig::new(
        "ERC20".to_string(),
        "0x1234...".to_string(),
        vec![
            "Transfer(address indexed from, address indexed to, uint256 value)",
            "Approval(address owner)",
        ],
        None,
    )
    .unwrap();
    let vault = ContractConfig::new(
        "Vault".to_string(),
        "0xabcd".to_string(),
        vec!["Closed()"],
        None,
    )
    .unwrap();
    IndexerConfig::builder()
        .name("TestIndexer")
        .description("Test Description")
        .network(1)
        .start_block(1_000_000)
        .add_contract(token)
        .add_contract(vault)
        .build()
        .unwrap()
}

fn path(parts: &[&str]) -> Vec<String> {
    parts.iter().map(|p| p.to_string()).collect()
}

#[test]
fn config_file_lists_contracts_and_events() {
    let config = sample();
    let text = ConfigGenerator::new(&config).generate().unwrap();
    let expected = "name: TestIndexer\n\
description: Test Description\n\
networks:\n\
\x20 - id: 1\n\
\x20   start_block: 1000000\n\
\x20   contracts:\n\
\x20     - name: ERC20\n\
\x20       address: \"0x1234...\"\n\
\x20       handler: src/EventHandlers.ts\n\
\x20       events:\n\
\x20         - event: \"Transfer(address indexed from, address indexed to, uint256 value)\"\n\
\x20         - event: \"Approval(address owner)\"\n\
\x20     - name: Vault\n\
\x20       address: \"0xabcd\"\n\
\x20       handler: src/EventHandlers.ts\n\
\x20       events:\n\
\x20         - event: \"Closed()\"\n\
rollback_on_reorg: false\n";
    assert_eq!(text, expected);
}

#[test]
fn schema_has_an_entity_for_each_event() {
    let config = sample();
    let text = SchemaGenerator::new(&config).generate().unwrap();
    let expected = "type Transfer @entity {\n\
\x20 id: ID!\n\
\x20 from: String!\n\
\x20 to: String!\n\
\x20 value: BigInt!\n\
}\n\
\n\
type Approval @entity {\n\
\x20 id: ID!\n\
\x20 owner: String!\n\
}\n\
\n\
type Closed @entity {\n\
\x20 id: ID!\n\
}\n\
\n";
    assert_eq!(text, expected);
}

#[test]
fn handlers_destructure_the_parameters() {
    let config = sample();
    let transfer = &config.contracts[0].events[0];
    let expected = "import { Event, IndexerContext } from '../types';\n\
\n\
export async function handleTransfer(\n\
\x20   event: Event,\n\
\x20   context: IndexerContext\n\
): Promise<void> {\n\
\x20   const { from, to, value } = event.params;\n\
\x20   \n\
\x20   // TODO: Implement event handling logic\n\
\x20   // Available context:\n\
\x20   // - context.indexerId: unique identifier for this indexer instance\n\
\x20   // - context.config: indexer configuration\n\
\x20   // - context.store: database access\n\
}\n";
    assert_eq!(handler_content(transfer), expected);
    let closed = &config.contracts[1].events[0];
    assert!(handler_content(closed).contains("handleClosed(\n"));
    assert!(handler_content(closed).contains("    const {  } = event.params;\n"));
    let file = handler_file_named("C", "folded", closed);
    assert_eq!(file.path, path(&["handlers", "C", "folded.ts"]));
    assert_eq!(file.content, handler_content(closed));
}

#[test]
fn handler_files_come_in_order() {
    let config = sample();
    let generator = EventHandlerGenerator::new(&config);
    let files = generator.generate().unwrap();
    let paths: Vec<Vec<String>> = files.iter().map(|f| f.path.clone()).collect();
    assert_eq!(
        paths,
        vec![
            path(&["handlers", "types.ts"]),
            path(&["handlers", "ERC20", "transfer.ts"]),
            path(&["handlers", "ERC20", "approval.ts"]),
            path(&["handlers", "ERC20", "index.ts"]),
            path(&["handlers", "Vault", "closed.ts"]),
            path(&["handlers", "Vault", "index.ts"]),
            path(&["handlers", "index.ts"]),
        ]
    );
    assert_eq!(
        files[0].content,
        "\nexport interface Event {\n    id: string;\n    blockNumber: number;\n    blockHash: string;\n    transactionHash: string;\n    contractAddress: string;\n    params: Record<string, any>;\n}\n\nexport interface IndexerContext {\n    indexerId: string;\n    config: any;\n    store: any;\n}\n"
    );
    assert_eq!(files[0], generator.generate_types());
    assert_eq!(
        files[3].content,
        "// Auto-generated event handler exports\n\nexport * from './transfer';\nexport * from './approval';\n"
    );
    assert_eq!(files[3], generator.generate_contract_index(&config.contracts[0]));
    assert_eq!(
        files[6].content,
        "// Auto-generated contract handler exports\n\nexport * as ERC20 from './ERC20';\nexport * as Vault from './Vault';\n"
    );
    assert_eq!(files[6], generator.generate_main_index());
    assert_eq!(
        files[2],
        generator.generate_event_handler(&config.contracts[0], &config.contracts[0].events[1])
    );
}

#[test]
fn handler_files_are_named_in_lowercase() {
    let config = sample();
    let generator = EventHandlerGenerator::new(&config);
    let event = ContractEvent {
        name: "OwnerCHANGED".to_string(),
        signature: "OwnerCHANGED()".to_string(),
        inputs: vec![],
    };
    let file = generator.generate_event_handler(&config.contracts[1], &event);
    assert_eq!(file.path, path(&["handlers", "Vault", "ownerchanged.ts"]));
    assert!(file.content.contains("handleOwnerCHANGED("));
}

#[test]
fn project_files_are_schema_handlers_and_config() {
    let config = sample();
    let files = IndexerGenerator::new(&config).generate().unwrap();
    assert_eq!(files.len(), 9);
    assert_eq!(
        files[0],
        GeneratedFile {
            path: path(&["schema.graphql"]),
            content: SchemaGenerator::new(&config).generate().unwrap(),
        }
    );
    assert_eq!(
        files[1..8].to_vec(),
        EventHandlerGenerator::new(&config).generate().unwrap()
    );
    assert_eq!(
        files[8],
        GeneratedFile {
            path: path(&["config.yaml"]),
            content: ConfigGenerator::new(&config).generate().unwrap(),
        }
    );
}
