use envio_hyperindex_blueprint::envio_utils::config::{
    ContractConfig, ContractDeployment, ContractSource,
};
use envio_hyperindex_blueprint::envio_utils::driver::{
    prompt_name_of, Command, Driver, ErrorKind, Event, ExitOutcome, ImportError, Phase,
};
use envio_hyperindex_blueprint::envio_utils::project::EnvioError;
use envio_hyperindex_blueprint::envio_utils::keys::encode_drain;
use envio_hyperindex_blueprint::envio_utils::planner::{
    normalized_address, plan, Action, Cursor, CursorAdvance, Key, Plan,
};
use envio_hyperindex_blueprint::envio_utils::prompt::{classify, PromptKind, Signature};
use envio_hyperindex_blueprint::envio_utils::signatures::signature_table;

fn deployment(network_id: &str, address: &str) -> ContractDeployment {
    ContractDeployment::new(
        network_id.to_string(),
        address.to_string(),
        "https://rpc.example".to_string(),
        None,
        None,
    )
}

fn explorer_contract(name: &str, deployments: Vec<ContractDeployment>) -> ContractConfig {
    ContractConfig::new(
        name.to_string(),
        ContractSource::Explorer {
            api_url: "https://explorer.example/api".to_string(),
        },
        deployments,
    )
}

fn abi_contract(name: &str, deployments: Vec<ContractDeployment>) -> ContractConfig {
    ContractConfig::new(
        name.to_string(),
        ContractSource::Abi {
            abi: Some("[]".to_string()),
            url: None,
        },
        deployments,
    )
}

fn chains() -> Vec<String> {
    vec![
        "arbitrum".to_string(),
        "ethereum-mainnet".to_string(),
        "optimism".to_string(),
        "polygon-zkevm".to_string(),
    ]
}

fn at(contract_index: usize, deployment_index: usize) -> Cursor {
    Cursor {
        contract_index,
        deployment_index,
    }
}

fn stay(action: Action) -> Plan {
    Plan {
        action,
        advance: None,
    }
}

fn downs(n: usize) -> Action {
    let mut keys = vec![Key::Down; n];
    keys.push(Key::Enter);
    Action::PressKeys(keys)
}

// ---------------------------------------------------------------------------
// Classifier
// ---------------------------------------------------------------------------

#[test]
fn classifier_knows_every_prompt() {
    let table = signature_table();
    let cases = vec![
        ("? Specify a folder name (ENTER to skip)", PromptKind::AskFolderName),
        ("? Which language would you like to use?", PromptKind::AskLanguage),
        ("? Javascript", PromptKind::AskLanguage),
        ("? Typescript", PromptKind::AskLanguage),
        ("? ReScript", PromptKind::AskLanguage),
        ("? Choose blockchain ecosystem", PromptKind::AskEcosystem),
        ("? Which events would you like to index?", PromptKind::AskEventSelection),
        (
            "? [space to select one, type to filter]",
            PromptKind::AskEventSelection,
        ),
        (
            "? What is the path to your json abi file?",
            PromptKind::AskAbiPath,
        ),
        (
            "? Would you like to import from a block explorer or a local abi?",
            PromptKind::AskImportSource,
        ),
        (
            "? Which blockchain would you like to import a contract from?",
            PromptKind::AskBlockchainFromList,
        ),
        ("? Choose network:", PromptKind::AskNetworkChoiceGeneric),
        ("? <Enter Network Id>", PromptKind::AskNetworkChoiceGeneric),
        ("? Enter the network id:", PromptKind::AskNetworkId),
        (
            "? What is the name of this contract?",
            PromptKind::AskContractName,
        ),
        (
            "? Use the proxy address if your abi is a proxy implementation",
            PromptKind::AskContractName,
        ),
        (
            "? What is the address of the contract?",
            PromptKind::AskContractAddress,
        ),
        (
            "? Would you like to add another contract?",
            PromptKind::AskAddAnotherContract,
        ),
        (
            "? Add an API token for HyperSync to your .env file?",
            PromptKind::AskApiToken,
        ),
        ("? Add your API token:", PromptKind::AskApiToken),
        ("? Project template ready", PromptKind::TemplateReady),
        (
            "? You can always visit 'https://envio.dev/app/api-tokens' and add a token later to your .env file.",
            PromptKind::FinalDone,
        ),
    ];
    assert_eq!(table.len(), cases.len());
    for (text, expected) in cases {
        assert_eq!(classify(&table, text), expected, "{}", text);
    }
}

#[test]
fn classifier_without_question_mark_reports_silence() {
    let table = signature_table();
    assert_eq!(
        classify(&table, ""),
        PromptKind::Unrecognized(String::new())
    );
    assert_eq!(
        classify(&table, "Specify a folder name\nProject template ready\n"),
        PromptKind::Unrecognized(String::new())
    );
}

#[test]
fn classifier_returns_unknown_prompts_trimmed() {
    let table = signature_table();
    assert_eq!(
        classify(&table, "noise\n   Are you sure?  \r\nmore noise\n"),
        PromptKind::Unrecognized("Are you sure?".to_string())
    );
}

#[test]
fn classifier_takes_the_last_line_with_a_question() {
    let table = signature_table();
    let window = "? Specify a folder name\n? What is the name of this contract?\nlisting\n";
    assert_eq!(classify(&table, window), PromptKind::AskContractName);
    let window = "? What is the name of this contract?\n? Specify a folder name\n";
    assert_eq!(classify(&table, window), PromptKind::AskFolderName);
}

#[test]
fn classifier_prefers_the_earlier_row() {
    let table = signature_table();
    // Both the folder prompt and the contract-name prompt occur in one line.
    assert_eq!(
        classify(
            &table,
            "? What is the name of this contract? Specify a folder name"
        ),
        PromptKind::AskFolderName
    );
    // A line that holds a language and the add-another question is a language prompt.
    assert_eq!(
        classify(&table, "Typescript? Would you like to add another contract?"),
        PromptKind::AskLanguage
    );
}

#[test]
fn classifier_needs_every_needle_of_a_row() {
    let table = signature_table();
    assert_eq!(
        classify(&table, "? space to select one"),
        PromptKind::Unrecognized("? space to select one".to_string())
    );
    assert_eq!(
        classify(&table, "? type to filter, space to select one"),
        PromptKind::AskEventSelection
    );
}

#[test]
fn classifier_is_deterministic() {
    let table = signature_table();
    let window = "banner\n? Enter the network id: \n";
    let first = classify(&table, window);
    let noise = classify(&table, "? Which language would you like to use?");
    let second = classify(&table, window);
    assert_eq!(noise, PromptKind::AskLanguage);
    assert_eq!(first, second);
    assert_eq!(first, PromptKind::AskNetworkId);
}

#[test]
fn classifier_follows_a_custom_table() {
    let table = vec![
        Signature {
            needles: vec!["beta".to_string(), "alpha".to_string()],
            kind: PromptKind::FinalDone,
        },
        Signature {
            needles: vec!["alpha".to_string()],
            kind: PromptKind::AskLanguage,
        },
        Signature {
            needles: vec![],
            kind: PromptKind::AskEcosystem,
        },
    ];
    assert_eq!(classify(&table, "alpha beta?"), PromptKind::FinalDone);
    assert_eq!(classify(&table, "alpha?"), PromptKind::AskLanguage);
    assert_eq!(classify(&table, "gamma?"), PromptKind::AskEcosystem);
    assert_eq!(
        classify(&table, "alpha"),
        PromptKind::Unrecognized(String::new())
    );
    let empty: Vec<Signature> = vec![];
    assert_eq!(
        classify(&empty, "alpha?"),
        PromptKind::Unrecognized("alpha?".to_string())
    );
}

// ---------------------------------------------------------------------------
// Planner
// ---------------------------------------------------------------------------

#[test]
fn add_another_same_network_is_one_down() {
    let contracts = vec![explorer_contract(
        "A",
        vec![deployment("1", "0x01"), deployment("1", "0x02")],
    )];
    let planned = plan(
        &PromptKind::AskAddAnotherContract,
        at(0, 0),
        &contracts,
        &chains(),
    );
    assert_eq!(
        planned,
        Plan {
            action: Action::PressKeys(vec![Key::Down, Key::Enter]),
            advance: Some(CursorAdvance::NextDeployment),
        }
    );
}

#[test]
fn add_another_other_network_is_two_downs() {
    let contracts = vec![explorer_contract(
        "A",
        vec![deployment("1", "0x01"), deployment("10", "0x02")],
    )];
    let planned = plan(
        &PromptKind::AskAddAnotherContract,
        at(0, 0),
        &contracts,
        &chains(),
    );
    assert_eq!(
        planned,
        Plan {
            action: Action::PressKeys(vec![Key::Down, Key::Down, Key::Enter]),
            advance: Some(CursorAdvance::NextDeployment),
        }
    );
}

#[test]
fn add_another_next_contract_is_three_downs() {
    let contracts = vec![
        explorer_contract("A", vec![deployment("1", "0x01")]),
        explorer_contract("B", vec![deployment("1", "0x02")]),
    ];
    let planned = plan(
        &PromptKind::AskAddAnotherContract,
        at(0, 0),
        &contracts,
        &chains(),
    );
    assert_eq!(
        planned,
        Plan {
            action: Action::PressKeys(vec![Key::Down, Key::Down, Key::Down, Key::Enter]),
            advance: Some(CursorAdvance::NextContract),
        }
    );
}

#[test]
fn add_another_at_the_end_is_plain_enter() {
    let contracts = vec![
        explorer_contract("A", vec![deployment("1", "0x01")]),
        explorer_contract("B", vec![deployment("1", "0x02")]),
    ];
    let planned = plan(
        &PromptKind::AskAddAnotherContract,
        at(1, 0),
        &contracts,
        &chains(),
    );
    assert_eq!(planned, stay(Action::PressEnter));
}

#[test]
fn add_another_offsets_for_two_contracts() {
    // Two deployments on the same network, then a second contract on another one.
    let contracts = vec![
        explorer_contract("A", vec![deployment("1", "0x01"), deployment("1", "0x02")]),
        explorer_contract("B", vec![deployment("10", "0x03")]),
    ];
    let mut cursor = Cursor::start();
    let mut offsets = Vec::new();
    let mut visited = vec![cursor];
    for _ in 0..3 {
        let planned = plan(
            &PromptKind::AskAddAnotherContract,
            cursor,
            &contracts,
            &chains(),
        );
        offsets.push(match &planned.action {
            Action::PressEnter => 0,
            Action::PressKeys(keys) => keys.iter().filter(|k| **k == Key::Down).count(),
            other => panic!("unexpected action {:?}", other),
        });
        if planned.advance.is_some() {
            cursor = cursor.advanced(planned.advance);
            visited.push(cursor);
        }
    }
    assert_eq!(offsets, vec![1, 3, 0]);
    assert_eq!(visited, vec![at(0, 0), at(0, 1), at(1, 0)]);
}

#[test]
fn planner_reads_fields_under_the_cursor() {
    let contracts = vec![
        abi_contract("Token", vec![deployment("1", "0xAA"), deployment("137", "BB")]),
        explorer_contract("Vault", vec![deployment("10", "cc")]),
    ];
    let chains = chains();
    let cases = vec![
        (PromptKind::AskFolderName, at(0, 0), Action::TypeText(".".to_string())),
        (PromptKind::AskLanguage, at(0, 0), Action::PressEnter),
        (PromptKind::AskEcosystem, at(0, 0), Action::PressEnter),
        (PromptKind::AskEventSelection, at(0, 0), Action::PressEnter),
        (
            PromptKind::AskAbiPath,
            at(0, 1),
            Action::TypeText("./abis/Token_abi.json".to_string()),
        ),
        (
            PromptKind::AskAbiPath,
            at(1, 0),
            Action::TypeText("./abis/Vault_abi.json".to_string()),
        ),
        (PromptKind::AskImportSource, at(0, 0), downs(1)),
        (PromptKind::AskImportSource, at(1, 0), Action::PressEnter),
        (PromptKind::AskNetworkChoiceGeneric, at(0, 0), Action::PressEnter),
        (PromptKind::AskNetworkId, at(0, 0), Action::TypeText("1".to_string())),
        (PromptKind::AskNetworkId, at(0, 1), Action::TypeText("137".to_string())),
        (PromptKind::AskNetworkId, at(1, 0), Action::TypeText("10".to_string())),
        (PromptKind::AskContractName, at(0, 1), Action::TypeText("Token".to_string())),
        (PromptKind::AskContractName, at(1, 0), Action::TypeText("Vault".to_string())),
        (PromptKind::AskContractAddress, at(0, 0), Action::TypeText("0xAA".to_string())),
        (PromptKind::AskContractAddress, at(0, 1), Action::TypeText("0xBB".to_string())),
        (PromptKind::AskContractAddress, at(1, 0), Action::TypeText("0xcc".to_string())),
        (PromptKind::AskApiToken, at(0, 0), downs(2)),
        (PromptKind::TemplateReady, at(0, 0), Action::Finish(true)),
        (PromptKind::FinalDone, at(1, 0), Action::Finish(true)),
        (
            PromptKind::Unrecognized("Really?".to_string()),
            at(0, 0),
            Action::PressEnter,
        ),
        (
            PromptKind::Unrecognized(String::new()),
            at(0, 0),
            Action::PressEnter,
        ),
    ];
    for (kind, cursor, action) in cases {
        assert_eq!(
            plan(&kind, cursor, &contracts, &chains),
            stay(action),
            "{:?} at {:?}",
            kind,
            cursor
        );
    }
}

#[test]
fn planner_inferred_source_accepts_the_default() {
    let contracts = vec![ContractConfig::new(
        "Found".to_string(),
        ContractSource::Inferred,
        vec![deployment("1", "0x01")],
    )];
    assert_eq!(
        plan(&PromptKind::AskImportSource, at(0, 0), &contracts, &chains()),
        stay(Action::PressEnter)
    );
}

#[test]
fn planner_finds_the_chain_in_the_menu() {
    let contracts = vec![explorer_contract(
        "A",
        vec![
            deployment("1", "0x01"),
            deployment("10", "0x02"),
            deployment("42161", "0x03"),
            deployment("1101", "0x04"),
            deployment("+10", "0x05"),
        ],
    )];
    let chains = chains();
    let kind = PromptKind::AskBlockchainFromList;
    assert_eq!(plan(&kind, at(0, 0), &contracts, &chains), stay(downs(1)));
    assert_eq!(plan(&kind, at(0, 1), &contracts, &chains), stay(downs(2)));
    assert_eq!(
        plan(&kind, at(0, 2), &contracts, &chains),
        stay(Action::PressEnter)
    );
    assert_eq!(plan(&kind, at(0, 3), &contracts, &chains), stay(downs(3)));
    assert_eq!(plan(&kind, at(0, 4), &contracts, &chains), stay(downs(2)));
}

#[test]
fn planner_gives_up_on_a_chain_it_cannot_find() {
    let contracts = vec![explorer_contract(
        "A",
        vec![
            deployment("137", "0x01"),
            deployment("999999", "0x02"),
            deployment("optimism", "0x03"),
        ],
    )];
    let chains = chains();
    let kind = PromptKind::AskBlockchainFromList;
    // Supported, but not in the menu.
    assert_eq!(
        plan(&kind, at(0, 0), &contracts, &chains),
        stay(Action::Finish(false))
    );
    // Not supported.
    assert_eq!(
        plan(&kind, at(0, 1), &contracts, &chains),
        stay(Action::Finish(false))
    );
    // Not a number: stands for chain id zero, which is not supported.
    assert_eq!(
        plan(&kind, at(0, 2), &contracts, &chains),
        stay(Action::Finish(false))
    );
}

#[test]
fn planner_gives_up_on_a_cursor_out_of_range() {
    let contracts = vec![explorer_contract("A", vec![deployment("1", "0x01")])];
    let chains = chains();
    for cursor in [at(1, 0), at(0, 1), at(7, 7)] {
        for kind in [
            PromptKind::AskContractName,
            PromptKind::AskAddAnotherContract,
            PromptKind::TemplateReady,
        ] {
            assert_eq!(
                plan(&kind, cursor, &contracts, &chains),
                stay(Action::Finish(false))
            );
        }
    }
    let none: Vec<ContractConfig> = vec![];
    assert_eq!(
        plan(&PromptKind::AskFolderName, at(0, 0), &none, &chains),
        stay(Action::Finish(false))
    );
}

#[test]
fn address_normalization_is_idempotent() {
    for address in ["AB12", "0xAB12", "", "0x", "0X12", "x0x", " 0x1", "0x0x1"] {
        let once = normalized_address(address);
        let twice = normalized_address(&once);
        assert_eq!(once, twice, "{:?}", address);
        assert!(once.starts_with("0x"));
    }
    assert_eq!(normalized_address("0xAB12"), normalized_address("AB12"));
    assert_eq!(normalized_address("AB12"), "0xAB12");
    assert_eq!(normalized_address(""), "0x");
    assert_eq!(normalized_address("0X12"), "0x0X12");
    assert_eq!(normalized_address("0x0x1"), "0x0x1");
}

#[test]
fn cursor_advances() {
    assert_eq!(Cursor::start(), at(0, 0));
    assert_eq!(at(2, 3).advanced(None), at(2, 3));
    assert_eq!(
        at(2, 3).advanced(Some(CursorAdvance::NextDeployment)),
        at(2, 4)
    );
    assert_eq!(
        at(2, 3).advanced(Some(CursorAdvance::NextContract)),
        at(3, 0)
    );
}

// ---------------------------------------------------------------------------
// Encoding
// ---------------------------------------------------------------------------

#[test]
fn actions_are_encoded_as_terminal_bytes() {
    assert_eq!(Action::PressEnter.encode(), vec![0x0d]);
    assert_eq!(
        Action::TypeText("0xAb".to_string()).encode(),
        vec![b'0', b'x', b'A', b'b', 0x0d]
    );
    assert_eq!(Action::TypeText(String::new()).encode(), vec![0x0d]);
    assert_eq!(
        Action::TypeText("\u{e9}".to_string()).encode(),
        vec![0xc3, 0xa9, 0x0d]
    );
    assert_eq!(
        Action::PressKeys(vec![Key::Down, Key::Down, Key::Enter]).encode(),
        vec![0x1b, b'[', b'B', 0x1b, b'[', b'B', 0x0d]
    );
    assert_eq!(Action::PressKeys(vec![]).encode(), Vec::<u8>::new());
    assert_eq!(Action::Finish(true).encode(), Vec::<u8>::new());
    assert_eq!(Action::Finish(false).encode(), Vec::<u8>::new());
}

#[test]
fn draining_interrupts_and_exits() {
    assert_eq!(encode_drain(true), b"\r\x03exit\nquit\n".to_vec());
    assert_eq!(encode_drain(false), b"\x03exit\nquit\n".to_vec());
}

// ---------------------------------------------------------------------------
// Driver
// ---------------------------------------------------------------------------

/// A terminal that prints one prompt after the other, takes every answer, and exits.
struct ScriptedTerminal {
    prompts: Vec<String>,
    next: usize,
    written: Vec<Vec<u8>>,
    spawned: Vec<String>,
    exit: ExitOutcome,
    cursors: Vec<Cursor>,
}

impl ScriptedTerminal {
    fn new(prompts: &[&str]) -> Self {
        ScriptedTerminal {
            prompts: prompts.iter().map(|p| p.to_string()).collect(),
            next: 0,
            written: Vec::new(),
            spawned: Vec::new(),
            exit: ExitOutcome::ExitedWithCode(0),
            cursors: Vec::new(),
        }
    }

    fn run(&mut self, driver: &mut Driver) {
        let mut command = driver.launch();
        self.cursors.push(driver.cursor());
        let mut steps = 0;
        loop {
            steps += 1;
            assert!(steps < 10_000, "the run does not end");
            let event = match command {
                Command::Spawn(line) => {
                    self.spawned.push(line);
                    Event::Spawned
                }
                Command::Read => {
                    if self.next < self.prompts.len() {
                        let text = self.prompts[self.next].clone();
                        self.next += 1;
                        Event::Output(text.lines().map(|l| l.to_string()).collect())
                    } else {
                        Event::EndOfInput
                    }
                }
                Command::Write(bytes) => {
                    self.written.push(bytes);
                    Event::Written
                }
                Command::WaitForExit => Event::Exited(self.exit),
                Command::Stop => break,
            };
            command = driver.step(event);
            if *self.cursors.last().unwrap() != driver.cursor() {
                self.cursors.push(driver.cursor());
            }
        }
    }
}

fn driver_for(contracts: Vec<ContractConfig>) -> Driver {
    Driver::new(contracts, signature_table(), chains(), 3).unwrap()
}

const OPENING: [&str; 3] = [
    "? Specify a folder name (ENTER to skip)",
    "? Which language would you like to use?",
    "? Which events would you like to index?",
];

fn wizard_prompts(contracts: &[ContractConfig]) -> Vec<String> {
    let mut prompts: Vec<String> = OPENING.iter().map(|p| p.to_string()).collect();
    for contract in contracts {
        for (j, d) in contract.deployments.iter().enumerate() {
            if j == 0 {
                prompts.push(
                    "? Would you like to import from a block explorer or a local abi?".to_string(),
                );
                if contract.source.is_abi() {
                    prompts.push("? What is the path to your json abi file?".to_string());
                }
                prompts.push("? What is the name of this contract?".to_string());
                prompts.push("? Enter the network id:".to_string());
            } else if d.network_id != contract.deployments[j - 1].network_id {
                prompts.push("? Enter the network id:".to_string());
            }
            prompts.push("? What is the address of the contract?".to_string());
            prompts.push("? Would you like to add another contract?".to_string());
        }
    }
    prompts.push("? Project template ready".to_string());
    prompts
}

#[test]
fn scenario_one_contract_one_deployment() {
    let contracts = vec![explorer_contract(
        "Greeter",
        vec![deployment("1", "d8dA6BF26964aF9D7eEd9e03E53415D37aA96045")],
    )];
    let mut driver = driver_for(contracts);
    let mut terminal = ScriptedTerminal::new(&[
        "? Specify a folder name (ENTER to skip)",
        "? Which language would you like to use?",
        "? Which events would you like to index?",
        "? Would you like to import from a block explorer or a local abi?",
        "? What is the name of this contract?",
        "? Enter the network id:",
        "? What is the address of the contract?",
        "? Would you like to add another contract?",
        "? Project template ready",
    ]);
    terminal.run(&mut driver);
    assert_eq!(
        terminal.spawned,
        vec!["envio init contract-import local".to_string()]
    );
    let expected: Vec<Vec<u8>> = vec![
        b".\r".to_vec(),
        b"\r".to_vec(),
        b"\r".to_vec(),
        b"\r".to_vec(),
        b"Greeter\r".to_vec(),
        b"1\r".to_vec(),
        b"0xd8dA6BF26964aF9D7eEd9e03E53415D37aA96045\r".to_vec(),
        b"\r".to_vec(),
        b"\r\x03exit\nquit\n".to_vec(),
    ];
    assert_eq!(terminal.written, expected);
    assert_eq!(driver.phase(), Phase::Done);
    assert!(driver.succeeded());
    assert_eq!(driver.failure(), None);
    assert_eq!(driver.last_prompt(), PromptKind::TemplateReady);
    assert_eq!(driver.cursor(), at(0, 0));
    assert_eq!(driver.conclude(true), Ok(()));
}

#[test]
fn scenario_two_contracts_three_deployments() {
    let contracts = vec![
        explorer_contract("A", vec![deployment("1", "0x01"), deployment("1", "0x02")]),
        explorer_contract("B", vec![deployment("10", "0x03")]),
    ];
    let prompts = wizard_prompts(&contracts);
    let prompts: Vec<&str> = prompts.iter().map(|p| p.as_str()).collect();
    let mut driver = driver_for(contracts);
    let mut terminal = ScriptedTerminal::new(&prompts);
    terminal.run(&mut driver);
    assert!(driver.succeeded());
    let down = [0x1b, b'[', b'B'];
    let menu: Vec<Vec<u8>> = terminal
        .written
        .iter()
        .filter(|w| w.starts_with(&down) || **w == b"\r".to_vec())
        .cloned()
        .collect();
    // Opening defaults (3), import source (1), add-another (1 down), add-another
    // (3 downs), import source (1), add-another (default).
    let one = [&down[..], b"\r"].concat();
    let three = [&down[..], &down[..], &down[..], b"\r"].concat();
    assert_eq!(
        menu,
        vec![
            b"\r".to_vec(),
            b"\r".to_vec(),
            b"\r".to_vec(),
            one,
            three,
            b"\r".to_vec(),
            b"\r".to_vec(),
        ]
    );
    assert_eq!(terminal.cursors, vec![at(0, 0), at(0, 1), at(1, 0)]);
}

#[test]
fn scripted_run_visits_every_deployment_in_order() {
    let lists: Vec<Vec<ContractConfig>> = vec![
        vec![explorer_contract("A", vec![deployment("1", "1")])],
        vec![abi_contract(
            "A",
            vec![
                deployment("1", "1"),
                deployment("10", "2"),
                deployment("10", "3"),
                deployment("1", "4"),
            ],
        )],
        vec![
            abi_contract("A", vec![deployment("1", "1")]),
            explorer_contract("B", vec![deployment("1", "2"), deployment("137", "3")]),
            ContractConfig::new(
                "C".to_string(),
                ContractSource::Inferred,
                vec![deployment("5", "4"), deployment("5", "5"), deployment("5", "6")],
            ),
        ],
    ];
    for contracts in lists {
        let mut expected = Vec::new();
        for (i, c) in contracts.iter().enumerate() {
            for j in 0..c.deployments.len() {
                expected.push(at(i, j));
            }
        }
        let prompts = wizard_prompts(&contracts);
        let prompts: Vec<&str> = prompts.iter().map(|p| p.as_str()).collect();
        let mut driver = driver_for(contracts);
        let mut terminal = ScriptedTerminal::new(&prompts);
        terminal.run(&mut driver);
        assert!(driver.succeeded());
        assert_eq!(driver.conclude(true), Ok(()));
        assert_eq!(terminal.cursors, expected);
    }
}

#[test]
fn launch_line_depends_on_the_first_source() {
    let inferred = vec![
        ContractConfig::new(
            "A".to_string(),
            ContractSource::Inferred,
            vec![deployment("1", "1")],
        ),
        explorer_contract("B", vec![deployment("1", "2")]),
    ];
    assert_eq!(
        driver_for(inferred).launch(),
        Command::Spawn("envio init".to_string())
    );
    let explicit = vec![
        abi_contract("A", vec![deployment("1", "1")]),
        ContractConfig::new(
            "B".to_string(),
            ContractSource::Inferred,
            vec![deployment("1", "2")],
        ),
    ];
    assert_eq!(
        driver_for(explicit).launch(),
        Command::Spawn("envio init contract-import local".to_string())
    );
}

#[test]
fn no_run_without_contracts_or_deployments() {
    assert!(Driver::new(vec![], signature_table(), chains(), 3).is_none());
    let bare = vec![
        explorer_contract("A", vec![deployment("1", "1")]),
        explorer_contract("B", vec![]),
    ];
    assert!(Driver::new(bare, signature_table(), chains(), 3).is_none());
}

#[test]
fn end_of_input_before_success_is_unexpected_termination() {
    let contracts = vec![explorer_contract("A", vec![deployment("1", "1")])];
    let mut driver = driver_for(contracts);
    let mut terminal = ScriptedTerminal::new(&[
        "? Specify a folder name (ENTER to skip)",
        "? What is the name of this contract?",
    ]);
    terminal.run(&mut driver);
    assert_eq!(driver.phase(), Phase::Done);
    assert!(!driver.succeeded());
    assert_eq!(driver.failure(), Some(ErrorKind::UnexpectedTermination));
    // The project is not looked for: the run ends the same either way.
    for artifact_present in [true, false] {
        let error = driver.conclude(artifact_present).unwrap_err();
        assert_eq!(error.kind, ErrorKind::UnexpectedTermination);
        assert_eq!(error.last_prompt, PromptKind::AskContractName);
        assert_eq!(error.cursor, at(0, 0));
    }
}

#[test]
fn end_of_input_goes_on_to_reap() {
    let contracts = vec![explorer_contract("A", vec![deployment("1", "1")])];
    let mut driver = driver_for(contracts);
    assert_eq!(driver.step(Event::Spawned), Command::Read);
    assert_eq!(driver.phase(), Phase::Interacting);
    assert_eq!(driver.step(Event::EndOfInput), Command::WaitForExit);
    assert_eq!(driver.phase(), Phase::Reaping);
    assert_eq!(
        driver.step(Event::Exited(ExitOutcome::ExitedWithCode(0))),
        Command::Stop
    );
    assert_eq!(driver.failure(), Some(ErrorKind::UnexpectedTermination));
}

#[test]
fn missing_artifact_fails_a_successful_run() {
    let contracts = vec![
        explorer_contract("A", vec![deployment("1", "1")]),
        explorer_contract("B", vec![deployment("1", "2")]),
    ];
    let prompts = wizard_prompts(&contracts);
    let prompts: Vec<&str> = prompts.iter().map(|p| p.as_str()).collect();
    let mut driver = driver_for(contracts);
    let mut terminal = ScriptedTerminal::new(&prompts);
    terminal.run(&mut driver);
    assert!(driver.succeeded());
    let error = driver.conclude(false).unwrap_err();
    assert_eq!(error.kind, ErrorKind::ArtifactMissing);
    assert_eq!(error.last_prompt, PromptKind::TemplateReady);
    assert_eq!(error.cursor, at(1, 0));
    assert_eq!(driver.conclude(true), Ok(()));
}

#[test]
fn end_of_input_after_success_is_normal() {
    let contracts = vec![explorer_contract("A", vec![deployment("1", "1")])];
    let mut driver = driver_for(contracts);
    driver.step(Event::Spawned);
    let command = driver.step(Event::Output(vec![
        "? You can always visit 'https://envio.dev/app/api-tokens' and add a token later to your .env file.".to_string(),
    ]));
    assert_eq!(command, Command::Write(b"\r\x03exit\nquit\n".to_vec()));
    assert_eq!(driver.phase(), Phase::Draining);
    assert_eq!(driver.step(Event::EndOfInput), Command::WaitForExit);
    assert_eq!(driver.phase(), Phase::Reaping);
    assert_eq!(
        driver.step(Event::Exited(ExitOutcome::Signaled(2))),
        Command::Stop
    );
    assert!(driver.succeeded());
    assert_eq!(driver.last_prompt(), PromptKind::FinalDone);
}

#[test]
fn write_failure_while_draining_is_normal() {
    let contracts = vec![explorer_contract("A", vec![deployment("1", "1")])];
    let mut driver = driver_for(contracts);
    driver.step(Event::Spawned);
    driver.step(Event::Output(vec!["? Project template ready".to_string()]));
    assert_eq!(driver.step(Event::WriteFailed), Command::WaitForExit);
    assert_eq!(
        driver.step(Event::Exited(ExitOutcome::ExitedWithCode(0))),
        Command::Stop
    );
    assert!(driver.succeeded());
}

#[test]
fn exit_outcomes_after_success() {
    let cases = vec![
        (ExitOutcome::ExitedWithCode(0), None),
        (ExitOutcome::Signaled(2), None),
        (ExitOutcome::Signaled(9), None),
        (
            ExitOutcome::ExitedWithCode(1),
            Some(ErrorKind::UnexpectedTermination),
        ),
        (
            ExitOutcome::ExitedWithCode(-1),
            Some(ErrorKind::UnexpectedTermination),
        ),
        (ExitOutcome::Unknown, Some(ErrorKind::UnexpectedTermination)),
    ];
    for (outcome, failure) in cases {
        let contracts = vec![explorer_contract("A", vec![deployment("1", "1")])];
        let mut driver = driver_for(contracts);
        driver.step(Event::Spawned);
        driver.step(Event::Output(vec!["? Project template ready".to_string()]));
        driver.step(Event::Written);
        assert_eq!(driver.step(Event::Exited(outcome)), Command::Stop);
        assert_eq!(driver.failure(), failure, "{:?}", outcome);
        assert_eq!(driver.phase(), Phase::Done);
    }
}

#[test]
fn spawn_failure_ends_the_run() {
    let contracts = vec![explorer_contract("A", vec![deployment("1", "1")])];
    let mut driver = driver_for(contracts);
    assert_eq!(driver.phase(), Phase::Spawning);
    assert_eq!(driver.step(Event::SpawnFailed), Command::Stop);
    assert_eq!(driver.phase(), Phase::Done);
    let error = driver.conclude(true).unwrap_err();
    assert_eq!(error.kind, ErrorKind::SpawnFailure);
    assert_eq!(error.last_prompt, PromptKind::Unrecognized(String::new()));
    assert_eq!(error.cursor, at(0, 0));
}

#[test]
fn write_failure_aborts_at_once() {
    let contracts = vec![explorer_contract(
        "A",
        vec![deployment("1", "1"), deployment("1", "2")],
    )];
    let mut driver = driver_for(contracts);
    driver.step(Event::Spawned);
    driver.step(Event::Output(vec![
        "? Would you like to add another contract?".to_string(),
    ]));
    assert_eq!(driver.cursor(), at(0, 1));
    assert_eq!(driver.step(Event::WriteFailed), Command::Stop);
    assert_eq!(driver.phase(), Phase::Done);
    let error = driver.conclude(true).unwrap_err();
    assert_eq!(error.kind, ErrorKind::WriteFailure);
    assert_eq!(error.last_prompt, PromptKind::AskAddAnotherContract);
    assert_eq!(error.cursor, at(0, 1));
    // A finished run stays as it is.
    assert_eq!(driver.step(Event::Spawned), Command::Stop);
    assert_eq!(driver.step(Event::Written), Command::Stop);
    assert_eq!(driver.failure(), Some(ErrorKind::WriteFailure));
}

#[test]
fn silence_beyond_the_ceiling_is_a_hang() {
    let contracts = vec![explorer_contract("A", vec![deployment("1", "1")])];
    let mut driver = Driver::new(contracts, signature_table(), chains(), 2).unwrap();
    driver.step(Event::Spawned);
    driver.step(Event::Output(vec!["? Enter the network id:".to_string()]));
    assert_eq!(driver.step(Event::Written), Command::Read);
    assert_eq!(driver.step(Event::Output(vec![])), Command::Read);
    assert_eq!(driver.step(Event::Output(vec![])), Command::Read);
    assert_eq!(
        driver.step(Event::Output(vec![])),
        Command::Write(b"\x03exit\nquit\n".to_vec())
    );
    assert_eq!(driver.phase(), Phase::Draining);
    assert_eq!(driver.step(Event::Written), Command::WaitForExit);
    assert_eq!(
        driver.step(Event::Exited(ExitOutcome::Signaled(2))),
        Command::Stop
    );
    let error = driver.conclude(true).unwrap_err();
    assert_eq!(error.kind, ErrorKind::HangDetected);
    assert_eq!(error.last_prompt, PromptKind::AskNetworkId);
}

#[test]
fn output_resets_the_idle_count() {
    let contracts = vec![explorer_contract("A", vec![deployment("1", "1")])];
    let mut driver = Driver::new(contracts, signature_table(), chains(), 1).unwrap();
    driver.step(Event::Spawned);
    for _ in 0..5 {
        assert_eq!(driver.step(Event::Output(vec![])), Command::Read);
        assert_eq!(
            driver.step(Event::Output(vec!["still working".to_string()])),
            Command::Read
        );
    }
    assert_eq!(driver.phase(), Phase::Interacting);
    assert_eq!(driver.step(Event::Output(vec![])), Command::Read);
    assert!(matches!(
        driver.step(Event::Output(vec![])),
        Command::Write(_)
    ));
    assert_eq!(driver.failure(), Some(ErrorKind::HangDetected));
}

#[test]
fn prompts_split_across_reads_are_put_together() {
    let contracts = vec![explorer_contract("Split", vec![deployment("1", "1")])];
    let mut driver = driver_for(contracts);
    driver.step(Event::Spawned);
    // The banner has no question: nothing is answered yet.
    assert_eq!(
        driver.step(Event::Output(vec!["Welcome".to_string(), "".to_string()])),
        Command::Read
    );
    assert_eq!(driver.last_prompt(), PromptKind::Unrecognized(String::new()));
    // The prompt arrives after blank lines.
    assert_eq!(
        driver.step(Event::Output(vec![
            "".to_string(),
            "? What is the name of this contract?".to_string(),
            "  (a listing)".to_string(),
        ])),
        Command::Write(b"Split\r".to_vec())
    );
    assert_eq!(driver.last_prompt(), PromptKind::AskContractName);
    driver.step(Event::Written);
    // What was classified is not classified again.
    assert_eq!(
        driver.step(Event::Output(vec!["echo".to_string()])),
        Command::Read
    );
    assert_eq!(driver.last_prompt(), PromptKind::AskContractName);
}

#[test]
fn unknown_prompts_are_answered_with_enter() {
    let contracts = vec![explorer_contract("A", vec![deployment("1", "1")])];
    let mut driver = driver_for(contracts);
    driver.step(Event::Spawned);
    assert_eq!(
        driver.step(Event::Output(vec!["Overwrite existing files?".to_string()])),
        Command::Write(b"\r".to_vec())
    );
    assert_eq!(
        driver.last_prompt(),
        PromptKind::Unrecognized("Overwrite existing files?".to_string())
    );
    assert_eq!(driver.phase(), Phase::Interacting);
}

#[test]
fn a_chain_that_cannot_be_selected_ends_the_run() {
    let contracts = vec![explorer_contract("A", vec![deployment("999999", "1")])];
    let mut driver = driver_for(contracts);
    driver.step(Event::Spawned);
    assert_eq!(
        driver.step(Event::Output(vec![
            "? Which blockchain would you like to import a contract from?".to_string(),
        ])),
        Command::Write(b"\x03exit\nquit\n".to_vec())
    );
    assert_eq!(driver.phase(), Phase::Draining);
    driver.step(Event::Written);
    driver.step(Event::Exited(ExitOutcome::ExitedWithCode(0)));
    let error = driver.conclude(true).unwrap_err();
    assert_eq!(error.kind, ErrorKind::UnexpectedTermination);
    assert_eq!(error.last_prompt, PromptKind::AskBlockchainFromList);
}

#[test]
fn events_out_of_turn_end_the_run() {
    let contracts = vec![explorer_contract("A", vec![deployment("1", "1")])];
    let mut driver = driver_for(contracts.clone());
    assert_eq!(driver.step(Event::Written), Command::Stop);
    assert_eq!(driver.failure(), Some(ErrorKind::UnexpectedTermination));

    let mut driver = driver_for(contracts.clone());
    driver.step(Event::Spawned);
    assert_eq!(
        driver.step(Event::Exited(ExitOutcome::ExitedWithCode(0))),
        Command::Stop
    );
    assert_eq!(driver.failure(), Some(ErrorKind::UnexpectedTermination));

    let mut driver = driver_for(contracts);
    driver.step(Event::Spawned);
    driver.step(Event::EndOfInput);
    assert_eq!(driver.step(Event::Written), Command::Stop);
    assert_eq!(driver.phase(), Phase::Done);
    assert_eq!(driver.failure(), Some(ErrorKind::UnexpectedTermination));
}

#[test]
fn failures_are_reported_with_their_context() {
    let error = |kind, last_prompt| ImportError {
        kind,
        last_prompt,
        cursor: at(2, 10),
    };
    assert_eq!(
        error(ErrorKind::HangDetected, PromptKind::AskNetworkId).context(),
        "HangDetected at contract 2, deployment 10, after AskNetworkId"
    );
    assert_eq!(
        error(
            ErrorKind::WriteFailure,
            PromptKind::Unrecognized("Really?".to_string())
        )
        .context(),
        "WriteFailure at contract 2, deployment 10, after Unrecognized(Really?)"
    );
    assert_eq!(
        error(ErrorKind::ArtifactMissing, PromptKind::TemplateReady).report(),
        EnvioError::InvalidState(
            "Project initialization failed: config.yaml not created (ArtifactMissing at contract 2, deployment 10, after TemplateReady)".to_string()
        )
    );
    assert_eq!(
        error(ErrorKind::UnexpectedTermination, PromptKind::FinalDone).report(),
        EnvioError::ProcessFailed(
            "Envio process exited unexpectedly (UnexpectedTermination at contract 2, deployment 10, after FinalDone)".to_string()
        )
    );
    assert_eq!(
        error(ErrorKind::SpawnFailure, PromptKind::Unrecognized(String::new())).report(),
        EnvioError::ProcessFailed(
            "Envio process exited unexpectedly (SpawnFailure at contract 2, deployment 10, after Unrecognized())".to_string()
        )
    );
    assert_eq!(ErrorKind::HangDetected.name(), "HangDetected");
    assert_eq!(ErrorKind::WriteFailure.name(), "WriteFailure");
    assert_eq!(ErrorKind::SpawnFailure.name(), "SpawnFailure");
    assert_eq!(ErrorKind::ArtifactMissing.name(), "ArtifactMissing");
    assert_eq!(prompt_name_of(&PromptKind::AskApiToken), "AskApiToken");
}

#[test]
fn abandoned_run_is_an_unexpected_termination() {
    let contracts = vec![explorer_contract("A", vec![deployment("1", "1")])];
    let mut driver = driver_for(contracts);
    driver.step(Event::Spawned);
    assert!(!driver.is_done());
    let error = driver.conclude(true).unwrap_err();
    assert_eq!(error.kind, ErrorKind::UnexpectedTermination);
}
