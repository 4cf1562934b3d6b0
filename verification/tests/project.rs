use envio_hyperindex_blueprint::envio_utils::config::ContractSource;
use envio_hyperindex_blueprint::envio_utils::docker::{
    assignments, database_environment, postgres_environment, EnvioDocker,
};
use envio_hyperindex_blueprint::envio_utils::project::{
    abi_request, codegen_outcome, health_of, lingering_processes, may_start,
    parse_progress_from_log, start_outcome, status_from_probe, stdout_messages, AbiRequest,
    EnvioError, IndexerLogMessage, IndexerProgress, IndexerStatus,
};
use envio_hyperindex_blueprint::log_filter::LogFilter;
use envio_hyperindex_blueprint::service_context::{
    add_record, due_for_probe, find_record, generate_indexer_id, indexer_id_from, list_ids,
    log_entry_at, log_entry_now, stopped_message, DeploymentMode, IndexerRecord,
    IndexerRegistry, SpawnIndexerParams, SpawnIndexerResult,
};
use envio_hyperindex_blueprint::test_utils::create_usdc_contract;

fn progress(
    events_processed: Option<usize>,
    blocks_current: Option<usize>,
    blocks_total: Option<usize>,
    chain_id: Option<&str>,
    percentage: Option<usize>,
    eta: Option<&str>,
) -> IndexerProgress {
    IndexerProgress {
        events_processed,
        blocks_current,
        blocks_total,
        chain_id: chain_id.map(|s| s.to_string()),
        percentage,
        eta: eta.map(|s| s.to_string()),
    }
}

#[test]
fn progress_is_read_from_a_full_line() {
    let line = "Events Processed: 1,234,567 blocks: 18,000,000/19,500,000 rest";
    assert_eq!(
        parse_progress_from_log(line),
        Some(progress(
            Some(1234567),
            Some(18000000),
            Some(19500000),
            None,
            None,
            None
        ))
    );
}

#[test]
fn progress_fields_are_read_one_by_one() {
    assert_eq!(parse_progress_from_log(""), None);
    assert_eq!(parse_progress_from_log("nothing to see"), None);
    // Events need the blocks label after them.
    assert_eq!(parse_progress_from_log("Events Processed: 12"), None);
    assert_eq!(
        parse_progress_from_log("Events Processed: 12 blocks:"),
        Some(progress(Some(12), None, None, None, None, None))
    );
    assert_eq!(
        parse_progress_from_log("Events Processed:  +7, blocks: x"),
        Some(progress(Some(7), None, None, None, None, None))
    );
    // Commas are removed after trimming: a blank before one stays.
    assert_eq!(
        parse_progress_from_log("Events Processed: 7 , blocks: x"),
        None
    );
    assert_eq!(
        parse_progress_from_log("Events Processed: twelve blocks: 5/9 "),
        Some(progress(None, Some(5), Some(9), None, None, None))
    );
    // The total ends at the next blank; without one there is none.
    assert_eq!(
        parse_progress_from_log("blocks: 5/9"),
        Some(progress(None, Some(5), None, None, None, None))
    );
    assert_eq!(
        parse_progress_from_log("blocks: 5 / 9 x"),
        Some(progress(None, Some(5), None, None, None, None))
    );
    // A total alone is no progress.
    assert_eq!(parse_progress_from_log("blocks: x/9 "), None);
    assert_eq!(parse_progress_from_log("blocks: 5"), None);
    assert_eq!(
        parse_progress_from_log("Sync Time ETA:  3 minutes  (soon)"),
        Some(progress(None, None, None, None, None, Some("3 minutes")))
    );
    assert_eq!(parse_progress_from_log("Sync Time ETA: 3 minutes"), None);
    assert_eq!(
        parse_progress_from_log("Sync Time ETA:("),
        Some(progress(None, None, None, None, None, Some("")))
    );
}

#[test]
fn chain_and_percentage_are_read_before_the_percent_sign() {
    assert_eq!(
        parse_progress_from_log("Chain ID: 1 45%"),
        Some(progress(None, None, None, Some("1 45"), None, None))
    );
    assert_eq!(
        parse_progress_from_log("Chain ID:45%"),
        Some(progress(None, None, None, Some("45"), Some(45), None))
    );
    assert_eq!(
        parse_progress_from_log("Chain ID: 45 % and more"),
        Some(progress(None, None, None, Some("45"), Some(45), None))
    );
    assert_eq!(
        parse_progress_from_log("Chain ID:ab12%"),
        Some(progress(None, None, None, Some("ab12"), Some(12), None))
    );
    // The offset of the first digit is counted in the trimmed text.
    assert_eq!(
        parse_progress_from_log("Chain ID: ab12%"),
        Some(progress(None, None, None, Some("ab12"), None, None))
    );
    assert_eq!(
        parse_progress_from_log("Chain ID: abc%"),
        Some(progress(None, None, None, Some("abc"), None, None))
    );
    assert_eq!(parse_progress_from_log("Chain ID: 1"), None);
}

#[test]
fn the_first_label_counts() {
    assert_eq!(
        parse_progress_from_log(
            "Chain ID:7% Chain ID:8% Sync Time ETA: a ( Sync Time ETA: b ( blocks: 1/2 blocks: 3/4 "
        ),
        Some(progress(None, Some(1), Some(2), Some("7"), Some(7), Some("a")))
    );
}

#[test]
fn standard_output_brings_the_line_and_its_progress() {
    assert_eq!(
        stdout_messages("hello"),
        vec![IndexerLogMessage::Stdout("hello".to_string())]
    );
    assert_eq!(
        stdout_messages("blocks: 5/9 "),
        vec![
            IndexerLogMessage::Stdout("blocks: 5/9 ".to_string()),
            IndexerLogMessage::Progress(progress(None, Some(5), Some(9), None, None, None)),
        ]
    );
    assert_eq!(
        IndexerProgress::default(),
        progress(None, None, None, None, None, None)
    );
}

#[test]
fn statuses_have_names() {
    let cases = vec![
        (IndexerStatus::Configured, "Configured"),
        (IndexerStatus::Starting, "Starting"),
        (IndexerStatus::Running, "Running"),
        (IndexerStatus::Failed("no disk".to_string()), "Failed: no disk"),
        (IndexerStatus::Stopped, "Stopped"),
    ];
    for (status, text) in cases {
        assert_eq!(status.text(), text);
        assert_eq!(status.duplicate(), status);
    }
}

#[test]
fn probes_decide_the_status() {
    assert_eq!(status_from_probe(false, true, true), IndexerStatus::Stopped);
    assert_eq!(status_from_probe(true, false, true), IndexerStatus::Stopped);
    assert_eq!(status_from_probe(true, true, true), IndexerStatus::Running);
    assert_eq!(status_from_probe(true, true, false), IndexerStatus::Starting);
}

#[test]
fn errors_have_messages() {
    let cases = vec![
        (EnvioError::Io("x".to_string()), "IO error: x"),
        (
            EnvioError::ProcessOutput("x".to_string()),
            "Failed to capture process output: x",
        ),
        (EnvioError::ProcessFailed("x".to_string()), "Process failed: x"),
        (EnvioError::InvalidState("x".to_string()), "Invalid state: x"),
        (EnvioError::DockerError("x".to_string()), "Docker error: x"),
        (EnvioError::ReqwestError("x".to_string()), "Reqwest error: x"),
        (
            EnvioError::SerdeJsonError("x".to_string()),
            "Serde JSON error: x",
        ),
        (EnvioError::JoinError("x".to_string()), "Join error: x"),
        (EnvioError::RexpectError("x".to_string()), "rexpect error: x"),
    ];
    for (error, message) in cases {
        assert_eq!(error.message(), message);
    }
}

#[test]
fn abi_comes_from_the_source() {
    let abi = |abi: Option<&str>, url: Option<&str>| ContractSource::Abi {
        abi: abi.map(|s| s.to_string()),
        url: url.map(|s| s.to_string()),
    };
    assert_eq!(
        abi_request(&abi(Some("[]"), Some("http://x")), None),
        Ok(AbiRequest::Inline("[]".to_string()))
    );
    assert_eq!(
        abi_request(&abi(None, Some("http://x")), Some("http://env".to_string())),
        Ok(AbiRequest::Fetch("http://x".to_string()))
    );
    assert_eq!(
        abi_request(&abi(None, None), None),
        Err(EnvioError::InvalidState("No ABI source provided".to_string()))
    );
    let explorer = |api_url: &str| ContractSource::Explorer {
        api_url: api_url.to_string(),
    };
    assert_eq!(
        abi_request(&explorer("http://e"), Some("http://env".to_string())),
        Ok(AbiRequest::Fetch("http://e".to_string()))
    );
    assert_eq!(
        abi_request(&explorer(""), Some("http://env".to_string())),
        Ok(AbiRequest::Fetch("http://env".to_string()))
    );
    assert_eq!(
        abi_request(&explorer(""), None),
        Ok(AbiRequest::Fetch("https://envio.dev/api".to_string()))
    );
    assert_eq!(
        abi_request(&ContractSource::Inferred, None),
        Err(EnvioError::InvalidState(
            "No ABI source provided, it is inferred from the contract address and network"
                .to_string()
        ))
    );
}

// ---------------------------------------------------------------------------
// Log filter
// ---------------------------------------------------------------------------

fn out(line: &str) -> IndexerLogMessage {
    IndexerLogMessage::Stdout(line.to_string())
}

#[test]
fn filter_drops_blank_and_repeated_lines() {
    let mut filter = LogFilter::new();
    assert_eq!(filter.accept(out(""), 0), None);
    assert_eq!(filter.accept(out("  \t "), 0), None);
    assert_eq!(filter.accept(out("hello"), 0), Some("hello".to_string()));
    assert_eq!(filter.accept(out("hello"), 0), None);
    assert_eq!(filter.accept(out(" hello"), 0), Some(" hello".to_string()));
    assert_eq!(filter.accept(out("world"), u128::MAX), Some("world".to_string()));
    assert_eq!(filter.accept(out("hello"), u128::MAX), None);
}

#[test]
fn filter_always_shows_state_lines() {
    let mut filter = LogFilter::new();
    for line in [
        "Events Processed: 5",
        "Sync Time ETA: 1m",
        "GraphQL: http://localhost:8080",
        "Chain ID: 1",
    ] {
        assert_eq!(filter.accept(out(line), 0), Some(line.to_string()));
        assert_eq!(filter.accept(out(line), 0), Some(line.to_string()));
    }
}

#[test]
fn filter_announces_the_logo_once() {
    let top = "  \u{2588}\u{2588}\u{2588}\u{2588}\u{2588}\u{2588}\u{2588}\u{2557} x";
    let other = "\u{2588}\u{2588}\u{2554}\u{2550}\u{2550}\u{2550}\u{2550}\u{255d}";
    let short = "\u{2588}\u{2588}\u{2588}\u{2588}\u{2588}\u{2557}";
    let bottom = "\u{255a}\u{2550}\u{2550}\u{2550}\u{2550}\u{2550}\u{2550}\u{255d}";
    let mut filter = LogFilter::new();
    // Other parts of the logo do not announce it.
    assert_eq!(filter.accept(out(other), 0), None);
    assert_eq!(filter.accept(out(short), 0), None);
    assert_eq!(
        filter.accept(out(top), 0),
        Some("[Indexer Logo displayed]".to_string())
    );
    assert_eq!(filter.accept(out(top), 0), None);
    assert_eq!(filter.accept(out(bottom), 0), None);
    assert_eq!(
        filter.accept(out("\u{2588}\u{2588}\u{2554}\u{2550}\u{2550}\u{255d}"), 0),
        None
    );
    // A logo line is held back even if it reports on the state.
    assert_eq!(
        filter.accept(out(&format!("{} Chain ID: 1", bottom)), 0),
        None
    );
}

#[test]
fn filter_marks_errors() {
    let mut filter = LogFilter::new();
    let err = |line: &str| IndexerLogMessage::Stderr(line.to_string());
    assert_eq!(filter.accept(err("boom"), 0), Some("ERROR: boom".to_string()));
    assert_eq!(filter.accept(err("boom"), 0), Some("ERROR: boom".to_string()));
    assert_eq!(filter.accept(err(""), 0), Some("ERROR: ".to_string()));
}

#[test]
fn filter_passes_progress_that_matters() {
    let five_seconds: u128 = 5_000_000_000;
    let mut filter = LogFilter::new();
    let first = progress(Some(10), Some(1), Some(100), Some("1"), Some(10), Some("5m"));
    let send = |p: &IndexerProgress| IndexerLogMessage::Progress(p.clone());
    assert_eq!(
        filter.accept(send(&first), 0),
        Some("PROGRESS: Events: 10, Blocks: 1/100, Chain: 1, 10%, ETA: 5m".to_string())
    );
    // The same again does not matter.
    assert_eq!(filter.accept(send(&first), 0), None);
    assert_eq!(filter.accept(send(&first), five_seconds), None);
    // More than five seconds have gone by.
    assert!(filter.accept(send(&first), five_seconds + 1).is_some());
    // Blocks alone do not matter, nor do four points.
    let blocks = progress(Some(10), Some(50), Some(200), Some("1"), Some(14), Some("5m"));
    assert_eq!(filter.accept(send(&blocks), 0), None);
    // Five points do, up or down.
    let up = progress(Some(10), Some(50), Some(200), Some("1"), Some(15), Some("5m"));
    assert_eq!(
        filter.accept(send(&up), 0),
        Some("PROGRESS: Events: 10, Blocks: 50/200, Chain: 1, 15%, ETA: 5m".to_string())
    );
    let down = progress(Some(10), Some(50), Some(200), Some("1"), Some(10), Some("5m"));
    assert!(filter.accept(send(&down), 0).is_some());
    // A percentage that is missing on one side does not matter.
    let unknown = progress(Some(10), Some(50), Some(200), Some("1"), None, Some("5m"));
    assert_eq!(filter.accept(send(&unknown), 0), None);
    // Events, chain and estimate do.
    let events = progress(Some(11), Some(50), Some(200), Some("1"), Some(10), Some("5m"));
    assert!(filter.accept(send(&events), 0).is_some());
    let chain = progress(Some(11), Some(50), Some(200), Some("2"), Some(10), Some("5m"));
    assert!(filter.accept(send(&chain), 0).is_some());
    let eta = progress(Some(11), Some(50), Some(200), Some("2"), Some(10), None);
    assert_eq!(
        filter.accept(send(&eta), 0),
        Some("PROGRESS: Events: 11, Blocks: 50/200, Chain: 2, 10%, ETA: unknown".to_string())
    );
    let nothing = IndexerProgress::default();
    assert_eq!(
        filter.accept(send(&nothing), 0),
        Some("PROGRESS: Events: 0, Blocks: 0/0, Chain: unknown, 0%, ETA: unknown".to_string())
    );
}

// ---------------------------------------------------------------------------
// Records
// ---------------------------------------------------------------------------

#[test]
fn identifiers_are_made_of_name_and_tag() {
    assert_eq!(indexer_id_from("my indexer-v2", "tag"), "indexer_my_indexer_v2_tag");
    assert_eq!(indexer_id_from("", ""), "indexer__");
    assert_eq!(indexer_id_from(" - ", "a-b c"), "indexer_____a-b c");
    let id = generate_indexer_id("Multi Network-Test");
    assert!(id.starts_with("indexer_multi_network_test_"));
    assert_eq!(id.len(), "indexer_multi_network_test_".len() + 36);
    assert_ne!(id, generate_indexer_id("Multi Network-Test"));
}

#[test]
fn log_entries_are_stamped() {
    assert_eq!(log_entry_at("noon", "Indexer created"), "[noon] Indexer created");
    assert_eq!(log_entry_at("", ""), "[] ");
    let entry = log_entry_now("Indexer stopped");
    assert!(entry.starts_with('['));
    assert!(entry.ends_with("] Indexer stopped"));
    assert!(entry.len() > "[] Indexer stopped".len());
    assert_eq!(stopped_message("abc"), "Successfully stopped indexer abc");
}

#[test]
fn probes_are_due_after_five_seconds() {
    let five_seconds: u128 = 5_000_000_000;
    assert!(!due_for_probe(&IndexerStatus::Starting, five_seconds));
    assert!(due_for_probe(&IndexerStatus::Starting, five_seconds + 1));
    assert!(due_for_probe(&IndexerStatus::Running, five_seconds + 1));
    assert!(!due_for_probe(&IndexerStatus::Running, 0));
    assert!(!due_for_probe(&IndexerStatus::Configured, u128::MAX));
    assert!(!due_for_probe(&IndexerStatus::Stopped, u128::MAX));
    assert!(!due_for_probe(
        &IndexerStatus::Failed("x".to_string()),
        u128::MAX
    ));
}

#[test]
fn records_keep_a_log() {
    let mut record = IndexerRecord::configured("id-1".to_string(), create_usdc_contract(), "t0");
    assert_eq!(record.status, IndexerStatus::Configured);
    assert_eq!(record.logs, vec!["[t0] Indexer created".to_string()]);
    assert_eq!(
        record.mark_start_failed("no disk"),
        "Failed to start indexer: no disk"
    );
    assert_eq!(record.status, IndexerStatus::Failed("no disk".to_string()));
    assert_eq!(record.logs.len(), 1);
    record.mark_started("t1");
    assert_eq!(record.status, IndexerStatus::Starting);
    record.record_probe("t2", Ok(IndexerStatus::Running));
    assert_eq!(record.status, IndexerStatus::Running);
    record.record_probe("t3", Err("timeout".to_string()));
    assert_eq!(record.status, IndexerStatus::Running);
    record.record_probe("t4", Ok(IndexerStatus::Failed("crash".to_string())));
    record.mark_stopped("t5", Some("kill failed"));
    assert_eq!(record.status, IndexerStatus::Stopped);
    record.mark_stopped("t6", None);
    assert_eq!(
        record.logs,
        vec![
            "[t0] Indexer created".to_string(),
            "[t1] Indexer started".to_string(),
            "[t2] Status updated: Running".to_string(),
            "[t3] Error monitoring indexer: timeout".to_string(),
            "[t4] Status updated: Failed: crash".to_string(),
            "[t5] Error stopping indexer: kill failed".to_string(),
            "[t5] Indexer stopped".to_string(),
            "[t6] Indexer stopped".to_string(),
        ]
    );
    assert_eq!(record.id, "id-1");
    assert_eq!(record.config, create_usdc_contract());
}

#[test]
fn records_are_found_by_identifier() {
    let record = |id: &str| IndexerRecord::configured(id.to_string(), create_usdc_contract(), "t");
    let mut records = Vec::new();
    assert_eq!(
        find_record(&records, "a"),
        Err("Indexer a not found".to_string())
    );
    assert_eq!(add_record(&mut records, record("a")), Ok(()));
    assert_eq!(add_record(&mut records, record("b")), Ok(()));
    assert_eq!(
        add_record(&mut records, record("a")),
        Err("Indexer with id a already exists".to_string())
    );
    assert_eq!(records.len(), 2);
    assert_eq!(find_record(&records, "a"), Ok(0));
    assert_eq!(find_record(&records, "b"), Ok(1));
    assert_eq!(
        find_record(&records, "A"),
        Err("Indexer A not found".to_string())
    );
    assert_eq!(list_ids(&records), vec!["a".to_string(), "b".to_string()]);
}

#[test]
fn job_types_hold_their_fields() {
    let params = SpawnIndexerParams {
        config: create_usdc_contract(),
    };
    assert_eq!(params.config.name, "usdc_indexer_test");
    let result = SpawnIndexerResult {
        id: "x".to_string(),
        message: "Indexer spawned successfully".to_string(),
    };
    assert_eq!(result.clone(), result);
    assert_eq!(DeploymentMode::Local, DeploymentMode::Local);
}

#[test]
fn registry_keeps_identifiers_distinct() {
    let record = |id: &str| IndexerRecord::configured(id.to_string(), create_usdc_contract(), "t");
    let mut registry = IndexerRegistry::new();
    assert!(registry.list_indexers().is_empty());
    assert_eq!(
        registry.get_indexer_status("a"),
        Err("Indexer a not found".to_string())
    );
    assert_eq!(registry.insert(record("a")), Ok(()));
    assert_eq!(registry.insert(record("b")), Ok(()));
    assert_eq!(
        registry.insert(record("a")),
        Err("Indexer with id a already exists".to_string())
    );
    assert_eq!(
        registry.list_indexers(),
        vec!["a".to_string(), "b".to_string()]
    );
    assert_eq!(
        registry.get_indexer_status("b"),
        Ok(IndexerStatus::Configured)
    );
    let mut changed = registry.get("b").unwrap().clone();
    changed.mark_started("t1");
    assert_eq!(registry.replace(changed.clone()), Ok(()));
    assert_eq!(registry.get_indexer_status("b"), Ok(IndexerStatus::Starting));
    assert_eq!(registry.get_indexer_status("a"), Ok(IndexerStatus::Configured));
    assert_eq!(registry.get("b"), Ok(&changed));
    assert_eq!(
        registry.replace(record("c")),
        Err("Indexer c not found".to_string())
    );
    assert_eq!(registry.get("c").err(), Some("Indexer c not found".to_string()));
    assert_eq!(registry.list_indexers().len(), 2);
}

#[test]
fn codegen_and_health_follow_the_process() {
    assert_eq!(codegen_outcome(true, true), Ok(()));
    assert_eq!(
        codegen_outcome(false, true),
        Err(EnvioError::InvalidState(
            "config.yaml not found. Project may not be properly initialized".to_string()
        ))
    );
    assert_eq!(
        codegen_outcome(true, false),
        Err(EnvioError::ProcessFailed("Codegen failed".to_string()))
    );
    assert_eq!(may_start(false), Ok(()));
    assert_eq!(
        may_start(true),
        Err(EnvioError::InvalidState(
            "Project already has a running process".to_string()
        ))
    );
    assert_eq!(start_outcome(None), Ok(()));
    assert_eq!(start_outcome(Some((true, "exit status: 0".to_string()))), Ok(()));
    assert_eq!(
        start_outcome(Some((false, "exit status: 1".to_string()))),
        Err(EnvioError::ProcessFailed(
            "Indexer process exited immediately with status: exit status: 1".to_string()
        ))
    );
    assert!(!health_of(false, None));
    assert!(!health_of(false, Some(true)));
    assert!(health_of(true, None));
    assert!(health_of(true, Some(true)));
    assert!(!health_of(true, Some(false)));
    let listing = "  PID TTY      STAT   TIME COMMAND\n  101 ?        Ss     0:00 node /work/idx/node_modules/envio dev\n  102 ?        Ss     0:00 node /work/other/envio dev\n  103 ?        Ss     0:00 vim /work/idx/notes\n  x04 ?        Ss     0:00 envio /work/idx\r\n  +105 pts/0   S+     0:00 envio codegen --dir /work/idx\n4294967296 ?   S      0:00 envio /work/idx\n4294967295 ?   S      0:00 envio /work/idx";
    assert_eq!(
        lingering_processes(listing, "/work/idx"),
        vec![101, 105, 4294967295]
    );
    assert_eq!(lingering_processes("", "/work/idx"), Vec::<u32>::new());
    assert_eq!(lingering_processes("7 envio", ""), vec![7]);
}

#[test]
fn database_settings_are_fixed() {
    let pair = |k: &str, v: &str| (k.to_string(), v.to_string());
    assert_eq!(
        postgres_environment(),
        vec![
            pair("POSTGRES_USER", "postgres"),
            pair("POSTGRES_PASSWORD", "postgres"),
            pair("POSTGRES_DB", "postgres"),
        ]
    );
    assert_eq!(
        database_environment("49153"),
        vec![
            pair("POSTGRES_HOST", "localhost"),
            pair("POSTGRES_PORT", "49153"),
            pair("POSTGRES_USER", "postgres"),
            pair("POSTGRES_PASSWORD", "postgres"),
            pair("POSTGRES_DB", "postgres"),
        ]
    );
    assert_eq!(
        assignments(&vec![pair("A", "1"), pair("", ""), pair("B=", "=2")]),
        vec!["A=1".to_string(), "=".to_string(), "B===2".to_string()]
    );
    assert_eq!(EnvioDocker::new(), EnvioDocker::default());
    assert_eq!(EnvioDocker::new().postgres_id, None);
}
