//! A generated indexer project: its status, and the progress it reports in its log.

use vstd::prelude::*;
use vstd::string::*;

verus! {

use super::config::ContractSource;
use crate::decimal::{is_digit, is_digit_char, parse_bounded, parse_unsigned};
use crate::text::{
    chars_of,
    find_char_from,
    find_str,
    index_of_char,
    is_space,
    is_space_char,
    leading_nonspaces,
    lemma_index_of_char,
    lemma_leading_nonspaces,
    replace_char,
    replaced,
    search,
    slice_chars,
    string_of,
    trim,
    trimmed,
};

/// What can go wrong with a project.
#[derive(Debug, Clone, PartialEq, Eq)]
pub enum EnvioError {
    Io(String),
    ProcessOutput(String),
    ProcessFailed(String),
    InvalidState(String),
    DockerError(String),
    ReqwestError(String),
    SerdeJsonError(String),
    JoinError(String),
    RexpectError(String),
}

/// The message of an error, as text.
pub open spec fn error_message(error: EnvioError) -> Seq<char> {
    match error {
        EnvioError::Io(detail) => "IO error: "@ + detail@,
        EnvioError::ProcessOutput(detail) => "Failed to capture process output: "@ + detail@,
        EnvioError::ProcessFailed(detail) => "Process failed: "@ + detail@,
        EnvioError::InvalidState(detail) => "Invalid state: "@ + detail@,
        EnvioError::DockerError(detail) => "Docker error: "@ + detail@,
        EnvioError::ReqwestError(detail) => "Reqwest error: "@ + detail@,
        EnvioError::SerdeJsonError(detail) => "Serde JSON error: "@ + detail@,
        EnvioError::JoinError(detail) => "Join error: "@ + detail@,
        EnvioError::RexpectError(detail) => "rexpect error: "@ + detail@,
    }
}

impl EnvioError {
    /// The message of this error.
    pub fn message(&self) -> (r: String)
        ensures
            r@ == error_message(*self),
    {
        let (label, detail) = match self {
            EnvioError::Io(detail) => ("IO error: ", detail),
            EnvioError::ProcessOutput(detail) => ("Failed to capture process output: ", detail),
            EnvioError::ProcessFailed(detail) => ("Process failed: ", detail),
            EnvioError::InvalidState(detail) => ("Invalid state: ", detail),
            EnvioError::DockerError(detail) => ("Docker error: ", detail),
            EnvioError::ReqwestError(detail) => ("Reqwest error: ", detail),
            EnvioError::SerdeJsonError(detail) => ("Serde JSON error: ", detail),
            EnvioError::JoinError(detail) => ("Join error: ", detail),
            EnvioError::RexpectError(detail) => ("rexpect error: ", detail),
        };
        let mut r = String::from_str(label);
        r.append(detail.as_str());
        r
    }
}

/// What an indexer's log brings.
#[derive(Debug, Clone, PartialEq, Eq)]
pub enum IndexerLogMessage {
    /// A line of standard output.
    Stdout(String),
    /// A line of standard error.
    Stderr(String),
    /// Progress read from a line of standard output.
    Progress(IndexerProgress),
}

/// Where an indexer stands.
#[derive(Debug, Clone, PartialEq, Eq)]
pub enum IndexerStatus {
    Configured,
    Starting,
    Running,
    Failed(String),
    Stopped,
}

/// The name of a status; a failure's reason follows its name.
pub open spec fn status_text(status: IndexerStatus) -> Seq<char> {
    match status {
        IndexerStatus::Configured => "Configured"@,
        IndexerStatus::Starting => "Starting"@,
        IndexerStatus::Running => "Running"@,
        IndexerStatus::Failed(reason) => "Failed: "@ + reason@,
        IndexerStatus::Stopped => "Stopped"@,
    }
}

impl IndexerStatus {
    /// The name of this status.
    pub fn text(&self) -> (r: String)
        ensures
            r@ == status_text(*self),
    {
        match self {
            IndexerStatus::Configured => String::from_str("Configured"),
            IndexerStatus::Starting => String::from_str("Starting"),
            IndexerStatus::Running => String::from_str("Running"),
            IndexerStatus::Failed(reason) => {
                let mut r = String::from_str("Failed: ");
                r.append(reason.as_str());
                r
            },
            IndexerStatus::Stopped => String::from_str("Stopped"),
        }
    }

    /// A copy of this status.
    pub fn duplicate(&self) -> (r: IndexerStatus)
        ensures
            r == *self,
    {
        match self {
            IndexerStatus::Configured => IndexerStatus::Configured,
            IndexerStatus::Starting => IndexerStatus::Starting,
            IndexerStatus::Running => IndexerStatus::Running,
            IndexerStatus::Failed(reason) => IndexerStatus::Failed(reason.clone()),
            IndexerStatus::Stopped => IndexerStatus::Stopped,
        }
    }
}

/// The status of an indexer as far as probing shows it: stopped if no process is known
/// or the process is gone, running if its health endpoint answers, and starting
/// otherwise.
pub fn status_from_probe(has_process: bool, process_alive: bool, healthy: bool) -> (r:
    IndexerStatus)
    ensures
        r == if !has_process || !process_alive {
            IndexerStatus::Stopped
        } else if healthy {
            IndexerStatus::Running
        } else {
            IndexerStatus::Starting
        },
{
    if !has_process || !process_alive {
        IndexerStatus::Stopped
    } else if healthy {
        IndexerStatus::Running
    } else {
        IndexerStatus::Starting
    }
}

/// Progress as an indexer reports it in a line of its log.
#[derive(Debug, Clone, PartialEq, Eq)]
pub struct IndexerProgress {
    pub events_processed: Option<usize>,
    pub blocks_current: Option<usize>,
    pub blocks_total: Option<usize>,
    pub chain_id: Option<String>,
    pub percentage: Option<usize>,
    pub eta: Option<String>,
}

impl Default for IndexerProgress {
    fn default() -> (r: Self)
        ensures
            r@ == no_progress(),
    {
        IndexerProgress {
            events_processed: None,
            blocks_current: None,
            blocks_total: None,
            chain_id: None,
            percentage: None,
            eta: None,
        }
    }
}

/// Progress as a mathematical value.
pub struct ProgressView {
    pub events_processed: Option<usize>,
    pub blocks_current: Option<usize>,
    pub blocks_total: Option<usize>,
    pub chain_id: Option<Seq<char>>,
    pub percentage: Option<usize>,
    pub eta: Option<Seq<char>>,
}

/// The text of an optional string.
pub open spec fn option_text(s: Option<String>) -> Option<Seq<char>> {
    match s {
        Some(text) => Some(text@),
        None => None,
    }
}

impl View for IndexerProgress {
    type V = ProgressView;

    open spec fn view(&self) -> ProgressView {
        ProgressView {
            events_processed: self.events_processed,
            blocks_current: self.blocks_current,
            blocks_total: self.blocks_total,
            chain_id: option_text(self.chain_id),
            percentage: self.percentage,
            eta: option_text(self.eta),
        }
    }
}

/// Progress of which nothing is known.
pub open spec fn no_progress() -> ProgressView {
    ProgressView {
        events_processed: None,
        blocks_current: None,
        blocks_total: None,
        chain_id: None,
        percentage: None,
        eta: None,
    }
}

/// The number that a text denotes, if it is a numeral.
pub open spec fn plain_count(text: Seq<char>) -> Option<usize> {
    match parse_unsigned(text, usize::MAX as nat) {
        Some(n) => Some(n as usize),
        None => None,
    }
}

/// The number that a text denotes once it is trimmed and its commas are removed.
pub open spec fn grouped_count(text: Seq<char>) -> Option<usize> {
    plain_count(replace_char(trim(text), ',', Seq::empty()))
}

/// The number of characters at the start of `s` that are no ASCII digits.
pub open spec fn leading_nondigits(s: Seq<char>) -> nat
    decreases s.len(),
{
    if s.len() > 0 && !is_digit(s[0]) {
        1 + leading_nondigits(s.skip(1))
    } else {
        0
    }
}

pub proof fn lemma_leading_nondigits(s: Seq<char>, k: int)
    requires
        0 <= k <= s.len(),
        forall|j: int| 0 <= j < k ==> !is_digit(s[j]),
        k < s.len() ==> is_digit(s[k]),
    ensures
        leading_nondigits(s) == k,
    decreases k,
{
    if k > 0 {
        let t = s.skip(1);
        assert forall|j: int| 0 <= j < k - 1 implies !is_digit(t[j]) by {
            assert(t[j] == s[j + 1]);
        }
        lemma_leading_nondigits(t, k - 1);
    }
}

/// The events processed: the number between `Events Processed:` and the next
/// `blocks:`.
pub open spec fn events_of(line: Seq<char>) -> Option<usize> {
    let label = "Events Processed:"@;
    let at = search(line, label);
    if at < 0 {
        None
    } else {
        let end = search(line.skip(at), "blocks:"@);
        if end < label.len() {
            None
        } else {
            grouped_count(line.subrange(at + label.len(), at + end))
        }
    }
}

/// What follows the first `blocks:` up to the next slash, if both are there.
pub open spec fn blocks_head(line: Seq<char>) -> Option<Seq<char>> {
    let label = "blocks:"@;
    let at = search(line, label);
    if at < 0 {
        None
    } else {
        let part = line.skip(at + label.len());
        let slash = index_of_char(part, '/');
        if slash >= part.len() {
            None
        } else {
            Some(part.take(slash as int))
        }
    }
}

/// What follows the slash after the first `blocks:` up to the next whitespace, if all
/// three are there.
pub open spec fn blocks_tail(line: Seq<char>) -> Option<Seq<char>> {
    let label = "blocks:"@;
    let at = search(line, label);
    if at < 0 {
        None
    } else {
        let part = line.skip(at + label.len());
        let slash = index_of_char(part, '/');
        if slash >= part.len() {
            None
        } else {
            let rest = part.skip(slash as int + 1);
            let end = leading_nonspaces(rest);
            if end >= rest.len() {
                None
            } else {
                Some(rest.take(end as int))
            }
        }
    }
}

/// What follows the first `Chain ID:` up to the next percent sign, if both are there.
pub open spec fn chain_head(line: Seq<char>) -> Option<Seq<char>> {
    let label = "Chain ID:"@;
    let at = search(line, label);
    if at < 0 {
        None
    } else {
        let part = line.skip(at + label.len());
        let end = index_of_char(part, '%');
        if end >= part.len() {
            None
        } else {
            Some(part.take(end as int))
        }
    }
}

/// The percentage in the text before a percent sign: the number that the text denotes
/// from an offset on, the offset being that of the first digit in the trimmed text.
pub open spec fn percentage_of(head: Seq<char>) -> Option<usize> {
    let offset = leading_nondigits(trim(head));
    if offset >= trim(head).len() {
        None
    } else {
        plain_count(trim(head.skip(offset as int)))
    }
}

/// The estimate: what follows the first `Sync Time ETA:` up to the next opening
/// parenthesis, trimmed, if both are there.
pub open spec fn eta_of(line: Seq<char>) -> Option<Seq<char>> {
    let label = "Sync Time ETA:"@;
    let at = search(line, label);
    if at < 0 {
        None
    } else {
        let part = line.skip(at + label.len());
        let end = index_of_char(part, '(');
        if end >= part.len() {
            None
        } else {
            Some(trim(part.take(end as int)))
        }
    }
}

/// Everything that a line of the log says about progress.
pub open spec fn progress_fields(line: Seq<char>) -> ProgressView {
    ProgressView {
        events_processed: events_of(line),
        blocks_current: match blocks_head(line) {
            Some(head) => grouped_count(head),
            None => None,
        },
        blocks_total: match blocks_tail(line) {
            Some(tail) => grouped_count(tail),
            None => None,
        },
        chain_id: match chain_head(line) {
            Some(head) => Some(trim(head)),
            None => None,
        },
        percentage: match chain_head(line) {
            Some(head) => percentage_of(head),
            None => None,
        },
        eta: eta_of(line),
    }
}

/// The progress that a line of the log reports: its fields, if the line gives the
/// events processed, the current block, the chain or the estimate; nothing otherwise.
pub open spec fn progress_of(line: Seq<char>) -> Option<ProgressView> {
    let fields = progress_fields(line);
    if fields.events_processed is Some || fields.blocks_current is Some || fields.chain_id is Some
        || fields.eta is Some {
        Some(fields)
    } else {
        None
    }
}

/// The number that `text` denotes, if it is a numeral.
pub fn read_plain_count(text: &Vec<char>) -> (r: Option<usize>)
    ensures
        r == plain_count(text@),
{
    match parse_bounded(text, usize::MAX as u64) {
        Some(n) => Some(n as usize),
        None => None,
    }
}

/// The number that `text` denotes once it is trimmed and its commas are removed.
pub fn read_grouped_count(text: &Vec<char>) -> (r: Option<usize>)
    ensures
        r == grouped_count(text@),
{
    let bare = trimmed(text);
    let nothing: Vec<char> = Vec::new();
    let digits = replaced(&bare, ',', &nothing);
    read_plain_count(&digits)
}

/// The text between the first occurrence of `label` and the next `stop` after it.
pub fn between(line: &Vec<char>, label: &str, stop: char) -> (r: Option<Vec<char>>)
    ensures
        ({
            let at = search(line@, label@);
            let part = line@.skip(at + label@.len());
            let end = index_of_char(part, stop);
            if at < 0 || end >= part.len() {
                r is None
            } else {
                r is Some && r->0@ == part.take(end as int)
            }
        }),
{
    match find_str(line, label) {
        None => None,
        Some(at) => {
            let label_len = label.unicode_len();
            assert(at + label_len <= line.len());
            let start = at + label_len;
            let end = find_char_from(line, stop, start);
            proof {
                let part = line@.skip(start as int);
                assert forall|j: int| 0 <= j < end - start implies part[j] != stop by {
                    assert(part[j] == line@[start + j]);
                }
                assert(end < line.len() ==> part[end - start] == line@[end as int]);
                lemma_index_of_char(part, stop, end - start);
                assert(part.take(end - start) == line@.subrange(start as int, end as int));
            }
            if end == line.len() {
                None
            } else {
                Some(slice_chars(line, start, end))
            }
        },
    }
}

/// The events processed that `line` reports.
pub fn read_events(line: &Vec<char>) -> (r: Option<usize>)
    ensures
        r == events_of(line@),
{
    match find_str(line, "Events Processed:") {
        None => None,
        Some(at) => {
            let label_len = "Events Processed:".unicode_len();
            let rest = slice_chars(line, at, line.len());
            assert(rest@ == line@.skip(at as int));
            match find_str(&rest, "blocks:") {
                None => None,
                Some(end) => {
                    if end < label_len {
                        None
                    } else {
                        let text = slice_chars(line, at + label_len, at + end);
                        read_grouped_count(&text)
                    }
                },
            }
        },
    }
}

/// The total of blocks that `line` reports.
pub fn read_blocks_total(line: &Vec<char>) -> (r: Option<usize>)
    ensures
        r == match blocks_tail(line@) {
            Some(tail) => grouped_count(tail),
            None => None,
        },
{
    match find_str(line, "blocks:") {
        None => None,
        Some(at) => {
            let label_len = "blocks:".unicode_len();
            assert(at + label_len <= line.len());
            let start = at + label_len;
            let slash = find_char_from(line, '/', start);
            proof {
                let part = line@.skip(start as int);
                assert forall|j: int| 0 <= j < slash - start implies part[j] != '/' by {
                    assert(part[j] == line@[start + j]);
                }
                assert(slash < line.len() ==> part[slash - start] == line@[slash as int]);
                lemma_index_of_char(part, '/', slash - start);
            }
            if slash == line.len() {
                return None;
            }
            assert(line@.skip(start as int).skip(slash - start + 1) == line@.skip(slash + 1));
            let mut end: usize = slash + 1;
            while end < line.len() && !is_space_char(line[end])
                invariant
                    slash + 1 <= end <= line.len(),
                    forall|j: int| slash + 1 <= j < end ==> !is_space(line@[j]),
                decreases line.len() - end,
            {
                end += 1;
            }
            proof {
                let rest = line@.skip(slash + 1);
                assert forall|j: int| 0 <= j < end - (slash + 1) implies !is_space(rest[j]) by {
                    assert(rest[j] == line@[slash + 1 + j]);
                }
                assert(end < line.len() ==> rest[end - (slash + 1)] == line@[end as int]);
                lemma_leading_nonspaces(rest, end - (slash + 1));
                assert(rest.take(end - (slash + 1)) == line@.subrange(slash + 1, end as int));
            }
            if end == line.len() {
                None
            } else {
                let text = slice_chars(line, slash + 1, end);
                read_grouped_count(&text)
            }
        },
    }
}

/// The percentage in the text `head`, which stood before a percent sign.
pub fn read_percentage(head: &Vec<char>) -> (r: Option<usize>)
    ensures
        r == percentage_of(head@),
{
    let bare = trimmed(head);
    let mut offset: usize = 0;
    while offset < bare.len() && !is_digit_char(bare[offset])
        invariant
            offset <= bare.len(),
            forall|j: int| 0 <= j < offset ==> !is_digit(bare@[j]),
        decreases bare.len() - offset,
    {
        offset += 1;
    }
    proof {
        lemma_leading_nondigits(bare@, offset as int);
        crate::text::lemma_trim_is_shorter(head@);
    }
    if offset == bare.len() {
        None
    } else {
        let tail = slice_chars(head, offset, head.len());
        assert(tail@ == head@.skip(offset as int));
        let text = trimmed(&tail);
        read_plain_count(&text)
    }
}

/// The progress that a line of the log reports.
pub fn parse_progress_from_log(line: &str) -> (r: Option<IndexerProgress>)
    ensures
        r is Some <==> progress_of(line@) is Some,
        r is Some ==> Some(r->0@) == progress_of(line@),
{
    let chars = chars_of(line);
    let events_processed = read_events(&chars);
    let blocks_current = match between(&chars, "blocks:", '/') {
        Some(head) => read_grouped_count(&head),
        None => None,
    };
    let blocks_total = read_blocks_total(&chars);
    let chain = between(&chars, "Chain ID:", '%');
    let (chain_id, percentage) = match chain {
        Some(head) => (Some(string_of(&trimmed(&head))), read_percentage(&head)),
        None => (None, None),
    };
    let eta = match between(&chars, "Sync Time ETA:", '(') {
        Some(text) => Some(string_of(&trimmed(&text))),
        None => None,
    };
    if events_processed.is_some() || blocks_current.is_some() || chain_id.is_some()
        || eta.is_some() {
        Some(
            IndexerProgress {
                events_processed,
                blocks_current,
                blocks_total,
                chain_id,
                percentage,
                eta,
            },
        )
    } else {
        None
    }
}

/// What a line of an indexer's standard output brings: the line itself, and the
/// progress it reports if it reports any.
pub fn stdout_messages(line: &str) -> (r: Vec<IndexerLogMessage>)
    ensures
        r@.len() == if progress_of(line@) is Some {
            2int
        } else {
            1int
        },
        r@[0] matches IndexerLogMessage::Stdout(text) && text@ == line@,
        progress_of(line@) is Some ==> (r@[1] matches IndexerLogMessage::Progress(p) && Some(p@)
            == progress_of(line@)),
{
    let mut r: Vec<IndexerLogMessage> = Vec::new();
    r.push(IndexerLogMessage::Stdout(String::from_str(line)));
    match parse_progress_from_log(line) {
        Some(progress) => {
            r.push(IndexerLogMessage::Progress(progress));
        },
        None => {},
    }
    r
}

/// Where the ABI of a contract is to be had from.
#[derive(Debug, Clone, PartialEq, Eq)]
pub enum AbiRequest {
    /// The ABI is this text.
    Inline(String),
    /// The ABI is to be fetched from this URL.
    Fetch(String),
}

/// An ABI request as a mathematical value.
pub enum AbiRequestView {
    Inline(Seq<char>),
    Fetch(Seq<char>),
}

impl View for AbiRequest {
    type V = AbiRequestView;

    open spec fn view(&self) -> AbiRequestView {
        match self {
            AbiRequest::Inline(text) => AbiRequestView::Inline(text@),
            AbiRequest::Fetch(url) => AbiRequestView::Fetch(url@),
        }
    }
}

/// Where the ABI for a source is to be had from: an inline ABI before a URL; for an
/// explorer its own URL, or else the configured one, or else the public one. There is
/// none for an ABI source that gives neither text nor URL, nor for an inferred source.
pub open spec fn abi_request_for(source: ContractSource, configured_url: Option<Seq<char>>) -> Option<
    AbiRequestView,
> {
    match source {
        ContractSource::Abi { abi: Some(text), url: _ } => Some(AbiRequestView::Inline(text@)),
        ContractSource::Abi { abi: None, url: Some(url) } => Some(AbiRequestView::Fetch(url@)),
        ContractSource::Abi { abi: None, url: None } => None,
        ContractSource::Explorer { api_url } => if api_url@.len() > 0 {
            Some(AbiRequestView::Fetch(api_url@))
        } else {
            match configured_url {
                Some(url) => Some(AbiRequestView::Fetch(url)),
                None => Some(AbiRequestView::Fetch("https://envio.dev/api"@)),
            }
        },
        ContractSource::Inferred => None,
    }
}

/// Where the ABI for `source` is to be had from. `configured_url` is the explorer URL
/// that the environment gives, if it gives one.
pub fn abi_request(source: &ContractSource, configured_url: Option<String>) -> (r: Result<
    AbiRequest,
    EnvioError,
>)
    ensures
        r is Ok <==> abi_request_for(*source, option_text(configured_url)) is Some,
        r is Ok ==> Some(r->Ok_0@) == abi_request_for(*source, option_text(configured_url)),
        r is Err ==> r->Err_0 is InvalidState && r->Err_0->InvalidState_0@ == (if source
            is Inferred {
            "No ABI source provided, it is inferred from the contract address and network"@
        } else {
            "No ABI source provided"@
        }),
{
    match source {
        ContractSource::Abi { abi, url } => match abi {
            Some(text) => Ok(AbiRequest::Inline(text.clone())),
            None => match url {
                Some(url) => Ok(AbiRequest::Fetch(url.clone())),
                None => Err(EnvioError::InvalidState(String::from_str("No ABI source provided"))),
            },
        },
        ContractSource::Explorer { api_url } => {
            if api_url.as_str().unicode_len() > 0 {
                Ok(AbiRequest::Fetch(api_url.clone()))
            } else {
                match configured_url {
                    Some(url) => Ok(AbiRequest::Fetch(url)),
                    None => Ok(AbiRequest::Fetch(String::from_str("https://envio.dev/api"))),
                }
            }
        },
        ContractSource::Inferred => Err(
            EnvioError::InvalidState(
                String::from_str(
                    "No ABI source provided, it is inferred from the contract address and network",
                ),
            ),
        ),
    }
}

// ---------------------------------------------------------------------------
// Processes
// ---------------------------------------------------------------------------

/// Whether code generation may be said to have worked: the project must have its
/// configuration file, and the generator must have ended well.
pub fn codegen_outcome(config_present: bool, exited_well: bool) -> (r: Result<(), EnvioError>)
    ensures
        r is Ok <==> config_present && exited_well,
        !config_present ==> r is Err && r->Err_0 is InvalidState
            && r->Err_0->InvalidState_0@
            == "config.yaml not found. Project may not be properly initialized"@,
        config_present && !exited_well ==> r is Err && r->Err_0 is ProcessFailed
            && r->Err_0->ProcessFailed_0@ == "Codegen failed"@,
{
    if !config_present {
        Err(
            EnvioError::InvalidState(
                String::from_str("config.yaml not found. Project may not be properly initialized"),
            ),
        )
    } else if !exited_well {
        Err(EnvioError::ProcessFailed(String::from_str("Codegen failed")))
    } else {
        Ok(())
    }
}

/// Whether a project may be started: not while it has a running process.
pub fn may_start(has_process: bool) -> (r: Result<(), EnvioError>)
    ensures
        r is Ok <==> !has_process,
        r is Err ==> r->Err_0 is InvalidState && r->Err_0->InvalidState_0@
            == "Project already has a running process"@,
{
    if has_process {
        Err(EnvioError::InvalidState(String::from_str("Project already has a running process")))
    } else {
        Ok(())
    }
}

/// Whether an indexer that was just started can be said to run: it cannot if its process
/// has already ended badly. `exit` tells whether the process has ended, and if so, whether
/// it ended well and how its status reads.
pub fn start_outcome(exit: Option<(bool, String)>) -> (r: Result<(), EnvioError>)
    ensures
        match exit {
            Some((well, status)) => if well {
                r is Ok
            } else {
                r is Err && r->Err_0 is ProcessFailed && r->Err_0->ProcessFailed_0@
                    == "Indexer process exited immediately with status: "@ + status@
            },
            None => r is Ok,
        },
{
    match exit {
        Some((well, status)) => {
            if well {
                Ok(())
            } else {
                let mut message = String::from_str(
                    "Indexer process exited immediately with status: ",
                );
                message.append(status.as_str());
                Err(EnvioError::ProcessFailed(message))
            }
        },
        None => Ok(()),
    }
}

/// Whether an indexer is healthy: it is if it has a process that still runs or has ended
/// well.
pub fn health_of(has_process: bool, exited_well: Option<bool>) -> (r: bool)
    ensures
        r == (has_process && (exited_well is None || exited_well == Some(true))),
{
    if !has_process {
        false
    } else {
        match exited_well {
            Some(well) => well,
            None => true,
        }
    }
}

/// The process that a line of a process listing names, if the line is about the wizard
/// in the directory `dir`: the number that its first word denotes, if it denotes one.
pub open spec fn lingering_pid(line: Seq<char>, dir: Seq<char>) -> Option<u32> {
    if crate::text::contains(line, "envio"@) && crate::text::contains(line, dir)
        && crate::text::words(line).len() > 0 {
        match parse_unsigned(crate::text::words(line)[0], u32::MAX as nat) {
            Some(n) => Some(n as u32),
            None => None,
        }
    } else {
        None
    }
}

/// The processes that the first `count` lines name, in order.
pub open spec fn lingering_upto(lines: Seq<Seq<char>>, dir: Seq<char>, count: nat) -> Seq<u32>
    decreases count,
{
    if count == 0 || count > lines.len() {
        Seq::empty()
    } else {
        match lingering_pid(lines[count - 1], dir) {
            Some(pid) => lingering_upto(lines, dir, (count - 1) as nat).push(pid),
            None => lingering_upto(lines, dir, (count - 1) as nat),
        }
    }
}

/// The processes of the wizard in the directory `dir` that a process listing names, line
/// by line.
pub open spec fn lingering(listing: Seq<char>, dir: Seq<char>) -> Seq<u32> {
    let lines = crate::text::split_on(listing, '\n');
    lingering_upto(lines, dir, lines.len())
}

/// The process that a line of a process listing names, if the line is about the wizard
/// in the directory `dir`.
pub fn lingering_process(line: &Vec<char>, dir: &Vec<char>) -> (r: Option<u32>)
    ensures
        r == lingering_pid(line@, dir@),
{
    if !crate::text::contains_str(line, "envio") {
        return None;
    }
    match crate::text::find(line, dir) {
        None => None,
        Some(_) => {
            let parts = crate::text::split_words(line);
            if parts.len() == 0 {
                return None;
            }
            assert(crate::text::rows(parts@)[0] == parts@[0]@);
            match parse_bounded(&parts[0], 0xffff_ffff) {
                Some(n) => Some(n as u32),
                None => None,
            }
        },
    }
}

/// The processes of the wizard in the directory `dir` that a process listing names.
pub fn lingering_processes(listing: &str, dir: &str) -> (r: Vec<u32>)
    ensures
        r@ == lingering(listing@, dir@),
{
    let text = chars_of(listing);
    let wanted = chars_of(dir);
    let lines = crate::text::split_chars(&text, '\n');
    let ghost all = crate::text::rows(lines@);
    let mut found: Vec<u32> = Vec::new();
    let mut i: usize = 0;
    while i < lines.len()
        invariant
            i <= lines.len(),
            all == crate::text::rows(lines@),
            found@ == lingering_upto(all, wanted@, i as nat),
        decreases lines.len() - i,
    {
        assert(all[i as int] == lines@[i as int]@);
        match lingering_process(&lines[i], &wanted) {
            Some(pid) => {
                found.push(pid);
            },
            None => {},
        }
        i += 1;
    }
    found
}

} // verus!
