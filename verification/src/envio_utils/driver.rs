//! The state machine of an import run.
//!
//! An import run drives the wizard from launch to exit. The driver decides; whoever owns
//! the terminal acts. Each call of [`Driver::step`] takes what happened last (an
//! [`Event`]) and returns what to do next (a [`Command`]):
//!
//! ```text
//! Spawning -> Interacting -> Draining -> Reaping -> Done
//! ```
//!
//! The run has succeeded when it is done without a recorded failure. Whether the
//! generated project is really there is checked afterwards, by [`Driver::conclude`].

use vstd::prelude::*;
use vstd::string::*;

verus! {

use super::config::{all_deployed, ContractConfig};
use super::keys::{action_bytes, drain_bytes, encode_drain};
use super::planner::{
    advance_cursor,
    cursor_in_range,
    law_only_add_another_moves_the_cursor,
    law_plan_keeps_cursor_in_range,
    next_step,
    plan,
    plan_for,
    Action,
    ActionView,
    Cursor,
};
use super::prompt::{
    classify_chars,
    classify_window,
    table_view,
    PromptKind,
    PromptView,
    Signature,
    SignatureView,
};
use crate::text::{push_str_chars, texts};

/// Where an import run stands.
#[derive(Debug, Clone, Copy, PartialEq, Eq, Structural)]
pub enum Phase {
    /// The wizard is being launched.
    Spawning,
    /// Prompts are read and answered.
    Interacting,
    /// The wizard has been told to leave.
    Draining,
    /// The wizard's exit is awaited.
    Reaping,
    /// The run is over.
    Done,
}

/// How the wizard's process ended.
#[derive(Debug, Clone, Copy, PartialEq, Eq, Structural)]
pub enum ExitOutcome {
    ExitedWithCode(i32),
    Signaled(i32),
    Unknown,
}

/// Why an import run failed.
#[derive(Debug, Clone, Copy, PartialEq, Eq, Structural)]
pub enum ErrorKind {
    /// The wizard could not be launched.
    SpawnFailure,
    /// The terminal was closed while an answer was written.
    WriteFailure,
    /// The wizard printed nothing for longer than the ceiling allows.
    HangDetected,
    /// The wizard ended, or had to be ended, before it reported success.
    UnexpectedTermination,
    /// The wizard reported success but the project's configuration file is not there.
    ArtifactMissing,
}

/// A failed import run: why it failed, the last prompt that was classified, and where
/// the cursor stood.
#[derive(Debug, Clone, PartialEq, Eq)]
pub struct ImportError {
    pub kind: ErrorKind,
    pub last_prompt: PromptKind,
    pub cursor: Cursor,
}

/// A failed import run as a mathematical value.
pub struct ImportErrorView {
    pub kind: ErrorKind,
    pub last_prompt: PromptView,
    pub cursor: Cursor,
}

impl View for ImportError {
    type V = ImportErrorView;

    open spec fn view(&self) -> ImportErrorView {
        ImportErrorView { kind: self.kind, last_prompt: self.last_prompt@, cursor: self.cursor }
    }
}

/// What happened on the terminal since the last command.
#[derive(Debug, Clone, PartialEq, Eq)]
pub enum Event {
    /// The wizard was launched.
    Spawned,
    /// The wizard could not be launched.
    SpawnFailed,
    /// A read returned these lines; none if it timed out.
    Output(Vec<String>),
    /// The wizard's output has ended.
    EndOfInput,
    /// The bytes were written.
    Written,
    /// The bytes could not be written.
    WriteFailed,
    /// The wizard's process has ended.
    Exited(ExitOutcome),
}

/// An event as a mathematical value.
pub enum EventView {
    Spawned,
    SpawnFailed,
    Output(Seq<Seq<char>>),
    EndOfInput,
    Written,
    WriteFailed,
    Exited(ExitOutcome),
}

impl View for Event {
    type V = EventView;

    open spec fn view(&self) -> EventView {
        match self {
            Event::Spawned => EventView::Spawned,
            Event::SpawnFailed => EventView::SpawnFailed,
            Event::Output(lines) => EventView::Output(texts(lines@)),
            Event::EndOfInput => EventView::EndOfInput,
            Event::Written => EventView::Written,
            Event::WriteFailed => EventView::WriteFailed,
            Event::Exited(outcome) => EventView::Exited(*outcome),
        }
    }
}

/// What to do on the terminal next.
#[derive(Debug, Clone, PartialEq, Eq)]
pub enum Command {
    /// Launch the wizard with this command line.
    Spawn(String),
    /// Read the lines that arrive before the read's timeout.
    Read,
    /// Write these bytes.
    Write(Vec<u8>),
    /// Wait for the wizard's process to end.
    WaitForExit,
    /// Release the terminal and the process: the run is over.
    Stop,
}

/// A command as a mathematical value.
pub enum CommandView {
    Spawn(Seq<char>),
    Read,
    Write(Seq<u8>),
    WaitForExit,
    Stop,
}

impl View for Command {
    type V = CommandView;

    open spec fn view(&self) -> CommandView {
        match self {
            Command::Spawn(line) => CommandView::Spawn(line@),
            Command::Read => CommandView::Read,
            Command::Write(bytes) => CommandView::Write(bytes@),
            Command::WaitForExit => CommandView::WaitForExit,
            Command::Stop => CommandView::Stop,
        }
    }
}

/// The state of an import run as a mathematical value.
pub struct DriverView {
    /// The contracts to import, fixed for the run.
    pub contracts: Seq<ContractConfig>,
    /// The signature table that prompts are classified by.
    pub table: Seq<SignatureView>,
    /// The wizard's chain menu.
    pub chains: Seq<Seq<char>>,
    /// How many reads in a row may come back empty.
    pub hang_ceiling: usize,
    pub phase: Phase,
    pub cursor: Cursor,
    /// The last prompt that was classified.
    pub last_prompt: PromptView,
    /// The output read since the last prompt was classified.
    pub buffer: Seq<char>,
    /// How many reads in a row have come back empty.
    pub idle_reads: usize,
    /// The first failure of the run, if there was one.
    pub failure: Option<ErrorKind>,
}

impl DriverView {
    /// The contract list is not empty, every contract has a deployment, and the cursor
    /// points at one of them.
    pub open spec fn wf(self) -> bool {
        &&& self.contracts.len() > 0
        &&& all_deployed(self.contracts)
        &&& cursor_in_range(self.cursor, self.contracts)
    }

    /// The run is over and no failure was recorded.
    pub open spec fn succeeded(self) -> bool {
        self.phase == Phase::Done && self.failure is None
    }
}

/// The state in which a run starts.
pub open spec fn initial_state(
    contracts: Seq<ContractConfig>,
    table: Seq<SignatureView>,
    chains: Seq<Seq<char>>,
    hang_ceiling: usize,
) -> DriverView {
    DriverView {
        contracts,
        table,
        chains,
        hang_ceiling,
        phase: Phase::Spawning,
        cursor: Cursor { contract_index: 0, deployment_index: 0 },
        last_prompt: PromptView::Unrecognized(Seq::empty()),
        buffer: Seq::empty(),
        idle_reads: 0,
        failure: None,
    }
}

/// The command line that launches the wizard: the plain wizard where the first contract's
/// ABI is to be inferred, the wizard's local import otherwise.
pub open spec fn launch_line(contracts: Seq<ContractConfig>) -> Seq<char> {
    if contracts.len() > 0 && contracts[0].source is Inferred {
        "envio init"@
    } else {
        "envio init contract-import local"@
    }
}

/// The lines as one text, each line followed by a line feed.
pub open spec fn joined(lines: Seq<Seq<char>>) -> Seq<char>
    decreases lines.len(),
{
    if lines.len() == 0 {
        Seq::empty()
    } else {
        joined(lines.drop_last()) + lines.last().push('\n')
    }
}

/// An exit that an import run accepts after the wizard has reported success: with code
/// zero, or by a signal, as the one that the run itself sends while draining.
pub open spec fn clean_exit(outcome: ExitOutcome) -> bool {
    match outcome {
        ExitOutcome::ExitedWithCode(code) => code == 0,
        ExitOutcome::Signaled(_) => true,
        ExitOutcome::Unknown => false,
    }
}

/// The state after the run has been given up for the reason `kind`. An earlier failure
/// stays on record.
pub open spec fn failed(d: DriverView, kind: ErrorKind) -> DriverView {
    DriverView {
        phase: Phase::Done,
        failure: if d.failure is Some {
            d.failure
        } else {
            Some(kind)
        },
        ..d
    }
}

/// The step taken when the wizard's process has ended.
pub open spec fn on_exit(d: DriverView, outcome: ExitOutcome) -> (DriverView, CommandView) {
    (
        DriverView {
            phase: Phase::Done,
            failure: if d.failure is Some {
                d.failure
            } else if clean_exit(outcome) {
                None
            } else {
                Some(ErrorKind::UnexpectedTermination)
            },
            ..d
        },
        CommandView::Stop,
    )
}

/// The step taken when a prompt of kind `kind` has been classified.
pub open spec fn on_prompt(d: DriverView, kind: PromptView) -> (DriverView, CommandView) {
    let plan = plan_for(kind, d.cursor, d.contracts, d.chains);
    match plan.action {
        ActionView::Finish(success) => (
            DriverView {
                last_prompt: kind,
                phase: Phase::Draining,
                failure: if success {
                    None
                } else {
                    Some(ErrorKind::UnexpectedTermination)
                },
                ..d
            },
            CommandView::Write(drain_bytes(success)),
        ),
        action => (
            DriverView { last_prompt: kind, cursor: advance_cursor(d.cursor, plan.advance), ..d },
            CommandView::Write(action_bytes(action)),
        ),
    }
}

/// The step taken when a read has returned `lines`.
pub open spec fn on_output(d: DriverView, lines: Seq<Seq<char>>) -> (DriverView, CommandView) {
    if lines.len() == 0 {
        let idle: usize = if d.idle_reads < usize::MAX {
            (d.idle_reads + 1) as usize
        } else {
            d.idle_reads
        };
        if idle > d.hang_ceiling {
            (
                DriverView {
                    idle_reads: idle,
                    phase: Phase::Draining,
                    failure: Some(ErrorKind::HangDetected),
                    ..d
                },
                CommandView::Write(drain_bytes(false)),
            )
        } else {
            (DriverView { idle_reads: idle, ..d }, CommandView::Read)
        }
    } else {
        let buffer = d.buffer + joined(lines);
        let kind = classify_window(d.table, buffer);
        if kind == PromptView::Unrecognized(Seq::<char>::empty()) {
            (DriverView { idle_reads: 0, buffer, ..d }, CommandView::Read)
        } else {
            on_prompt(DriverView { idle_reads: 0, buffer: Seq::empty(), ..d }, kind)
        }
    }
}

/// The step of an import run: the state after the event, and the command to carry out.
pub open spec fn step_model(d: DriverView, event: EventView) -> (DriverView, CommandView) {
    match d.phase {
        Phase::Spawning => match event {
            EventView::Spawned => (
                DriverView { phase: Phase::Interacting, ..d },
                CommandView::Read,
            ),
            EventView::SpawnFailed => (failed(d, ErrorKind::SpawnFailure), CommandView::Stop),
            _ => (failed(d, ErrorKind::UnexpectedTermination), CommandView::Stop),
        },
        Phase::Interacting => match event {
            EventView::Output(lines) => on_output(d, lines),
            EventView::Written => (d, CommandView::Read),
            EventView::WriteFailed => (failed(d, ErrorKind::WriteFailure), CommandView::Stop),
            EventView::EndOfInput => (
                DriverView {
                    phase: Phase::Reaping,
                    failure: Some(ErrorKind::UnexpectedTermination),
                    ..d
                },
                CommandView::WaitForExit,
            ),
            _ => (failed(d, ErrorKind::UnexpectedTermination), CommandView::Stop),
        },
        Phase::Draining => match event {
            EventView::Exited(outcome) => on_exit(d, outcome),
            EventView::Spawned | EventView::SpawnFailed => (
                failed(d, ErrorKind::UnexpectedTermination),
                CommandView::Stop,
            ),
            _ => (DriverView { phase: Phase::Reaping, ..d }, CommandView::WaitForExit),
        },
        Phase::Reaping => match event {
            EventView::Exited(outcome) => on_exit(d, outcome),
            _ => (failed(d, ErrorKind::UnexpectedTermination), CommandView::Stop),
        },
        Phase::Done => (d, CommandView::Stop),
    }
}

/// How a run ends once the caller has looked for the project's configuration file:
/// with the recorded failure if there is one; as an unexpected termination if the run
/// was abandoned before it was over; with `ArtifactMissing` if the run succeeded but the
/// file is not there; and without error otherwise.
pub open spec fn conclusion(d: DriverView, artifact_present: bool) -> Option<ErrorKind> {
    if d.failure is Some {
        d.failure
    } else if d.phase != Phase::Done {
        Some(ErrorKind::UnexpectedTermination)
    } else if !artifact_present {
        Some(ErrorKind::ArtifactMissing)
    } else {
        None
    }
}

/// Whether every contract of the list has at least one deployment.
pub fn every_contract_deployed(contracts: &Vec<ContractConfig>) -> (r: bool)
    ensures
        r == all_deployed(contracts@),
{
    let mut i: usize = 0;
    while i < contracts.len()
        invariant
            i <= contracts.len(),
            forall|j: int| 0 <= j < i ==> (#[trigger] contracts@[j]).deployments@.len() > 0,
        decreases contracts.len() - i,
    {
        if contracts[i].deployments.len() == 0 {
            return false;
        }
        i += 1;
    }
    true
}

/// Whether the exit is one that a run accepts after the wizard has reported success.
pub fn is_clean_exit(outcome: ExitOutcome) -> (r: bool)
    ensures
        r == clean_exit(outcome),
{
    match outcome {
        ExitOutcome::ExitedWithCode(code) => code == 0,
        ExitOutcome::Signaled(_) => true,
        ExitOutcome::Unknown => false,
    }
}

/// Appends each line and a line feed to `buffer`.
pub fn push_lines(buffer: &mut Vec<char>, lines: &Vec<String>)
    ensures
        final(buffer)@ == old(buffer)@ + joined(texts(lines@)),
{
    let ghost all = texts(lines@);
    let mut i: usize = 0;
    assert(all.take(0) =~= Seq::<Seq<char>>::empty());
    while i < lines.len()
        invariant
            i <= lines.len(),
            all == texts(lines@),
            buffer@ == old(buffer)@ + joined(all.take(i as int)),
        decreases lines.len() - i,
    {
        proof {
            let p = all.take(i + 1);
            assert(p.drop_last() =~= all.take(i as int));
            assert(p.last() == lines@[i as int]@);
        }
        push_str_chars(buffer, lines[i].as_str());
        buffer.push('\n');
        assert(buffer@ =~= old(buffer)@ + (joined(all.take(i as int)) + lines@[i as int]@.push(
            '\n',
        )));
        i += 1;
    }
    assert(all.take(lines.len() as int) =~= all);
}

/// The state of an import run.
pub struct Driver {
    contracts: Vec<ContractConfig>,
    table: Vec<Signature>,
    chains: Vec<String>,
    hang_ceiling: usize,
    phase: Phase,
    cursor: Cursor,
    last_prompt: PromptKind,
    buffer: Vec<char>,
    idle_reads: usize,
    failure: Option<ErrorKind>,
}

impl View for Driver {
    type V = DriverView;

    closed spec fn view(&self) -> DriverView {
        DriverView {
            contracts: self.contracts@,
            table: table_view(self.table@),
            chains: texts(self.chains@),
            hang_ceiling: self.hang_ceiling,
            phase: self.phase,
            cursor: self.cursor,
            last_prompt: self.last_prompt@,
            buffer: self.buffer@,
            idle_reads: self.idle_reads,
            failure: self.failure,
        }
    }
}

impl Driver {
    #[verifier::type_invariant]
    spec fn inv(self) -> bool {
        self@.wf()
    }

    /// A run over `contracts`, about to launch the wizard. There is none for an empty
    /// list, nor for a list with a contract that has no deployment.
    ///
    /// `table` is the signature table to classify prompts by, `chains` the wizard's chain
    /// menu, and `hang_ceiling` the number of reads in a row that may come back empty.
    pub fn new(
        contracts: Vec<ContractConfig>,
        table: Vec<Signature>,
        chains: Vec<String>,
        hang_ceiling: usize,
    ) -> (r: Option<Driver>)
        ensures
            r is Some <==> contracts@.len() > 0 && all_deployed(contracts@),
            r is Some ==> r->0@ == initial_state(
                contracts@,
                table_view(table@),
                texts(chains@),
                hang_ceiling,
            ),
    {
        if contracts.len() == 0 || !every_contract_deployed(&contracts) {
            return None;
        }
        Some(
            Driver {
                contracts,
                table,
                chains,
                hang_ceiling,
                phase: Phase::Spawning,
                cursor: Cursor::start(),
                last_prompt: PromptKind::Unrecognized(String::new()),
                buffer: Vec::new(),
                idle_reads: 0,
                failure: None,
            },
        )
    }

    /// The command that launches the wizard.
    pub fn launch(&self) -> (r: Command)
        ensures
            r@ == CommandView::Spawn(launch_line(self@.contracts)),
    {
        proof {
            use_type_invariant(self);
        }
        if self.contracts[0].source.is_inferred() {
            Command::Spawn(String::from_str("envio init"))
        } else {
            Command::Spawn(String::from_str("envio init contract-import local"))
        }
    }

    pub fn phase(&self) -> (r: Phase)
        ensures
            r == self@.phase,
    {
        self.phase
    }

    pub fn cursor(&self) -> (r: Cursor)
        ensures
            r == self@.cursor,
    {
        self.cursor
    }

    /// The last prompt that was classified.
    pub fn last_prompt(&self) -> (r: PromptKind)
        ensures
            r@ == self@.last_prompt,
    {
        self.last_prompt.duplicate()
    }

    /// The first failure of the run, if there was one.
    pub fn failure(&self) -> (r: Option<ErrorKind>)
        ensures
            r == self@.failure,
    {
        self.failure
    }

    /// Whether the run is over.
    pub fn is_done(&self) -> (r: bool)
        ensures
            r == (self@.phase == Phase::Done),
    {
        self.phase == Phase::Done
    }

    /// Whether the run is over and no failure was recorded. Only then is there a project
    /// to look for.
    pub fn succeeded(&self) -> (r: bool)
        ensures
            r == self@.succeeded(),
    {
        self.phase == Phase::Done && self.failure.is_none()
    }

    fn give_up(&mut self, kind: ErrorKind) -> (r: Command)
        ensures
            final(self)@ == failed(old(self)@, kind),
            r@ == CommandView::Stop,
    {
        proof {
            use_type_invariant(&*self);
        }
        if self.failure.is_none() {
            self.failure = Some(kind);
        }
        self.phase = Phase::Done;
        Command::Stop
    }

    fn finish_exit(&mut self, outcome: ExitOutcome) -> (r: Command)
        ensures
            (final(self)@, r@) == on_exit(old(self)@, outcome),
    {
        proof {
            use_type_invariant(&*self);
        }
        if self.failure.is_none() && !is_clean_exit(outcome) {
            self.failure = Some(ErrorKind::UnexpectedTermination);
        }
        self.phase = Phase::Done;
        Command::Stop
    }

    fn answer(&mut self, kind: PromptKind) -> (r: Command)
        ensures
            (final(self)@, r@) == on_prompt(old(self)@, kind@),
    {
        proof {
            use_type_invariant(&*self);
            law_plan_keeps_cursor_in_range(
                kind@,
                self.cursor,
                self.contracts@,
                texts(self.chains@),
            );
        }
        let contracts_len = self.contracts.len();
        let deployments_len = self.contracts[self.cursor.contract_index].deployments.len();
        assert(self.cursor.contract_index < contracts_len);
        assert(self.cursor.deployment_index < deployments_len);
        let planned = plan(&kind, self.cursor, &self.contracts, &self.chains);
        self.last_prompt = kind;
        match planned.action {
            Action::Finish(success) => {
                self.phase = Phase::Draining;
                self.failure = if success {
                    None
                } else {
                    Some(ErrorKind::UnexpectedTermination)
                };
                Command::Write(encode_drain(success))
            },
            action => {
                self.cursor = self.cursor.advanced(planned.advance);
                Command::Write(action.encode())
            },
        }
    }

    fn take_output(&mut self, lines: &Vec<String>) -> (r: Command)
        ensures
            (final(self)@, r@) == on_output(old(self)@, texts(lines@)),
    {
        proof {
            use_type_invariant(&*self);
        }
        if lines.len() == 0 {
            if self.idle_reads < usize::MAX {
                self.idle_reads = self.idle_reads + 1;
            }
            if self.idle_reads > self.hang_ceiling {
                self.phase = Phase::Draining;
                self.failure = Some(ErrorKind::HangDetected);
                Command::Write(encode_drain(false))
            } else {
                Command::Read
            }
        } else {
            let mut buffer: Vec<char> = Vec::new();
            std::mem::swap(&mut buffer, &mut self.buffer);
            push_lines(&mut buffer, lines);
            let kind = classify_chars(&self.table, &buffer);
            self.idle_reads = 0;
            if kind.is_silence() {
                self.buffer = buffer;
                Command::Read
            } else {
                self.answer(kind)
            }
        }
    }

    /// Takes what happened last and returns what to do next.
    pub fn step(&mut self, event: Event) -> (r: Command)
        ensures
            (final(self)@, r@) == step_model(old(self)@, event@),
            final(self)@.wf(),
    {
        proof {
            use_type_invariant(&*self);
        }
        let command = match self.phase {
            Phase::Spawning => match event {
                Event::Spawned => {
                    self.phase = Phase::Interacting;
                    Command::Read
                },
                Event::SpawnFailed => self.give_up(ErrorKind::SpawnFailure),
                _ => self.give_up(ErrorKind::UnexpectedTermination),
            },
            Phase::Interacting => match event {
                Event::Output(lines) => self.take_output(&lines),
                Event::Written => Command::Read,
                Event::WriteFailed => self.give_up(ErrorKind::WriteFailure),
                Event::EndOfInput => {
                    self.phase = Phase::Reaping;
                    self.failure = Some(ErrorKind::UnexpectedTermination);
                    Command::WaitForExit
                },
                _ => self.give_up(ErrorKind::UnexpectedTermination),
            },
            Phase::Draining => match event {
                Event::Exited(outcome) => self.finish_exit(outcome),
                Event::Spawned => self.give_up(ErrorKind::UnexpectedTermination),
                Event::SpawnFailed => self.give_up(ErrorKind::UnexpectedTermination),
                _ => {
                    self.phase = Phase::Reaping;
                    Command::WaitForExit
                },
            },
            Phase::Reaping => match event {
                Event::Exited(outcome) => self.finish_exit(outcome),
                _ => self.give_up(ErrorKind::UnexpectedTermination),
            },
            Phase::Done => Command::Stop,
        };
        proof {
            use_type_invariant(&*self);
        }
        command
    }

    /// How the run ends, once the caller has looked for the project's configuration
    /// file. A failed run ends with its failure whether or not the file is there.
    pub fn conclude(&self, artifact_present: bool) -> (r: Result<(), ImportError>)
        ensures
            r is Ok <==> conclusion(self@, artifact_present) is None,
            r is Err ==> r->Err_0@ == (ImportErrorView {
                kind: conclusion(self@, artifact_present)->0,
                last_prompt: self@.last_prompt,
                cursor: self@.cursor,
            }),
    {
        let kind = match self.failure {
            Some(kind) => kind,
            None => {
                if self.phase != Phase::Done {
                    ErrorKind::UnexpectedTermination
                } else if !artifact_present {
                    ErrorKind::ArtifactMissing
                } else {
                    return Ok(());
                }
            },
        };
        Err(ImportError { kind, last_prompt: self.last_prompt.duplicate(), cursor: self.cursor })
    }
}

// ---------------------------------------------------------------------------
// Reporting
// ---------------------------------------------------------------------------

/// The name of an error kind.
pub open spec fn kind_name(kind: ErrorKind) -> Seq<char> {
    match kind {
        ErrorKind::SpawnFailure => "SpawnFailure"@,
        ErrorKind::WriteFailure => "WriteFailure"@,
        ErrorKind::HangDetected => "HangDetected"@,
        ErrorKind::UnexpectedTermination => "UnexpectedTermination"@,
        ErrorKind::ArtifactMissing => "ArtifactMissing"@,
    }
}

/// The name of a prompt kind; an unrecognized prompt's text follows its name in
/// parentheses.
pub open spec fn prompt_name(kind: PromptView) -> Seq<char> {
    match kind {
        PromptView::AskFolderName => "AskFolderName"@,
        PromptView::AskLanguage => "AskLanguage"@,
        PromptView::AskEcosystem => "AskEcosystem"@,
        PromptView::AskEventSelection => "AskEventSelection"@,
        PromptView::AskAbiPath => "AskAbiPath"@,
        PromptView::AskImportSource => "AskImportSource"@,
        PromptView::AskBlockchainFromList => "AskBlockchainFromList"@,
        PromptView::AskNetworkChoiceGeneric => "AskNetworkChoiceGeneric"@,
        PromptView::AskNetworkId => "AskNetworkId"@,
        PromptView::AskContractName => "AskContractName"@,
        PromptView::AskContractAddress => "AskContractAddress"@,
        PromptView::AskAddAnotherContract => "AskAddAnotherContract"@,
        PromptView::AskApiToken => "AskApiToken"@,
        PromptView::TemplateReady => "TemplateReady"@,
        PromptView::FinalDone => "FinalDone"@,
        PromptView::Unrecognized(text) => "Unrecognized("@ + text + ")"@,
    }
}

/// Where a run failed and how: the kind of the failure, the cursor, and the last prompt.
pub open spec fn failure_context(error: ImportErrorView) -> Seq<char> {
    kind_name(error.kind) + " at contract "@ + crate::decimal::decimal(
        error.cursor.contract_index as nat,
    ) + ", deployment "@ + crate::decimal::decimal(error.cursor.deployment_index as nat)
        + ", after "@ + prompt_name(error.last_prompt)
}

/// What a failed run is reported as: a missing configuration file as an invalid state,
/// anything else as a failed process; both with the failure's context in parentheses.
pub open spec fn reported(error: ImportErrorView) -> (bool, Seq<char>) {
    if error.kind == ErrorKind::ArtifactMissing {
        (
            true,
            "Project initialization failed: config.yaml not created ("@ + failure_context(error)
                + ")"@,
        )
    } else {
        (false, "Envio process exited unexpectedly ("@ + failure_context(error) + ")"@)
    }
}

impl ErrorKind {
    /// The name of this kind.
    pub fn name(&self) -> (r: &'static str)
        ensures
            r@ == kind_name(*self),
    {
        match self {
            ErrorKind::SpawnFailure => "SpawnFailure",
            ErrorKind::WriteFailure => "WriteFailure",
            ErrorKind::HangDetected => "HangDetected",
            ErrorKind::UnexpectedTermination => "UnexpectedTermination",
            ErrorKind::ArtifactMissing => "ArtifactMissing",
        }
    }
}

/// The name of a prompt kind.
pub fn prompt_name_of(kind: &PromptKind) -> (r: String)
    ensures
        r@ == prompt_name(kind@),
{
    match kind {
        PromptKind::AskFolderName => String::from_str("AskFolderName"),
        PromptKind::AskLanguage => String::from_str("AskLanguage"),
        PromptKind::AskEcosystem => String::from_str("AskEcosystem"),
        PromptKind::AskEventSelection => String::from_str("AskEventSelection"),
        PromptKind::AskAbiPath => String::from_str("AskAbiPath"),
        PromptKind::AskImportSource => String::from_str("AskImportSource"),
        PromptKind::AskBlockchainFromList => String::from_str("AskBlockchainFromList"),
        PromptKind::AskNetworkChoiceGeneric => String::from_str("AskNetworkChoiceGeneric"),
        PromptKind::AskNetworkId => String::from_str("AskNetworkId"),
        PromptKind::AskContractName => String::from_str("AskContractName"),
        PromptKind::AskContractAddress => String::from_str("AskContractAddress"),
        PromptKind::AskAddAnotherContract => String::from_str("AskAddAnotherContract"),
        PromptKind::AskApiToken => String::from_str("AskApiToken"),
        PromptKind::TemplateReady => String::from_str("TemplateReady"),
        PromptKind::FinalDone => String::from_str("FinalDone"),
        PromptKind::Unrecognized(text) => {
            let mut r = String::from_str("Unrecognized(");
            r.append(text.as_str());
            r.append(")");
            r
        },
    }
}

impl ImportError {
    /// Where the run failed and how.
    pub fn context(&self) -> (r: String)
        ensures
            r@ == failure_context(self@),
    {
        let mut out = crate::text::chars_of(self.kind.name());
        push_str_chars(&mut out, " at contract ");
        let contract = crate::decimal::decimal_chars(self.cursor.contract_index as u64);
        crate::text::push_chars(&mut out, &contract);
        push_str_chars(&mut out, ", deployment ");
        let deployment = crate::decimal::decimal_chars(self.cursor.deployment_index as u64);
        crate::text::push_chars(&mut out, &deployment);
        push_str_chars(&mut out, ", after ");
        let prompt = prompt_name_of(&self.last_prompt);
        push_str_chars(&mut out, prompt.as_str());
        crate::text::string_of(&out)
    }

    /// The error that reports this failure to the caller.
    pub fn report(&self) -> (r: super::project::EnvioError)
        ensures
            reported(self@).0 ==> r is InvalidState && r->InvalidState_0@ == reported(self@).1,
            !reported(self@).0 ==> r is ProcessFailed && r->ProcessFailed_0@ == reported(
                self@,
            ).1,
    {
        let context = self.context();
        let mut message = if self.kind == ErrorKind::ArtifactMissing {
            String::from_str("Project initialization failed: config.yaml not created (")
        } else {
            String::from_str("Envio process exited unexpectedly (")
        };
        message.append(context.as_str());
        message.append(")");
        if self.kind == ErrorKind::ArtifactMissing {
            super::project::EnvioError::InvalidState(message)
        } else {
            super::project::EnvioError::ProcessFailed(message)
        }
    }
}

// ---------------------------------------------------------------------------
// Laws
// ---------------------------------------------------------------------------

/// Where the wizard's output ends while prompts are still being answered, the run ends
/// as an unexpected termination however the wizard exits, and there is no project to
/// look for: the run ends the same whether or not the configuration file is there.
pub proof fn law_end_of_input_before_success(d: DriverView, outcome: ExitOutcome)
    requires
        d.phase == Phase::Interacting,
        d.failure is None,
    ensures
        ({
            let reaping = step_model(d, EventView::EndOfInput);
            let done = step_model(reaping.0, EventView::Exited(outcome));
            &&& reaping.1 == CommandView::WaitForExit
            &&& done.1 == CommandView::Stop
            &&& done.0.phase == Phase::Done
            &&& !done.0.succeeded()
            &&& conclusion(done.0, true) == Some(ErrorKind::UnexpectedTermination)
            &&& conclusion(done.0, false) == Some(ErrorKind::UnexpectedTermination)
        }),
{
}

/// Where the wizard's output ends after the wizard has reported success, the run goes
/// on to await the wizard's exit and no failure is recorded.
pub proof fn law_end_of_input_after_success(d: DriverView)
    requires
        d.phase == Phase::Draining,
        d.failure is None,
    ensures
        step_model(d, EventView::EndOfInput).0.phase == Phase::Reaping,
        step_model(d, EventView::EndOfInput).0.failure is None,
        step_model(d, EventView::EndOfInput).1 == CommandView::WaitForExit,
{
}

/// A run that succeeded still fails, with `ArtifactMissing`, if the project's
/// configuration file is not there; it ends without error if the file is there.
pub proof fn law_success_needs_the_artifact(d: DriverView)
    requires
        d.succeeded(),
    ensures
        conclusion(d, false) == Some(ErrorKind::ArtifactMissing),
        conclusion(d, true) is None,
{
}

/// A write that fails while prompts are being answered ends the run at once, and a
/// launch that fails ends it before it began.
pub proof fn law_failures_abort_the_run(d: DriverView)
    requires
        d.failure is None,
    ensures
        d.phase == Phase::Interacting ==> step_model(d, EventView::WriteFailed) == (
            failed(d, ErrorKind::WriteFailure),
            CommandView::Stop,
        ),
        d.phase == Phase::Spawning ==> step_model(d, EventView::SpawnFailed) == (
            failed(d, ErrorKind::SpawnFailure),
            CommandView::Stop,
        ),
        failed(d, ErrorKind::WriteFailure).phase == Phase::Done,
        failed(d, ErrorKind::WriteFailure).failure == Some(ErrorKind::WriteFailure),
        failed(d, ErrorKind::SpawnFailure).failure == Some(ErrorKind::SpawnFailure),
{
}

/// The cursor moves in one case only: while prompts are answered, when the output that
/// was read is classified as the question whether to add another contract. It then
/// moves as the planner says.
pub proof fn law_the_cursor_moves_with_the_planner(d: DriverView, event: EventView)
    requires
        step_model(d, event).0.cursor != d.cursor,
    ensures
        d.phase == Phase::Interacting,
        event is Output,
        classify_window(d.table, d.buffer + joined(event->Output_0))
            == PromptView::AskAddAnotherContract,
        step_model(d, event).0.cursor == advance_cursor(d.cursor, next_step(d.cursor, d.contracts)),
{
    if d.phase == Phase::Interacting {
        if let EventView::Output(lines) = event {
            if lines.len() > 0 {
                let kind = classify_window(d.table, d.buffer + joined(lines));
                if kind != PromptView::AskAddAnotherContract {
                    law_only_add_another_moves_the_cursor(kind, d.cursor, d.contracts, d.chains);
                }
            }
        }
    }
}

/// Every step keeps the contract list, the signature table, the chain menu and the
/// ceiling, keeps a well-formed state well formed, and leaves a finished run as it is.
pub proof fn law_steps_preserve_the_run(d: DriverView, event: EventView)
    requires
        d.wf(),
    ensures
        step_model(d, event).0.wf(),
        step_model(d, event).0.contracts == d.contracts,
        step_model(d, event).0.table == d.table,
        step_model(d, event).0.chains == d.chains,
        step_model(d, event).0.hang_ceiling == d.hang_ceiling,
        d.phase == Phase::Done ==> step_model(d, event) == (d, CommandView::Stop),
{
    if d.phase == Phase::Interacting {
        if let EventView::Output(lines) = event {
            if lines.len() > 0 {
                let kind = classify_window(d.table, d.buffer + joined(lines));
                law_plan_keeps_cursor_in_range(kind, d.cursor, d.contracts, d.chains);
            }
        }
    }
}

} // verus!
