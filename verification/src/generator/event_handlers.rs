//! The event handlers of a project: a stub for each event, and the index files that
//! export them.

use vstd::prelude::*;
use vstd::string::*;

verus! {

use super::{files_view, GeneratedFile, GeneratedFileView};
use crate::indexer_utils::config::{ContractConfig, IndexerConfig};
use crate::indexer_utils::event::ContractEvent;
use crate::text::{chars_of, lowercase_of, push_chars, push_str_chars, string_of, texts, to_lowercase};
use crate::types::EventParam;

/// Writes the event handlers of a project.
pub struct EventHandlerGenerator<'a> {
    pub config: &'a IndexerConfig,
}

/// The types that all handlers share.
pub open spec fn types_text() -> Seq<char> {
    "\nexport interface Event {\n    id: string;\n    blockNumber: number;\n    blockHash: string;\n    transactionHash: string;\n    contractAddress: string;\n    params: Record<string, any>;\n}\n\nexport interface IndexerContext {\n    indexerId: string;\n    config: any;\n    store: any;\n}\n"@
}

/// The names of the first `count` parameters, separated by a comma and a space.
pub open spec fn param_names(params: Seq<EventParam>, count: nat) -> Seq<char>
    decreases count,
{
    if count == 0 || count > params.len() {
        Seq::empty()
    } else if count == 1 {
        params[0].name@
    } else {
        param_names(params, (count - 1) as nat) + ", "@ + params[count - 1].name@
    }
}

/// The stub of the handler for an event.
pub open spec fn handler_text(event: ContractEvent) -> Seq<char> {
    "import { Event, IndexerContext } from '../types';\n\nexport async function handle"@ + event.name@
        + "(\n    event: Event,\n    context: IndexerContext\n): Promise<void> {\n    const { "@ + param_names(event.inputs@, event.inputs@.len())
        + " } = event.params;\n    \n    // TODO: Implement event handling logic\n    // Available context:\n    // - context.indexerId: unique identifier for this indexer instance\n    // - context.config: indexer configuration\n    // - context.store: database access\n}\n"@
}

/// The file with the handler for an event of the contract called `contract`. It is
/// named after the event, in lowercase.
pub open spec fn handler_file(contract: Seq<char>, event: ContractEvent) -> GeneratedFileView {
    GeneratedFileView {
        path: seq!["handlers"@, contract, lowercase_of(event.name@) + ".ts"@],
        content: handler_text(event),
    }
}

/// The files with the handlers for the first `count` events of a contract.
pub open spec fn event_files(contract: Seq<char>, events: Seq<ContractEvent>, count: nat) -> Seq<
    GeneratedFileView,
>
    decreases count,
{
    if count == 0 || count > events.len() {
        Seq::empty()
    } else {
        event_files(contract, events, (count - 1) as nat).push(
            handler_file(contract, events[count - 1]),
        )
    }
}

/// The lines that export the handlers of the first `count` events.
pub open spec fn event_exports(events: Seq<ContractEvent>, count: nat) -> Seq<char>
    decreases count,
{
    if count == 0 || count > events.len() {
        Seq::empty()
    } else {
        event_exports(events, (count - 1) as nat) + "export * from './"@ + lowercase_of(
            events[count - 1].name@,
        ) + "';\n"@
    }
}

/// The index file of a contract, which exports the handlers of its events.
pub open spec fn contract_index(contract: ContractConfig) -> GeneratedFileView {
    GeneratedFileView {
        path: seq!["handlers"@, contract.name@, "index.ts"@],
        content: "// Auto-generated event handler exports\n\n"@ + event_exports(
            contract.events@,
            contract.events@.len(),
        ),
    }
}

/// The files of a contract: the handlers of its events, then its index file.
pub open spec fn contract_files(contract: ContractConfig) -> Seq<GeneratedFileView> {
    event_files(contract.name@, contract.events@, contract.events@.len()).push(
        contract_index(contract),
    )
}

/// The files of the first `count` contracts.
pub open spec fn contracts_files(contracts: Seq<ContractConfig>, count: nat) -> Seq<
    GeneratedFileView,
>
    decreases count,
{
    if count == 0 || count > contracts.len() {
        Seq::empty()
    } else {
        contracts_files(contracts, (count - 1) as nat) + contract_files(contracts[count - 1])
    }
}

/// The lines that export the first `count` contracts.
pub open spec fn contract_exports(contracts: Seq<ContractConfig>, count: nat) -> Seq<char>
    decreases count,
{
    if count == 0 || count > contracts.len() {
        Seq::empty()
    } else {
        contract_exports(contracts, (count - 1) as nat) + "export * as "@ + contracts[count
            - 1].name@ + " from './"@ + contracts[count - 1].name@ + "';\n"@
    }
}

/// The main index file, which exports the contracts.
pub open spec fn main_index(contracts: Seq<ContractConfig>) -> GeneratedFileView {
    GeneratedFileView {
        path: seq!["handlers"@, "index.ts"@],
        content: "// Auto-generated contract handler exports\n\n"@ + contract_exports(
            contracts,
            contracts.len(),
        ),
    }
}

/// The file with the types that all handlers share.
pub open spec fn types_file() -> GeneratedFileView {
    GeneratedFileView { path: seq!["handlers"@, "types.ts"@], content: types_text() }
}

/// All files of the handlers: the shared types, the files of each contract, and the
/// main index.
pub open spec fn handler_files(contracts: Seq<ContractConfig>) -> Seq<GeneratedFileView> {
    seq![types_file()] + contracts_files(contracts, contracts.len()) + seq![
        main_index(contracts),
    ]
}

/// A file two levels below the output directory.
pub fn file_in(first: &str, second: &str, content: String) -> (r: GeneratedFile)
    ensures
        r@ == (GeneratedFileView { path: seq![first@, second@], content: content@ }),
{
    let mut path: Vec<String> = Vec::new();
    path.push(String::from_str(first));
    path.push(String::from_str(second));
    assert(texts(path@) =~= seq![first@, second@]);
    GeneratedFile { path, content }
}

/// A file three levels below the output directory.
pub fn file_below(first: &str, second: &str, third: String, content: String) -> (r:
    GeneratedFile)
    ensures
        r@ == (GeneratedFileView { path: seq![first@, second@, third@], content: content@ }),
{
    let mut path: Vec<String> = Vec::new();
    path.push(String::from_str(first));
    path.push(String::from_str(second));
    path.push(third);
    assert(texts(path@) =~= seq![first@, second@, third@]);
    GeneratedFile { path, content }
}

/// The stub of the handler for an event.
pub fn handler_content(event: &ContractEvent) -> (r: String)
    ensures
        r@ == handler_text(*event),
{
    let mut names: Vec<char> = Vec::new();
    let mut i: usize = 0;
    assert(names@ =~= param_names(event.inputs@, 0));
    while i < event.inputs.len()
        invariant
            i <= event.inputs.len(),
            names@ == param_names(event.inputs@, i as nat),
        decreases event.inputs.len() - i,
    {
        if i > 0 {
            push_str_chars(&mut names, ", ");
        }
        push_str_chars(&mut names, event.inputs[i].name.as_str());
        proof {
            if i == 0 {
                assert(names@ =~= event.inputs@[0].name@);
            } else {
                assert(names@ =~= param_names(event.inputs@, i as nat) + ", "@
                    + event.inputs@[i as int].name@);
            }
        }
        i += 1;
    }
    let mut text = chars_of("import { Event, IndexerContext } from '../types';\n\nexport async function handle");
    push_str_chars(&mut text, event.name.as_str());
    push_str_chars(
        &mut text,
        "(\n    event: Event,\n    context: IndexerContext\n): Promise<void> {\n    const { ",
    );
    push_chars(&mut text, &names);
    push_str_chars(
        &mut text,
        " } = event.params;\n    \n    // TODO: Implement event handling logic\n    // Available context:\n    // - context.indexerId: unique identifier for this indexer instance\n    // - context.config: indexer configuration\n    // - context.store: database access\n}\n",
    );
    string_of(&text)
}

/// The file with the handler for an event of the contract called `contract`, given the
/// event's name in lowercase.
pub fn handler_file_named(contract: &str, folded_name: &str, event: &ContractEvent) -> (r:
    GeneratedFile)
    ensures
        r@ == (GeneratedFileView {
            path: seq!["handlers"@, contract@, folded_name@ + ".ts"@],
            content: handler_text(*event),
        }),
{
    let mut name = chars_of(folded_name);
    push_str_chars(&mut name, ".ts");
    file_below("handlers", contract, string_of(&name), handler_content(event))
}

/// The line that exports the handler of an event, given the event's name in lowercase.
pub fn push_event_export(out: &mut Vec<char>, folded_name: &str)
    ensures
        final(out)@ == old(out)@ + "export * from './"@ + folded_name@ + "';\n"@,
{
    let mut line = chars_of("export * from './");
    push_str_chars(&mut line, folded_name);
    push_str_chars(&mut line, "';\n");
    let ghost before = out@;
    push_chars(out, &line);
    assert(out@ =~= before + "export * from './"@ + folded_name@ + "';\n"@);
}

impl<'a> EventHandlerGenerator<'a> {
    pub fn new(config: &'a IndexerConfig) -> (r: Self)
        ensures
            r.config == config,
    {
        Self { config }
    }

    /// The file with the types that all handlers share.
    pub fn generate_types(&self) -> (r: GeneratedFile)
        ensures
            r@ == types_file(),
    {
        file_in(
            "handlers",
            "types.ts",
            String::from_str("\nexport interface Event {\n    id: string;\n    blockNumber: number;\n    blockHash: string;\n    transactionHash: string;\n    contractAddress: string;\n    params: Record<string, any>;\n}\n\nexport interface IndexerContext {\n    indexerId: string;\n    config: any;\n    store: any;\n}\n"),
        )
    }

    /// The file with the handler for an event of a contract.
    pub fn generate_event_handler(&self, contract: &ContractConfig, event: &ContractEvent) -> (r:
        GeneratedFile)
        ensures
            r@ == handler_file(contract.name@, *event),
    {
        let folded = to_lowercase(event.name.as_str());
        handler_file_named(contract.name.as_str(), folded.as_str(), event)
    }

    /// The index file of a contract.
    pub fn generate_contract_index(&self, contract: &ContractConfig) -> (r: GeneratedFile)
        ensures
            r@ == contract_index(*contract),
    {
        let mut content = chars_of("// Auto-generated event handler exports\n\n");
        let ghost head = content@;
        let mut i: usize = 0;
        assert(content@ =~= head + event_exports(contract.events@, 0));
        while i < contract.events.len()
            invariant
                i <= contract.events.len(),
                content@ == head + event_exports(contract.events@, i as nat),
            decreases contract.events.len() - i,
        {
            let folded = to_lowercase(contract.events[i].name.as_str());
            push_event_export(&mut content, folded.as_str());
            assert(content@ =~= head + (event_exports(contract.events@, i as nat)
                + "export * from './"@ + lowercase_of(contract.events@[i as int].name@)
                + "';\n"@));
            i += 1;
        }
        let file = file_below(
            "handlers",
            contract.name.as_str(),
            String::from_str("index.ts"),
            string_of(&content),
        );
        file
    }

    /// The main index file.
    pub fn generate_main_index(&self) -> (r: GeneratedFile)
        ensures
            r@ == main_index(self.config.contracts@),
    {
        let contracts = &self.config.contracts;
        let mut content = chars_of("// Auto-generated contract handler exports\n\n");
        let ghost head = content@;
        let mut i: usize = 0;
        assert(content@ =~= head + contract_exports(contracts@, 0));
        while i < contracts.len()
            invariant
                i <= contracts.len(),
                content@ == head + contract_exports(contracts@, i as nat),
            decreases contracts.len() - i,
        {
            push_str_chars(&mut content, "export * as ");
            push_str_chars(&mut content, contracts[i].name.as_str());
            push_str_chars(&mut content, " from './");
            push_str_chars(&mut content, contracts[i].name.as_str());
            push_str_chars(&mut content, "';\n");
            assert(content@ =~= head + (contract_exports(contracts@, i as nat)
                + "export * as "@ + contracts@[i as int].name@ + " from './"@
                + contracts@[i as int].name@ + "';\n"@));
            i += 1;
        }
        file_in("handlers", "index.ts", string_of(&content))
    }

    /// Appends the files of a contract.
    pub fn push_contract_files(&self, files: &mut Vec<GeneratedFile>, contract: &ContractConfig)
        ensures
            files_view(final(files)@) == files_view(old(files)@) + contract_files(*contract),
    {
        let ghost before = files_view(files@);
        let mut i: usize = 0;
        assert(files_view(files@) =~= before + event_files(contract.name@, contract.events@, 0));
        while i < contract.events.len()
            invariant
                i <= contract.events.len(),
                files_view(files@) == before + event_files(
                    contract.name@,
                    contract.events@,
                    i as nat,
                ),
            decreases contract.events.len() - i,
        {
            let ghost so_far = files_view(files@);
            let file = self.generate_event_handler(contract, &contract.events[i]);
            files.push(file);
            assert(files_view(files@) =~= so_far.push(file@));
            assert(files_view(files@) =~= before + event_files(
                contract.name@,
                contract.events@,
                (i + 1) as nat,
            ));
            i += 1;
        }
        let ghost so_far = files_view(files@);
        let index = self.generate_contract_index(contract);
        files.push(index);
        assert(files_view(files@) =~= so_far.push(index@));
        assert(files_view(files@) =~= before + contract_files(*contract));
    }

    /// All files of the handlers. There are some for every configuration.
    pub fn generate(&self) -> (r: Result<Vec<GeneratedFile>, String>)
        ensures
            r is Ok,
            files_view(r->Ok_0@) == handler_files(self.config.contracts@),
    {
        let contracts = &self.config.contracts;
        let mut files: Vec<GeneratedFile> = Vec::new();
        let types = self.generate_types();
        files.push(types);
        let ghost head = files_view(files@);
        assert(head =~= seq![types_file()]);
        let mut i: usize = 0;
        assert(files_view(files@) =~= head + contracts_files(contracts@, 0));
        while i < contracts.len()
            invariant
                i <= contracts.len(),
                contracts == &self.config.contracts,
                files_view(files@) == head + contracts_files(contracts@, i as nat),
            decreases contracts.len() - i,
        {
            self.push_contract_files(&mut files, &contracts[i]);
            assert(files_view(files@) =~= head + (contracts_files(contracts@, i as nat)
                + contract_files(contracts@[i as int])));
            i += 1;
        }
        let ghost so_far = files_view(files@);
        let main = self.generate_main_index();
        files.push(main);
        assert(files_view(files@) =~= so_far.push(main@));
        assert(files_view(files@) =~= handler_files(contracts@));
        Ok(files)
    }
}

} // verus!
