//! The project's configuration file.

use vstd::prelude::*;
use vstd::string::*;

verus! {

use crate::decimal::{decimal, decimal_chars};
use crate::indexer_utils::config::{ContractConfig, IndexerConfig};
use crate::indexer_utils::event::ContractEvent;
use crate::text::{chars_of, push_chars, push_str_chars, string_of};

/// Writes the project's configuration file.
pub struct ConfigGenerator<'a> {
    pub config: &'a IndexerConfig,
}

/// The lines that list the first `count` events of a contract.
pub open spec fn event_lines(events: Seq<ContractEvent>, count: nat) -> Seq<char>
    decreases count,
{
    if count == 0 || count > events.len() {
        Seq::empty()
    } else {
        event_lines(events, (count - 1) as nat) + "          - event: \""@ + events[count
            - 1].signature@ + "\"\n"@
    }
}

/// The lines that describe a contract: its name, address and handler, and its events.
pub open spec fn contract_lines(contract: ContractConfig) -> Seq<char> {
    "      - name: "@ + contract.name@ + "\n"@ + "        address: \""@ + contract.address@
        + "\"\n"@ + "        handler: src/EventHandlers.ts\n"@ + "        events:\n"@
        + event_lines(contract.events@, contract.events@.len())
}

/// The lines that describe the first `count` contracts.
pub open spec fn contracts_lines(contracts: Seq<ContractConfig>, count: nat) -> Seq<char>
    decreases count,
{
    if count == 0 || count > contracts.len() {
        Seq::empty()
    } else {
        contracts_lines(contracts, (count - 1) as nat) + contract_lines(contracts[count - 1])
    }
}

/// The text of the project's configuration file.
pub open spec fn config_text(config: IndexerConfig) -> Seq<char> {
    "name: "@ + config.name@ + "\n"@ + "description: "@ + config.description@ + "\n"@
        + "networks:\n"@ + "  - id: "@ + decimal(config.network_id as nat) + "\n"@
        + "    start_block: "@ + decimal(config.start_block as nat) + "\n"@
        + "    contracts:\n"@ + contracts_lines(config.contracts@, config.contracts@.len())
        + "rollback_on_reorg: false\n"@
}

/// Appends the lines that describe a contract.
pub fn push_contract_lines(out: &mut Vec<char>, contract: &ContractConfig)
    ensures
        final(out)@ == old(out)@ + contract_lines(*contract),
{
    let ghost before = out@;
    let mut lines = chars_of("      - name: ");
    push_str_chars(&mut lines, contract.name.as_str());
    push_str_chars(&mut lines, "\n");
    push_str_chars(&mut lines, "        address: \"");
    push_str_chars(&mut lines, contract.address.as_str());
    push_str_chars(&mut lines, "\"\n");
    push_str_chars(&mut lines, "        handler: src/EventHandlers.ts\n");
    push_str_chars(&mut lines, "        events:\n");
    let ghost head = lines@;
    let mut i: usize = 0;
    assert(lines@ =~= head + event_lines(contract.events@, 0));
    while i < contract.events.len()
        invariant
            i <= contract.events.len(),
            lines@ == head + event_lines(contract.events@, i as nat),
        decreases contract.events.len() - i,
    {
        let ghost so_far = lines@;
        push_str_chars(&mut lines, "          - event: \"");
        push_str_chars(&mut lines, contract.events[i].signature.as_str());
        push_str_chars(&mut lines, "\"\n");
        assert(lines@ =~= head + (event_lines(contract.events@, i as nat)
            + "          - event: \""@ + contract.events@[i as int].signature@ + "\"\n"@));
        i += 1;
    }
    push_chars(out, &lines);
}

impl<'a> ConfigGenerator<'a> {
    pub fn new(config: &'a IndexerConfig) -> (r: Self)
        ensures
            r.config == config,
    {
        Self { config }
    }

    /// The text of the project's configuration file. There is one for every
    /// configuration.
    pub fn generate(&self) -> (r: Result<String, String>)
        ensures
            r is Ok,
            r->Ok_0@ == config_text(*self.config),
    {
        let config = self.config;
        let mut yaml = chars_of("name: ");
        push_str_chars(&mut yaml, config.name.as_str());
        push_str_chars(&mut yaml, "\n");
        push_str_chars(&mut yaml, "description: ");
        push_str_chars(&mut yaml, config.description.as_str());
        push_str_chars(&mut yaml, "\n");
        push_str_chars(&mut yaml, "networks:\n");
        push_str_chars(&mut yaml, "  - id: ");
        let id = decimal_chars(config.network_id);
        push_chars(&mut yaml, &id);
        push_str_chars(&mut yaml, "\n");
        push_str_chars(&mut yaml, "    start_block: ");
        let start = decimal_chars(config.start_block);
        push_chars(&mut yaml, &start);
        push_str_chars(&mut yaml, "\n");
        push_str_chars(&mut yaml, "    contracts:\n");
        let ghost head = yaml@;
        let mut i: usize = 0;
        assert(yaml@ =~= head + contracts_lines(config.contracts@, 0));
        while i < config.contracts.len()
            invariant
                i <= config.contracts.len(),
                yaml@ == head + contracts_lines(config.contracts@, i as nat),
            decreases config.contracts.len() - i,
        {
            push_contract_lines(&mut yaml, &config.contracts[i]);
            assert(yaml@ =~= head + (contracts_lines(config.contracts@, i as nat)
                + contract_lines(config.contracts@[i as int])));
            i += 1;
        }
        push_str_chars(&mut yaml, "rollback_on_reorg: false\n");
        assert(yaml@ =~= config_text(*config));
        Ok(string_of(&yaml))
    }
}

} // verus!
