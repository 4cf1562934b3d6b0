//! The GraphQL schema of a project: one entity for each event.

use vstd::prelude::*;
use vstd::string::*;

verus! {

use crate::indexer_utils::config::{ContractConfig, IndexerConfig};
use crate::indexer_utils::event::ContractEvent;
use crate::text::{chars_of, push_chars, push_str_chars, string_of};
use crate::types::{graphql_type, EventParam};

/// Writes the GraphQL schema of a project.
pub struct SchemaGenerator<'a> {
    pub config: &'a IndexerConfig,
}

/// The fields for the first `count` parameters of an event.
pub open spec fn field_lines(params: Seq<EventParam>, count: nat) -> Seq<char>
    decreases count,
{
    if count == 0 || count > params.len() {
        Seq::empty()
    } else {
        field_lines(params, (count - 1) as nat) + "  "@ + params[count - 1].name@ + ": "@
            + graphql_type(params[count - 1].param_type@) + "\n"@
    }
}

/// The entity for an event: a type with the event's name, an identifier, and a field
/// for each parameter.
pub open spec fn entity_text(event: ContractEvent) -> Seq<char> {
    "type "@ + event.name@ + " @entity {\n"@ + "  id: ID!\n"@ + field_lines(
        event.inputs@,
        event.inputs@.len(),
    ) + "}\n\n"@
}

/// The entities for the first `count` events.
pub open spec fn entities_text(events: Seq<ContractEvent>, count: nat) -> Seq<char>
    decreases count,
{
    if count == 0 || count > events.len() {
        Seq::empty()
    } else {
        entities_text(events, (count - 1) as nat) + entity_text(events[count - 1])
    }
}

/// The entities for the events of the first `count` contracts.
pub open spec fn schema_upto(contracts: Seq<ContractConfig>, count: nat) -> Seq<char>
    decreases count,
{
    if count == 0 || count > contracts.len() {
        Seq::empty()
    } else {
        schema_upto(contracts, (count - 1) as nat) + entities_text(
            contracts[count - 1].events@,
            contracts[count - 1].events@.len(),
        )
    }
}

/// The text of the schema: the entities for all events of all contracts, in order.
pub open spec fn schema_text(contracts: Seq<ContractConfig>) -> Seq<char> {
    schema_upto(contracts, contracts.len())
}

/// Appends the entity for an event.
pub fn push_entity(out: &mut Vec<char>, event: &ContractEvent)
    ensures
        final(out)@ == old(out)@ + entity_text(*event),
{
    let mut text = chars_of("type ");
    push_str_chars(&mut text, event.name.as_str());
    push_str_chars(&mut text, " @entity {\n");
    push_str_chars(&mut text, "  id: ID!\n");
    let ghost head = text@;
    let mut i: usize = 0;
    assert(text@ =~= head + field_lines(event.inputs@, 0));
    while i < event.inputs.len()
        invariant
            i <= event.inputs.len(),
            text@ == head + field_lines(event.inputs@, i as nat),
        decreases event.inputs.len() - i,
    {
        let param = &event.inputs[i];
        push_str_chars(&mut text, "  ");
        push_str_chars(&mut text, param.name.as_str());
        push_str_chars(&mut text, ": ");
        let graphql = param.param_type.graphql_chars();
        push_chars(&mut text, &graphql);
        push_str_chars(&mut text, "\n");
        assert(text@ =~= head + (field_lines(event.inputs@, i as nat) + "  "@ + param.name@
            + ": "@ + graphql_type(param.param_type@) + "\n"@));
        i += 1;
    }
    push_str_chars(&mut text, "}\n\n");
    push_chars(out, &text);
}

/// Appends the entities for the events.
pub fn push_entities(out: &mut Vec<char>, events: &Vec<ContractEvent>)
    ensures
        final(out)@ == old(out)@ + entities_text(events@, events@.len()),
{
    let ghost before = out@;
    let mut i: usize = 0;
    assert(out@ =~= before + entities_text(events@, 0));
    while i < events.len()
        invariant
            i <= events.len(),
            out@ == before + entities_text(events@, i as nat),
        decreases events.len() - i,
    {
        push_entity(out, &events[i]);
        assert(out@ =~= before + (entities_text(events@, i as nat) + entity_text(
            events@[i as int],
        )));
        i += 1;
    }
}

impl<'a> SchemaGenerator<'a> {
    pub fn new(config: &'a IndexerConfig) -> (r: Self)
        ensures
            r.config == config,
    {
        Self { config }
    }

    /// The text of the schema. There is one for every configuration.
    pub fn generate(&self) -> (r: Result<String, String>)
        ensures
            r is Ok,
            r->Ok_0@ == schema_text(self.config.contracts@),
    {
        let contracts = &self.config.contracts;
        let mut schema: Vec<char> = Vec::new();
        let mut i: usize = 0;
        assert(schema@ =~= schema_upto(contracts@, 0));
        while i < contracts.len()
            invariant
                i <= contracts.len(),
                schema@ == schema_upto(contracts@, i as nat),
            decreases contracts.len() - i,
        {
            push_entities(&mut schema, &contracts[i].events);
            i += 1;
        }
        Ok(string_of(&schema))
    }
}

} // verus!
