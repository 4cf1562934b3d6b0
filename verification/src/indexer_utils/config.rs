//! The configuration of an indexer: its network, its start block and its contracts.

use vstd::prelude::*;
use vstd::string::*;

verus! {

use super::event::{event_by_signature, listing_of_owned, AbiEventView, ContractEvent};
use super::parser::params_view;
use crate::network::{is_supported, unsupported_message, validate_network};
use crate::types::EventParamView;

/// A contract to index, with the events to index and, if known, its ABI.
#[derive(Debug, Clone)]
pub struct ContractConfig {
    pub name: String,
    pub address: String,
    pub events: Vec<ContractEvent>,
    pub abi: Option<alloy_json_abi::JsonAbi>,
}

/// An event as a mathematical value.
pub struct ContractEventView {
    pub name: Seq<char>,
    pub signature: Seq<char>,
    pub inputs: Seq<EventParamView>,
}

impl View for ContractEvent {
    type V = ContractEventView;

    open spec fn view(&self) -> ContractEventView {
        ContractEventView {
            name: self.name@,
            signature: self.signature@,
            inputs: params_view(self.inputs@),
        }
    }
}

/// The events as mathematical values.
pub open spec fn contract_events_view(events: Seq<ContractEvent>) -> Seq<ContractEventView> {
    Seq::new(events.len(), |i: int| events[i]@)
}

/// The signatures as texts.
pub open spec fn signature_texts(signatures: Seq<&str>) -> Seq<Seq<char>> {
    Seq::new(signatures.len(), |i: int| signatures[i]@)
}

/// The events that the signatures describe, in order; or the error of the first
/// signature that describes none.
pub open spec fn events_of(signatures: Seq<Seq<char>>, listing: Option<Seq<AbiEventView>>) -> Result<
    Seq<ContractEventView>,
    Seq<char>,
>
    decreases signatures.len(),
{
    if signatures.len() == 0 {
        Ok(Seq::empty())
    } else {
        match events_of(signatures.drop_last(), listing) {
            Err(error) => Err(error),
            Ok(events) => match event_by_signature(signatures.last(), listing) {
                Ok(event) => Ok(
                    events.push(
                        ContractEventView {
                            name: event.name,
                            signature: signatures.last(),
                            inputs: event.params,
                        },
                    ),
                ),
                Err(error) => Err(error),
            },
        }
    }
}

pub proof fn lemma_events_error_stays(
    signatures: Seq<Seq<char>>,
    listing: Option<Seq<AbiEventView>>,
    k: int,
)
    requires
        0 <= k <= signatures.len(),
        events_of(signatures.take(k), listing) is Err,
    ensures
        events_of(signatures, listing) == events_of(signatures.take(k), listing),
    decreases signatures.len() - k,
{
    if k < signatures.len() {
        let more = signatures.take(k + 1);
        assert(more.drop_last() =~= signatures.take(k));
        lemma_events_error_stays(signatures, listing, k + 1);
    } else {
        assert(signatures.take(k) =~= signatures);
    }
}

impl ContractConfig {
    /// A contract with the events that the signatures describe. Where an ABI is given,
    /// an event that it lists is taken from it.
    pub fn new(
        name: String,
        address: String,
        event_signatures: Vec<&str>,
        abi: Option<alloy_json_abi::JsonAbi>,
    ) -> (r: Result<Self, String>)
        ensures
            match events_of(signature_texts(event_signatures@), listing_of_owned(abi)) {
                Ok(events) => r is Ok && r->Ok_0.name == name && r->Ok_0.address == address
                    && r->Ok_0.abi == abi && contract_events_view(r->Ok_0.events@) == events,
                Err(error) => r is Err && r->Err_0@ == error,
            },
    {
        let ghost all = signature_texts(event_signatures@);
        let ghost listing = listing_of_owned(abi);
        let mut events: Vec<ContractEvent> = Vec::new();
        let mut i: usize = 0;
        assert(all.take(0) =~= Seq::<Seq<char>>::empty());
        assert(contract_events_view(events@) =~= Seq::<ContractEventView>::empty());
        while i < event_signatures.len()
            invariant
                i <= event_signatures.len(),
                all == signature_texts(event_signatures@),
                listing == listing_of_owned(abi),
                events_of(all.take(i as int), listing) == Ok::<
                    Seq<ContractEventView>,
                    Seq<char>,
                >(contract_events_view(events@)),
            decreases event_signatures.len() - i,
        {
            proof {
                let upto = all.take(i + 1);
                assert(upto.drop_last() =~= all.take(i as int));
                assert(upto.last() == event_signatures@[i as int]@);
            }
            match ContractEvent::from_signature(event_signatures[i], abi.as_ref()) {
                Ok(event) => {
                    let ghost before = contract_events_view(events@);
                    events.push(event);
                    assert(contract_events_view(events@) =~= before.push(event@));
                },
                Err(error) => {
                    proof {
                        lemma_events_error_stays(all, listing, i + 1);
                    }
                    return Err(error);
                },
            }
            i += 1;
        }
        assert(all.take(event_signatures.len() as int) =~= all);
        Ok(ContractConfig { name, address, events, abi })
    }
}

/// The configuration of an indexer.
#[derive(Debug, Clone)]
pub struct IndexerConfig {
    pub name: String,
    pub description: String,
    pub network_id: u64,
    pub start_block: u64,
    pub contracts: Vec<ContractConfig>,
    pub custom_schema: Option<String>,
    pub custom_handlers: Option<String>,
}

/// What is wrong with a configuration, if anything: an unsupported network, no
/// contract, or a start block of zero, in this order.
pub open spec fn config_fault(network_id: u64, contracts: nat, start_block: u64) -> Option<
    Seq<char>,
> {
    if !is_supported(network_id) {
        Some(unsupported_message(network_id))
    } else if contracts == 0 {
        Some("At least one contract must be specified"@)
    } else if start_block == 0 {
        Some("Start block must be greater than 0"@)
    } else {
        None
    }
}

impl IndexerConfig {
    /// A builder with nothing set.
    pub fn builder() -> (r: IndexerConfigBuilder)
        ensures
            r.name is None,
            r.description is None,
            r.network_id is None,
            r.start_block is None,
            r.contracts@.len() == 0,
            r.custom_schema is None,
            r.custom_handlers is None,
    {
        IndexerConfigBuilder {
            name: None,
            description: None,
            network_id: None,
            start_block: None,
            contracts: Vec::new(),
            custom_schema: None,
            custom_handlers: None,
        }
    }

    /// Checks the network, the contracts and the start block.
    pub fn validate(&self) -> (r: Result<(), String>)
        ensures
            r is Ok <==> config_fault(self.network_id, self.contracts@.len(), self.start_block)
                is None,
            r is Err ==> Some(r->Err_0@) == config_fault(
                self.network_id,
                self.contracts@.len(),
                self.start_block,
            ),
    {
        match validate_network(self.network_id) {
            Ok(_) => {},
            Err(message) => {
                return Err(message);
            },
        }
        if self.contracts.len() == 0 {
            return Err(String::from_str("At least one contract must be specified"));
        }
        if self.start_block == 0 {
            return Err(String::from_str("Start block must be greater than 0"));
        }
        Ok(())
    }
}

/// Builds an indexer's configuration field by field.
pub struct IndexerConfigBuilder {
    pub name: Option<String>,
    pub description: Option<String>,
    pub network_id: Option<u64>,
    pub start_block: Option<u64>,
    pub contracts: Vec<ContractConfig>,
    pub custom_schema: Option<String>,
    pub custom_handlers: Option<String>,
}

/// What keeps a builder from building, if anything: the first of name, description,
/// network and start block that is not set, and else the configuration's own fault.
pub open spec fn build_fault(builder: IndexerConfigBuilder) -> Option<Seq<char>> {
    if builder.name is None {
        Some("Name is required"@)
    } else if builder.description is None {
        Some("Description is required"@)
    } else if builder.network_id is None {
        Some("Network ID is required"@)
    } else if builder.start_block is None {
        Some("Start block is required"@)
    } else {
        config_fault(
            builder.network_id->0,
            builder.contracts@.len(),
            builder.start_block->0,
        )
    }
}

impl IndexerConfigBuilder {
    pub fn name(self, name: &str) -> (r: Self)
        ensures
            r.name is Some && r.name->0@ == name@,
            r.description == self.description,
            r.network_id == self.network_id,
            r.start_block == self.start_block,
            r.contracts == self.contracts,
            r.custom_schema == self.custom_schema,
            r.custom_handlers == self.custom_handlers,
    {
        let mut r = self;
        r.name = Some(String::from_str(name));
        r
    }

    pub fn description(self, description: &str) -> (r: Self)
        ensures
            r.description is Some && r.description->0@ == description@,
            r.name == self.name,
            r.network_id == self.network_id,
            r.start_block == self.start_block,
            r.contracts == self.contracts,
            r.custom_schema == self.custom_schema,
            r.custom_handlers == self.custom_handlers,
    {
        let mut r = self;
        r.description = Some(String::from_str(description));
        r
    }

    pub fn network(self, network_id: u64) -> (r: Self)
        ensures
            r.network_id == Some(network_id),
            r.name == self.name,
            r.description == self.description,
            r.start_block == self.start_block,
            r.contracts == self.contracts,
            r.custom_schema == self.custom_schema,
            r.custom_handlers == self.custom_handlers,
    {
        let mut r = self;
        r.network_id = Some(network_id);
        r
    }

    pub fn start_block(self, block: u64) -> (r: Self)
        ensures
            r.start_block == Some(block),
            r.name == self.name,
            r.description == self.description,
            r.network_id == self.network_id,
            r.contracts == self.contracts,
            r.custom_schema == self.custom_schema,
            r.custom_handlers == self.custom_handlers,
    {
        let mut r = self;
        r.start_block = Some(block);
        r
    }

    pub fn add_contract(self, contract: ContractConfig) -> (r: Self)
        ensures
            r.contracts@ == self.contracts@.push(contract),
            r.name == self.name,
            r.description == self.description,
            r.network_id == self.network_id,
            r.start_block == self.start_block,
            r.custom_schema == self.custom_schema,
            r.custom_handlers == self.custom_handlers,
    {
        let mut r = self;
        r.contracts.push(contract);
        r
    }

    pub fn custom_schema(self, schema: &str) -> (r: Self)
        ensures
            r.custom_schema is Some && r.custom_schema->0@ == schema@,
            r.name == self.name,
            r.description == self.description,
            r.network_id == self.network_id,
            r.start_block == self.start_block,
            r.contracts == self.contracts,
            r.custom_handlers == self.custom_handlers,
    {
        let mut r = self;
        r.custom_schema = Some(String::from_str(schema));
        r
    }

    pub fn custom_handlers(self, handlers: &str) -> (r: Self)
        ensures
            r.custom_handlers is Some && r.custom_handlers->0@ == handlers@,
            r.name == self.name,
            r.description == self.description,
            r.network_id == self.network_id,
            r.start_block == self.start_block,
            r.contracts == self.contracts,
            r.custom_schema == self.custom_schema,
    {
        let mut r = self;
        r.custom_handlers = Some(String::from_str(handlers));
        r
    }

    /// The configuration with the builder's fields, if all that is required is set and
    /// the configuration is valid.
    pub fn build(self) -> (r: Result<IndexerConfig, String>)
        ensures
            r is Ok <==> build_fault(self) is None,
            r is Err ==> Some(r->Err_0@) == build_fault(self),
            r is Ok ==> r->Ok_0 == (IndexerConfig {
                name: self.name->0,
                description: self.description->0,
                network_id: self.network_id->0,
                start_block: self.start_block->0,
                contracts: self.contracts,
                custom_schema: self.custom_schema,
                custom_handlers: self.custom_handlers,
            }),
    {
        let name = match self.name {
            Some(name) => name,
            None => {
                return Err(String::from_str("Name is required"));
            },
        };
        let description = match self.description {
            Some(description) => description,
            None => {
                return Err(String::from_str("Description is required"));
            },
        };
        let network_id = match self.network_id {
            Some(network_id) => network_id,
            None => {
                return Err(String::from_str("Network ID is required"));
            },
        };
        let start_block = match self.start_block {
            Some(start_block) => start_block,
            None => {
                return Err(String::from_str("Start block is required"));
            },
        };
        let config = IndexerConfig {
            name,
            description,
            network_id,
            start_block,
            contracts: self.contracts,
            custom_schema: self.custom_schema,
            custom_handlers: self.custom_handlers,
        };
        match config.validate() {
            Ok(()) => Ok(config),
            Err(message) => Err(message),
        }
    }
}

} // verus!
