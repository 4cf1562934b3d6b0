//! What an import run is asked to set up: contracts, their ABI sources and their
//! deployments.

use vstd::prelude::*;
use vstd::string::*;

verus! {

use crate::decimal::{decimal, decimal_string, parse_u64, parse_unsigned};
use crate::network::definitions::{network_row, row_parts};
use crate::network::{find_network, is_supported, row_index, NETWORK_COUNT};
use crate::text::{lowercase_of, position, position_of, texts, to_lowercase};

/// Where the ABI of a contract comes from.
#[derive(Debug, Clone, PartialEq, Eq)]
pub enum ContractSource {
    /// An ABI given inline, or a URL to fetch it from.
    Abi { abi: Option<String>, url: Option<String> },
    /// A block explorer that serves the ABI.
    Explorer { api_url: String },
    /// No ABI: it is worked out from the contract's address and network.
    Inferred,
}

impl ContractSource {
    /// Whether the ABI is given inline or by URL.
    pub fn is_abi(&self) -> (r: bool)
        ensures
            r == (self is Abi),
    {
        match self {
            ContractSource::Abi { .. } => true,
            _ => false,
        }
    }

    /// Whether the ABI comes from a block explorer.
    pub fn is_explorer(&self) -> (r: bool)
        ensures
            r == (self is Explorer),
    {
        match self {
            ContractSource::Explorer { .. } => true,
            _ => false,
        }
    }

    /// Whether the ABI is left to be inferred.
    pub fn is_inferred(&self) -> (r: bool)
        ensures
            r == (self is Inferred),
    {
        match self {
            ContractSource::Inferred => true,
            _ => false,
        }
    }
}

/// One deployment of a contract on one network.
#[derive(Debug, Clone, PartialEq, Eq)]
pub struct ContractDeployment {
    pub network_id: String,
    pub address: String,
    pub rpc_url: String,
    pub proxy_address: Option<String>,
    pub start_block: Option<u64>,
}

/// A contract with its ABI source and its deployments, in order.
#[derive(Debug, Clone, PartialEq, Eq)]
pub struct ContractConfig {
    pub name: String,
    pub source: ContractSource,
    pub deployments: Vec<ContractDeployment>,
}

impl ContractConfig {
    pub fn new(name: String, source: ContractSource, deployments: Vec<ContractDeployment>) -> (r:
        Self)
        ensures
            r.name == name,
            r.source == source,
            r.deployments == deployments,
    {
        Self { name, source, deployments }
    }

    /// Appends one deployment after those already present.
    pub fn add_deployment(
        &mut self,
        network_id: String,
        address: String,
        rpc_url: String,
        proxy_address: Option<String>,
        start_block: Option<u64>,
    )
        ensures
            final(self).name == old(self).name,
            final(self).source == old(self).source,
            final(self).deployments@ == old(self).deployments@.push(
                ContractDeployment { network_id, address, rpc_url, proxy_address, start_block },
            ),
    {
        self.deployments.push(
            ContractDeployment { network_id, address, rpc_url, proxy_address, start_block },
        );
    }
}

/// The lowercase forms of the display names of the supported networks, in table order.
pub open spec fn folded_network_names() -> Seq<Seq<char>> {
    Seq::new(NETWORK_COUNT as nat, |i: int| lowercase_of(network_row(i).name))
}

/// The number form of a network identifier: the plain decimal numeral if it is a
/// numeral; else the chain id of the first supported network whose name equals it
/// without regard to letter case; else the identifier itself.
pub open spec fn network_number(network_id: Seq<char>) -> Seq<char> {
    match parse_unsigned(network_id, u64::MAX as nat) {
        Some(n) => decimal(n),
        None => {
            let i = position(folded_network_names(), lowercase_of(network_id));
            if i < NETWORK_COUNT {
                decimal(network_row(i).id as nat)
            } else {
                network_id
            }
        },
    }
}

/// The name form of a network identifier: the display name of the first supported
/// network whose chain id it denotes; else the identifier itself.
pub open spec fn network_name(network_id: Seq<char>) -> Seq<char> {
    match parse_unsigned(network_id, u64::MAX as nat) {
        Some(n) => if is_supported(n as u64) {
            network_row(row_index(n as u64)).name
        } else {
            network_id
        },
        None => network_id,
    }
}

/// The lowercase forms of the display names of the supported networks, in table order.
pub fn folded_names() -> (names: Vec<String>)
    ensures
        names@.len() == NETWORK_COUNT,
        texts(names@) == folded_network_names(),
{
    let mut names: Vec<String> = Vec::new();
    let mut i: usize = 0;
    while i < NETWORK_COUNT
        invariant
            i <= NETWORK_COUNT,
            names@.len() == i,
            forall|j: int| 0 <= j < i ==> names@[j]@ == lowercase_of(network_row(j).name),
        decreases NETWORK_COUNT - i,
    {
        let (_id, name, _host, _traces) = row_parts(i);
        names.push(to_lowercase(name));
        i += 1;
    }
    assert(texts(names@) =~= folded_network_names());
    names
}

/// The decimal chain id of the first network in `folded` whose entry equals
/// `folded_id`, where `folded` lists one entry per row of the network table.
pub fn number_by_folded_name(folded: &Vec<String>, folded_id: &str) -> (r: Option<String>)
    ensures
        r is Some <==> position(texts(folded@), folded_id@) < folded@.len() && position(
            texts(folded@),
            folded_id@,
        ) < NETWORK_COUNT,
        r is Some ==> r->0@ == decimal(
            network_row(position(texts(folded@), folded_id@)).id as nat,
        ),
{
    match position_of(folded, folded_id) {
        Some(i) => {
            if i < NETWORK_COUNT {
                let (id, _name, _host, _traces) = row_parts(i);
                Some(decimal_string(id))
            } else {
                None
            }
        },
        None => None,
    }
}

impl ContractDeployment {
    pub fn new(
        network_id: String,
        address: String,
        rpc_url: String,
        proxy_address: Option<String>,
        start_block: Option<u64>,
    ) -> (r: Self)
        ensures
            r == (ContractDeployment { network_id, address, rpc_url, proxy_address, start_block }),
    {
        Self { network_id, address, rpc_url, proxy_address, start_block }
    }

    /// The number form of this deployment's network identifier.
    pub fn resolve_network_to_number(&self) -> (r: String)
        ensures
            r@ == network_number(self.network_id@),
    {
        match parse_u64(self.network_id.as_str()) {
            Some(id) => decimal_string(id),
            None => {
                let folded = folded_names();
                let folded_id = to_lowercase(self.network_id.as_str());
                match number_by_folded_name(&folded, folded_id.as_str()) {
                    Some(number) => number,
                    None => self.network_id.clone(),
                }
            },
        }
    }

    /// The name form of this deployment's network identifier.
    pub fn resolve_network_to_string(&self) -> (r: String)
        ensures
            r@ == network_name(self.network_id@),
    {
        match parse_u64(self.network_id.as_str()) {
            Some(id) => match find_network(id) {
                Some(i) => {
                    let (_id, name, _host, _traces) = row_parts(i);
                    String::from_str(name)
                },
                None => self.network_id.clone(),
            },
            None => self.network_id.clone(),
        }
    }
}

/// A named set of contracts to index.
#[derive(Debug, Clone, PartialEq, Eq)]
pub struct IndexerConfig {
    pub name: String,
    pub contracts: Vec<ContractConfig>,
}

impl Default for IndexerConfig {
    fn default() -> (r: Self)
        ensures
            r.name@.len() == 0,
            r.contracts@.len() == 0,
    {
        IndexerConfig { name: String::new(), contracts: Vec::new() }
    }
}

/// The index of the first contract without deployments; `contracts.len()` if every
/// contract has one.
pub open spec fn first_bare_contract(contracts: Seq<ContractConfig>, from: int) -> int
    decreases contracts.len() - from,
{
    if from >= contracts.len() {
        contracts.len() as int
    } else if contracts[from].deployments@.len() == 0 {
        from
    } else {
        first_bare_contract(contracts, from + 1)
    }
}

/// Every contract of the list has at least one deployment.
pub open spec fn all_deployed(contracts: Seq<ContractConfig>) -> bool {
    forall|i: int| 0 <= i < contracts.len() ==> (#[trigger] contracts[i]).deployments@.len() > 0
}

pub proof fn lemma_first_bare_contract(contracts: Seq<ContractConfig>, from: int)
    requires
        0 <= from <= contracts.len(),
    ensures
        from <= first_bare_contract(contracts, from) <= contracts.len(),
        first_bare_contract(contracts, from) < contracts.len() ==> contracts[first_bare_contract(
            contracts,
            from,
        )].deployments@.len() == 0,
        forall|i: int|
            from <= i < first_bare_contract(contracts, from) ==> (
            #[trigger] contracts[i]).deployments@.len() > 0,
    decreases contracts.len() - from,
{
    if from < contracts.len() && contracts[from].deployments@.len() != 0 {
        lemma_first_bare_contract(contracts, from + 1);
    }
}

/// What `validate` reports for a configuration with this name and these contracts:
/// nothing if it is sound, else the message of the first rule it breaks.
pub open spec fn validation_message(name: Seq<char>, contracts: Seq<ContractConfig>) -> Option<
    Seq<char>,
> {
    if name.len() == 0 {
        Some("Indexer name cannot be empty"@)
    } else if contracts.len() == 0 {
        Some("At least one contract configuration is required"@)
    } else if first_bare_contract(contracts, 0) < contracts.len() {
        Some(
            "Contract "@ + contracts[first_bare_contract(contracts, 0)].name@
                + " has no deployments"@,
        )
    } else {
        None
    }
}

impl IndexerConfig {
    pub fn new(name: String, contracts: Vec<ContractConfig>) -> (r: Self)
        ensures
            r.name == name,
            r.contracts == contracts,
    {
        Self { name, contracts }
    }

    /// Checks that the configuration has a name, at least one contract, and at least one
    /// deployment for every contract.
    pub fn validate(&self) -> (r: Result<(), String>)
        ensures
            r is Ok <==> validation_message(self.name@, self.contracts@) is None,
            r is Ok <==> self.name@.len() > 0 && self.contracts@.len() > 0 && all_deployed(
                self.contracts@,
            ),
            r is Err ==> Some(r->Err_0@) == validation_message(self.name@, self.contracts@),
    {
        proof {
            lemma_first_bare_contract(self.contracts@, 0);
        }
        if self.name.as_str().unicode_len() == 0 {
            return Err(String::from_str("Indexer name cannot be empty"));
        }
        if self.contracts.len() == 0 {
            return Err(String::from_str("At least one contract configuration is required"));
        }
        let mut i: usize = 0;
        while i < self.contracts.len()
            invariant
                i <= self.contracts.len(),
                self.name@.len() > 0,
                self.contracts@.len() > 0,
                first_bare_contract(self.contracts@, 0) == first_bare_contract(
                    self.contracts@,
                    i as int,
                ),
            decreases self.contracts.len() - i,
        {
            if self.contracts[i].deployments.len() == 0 {
                let mut msg = String::from_str("Contract ");
                msg.append(self.contracts[i].name.as_str());
                msg.append(" has no deployments");
                return Err(msg);
            }
            i += 1;
        }
        Ok(())
    }
}

} // verus!
