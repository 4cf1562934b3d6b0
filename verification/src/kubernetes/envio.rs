//! The deployment of an indexer.

use vstd::prelude::*;
use vstd::string::*;

verus! {

use super::deployment::{ContainerConfig, DeploymentConfig, ResourceConfig, ServiceConfig};
use super::pairs;
use crate::decimal::{decimal, decimal_chars};
use crate::envio_utils::config::{
    network_name,
    network_number,
    ContractConfig,
    ContractSource,
    IndexerConfig,
};
use crate::text::{chars_of, push_chars, push_str_chars, string_of, to_uppercase, uppercase_of};

/// What an indexer resource specifies.
#[derive(Debug, Clone, PartialEq, Eq)]
pub struct EnvioIndexerSpec {
    pub config: IndexerConfig,
}

impl Default for EnvioIndexerSpec {
    fn default() -> (r: Self)
        ensures
            r.config.name@.len() == 0,
            r.config.contracts@.len() == 0,
    {
        EnvioIndexerSpec { config: IndexerConfig::default() }
    }
}

/// What is added to the names of the variables of the contract at `index`: nothing for
/// the first contract, an underscore and the index for the others.
pub open spec fn variable_suffix(index: nat) -> Seq<char> {
    if index == 0 {
        Seq::empty()
    } else {
        "_"@ + decimal(index)
    }
}

/// The name of the variable that holds the explorer's token for a network, given the
/// network's name in uppercase.
pub open spec fn token_variable(upper_name: Seq<char>) -> Seq<char> {
    upper_name + "_VERIFIED_CONTRACT_API_TOKEN"@
}

/// The variable for a deployment's proxy address, if it has one.
pub open spec fn proxy_variable(suffix: Seq<char>, proxy_address: Option<String>) -> Seq<
    (Seq<char>, Seq<char>),
> {
    match proxy_address {
        Some(address) => seq![("PROXY_ADDRESS"@ + suffix, address@)],
        None => Seq::empty(),
    }
}

/// The variables for the contract at `index`. A contract with a deployment brings the
/// network, the endpoint and the address of its first deployment, then that
/// deployment's proxy address if it has one, and then the explorer's token if its ABI
/// comes from an explorer. A contract without deployments brings nothing.
pub open spec fn contract_variables(index: nat, contract: ContractConfig) -> Seq<
    (Seq<char>, Seq<char>),
> {
    if contract.deployments@.len() == 0 {
        Seq::empty()
    } else {
        let first = contract.deployments@[0];
        let suffix = variable_suffix(index);
        let base = seq![
            ("BLOCKCHAIN"@ + suffix, network_number(first.network_id@)),
            ("RPC_URL"@ + suffix, first.rpc_url@),
            ("CONTRACT_ADDRESS"@ + suffix, first.address@),
        ];
        let proxy = proxy_variable(suffix, first.proxy_address);
        let token = match contract.source {
            ContractSource::Explorer { api_url } => seq![
                (token_variable(uppercase_of(network_name(first.network_id@))), api_url@),
            ],
            _ => Seq::empty(),
        };
        base + proxy + token
    }
}

/// The variables for the first `count` contracts, in order.
pub open spec fn contracts_variables(contracts: Seq<ContractConfig>, count: nat) -> Seq<
    (Seq<char>, Seq<char>),
>
    decreases count,
{
    if count == 0 || count > contracts.len() {
        Seq::empty()
    } else {
        contracts_variables(contracts, (count - 1) as nat) + contract_variables(
            (count - 1) as nat,
            contracts[count - 1],
        )
    }
}

/// The environment of an indexer's container: the variables of its contracts, and the
/// number of contracts.
pub open spec fn indexer_environment(contracts: Seq<ContractConfig>) -> Seq<
    (Seq<char>, Seq<char>),
> {
    contracts_variables(contracts, contracts.len()).push(
        ("NUM_CONTRACTS"@, decimal(contracts.len())),
    )
}

/// The image of the indexer called `name`.
pub open spec fn indexer_image(name: Seq<char>) -> Seq<char> {
    "localhost:5000/envio-indexer-"@ + name
}

/// The pair of a variable's name, made of a stem and a suffix, and its value.
pub fn variable(stem: &str, suffix: &Vec<char>, value: String) -> (r: (String, String))
    ensures
        r.0@ == stem@ + suffix@,
        r.1@ == value@,
{
    let mut name = chars_of(stem);
    push_chars(&mut name, suffix);
    (string_of(&name), value)
}

/// The name of the variable that holds the explorer's token for a network, given the
/// network's name in uppercase.
pub fn token_variable_name(upper_name: &str) -> (r: String)
    ensures
        r@ == token_variable(upper_name@),
{
    let mut name = chars_of(upper_name);
    push_str_chars(&mut name, "_VERIFIED_CONTRACT_API_TOKEN");
    string_of(&name)
}

/// Appends the variables for the contract at `index` to `env`.
pub fn push_contract_variables(
    env: &mut Vec<(String, String)>,
    index: usize,
    contract: &ContractConfig,
)
    ensures
        pairs(final(env)@) == pairs(old(env)@) + contract_variables(index as nat, *contract),
{
    let ghost before = pairs(env@);
    if contract.deployments.len() == 0 {
        assert(pairs(env@) =~= before + contract_variables(index as nat, *contract));
        return ;
    }
    let first = &contract.deployments[0];
    let mut suffix: Vec<char> = Vec::new();
    if index > 0 {
        suffix.push('_');
        let digits = decimal_chars(index as u64);
        push_chars(&mut suffix, &digits);
    }
    proof {
        reveal_strlit("_");
        assert("_"@ =~= seq!['_']);
        assert(suffix@ =~= variable_suffix(index as nat));
    }
    env.push(variable("BLOCKCHAIN", &suffix, first.resolve_network_to_number()));
    env.push(variable("RPC_URL", &suffix, first.rpc_url.clone()));
    env.push(variable("CONTRACT_ADDRESS", &suffix, first.address.clone()));
    let ghost base = seq![
        ("BLOCKCHAIN"@ + suffix@, network_number(first.network_id@)),
        ("RPC_URL"@ + suffix@, first.rpc_url@),
        ("CONTRACT_ADDRESS"@ + suffix@, first.address@),
    ];
    assert(pairs(env@) =~= before + base);
    let ghost proxy = proxy_variable(suffix@, first.proxy_address);
    match &first.proxy_address {
        Some(address) => {
            env.push(variable("PROXY_ADDRESS", &suffix, address.clone()));
        },
        None => {},
    }
    assert(pairs(env@) =~= before + base + proxy);
    match &contract.source {
        ContractSource::Explorer { api_url } => {
            let name = first.resolve_network_to_string();
            let upper = to_uppercase(name.as_str());
            env.push((token_variable_name(upper.as_str()), api_url.clone()));
            assert(pairs(env@) =~= before + base + proxy + seq![
                (token_variable(uppercase_of(network_name(first.network_id@))), api_url@),
            ]);
        },
        _ => {
            assert(pairs(env@) =~= before + base + proxy + Seq::<
                (Seq<char>, Seq<char>),
            >::empty());
        },
    }
    assert(pairs(env@) =~= before + contract_variables(index as nat, *contract));
}

/// The environment of an indexer's container.
pub fn environment_of(contracts: &Vec<ContractConfig>) -> (env: Vec<(String, String)>)
    ensures
        pairs(env@) == indexer_environment(contracts@),
{
    let mut env: Vec<(String, String)> = Vec::new();
    let mut i: usize = 0;
    assert(pairs(env@) =~= contracts_variables(contracts@, 0));
    while i < contracts.len()
        invariant
            i <= contracts.len(),
            pairs(env@) == contracts_variables(contracts@, i as nat),
        decreases contracts.len() - i,
    {
        push_contract_variables(&mut env, i, &contracts[i]);
        i += 1;
    }
    let ghost before = pairs(env@);
    let count = crate::decimal::decimal_string(contracts.len() as u64);
    env.push((String::from_str("NUM_CONTRACTS"), count));
    assert(pairs(env@) =~= before.push(("NUM_CONTRACTS"@, decimal(contracts@.len()))));
    env
}

/// `deployment` is the deployment of the indexer that `spec` specifies, in the
/// namespace `namespace`: one replica of the indexer's image, listening on port 8080
/// behind a service on the same port, with the indexer's environment and without
/// labels, annotations or resource requirements.
pub open spec fn is_indexer_deployment(
    deployment: DeploymentConfig,
    spec: EnvioIndexerSpec,
    namespace: Seq<char>,
) -> bool {
    &&& deployment.resource.name@ == spec.config.name@
    &&& deployment.resource.namespace@ == namespace
    &&& deployment.resource.labels@.len() == 0
    &&& deployment.resource.annotations@.len() == 0
    &&& deployment.container.image@ == indexer_image(spec.config.name@)
    &&& deployment.container.port == 8080
    &&& pairs(deployment.container.env@) == indexer_environment(spec.config.contracts@)
    &&& deployment.container.resources is None
    &&& deployment.service.name@ == spec.config.name@
    &&& deployment.service.namespace@ == namespace
    &&& deployment.service.port == 8080
    &&& deployment.service.target_port == 8080
    &&& deployment.replicas == 1
}

/// The deployment of the indexer that `spec` specifies, in the namespace `namespace`.
pub fn create_envio_deployment_config(spec: &EnvioIndexerSpec, namespace: &str) -> (r:
    DeploymentConfig)
    ensures
        is_indexer_deployment(r, *spec, namespace@),
{
    let mut image = chars_of("localhost:5000/envio-indexer-");
    push_str_chars(&mut image, spec.config.name.as_str());
    let env = environment_of(&spec.config.contracts);
    DeploymentConfig {
        resource: ResourceConfig {
            name: spec.config.name.clone(),
            namespace: String::from_str(namespace),
            labels: Vec::new(),
            annotations: Vec::new(),
        },
        container: ContainerConfig { image: string_of(&image), port: 8080, env, resources: None },
        service: ServiceConfig::new(spec.config.name.clone(), String::from_str(namespace), 8080),
        replicas: 1,
    }
}

} // verus!
