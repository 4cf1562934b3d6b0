//! Sample configurations for trying the library out: fixed ones, and random ones.

use vstd::prelude::*;
use vstd::string::*;

pub mod erc20_abi;
pub mod greeter_abi;

pub use erc20_abi::{erc20_abi, erc20_abi_text};
pub use greeter_abi::{greeter_abi, greeter_abi_text};

verus! {

use crate::envio_utils::config::{
    ContractConfig,
    ContractDeployment,
    ContractSource,
    IndexerConfig,
};
use crate::envio_utils::project::option_text;
use crate::indexer_utils::event::hex_digit;
use crate::text::{
    chars_of,
    lowercase_of,
    push_chars,
    push_str_chars,
    replace_char,
    replaced,
    string_of,
    to_lowercase,
};

// ---------------------------------------------------------------------------
// Chance
// ---------------------------------------------------------------------------

/// Calls `rand::random::<u64>`. Any number may come back.
#[verifier::external_body]
pub(crate) fn random_u64() -> (r: u64) {
    rand::random::<u64>()
}

/// Calls `rand::random_range` on the range from zero up to, and without, `bound`. The
/// number that comes back lies in the range.
#[verifier::external_body]
pub(crate) fn random_below(bound: usize) -> (r: usize)
    requires
        bound > 0,
    ensures
        r < bound,
{
    rand::random_range(0..bound)
}

/// Calls `rand::random_ratio`. Either answer may come back.
#[verifier::external_body]
pub(crate) fn random_ratio(numerator: u32, denominator: u32) -> (r: bool)
    requires
        denominator > 0,
        numerator <= denominator,
{
    rand::random_ratio(numerator, denominator)
}

/// Asks `fake` for the name of a company. Any text may come back.
#[verifier::external_body]
pub(crate) fn fake_company_name() -> (r: String) {
    fake::Fake::fake(&fake::faker::company::en::CompanyName())
}

/// Asks `fake` for the suffix of a domain. Any text may come back.
#[verifier::external_body]
pub(crate) fn fake_domain_suffix() -> (r: String) {
    fake::Fake::fake(&fake::faker::internet::en::DomainSuffix())
}

/// Asks `fake` for the code of a country. Any text may come back.
#[verifier::external_body]
pub(crate) fn fake_country_code() -> (r: String) {
    fake::Fake::fake(&fake::faker::address::en::CountryCode())
}

/// Asks `fake` for a string. Any text may come back.
#[verifier::external_body]
pub(crate) fn fake_text() -> (r: String) {
    fake::Fake::fake(&fake::Faker)
}

// ---------------------------------------------------------------------------
// What is made of chance
// ---------------------------------------------------------------------------

/// The number `n` in hexadecimal with exactly `width` lowercase digits: the lowest
/// `width` digits of `n`, with zeros in front where `n` has fewer.
pub open spec fn fixed_hex(n: nat, width: nat) -> Seq<char>
    decreases width,
{
    if width == 0 {
        Seq::empty()
    } else {
        fixed_hex(n / 16, (width - 1) as nat).push(hex_digit(n % 16))
    }
}

/// The address made of a number: `0x` and the number in 40 hexadecimal digits.
pub open spec fn address_text(n: u64) -> Seq<char> {
    "0x"@ + fixed_hex(n as nat, 40)
}

/// The protocol with the given index among `http`, `https`, `ws` and `wss`.
pub open spec fn protocol_name(index: int) -> Seq<char> {
    if index == 0 {
        "http"@
    } else if index == 1 {
        "https"@
    } else if index == 2 {
        "ws"@
    } else {
        "wss"@
    }
}

/// The endpoint made of a protocol, a company's name in lowercase, and a domain suffix:
/// the name becomes the host, with a hyphen for each space.
pub open spec fn rpc_url_text(protocol: int, folded_company: Seq<char>, suffix: Seq<char>) -> Seq<
    char,
> {
    protocol_name(protocol) + "://"@ + replace_char(folded_company, ' ', "-"@) + "."@ + suffix
}

/// The contract name made of a company's name: the name without its spaces, followed by
/// `Contract`.
pub open spec fn contract_name_text(company: Seq<char>) -> Seq<char> {
    replace_char(company, ' ', Seq::empty()) + "Contract"@
}

/// The API key made of a country code and a text.
pub open spec fn api_key_text(country: Seq<char>, text: Seq<char>) -> Seq<char> {
    country + "_"@ + text + "_key"@
}

/// The address made of a number.
pub fn address_from(n: u64) -> (r: String)
    ensures
        r@ == address_text(n),
{
    let mut digits: Vec<char> = Vec::new();
    let mut rest: u64 = n;
    let mut k: usize = 0;
    assert(fixed_hex(rest as nat, 40) + digits@ =~= fixed_hex(n as nat, 40));
    while k < 40
        invariant
            k <= 40,
            fixed_hex(n as nat, 40) == fixed_hex(rest as nat, (40 - k) as nat) + digits@,
        decreases 40 - k,
    {
        let d: u8 = (rest % 16) as u8;
        let c = if d < 10 {
            (0x30 + d) as char
        } else {
            (0x61 + d - 10) as char
        };
        assert(c == hex_digit((rest % 16) as nat));
        let ghost before = digits@;
        digits.insert(0, c);
        assert(digits@ =~= seq![c] + before);
        assert(fixed_hex(rest as nat, (40 - k) as nat) + before =~= fixed_hex(
            (rest / 16) as nat,
            (40 - k - 1) as nat,
        ) + digits@);
        rest = rest / 16;
        k += 1;
    }
    assert(fixed_hex(rest as nat, 0) + digits@ =~= digits@);
    let mut out = chars_of("0x");
    push_chars(&mut out, &digits);
    string_of(&out)
}

/// The endpoint made of a protocol, a company's name in lowercase, and a domain suffix.
pub fn rpc_url_from(protocol: usize, folded_company: &str, suffix: &str) -> (r: String)
    ensures
        r@ == rpc_url_text(protocol as int, folded_company@, suffix@),
{
    let mut out = if protocol == 0 {
        chars_of("http")
    } else if protocol == 1 {
        chars_of("https")
    } else if protocol == 2 {
        chars_of("ws")
    } else {
        chars_of("wss")
    };
    push_str_chars(&mut out, "://");
    let company = chars_of(folded_company);
    let hyphen = chars_of("-");
    let host = replaced(&company, ' ', &hyphen);
    push_chars(&mut out, &host);
    push_str_chars(&mut out, ".");
    push_str_chars(&mut out, suffix);
    string_of(&out)
}

/// The contract name made of a company's name.
pub fn contract_name_from(company: &str) -> (r: String)
    ensures
        r@ == contract_name_text(company@),
{
    let name = chars_of(company);
    let nothing: Vec<char> = Vec::new();
    let mut out = replaced(&name, ' ', &nothing);
    push_str_chars(&mut out, "Contract");
    string_of(&out)
}

/// The API key made of a country code and a text.
pub fn api_key_from(country: &str, text: &str) -> (r: String)
    ensures
        r@ == api_key_text(country@, text@),
{
    let mut out = chars_of(country);
    push_str_chars(&mut out, "_");
    push_str_chars(&mut out, text);
    push_str_chars(&mut out, "_key");
    string_of(&out)
}

/// The text is an address made of some number.
pub open spec fn is_address(text: Seq<char>) -> bool {
    exists|n: u64| text == address_text(n)
}

/// The text is an endpoint made of some protocol, company and suffix.
pub open spec fn is_endpoint(text: Seq<char>) -> bool {
    exists|protocol: int, company: Seq<char>, suffix: Seq<char>|
        0 <= protocol < 4 && text == #[trigger] rpc_url_text(
            protocol,
            lowercase_of(company),
            suffix,
        )
}

/// The text is a contract name made of some company's name.
pub open spec fn is_contract_name(text: Seq<char>) -> bool {
    exists|company: Seq<char>| text == contract_name_text(company)
}

/// The text is an API key made of some country code and text.
pub open spec fn is_api_key(text: Seq<char>) -> bool {
    exists|country: Seq<char>, word: Seq<char>| text == api_key_text(country, word)
}

/// A random address.
pub fn generate_random_address() -> (r: String)
    ensures
        is_address(r@),
{
    let n = random_u64();
    address_from(n)
}

/// A random endpoint.
pub fn generate_random_rpc_url() -> (r: String)
    ensures
        is_endpoint(r@),
{
    let protocol = random_below(4);
    let company = fake_company_name();
    let folded = to_lowercase(company.as_str());
    let suffix = fake_domain_suffix();
    let url = rpc_url_from(protocol, folded.as_str(), suffix.as_str());
    assert(url@ == rpc_url_text(protocol as int, lowercase_of(company@), suffix@));
    url
}

/// A random contract name.
pub fn generate_random_contract_name() -> (r: String)
    ensures
        is_contract_name(r@),
{
    let company = fake_company_name();
    let name = contract_name_from(company.as_str());
    assert(name@ == contract_name_text(company@));
    name
}

/// A random API key.
pub fn generate_random_api_key() -> (r: String)
    ensures
        is_api_key(r@),
{
    let country = fake_country_code();
    let text = fake_text();
    let key = api_key_from(country.as_str(), text.as_str());
    assert(key@ == api_key_text(country@, text@));
    key
}

// ---------------------------------------------------------------------------
// Contracts
// ---------------------------------------------------------------------------

/// The networks that sample contracts are deployed on.
pub open spec fn common_network_id(index: int) -> Seq<char> {
    if index == 0 {
        "1"@
    } else if index == 1 {
        "10"@
    } else if index == 2 {
        "137"@
    } else if index == 3 {
        "42161"@
    } else {
        "43114"@
    }
}

/// The network with the given index among the networks that sample contracts are
/// deployed on.
pub fn common_network(index: usize) -> (r: &'static str)
    ensures
        r@ == common_network_id(index as int),
{
    if index == 0 {
        "1"
    } else if index == 1 {
        "10"
    } else if index == 2 {
        "137"
    } else if index == 3 {
        "42161"
    } else {
        "43114"
    }
}

/// `deployment` is on the network `network_id`, with the address, the endpoint, the
/// proxy address and the start block that are given; where no address or no endpoint is
/// given, it has a random one.
pub open spec fn is_sample_deployment(
    deployment: ContractDeployment,
    network_id: Seq<char>,
    address: Option<Seq<char>>,
    rpc_url: Option<Seq<char>>,
    proxy_address: Option<Seq<char>>,
    start_block: Option<u64>,
) -> bool {
    &&& deployment.network_id@ == network_id
    &&& match address {
        Some(address) => deployment.address@ == address,
        None => is_address(deployment.address@),
    }
    &&& match rpc_url {
        Some(rpc_url) => deployment.rpc_url@ == rpc_url,
        None => is_endpoint(deployment.rpc_url@),
    }
    &&& option_text(deployment.proxy_address) == proxy_address
    &&& deployment.start_block == start_block
}

/// A deployment on the network `network_id`, with a random address and a random
/// endpoint where none is given.
pub fn create_deployment(
    network_id: &str,
    address: Option<String>,
    rpc_url: Option<String>,
    proxy_address: Option<String>,
    start_block: Option<u64>,
) -> (r: ContractDeployment)
    ensures
        is_sample_deployment(
            r,
            network_id@,
            option_text(address),
            option_text(rpc_url),
            option_text(proxy_address),
            start_block,
        ),
{
    let address = match address {
        Some(address) => address,
        None => generate_random_address(),
    };
    let rpc_url = match rpc_url {
        Some(rpc_url) => rpc_url,
        None => generate_random_rpc_url(),
    };
    ContractDeployment::new(
        String::from_str(network_id),
        address,
        rpc_url,
        proxy_address,
        start_block,
    )
}

/// The source of `contract` is the ABI `abi`, given inline.
pub open spec fn has_inline_abi(contract: ContractConfig, abi: Seq<char>) -> bool {
    contract.source matches ContractSource::Abi { abi: Some(text), url: None } && text@ == abi
}

/// A contract called `name` with the greeter's ABI and one deployment on the network
/// `network_id`, at a fixed address.
pub fn create_test_contract(name: &str, network_id: &str) -> (r: ContractConfig)
    ensures
        r.name@ == name@,
        has_inline_abi(r, greeter_abi_text()),
        r.deployments@.len() == 1,
        is_sample_deployment(
            r.deployments@[0],
            network_id@,
            Some("0xd8dA6BF26964aF9D7eEd9e03E53415D37aA96045"@),
            None,
            None,
            None,
        ),
{
    let mut deployments: Vec<ContractDeployment> = Vec::new();
    deployments.push(
        create_deployment(
            network_id,
            Some(String::from_str("0xd8dA6BF26964aF9D7eEd9e03E53415D37aA96045")),
            None,
            None,
            None,
        ),
    );
    ContractConfig::new(
        String::from_str(name),
        ContractSource::Abi { abi: Some(String::from_str(greeter_abi())), url: None },
        deployments,
    )
}

/// A contract called `name` whose ABI comes from an explorer, with one deployment on
/// the network `network_id`, at a fixed address behind a fixed proxy.
pub fn create_test_explorer_contract(name: &str, network_id: &str) -> (r: ContractConfig)
    ensures
        r.name@ == name@,
        r.source matches ContractSource::Explorer { api_url } && api_url@ == "test_key"@,
        r.deployments@.len() == 1,
        is_sample_deployment(
            r.deployments@[0],
            network_id@,
            Some("0xC02aaA39b223FE8D0A0e5C4F27eAD9083C756Cc2"@),
            None,
            Some("0x7a250d5630B4cF539739dF2C5dAcb4c659F2488D"@),
            None,
        ),
{
    let mut deployments: Vec<ContractDeployment> = Vec::new();
    deployments.push(
        create_deployment(
            network_id,
            Some(String::from_str("0xC02aaA39b223FE8D0A0e5C4F27eAD9083C756Cc2")),
            None,
            Some(String::from_str("0x7a250d5630B4cF539739dF2C5dAcb4c659F2488D")),
            None,
        ),
    );
    ContractConfig::new(
        String::from_str(name),
        ContractSource::Explorer { api_url: String::from_str("test_key") },
        deployments,
    )
}

/// `count` deployments on the network `network_id`, each with a random address and a
/// random endpoint; where `with_proxies` is set, some of them behind a random proxy.
pub fn sample_deployments(network_id: &str, count: usize, with_proxies: bool) -> (r: Vec<
    ContractDeployment,
>)
    ensures
        r@.len() == count,
        forall|i: int|
            0 <= i < count ==> (#[trigger] r@[i]).network_id@ == network_id@ && is_address(
                r@[i].address@,
            ) && is_endpoint(r@[i].rpc_url@) && r@[i].start_block is None && (!with_proxies ==> r@[i].proxy_address is None) && (
            r@[i].proxy_address is Some ==> is_address(r@[i].proxy_address->0@)),
{
    let mut deployments: Vec<ContractDeployment> = Vec::new();
    let mut i: usize = 0;
    while i < count
        invariant
            i <= count,
            deployments@.len() == i,
            forall|k: int|
                0 <= k < i ==> (#[trigger] deployments@[k]).network_id@ == network_id@
                    && is_address(deployments@[k].address@) && is_endpoint(
                    deployments@[k].rpc_url@,
                ) && deployments@[k].start_block is None && (!with_proxies ==> deployments@[k].proxy_address is None) && (
                deployments@[k].proxy_address is Some ==> is_address(
                    deployments@[k].proxy_address->0@,
                )),
        decreases count - i,
    {
        let proxy = if with_proxies && random_ratio(3, 10) {
            Some(generate_random_address())
        } else {
            None
        };
        deployments.push(create_deployment(network_id, None, None, proxy, None));
        i += 1;
    }
    deployments
}

/// Every deployment is on the network `network_id`.
pub open spec fn all_on_network(deployments: Seq<ContractDeployment>, network_id: Seq<char>) -> bool {
    forall|i: int|
        0 <= i < deployments.len() ==> (#[trigger] deployments[i]).network_id@ == network_id
}

/// A contract with a random name, a random source, and from one to five deployments on
/// one of the common networks.
pub fn generate_random_contract_config() -> (r: ContractConfig)
    ensures
        is_contract_name(r.name@),
        1 <= r.deployments@.len() <= 5,
        has_inline_abi(r, greeter_abi_text()) || (r.source is Explorer && is_api_key(
            r.source->Explorer_api_url@,
        )),
        exists|network: int|
            0 <= network < 5 && all_on_network(
                r.deployments@,
                #[trigger] common_network_id(network),
            ),
{
    let network = random_below(5);
    let network_id = common_network(network);
    let source = if random_ratio(1, 2) {
        ContractSource::Abi { abi: Some(String::from_str(greeter_abi())), url: None }
    } else {
        ContractSource::Explorer { api_url: generate_random_api_key() }
    };
    let count = random_below(5) + 1;
    let deployments = sample_deployments(network_id, count, true);
    assert(all_on_network(deployments@, common_network_id(network as int)));
    ContractConfig::new(generate_random_contract_name(), source, deployments)
}

/// A contract with a random name and the greeter's ABI, deployed once on each of the
/// common networks, in their order.
pub fn generate_multi_chain_contract() -> (r: ContractConfig)
    ensures
        is_contract_name(r.name@),
        has_inline_abi(r, greeter_abi_text()),
        r.deployments@.len() == 5,
        forall|i: int|
            0 <= i < 5 ==> is_sample_deployment(
                #[trigger] r.deployments@[i],
                common_network_id(i),
                None,
                None,
                None,
                None,
            ),
{
    let mut deployments: Vec<ContractDeployment> = Vec::new();
    let mut i: usize = 0;
    while i < 5
        invariant
            i <= 5,
            deployments@.len() == i,
            forall|k: int|
                0 <= k < i ==> is_sample_deployment(
                    #[trigger] deployments@[k],
                    common_network_id(k),
                    None,
                    None,
                    None,
                    None,
                ),
        decreases 5 - i,
    {
        deployments.push(create_deployment(common_network(i), None, None, None, None));
        i += 1;
    }
    ContractConfig::new(
        generate_random_contract_name(),
        ContractSource::Abi { abi: Some(String::from_str(greeter_abi())), url: None },
        deployments,
    )
}

/// A contract with a random name and the greeter's ABI, deployed `num_addresses` times
/// on the network `network_id`.
pub fn generate_multi_address_contract(network_id: &str, num_addresses: usize) -> (r:
    ContractConfig)
    ensures
        is_contract_name(r.name@),
        has_inline_abi(r, greeter_abi_text()),
        r.deployments@.len() == num_addresses,
        forall|i: int|
            0 <= i < num_addresses ==> is_sample_deployment(
                #[trigger] r.deployments@[i],
                network_id@,
                None,
                None,
                None,
                None,
            ),
{
    let deployments = sample_deployments(network_id, num_addresses, false);
    ContractConfig::new(
        generate_random_contract_name(),
        ContractSource::Abi { abi: Some(String::from_str(greeter_abi())), url: None },
        deployments,
    )
}

/// The configuration of an indexer for the USDC contract on the Ethereum mainnet.
pub fn create_usdc_contract() -> (r: IndexerConfig)
    ensures
        r.name@ == "usdc_indexer_test"@,
        r.contracts@.len() == 1,
        r.contracts@[0].name@ == "USDC"@,
        has_inline_abi(r.contracts@[0], erc20_abi_text()),
        r.contracts@[0].deployments@.len() == 1,
        is_sample_deployment(
            r.contracts@[0].deployments@[0],
            "1"@,
            Some("0xA0b86991c6218b36c1d19D4a2e9Eb0cE3606eB48"@),
            Some("https://eth-mainnet.g.alchemy.com/v2/demo"@),
            None,
            Some(10_000_000u64),
        ),
{
    let mut deployments: Vec<ContractDeployment> = Vec::new();
    deployments.push(
        ContractDeployment::new(
            String::from_str("1"),
            String::from_str("0xA0b86991c6218b36c1d19D4a2e9Eb0cE3606eB48"),
            String::from_str("https://eth-mainnet.g.alchemy.com/v2/demo"),
            None,
            Some(10_000_000),
        ),
    );
    let contract = ContractConfig::new(
        String::from_str("USDC"),
        ContractSource::Abi { abi: Some(String::from_str(erc20_abi())), url: None },
        deployments,
    );
    let mut contracts: Vec<ContractConfig> = Vec::new();
    contracts.push(contract);
    IndexerConfig::new(String::from_str("usdc_indexer_test"), contracts)
}

/// The name of the file that holds the ABI of a contract of an indexer.
pub fn abi_file_name(indexer_name: &str, contract_name: &str) -> (r: String)
    ensures
        r@ == indexer_name@ + "_"@ + contract_name@ + "_abi.json"@,
{
    let mut out = chars_of(indexer_name);
    push_str_chars(&mut out, "_");
    push_str_chars(&mut out, contract_name);
    push_str_chars(&mut out, "_abi.json");
    string_of(&out)
}

} // verus!
