//! The table of supported networks.

use vstd::prelude::*;
use vstd::string::*;

verus! {

/// What is known about one supported network.
#[derive(Debug, Clone)]
pub struct NetworkInfo {
    pub name: String,
    pub network_id: u64,
    pub rpc_url: String,
    pub supports_traces: bool,
}

/// One row of the network table, as a mathematical value.
pub struct NetworkRow {
    pub id: u64,
    pub name: Seq<char>,
    pub host: Seq<char>,
    pub traces: bool,
}

/// The number of rows in the network table.
pub const NETWORK_COUNT: usize = 68;

/// Row `i` of the network table: the chain id, the display name, the host label of the
/// network's endpoint, and whether the endpoint serves traces.
pub open spec fn network_row(i: int) -> NetworkRow {
    if i == 0 {
        NetworkRow { id: 42161, name: "Arbitrum"@, host: "arbitrum"@, traces: false }
    } else if i == 1 {
        NetworkRow { id: 42170, name: "Arbitrum Nova"@, host: "arbitrum-nova"@, traces: false }
    } else if i == 2 {
        NetworkRow { id: 421614, name: "Arbitrum Sepolia"@, host: "arbitrum-sepolia"@, traces: false }
    } else if i == 3 {
        NetworkRow { id: 1313161554, name: "Aurora"@, host: "aurora"@, traces: false }
    } else if i == 4 {
        NetworkRow { id: 43114, name: "Avalanche"@, host: "avalanche"@, traces: false }
    } else if i == 5 {
        NetworkRow { id: 1123, name: "B2 Testnet"@, host: "b2-testnet"@, traces: false }
    } else if i == 6 {
        NetworkRow { id: 8453, name: "Base"@, host: "base"@, traces: false }
    } else if i == 7 {
        NetworkRow { id: 84532, name: "Base Sepolia"@, host: "base-sepolia"@, traces: false }
    } else if i == 8 {
        NetworkRow { id: 80084, name: "Berachain Bartio"@, host: "berachain-bartio"@, traces: false }
    } else if i == 9 {
        NetworkRow { id: 81457, name: "Blast"@, host: "blast"@, traces: false }
    } else if i == 10 {
        NetworkRow { id: 168587773, name: "Blast Sepolia"@, host: "blast-sepolia"@, traces: false }
    } else if i == 11 {
        NetworkRow { id: 288, name: "Boba"@, host: "boba"@, traces: false }
    } else if i == 12 {
        NetworkRow { id: 56, name: "BSC"@, host: "bsc"@, traces: false }
    } else if i == 13 {
        NetworkRow { id: 97, name: "BSC Testnet"@, host: "bsc-testnet"@, traces: false }
    } else if i == 14 {
        NetworkRow { id: 2001, name: "C1 Milkomeda"@, host: "c1-milkomeda"@, traces: false }
    } else if i == 15 {
        NetworkRow { id: 42220, name: "Celo"@, host: "celo"@, traces: false }
    } else if i == 16 {
        NetworkRow { id: 8888, name: "Chiliz"@, host: "chiliz"@, traces: false }
    } else if i == 17 {
        NetworkRow { id: 5115, name: "Citrea Testnet"@, host: "citrea-testnet"@, traces: false }
    } else if i == 18 {
        NetworkRow { id: 44, name: "Crab"@, host: "crab"@, traces: false }
    } else if i == 19 {
        NetworkRow { id: 7560, name: "Cyber"@, host: "cyber"@, traces: false }
    } else if i == 20 {
        NetworkRow { id: 46, name: "Darwinia"@, host: "darwinia"@, traces: false }
    } else if i == 21 {
        NetworkRow { id: 1, name: "Ethereum Mainnet"@, host: "eth"@, traces: true }
    } else if i == 22 {
        NetworkRow { id: 250, name: "Fantom"@, host: "fantom"@, traces: false }
    } else if i == 23 {
        NetworkRow { id: 14, name: "Flare"@, host: "flare"@, traces: false }
    } else if i == 24 {
        NetworkRow { id: 43113, name: "Fuji"@, host: "fuji"@, traces: false }
    } else if i == 25 {
        NetworkRow { id: 696969, name: "Galadriel Devnet"@, host: "galadriel-devnet"@, traces: false }
    } else if i == 26 {
        NetworkRow { id: 100, name: "Gnosis"@, host: "gnosis"@, traces: true }
    } else if i == 27 {
        NetworkRow { id: 10200, name: "Gnosis Chiado"@, host: "gnosis-chiado"@, traces: false }
    } else if i == 28 {
        NetworkRow { id: 5, name: "Goerli"@, host: "goerli"@, traces: false }
    } else if i == 29 {
        NetworkRow { id: 1666600000, name: "Harmony Shard 0"@, host: "harmony-shard-0"@, traces: false }
    } else if i == 30 {
        NetworkRow { id: 17000, name: "Holesky"@, host: "holesky"@, traces: false }
    } else if i == 31 {
        NetworkRow { id: 16858666, name: "Internal Test Chain"@, host: "internal-test-chain"@, traces: false }
    } else if i == 32 {
        NetworkRow { id: 255, name: "Kroma"@, host: "kroma"@, traces: false }
    } else if i == 33 {
        NetworkRow { id: 59144, name: "Linea"@, host: "linea"@, traces: false }
    } else if i == 34 {
        NetworkRow { id: 1135, name: "Lisk"@, host: "lisk"@, traces: false }
    } else if i == 35 {
        NetworkRow { id: 42, name: "Lukso"@, host: "lukso"@, traces: false }
    } else if i == 36 {
        NetworkRow { id: 4201, name: "Lukso Testnet"@, host: "lukso-testnet"@, traces: false }
    } else if i == 37 {
        NetworkRow { id: 169, name: "Manta"@, host: "manta"@, traces: false }
    } else if i == 38 {
        NetworkRow { id: 5000, name: "Mantle"@, host: "mantle"@, traces: false }
    } else if i == 39 {
        NetworkRow { id: 4200, name: "Merlin"@, host: "merlin"@, traces: false }
    } else if i == 40 {
        NetworkRow { id: 1088, name: "Metis"@, host: "metis"@, traces: false }
    } else if i == 41 {
        NetworkRow { id: 17864, name: "Mev Commit"@, host: "mev-commit"@, traces: false }
    } else if i == 42 {
        NetworkRow { id: 34443, name: "Mode"@, host: "mode"@, traces: false }
    } else if i == 43 {
        NetworkRow { id: 1287, name: "Moonbase Alpha"@, host: "moonbase-alpha"@, traces: false }
    } else if i == 44 {
        NetworkRow { id: 1284, name: "Moonbeam"@, host: "moonbeam"@, traces: false }
    } else if i == 45 {
        NetworkRow { id: 2818, name: "Morph"@, host: "morph"@, traces: false }
    } else if i == 46 {
        NetworkRow { id: 2810, name: "Morph Testnet"@, host: "morph-testnet"@, traces: false }
    } else if i == 47 {
        NetworkRow { id: 245022934, name: "Neon EVM"@, host: "neon-evm"@, traces: false }
    } else if i == 48 {
        NetworkRow { id: 204, name: "opBNB"@, host: "opbnb"@, traces: true }
    } else if i == 49 {
        NetworkRow { id: 10, name: "Optimism"@, host: "optimism"@, traces: false }
    } else if i == 50 {
        NetworkRow { id: 11155420, name: "Optimism Sepolia"@, host: "optimism-sepolia"@, traces: false }
    } else if i == 51 {
        NetworkRow { id: 137, name: "Polygon"@, host: "polygon"@, traces: false }
    } else if i == 52 {
        NetworkRow { id: 80002, name: "Polygon Amoy"@, host: "polygon-amoy"@, traces: false }
    } else if i == 53 {
        NetworkRow { id: 1101, name: "Polygon zkEVM"@, host: "polygon-zkevm"@, traces: false }
    } else if i == 54 {
        NetworkRow { id: 30, name: "Rootstock"@, host: "rootstock"@, traces: false }
    } else if i == 55 {
        NetworkRow { id: 7225878, name: "Saakuru"@, host: "saakuru"@, traces: false }
    } else if i == 56 {
        NetworkRow { id: 534352, name: "Scroll"@, host: "scroll"@, traces: false }
    } else if i == 57 {
        NetworkRow { id: 11155111, name: "Sepolia"@, host: "sepolia"@, traces: false }
    } else if i == 58 {
        NetworkRow { id: 148, name: "Shimmer EVM"@, host: "shimmer-evm"@, traces: false }
    } else if i == 59 {
        NetworkRow { id: 50104, name: "Sophon"@, host: "sophon"@, traces: false }
    } else if i == 60 {
        NetworkRow { id: 531050104, name: "Sophon Testnet"@, host: "sophon-testnet"@, traces: false }
    } else if i == 61 {
        NetworkRow { id: 5845, name: "Tangle"@, host: "tangle"@, traces: false }
    } else if i == 62 {
        NetworkRow { id: 1301, name: "Unichain Sepolia"@, host: "unichain-sepolia"@, traces: false }
    } else if i == 63 {
        NetworkRow { id: 196, name: "X Layer"@, host: "x-layer"@, traces: false }
    } else if i == 64 {
        NetworkRow { id: 7000, name: "Zeta"@, host: "zeta"@, traces: false }
    } else if i == 65 {
        NetworkRow { id: 48900, name: "Zircuit"@, host: "zircuit"@, traces: false }
    } else if i == 66 {
        NetworkRow { id: 324, name: "ZKSync"@, host: "zksync"@, traces: false }
    } else {
        NetworkRow { id: 7777777, name: "Zora"@, host: "zora"@, traces: false }
    }
}

/// The endpoint of a network whose host label is `host`.
pub open spec fn endpoint_of(host: Seq<char>) -> Seq<char> {
    "https://"@ + host + ".hypersync.xyz"@
}

/// `info` is row `i` of the network table.
pub open spec fn is_row(info: NetworkInfo, i: int) -> bool {
    &&& info.network_id == network_row(i).id
    &&& info.name@ == network_row(i).name
    &&& info.rpc_url@ == endpoint_of(network_row(i).host)
    &&& info.supports_traces == network_row(i).traces
}

/// The chain id, display name, host label and trace support of row `i`.
pub fn row_parts(i: usize) -> (r: (u64, &'static str, &'static str, bool))
    requires
        i < NETWORK_COUNT,
    ensures
        r.0 == network_row(i as int).id,
        r.1@ == network_row(i as int).name,
        r.2@ == network_row(i as int).host,
        r.3 == network_row(i as int).traces,
{
    if i == 0 {
        (42161, "Arbitrum", "arbitrum", false)
    } else if i == 1 {
        (42170, "Arbitrum Nova", "arbitrum-nova", false)
    } else if i == 2 {
        (421614, "Arbitrum Sepolia", "arbitrum-sepolia", false)
    } else if i == 3 {
        (1313161554, "Aurora", "aurora", false)
    } else if i == 4 {
        (43114, "Avalanche", "avalanche", false)
    } else if i == 5 {
        (1123, "B2 Testnet", "b2-testnet", false)
    } else if i == 6 {
        (8453, "Base", "base", false)
    } else if i == 7 {
        (84532, "Base Sepolia", "base-sepolia", false)
    } else if i == 8 {
        (80084, "Berachain Bartio", "berachain-bartio", false)
    } else if i == 9 {
        (81457, "Blast", "blast", false)
    } else if i == 10 {
        (168587773, "Blast Sepolia", "blast-sepolia", false)
    } else if i == 11 {
        (288, "Boba", "boba", false)
    } else if i == 12 {
        (56, "BSC", "bsc", false)
    } else if i == 13 {
        (97, "BSC Testnet", "bsc-testnet", false)
    } else if i == 14 {
        (2001, "C1 Milkomeda", "c1-milkomeda", false)
    } else if i == 15 {
        (42220, "Celo", "celo", false)
    } else if i == 16 {
        (8888, "Chiliz", "chiliz", false)
    } else if i == 17 {
        (5115, "Citrea Testnet", "citrea-testnet", false)
    } else if i == 18 {
        (44, "Crab", "crab", false)
    } else if i == 19 {
        (7560, "Cyber", "cyber", false)
    } else if i == 20 {
        (46, "Darwinia", "darwinia", false)
    } else if i == 21 {
        (1, "Ethereum Mainnet", "eth", true)
    } else if i == 22 {
        (250, "Fantom", "fantom", false)
    } else if i == 23 {
        (14, "Flare", "flare", false)
    } else if i == 24 {
        (43113, "Fuji", "fuji", false)
    } else if i == 25 {
        (696969, "Galadriel Devnet", "galadriel-devnet", false)
    } else if i == 26 {
        (100, "Gnosis", "gnosis", true)
    } else if i == 27 {
        (10200, "Gnosis Chiado", "gnosis-chiado", false)
    } else if i == 28 {
        (5, "Goerli", "goerli", false)
    } else if i == 29 {
        (1666600000, "Harmony Shard 0", "harmony-shard-0", false)
    } else if i == 30 {
        (17000, "Holesky", "holesky", false)
    } else if i == 31 {
        (16858666, "Internal Test Chain", "internal-test-chain", false)
    } else if i == 32 {
        (255, "Kroma", "kroma", false)
    } else if i == 33 {
        (59144, "Linea", "linea", false)
    } else if i == 34 {
        (1135, "Lisk", "lisk", false)
    } else if i == 35 {
        (42, "Lukso", "lukso", false)
    } else if i == 36 {
        (4201, "Lukso Testnet", "lukso-testnet", false)
    } else if i == 37 {
        (169, "Manta", "manta", false)
    } else if i == 38 {
        (5000, "Mantle", "mantle", false)
    } else if i == 39 {
        (4200, "Merlin", "merlin", false)
    } else if i == 40 {
        (1088, "Metis", "metis", false)
    } else if i == 41 {
        (17864, "Mev Commit", "mev-commit", false)
    } else if i == 42 {
        (34443, "Mode", "mode", false)
    } else if i == 43 {
        (1287, "Moonbase Alpha", "moonbase-alpha", false)
    } else if i == 44 {
        (1284, "Moonbeam", "moonbeam", false)
    } else if i == 45 {
        (2818, "Morph", "morph", false)
    } else if i == 46 {
        (2810, "Morph Testnet", "morph-testnet", false)
    } else if i == 47 {
        (245022934, "Neon EVM", "neon-evm", false)
    } else if i == 48 {
        (204, "opBNB", "opbnb", true)
    } else if i == 49 {
        (10, "Optimism", "optimism", false)
    } else if i == 50 {
        (11155420, "Optimism Sepolia", "optimism-sepolia", false)
    } else if i == 51 {
        (137, "Polygon", "polygon", false)
    } else if i == 52 {
        (80002, "Polygon Amoy", "polygon-amoy", false)
    } else if i == 53 {
        (1101, "Polygon zkEVM", "polygon-zkevm", false)
    } else if i == 54 {
        (30, "Rootstock", "rootstock", false)
    } else if i == 55 {
        (7225878, "Saakuru", "saakuru", false)
    } else if i == 56 {
        (534352, "Scroll", "scroll", false)
    } else if i == 57 {
        (11155111, "Sepolia", "sepolia", false)
    } else if i == 58 {
        (148, "Shimmer EVM", "shimmer-evm", false)
    } else if i == 59 {
        (50104, "Sophon", "sophon", false)
    } else if i == 60 {
        (531050104, "Sophon Testnet", "sophon-testnet", false)
    } else if i == 61 {
        (5845, "Tangle", "tangle", false)
    } else if i == 62 {
        (1301, "Unichain Sepolia", "unichain-sepolia", false)
    } else if i == 63 {
        (196, "X Layer", "x-layer", false)
    } else if i == 64 {
        (7000, "Zeta", "zeta", false)
    } else if i == 65 {
        (48900, "Zircuit", "zircuit", false)
    } else if i == 66 {
        (324, "ZKSync", "zksync", false)
    } else {
        (7777777, "Zora", "zora", false)
    }
}

/// Row `i` of the network table.
pub fn network_at(i: usize) -> (info: NetworkInfo)
    requires
        i < NETWORK_COUNT,
    ensures
        is_row(info, i as int),
{
    let (id, name, host, traces) = row_parts(i);
    let mut url = String::from_str("https://");
    url.append(host);
    url.append(".hypersync.xyz");
    NetworkInfo {
        name: String::from_str(name),
        network_id: id,
        rpc_url: url,
        supports_traces: traces,
    }
}

} // verus!
