//! The supported chains and their fixed endpoints, and the pair data the
//! on-chain collaborator reports. Everything here is a pure table; the
//! network calls that use these values live outside the library.

use vstd::prelude::*;
use vstd::string::StringSliceAdditionalSpecFns;
use crate::types::EVMU256;

verus! {

/// The chains the fuzzer knows endpoints for.
#[derive(Clone, Debug, Hash, PartialEq, Eq, Copy, Structural)]
pub enum Chain {
    ETH,
    GOERLI,
    SEPOLIA,
    BSC,
    CHAPEL,
    POLYGON,
    MUMBAI,
    FANTOM,
    AVALANCHE,
    OPTIMISM,
    ARBITRUM,
    GNOSIS,
    BASE,
    CELO,
    ZKEVM,
    ZkevmTestnet,
    BLAST,
    LOCAL,
}

/// The numeric chain identifier of each chain.
pub open spec fn chain_id_of(c: Chain) -> u32 {
    match c {
        Chain::ETH => 1,
        Chain::GOERLI => 5,
        Chain::SEPOLIA => 11155111,
        Chain::BSC => 56,
        Chain::CHAPEL => 97,
        Chain::POLYGON => 137,
        Chain::MUMBAI => 80001,
        Chain::FANTOM => 250,
        Chain::AVALANCHE => 43114,
        Chain::OPTIMISM => 10,
        Chain::ARBITRUM => 42161,
        Chain::GNOSIS => 100,
        Chain::BASE => 8453,
        Chain::CELO => 42220,
        Chain::ZKEVM => 1101,
        Chain::ZkevmTestnet => 1442,
        Chain::BLAST => 81457,
        Chain::LOCAL => 31337,
    }
}

/// The lowercase name of each chain.
pub open spec fn chain_name_of(c: Chain) -> Seq<char> {
    match c {
        Chain::ETH => "eth"@,
        Chain::GOERLI => "goerli"@,
        Chain::SEPOLIA => "sepolia"@,
        Chain::BSC => "bsc"@,
        Chain::CHAPEL => "chapel"@,
        Chain::POLYGON => "polygon"@,
        Chain::MUMBAI => "mumbai"@,
        Chain::FANTOM => "fantom"@,
        Chain::AVALANCHE => "avalanche"@,
        Chain::OPTIMISM => "optimism"@,
        Chain::ARBITRUM => "arbitrum"@,
        Chain::GNOSIS => "gnosis"@,
        Chain::BASE => "base"@,
        Chain::CELO => "celo"@,
        Chain::ZKEVM => "zkevm"@,
        Chain::ZkevmTestnet => "zkevm_testnet"@,
        Chain::BLAST => "blast"@,
        Chain::LOCAL => "local"@,
    }
}

/// The default RPC endpoint of each chain.
pub open spec fn chain_rpc_of(c: Chain) -> Seq<char> {
    match c {
        Chain::ETH => "https://eth.merkle.io"@,
        Chain::GOERLI => "https://rpc.ankr.com/eth_goerli"@,
        Chain::SEPOLIA => "https://rpc.ankr.com/eth_sepolia"@,
        Chain::BSC => "https://rpc.ankr.com/bsc"@,
        Chain::CHAPEL => "https://rpc.ankr.com/bsc_testnet_chapel"@,
        Chain::POLYGON => "https://polygon.llamarpc.com"@,
        Chain::MUMBAI => "https://rpc-mumbai.maticvigil.com/"@,
        Chain::FANTOM => "https://rpc.ankr.com/fantom"@,
        Chain::AVALANCHE => "https://rpc.ankr.com/avalanche"@,
        Chain::OPTIMISM => "https://rpc.ankr.com/optimism"@,
        Chain::ARBITRUM => "https://rpc.ankr.com/arbitrum"@,
        Chain::GNOSIS => "https://rpc.ankr.com/gnosis"@,
        Chain::BASE => "https://developer-access-mainnet.base.org"@,
        Chain::CELO => "https://rpc.ankr.com/celo"@,
        Chain::ZKEVM => "https://rpc.ankr.com/polygon_zkevm"@,
        Chain::ZkevmTestnet => "https://rpc.ankr.com/polygon_zkevm_testnet"@,
        Chain::BLAST => "https://rpc.ankr.com/blast"@,
        Chain::LOCAL => "http://localhost:8545"@,
    }
}

/// The block-explorer API endpoint of each chain.
pub open spec fn chain_etherscan_of(c: Chain) -> Seq<char> {
    match c {
        Chain::ETH => "https://api.etherscan.io/api"@,
        Chain::GOERLI => "https://api-goerli.etherscan.io/api"@,
        Chain::SEPOLIA => "https://api-sepolia.etherscan.io/api"@,
        Chain::BSC => "https://api.bscscan.com/api"@,
        Chain::CHAPEL => "https://api-testnet.bscscan.com/api"@,
        Chain::POLYGON => "https://api.polygonscan.com/api"@,
        Chain::MUMBAI => "https://mumbai.polygonscan.com/api"@,
        Chain::FANTOM => "https://api.ftmscan.com/api"@,
        Chain::AVALANCHE => "https://api.snowtrace.io/api"@,
        Chain::OPTIMISM => "https://api-optimistic.etherscan.io/api"@,
        Chain::ARBITRUM => "https://api.arbiscan.io/api"@,
        Chain::GNOSIS => "https://api.gnosisscan.io/api"@,
        Chain::BASE => "https://api.basescan.org/api"@,
        Chain::CELO => "https://api.celoscan.io/api"@,
        Chain::ZKEVM => "https://api-zkevm.polygonscan.com/api"@,
        Chain::ZkevmTestnet => "https://api-testnet-zkevm.polygonscan.com/api"@,
        Chain::BLAST => "https://api.routescan.io/v2/network/mainnet/evm/81457/etherscan"@,
        Chain::LOCAL => "http://localhost:8080/abi/"@,
    }
}

/// A byte with an uppercase letter folded to its lowercase form.
pub open spec fn lower_byte(b: u8) -> u8 {
    if 65 <= b && b <= 90 {
        (b + 32) as u8
    } else {
        b
    }
}

/// Whether `a`, folded to lowercase byte by byte, spells `b`.
pub open spec fn eq_lower_bytes(a: Seq<u8>, b: Seq<u8>) -> bool {
    a.len() == b.len() && forall|i: int| 0 <= i < a.len() ==> lower_byte(#[trigger] a[i]) == b[i]
}

/// Case-insensitive comparison of an input against a lowercase name.
fn ascii_eq_lower(a: &str, b: &str) -> (r: bool)
    ensures
        r == eq_lower_bytes(a.spec_bytes(), b.spec_bytes()),
{
    let ab = a.as_bytes();
    let bb = b.as_bytes();
    if ab.len() != bb.len() {
        return false;
    }
    let n = ab.len();
    let mut i: usize = 0;
    while i < n
        invariant
            ab@ == a.spec_bytes(),
            bb@ == b.spec_bytes(),
            n == ab@.len() == bb@.len(),
            0 <= i <= n,
            forall|j: int| 0 <= j < i ==> lower_byte(#[trigger] ab@[j]) == bb@[j],
        decreases n - i,
    {
        let c = *vstd::slice::slice_index_get(ab, i);
        let lc: u8 = if 65 <= c && c <= 90 {
            c + 32
        } else {
            c
        };
        if lc != *vstd::slice::slice_index_get(bb, i) {
            proof {
                assert(lower_byte(a.spec_bytes()[i as int]) != b.spec_bytes()[i as int]);
            }
            return false;
        }
        i += 1;
    }
    true
}

impl core::str::FromStr for Chain {
    type Err = ();

    fn from_str(s: &str) -> Result<Self, Self::Err> {
        if ascii_eq_lower(s, "eth") || ascii_eq_lower(s, "mainnet") {
            Ok(Chain::ETH)
        } else if ascii_eq_lower(s, "goerli") {
            Ok(Chain::GOERLI)
        } else if ascii_eq_lower(s, "sepolia") {
            Ok(Chain::SEPOLIA)
        } else if ascii_eq_lower(s, "bsc") {
            Ok(Chain::BSC)
        } else if ascii_eq_lower(s, "chapel") {
            Ok(Chain::CHAPEL)
        } else if ascii_eq_lower(s, "polygon") {
            Ok(Chain::POLYGON)
        } else if ascii_eq_lower(s, "mumbai") {
            Ok(Chain::MUMBAI)
        } else if ascii_eq_lower(s, "fantom") {
            Ok(Chain::FANTOM)
        } else if ascii_eq_lower(s, "avalanche") {
            Ok(Chain::AVALANCHE)
        } else if ascii_eq_lower(s, "optimism") {
            Ok(Chain::OPTIMISM)
        } else if ascii_eq_lower(s, "arbitrum") {
            Ok(Chain::ARBITRUM)
        } else if ascii_eq_lower(s, "gnosis") {
            Ok(Chain::GNOSIS)
        } else if ascii_eq_lower(s, "base") {
            Ok(Chain::BASE)
        } else if ascii_eq_lower(s, "celo") {
            Ok(Chain::CELO)
        } else if ascii_eq_lower(s, "zkevm") {
            Ok(Chain::ZKEVM)
        } else if ascii_eq_lower(s, "zkevm_testnet") {
            Ok(Chain::ZkevmTestnet)
        } else if ascii_eq_lower(s, "blast") {
            Ok(Chain::BLAST)
        } else if ascii_eq_lower(s, "local") {
            Ok(Chain::LOCAL)
        } else {
            Err(())
        }
    }
}

impl Chain {
    /// The numeric chain identifier, as reported by the RPC endpoint.
    pub fn get_chain_id(&self) -> (r: u32)
        ensures
            r == chain_id_of(*self),
    {
        match self {
            Chain::ETH => 1,
            Chain::GOERLI => 5,
            Chain::SEPOLIA => 11155111,
            Chain::BSC => 56,
            Chain::CHAPEL => 97,
            Chain::POLYGON => 137,
            Chain::MUMBAI => 80001,
            Chain::FANTOM => 250,
            Chain::AVALANCHE => 43114,
            Chain::OPTIMISM => 10,
            Chain::ARBITRUM => 42161,
            Chain::GNOSIS => 100,
            Chain::BASE => 8453,
            Chain::CELO => 42220,
            Chain::ZKEVM => 1101,
            Chain::ZkevmTestnet => 1442,
            Chain::BLAST => 81457,
            Chain::LOCAL => 31337,
        }
    }

    /// The chain of a numeric identifier, where one is known.
    pub fn from_chain_id(id: u64) -> (r: Option<Chain>)
        ensures
            r is Some ==> chain_id_of(r->0) == id,
            r is None ==> forall|c: Chain| chain_id_of(c) != id,
    {
        let r = match id {
            1u64 => Some(Chain::ETH),
            5u64 => Some(Chain::GOERLI),
            11155111u64 => Some(Chain::SEPOLIA),
            56u64 => Some(Chain::BSC),
            97u64 => Some(Chain::CHAPEL),
            137u64 => Some(Chain::POLYGON),
            80001u64 => Some(Chain::MUMBAI),
            250u64 => Some(Chain::FANTOM),
            43114u64 => Some(Chain::AVALANCHE),
            10u64 => Some(Chain::OPTIMISM),
            42161u64 => Some(Chain::ARBITRUM),
            100u64 => Some(Chain::GNOSIS),
            8453u64 => Some(Chain::BASE),
            42220u64 => Some(Chain::CELO),
            1101u64 => Some(Chain::ZKEVM),
            1442u64 => Some(Chain::ZkevmTestnet),
            81457u64 => Some(Chain::BLAST),
            31337u64 => Some(Chain::LOCAL),
            _ => None,
        };
        proof {
            if r is None {
                assert forall|c: Chain| chain_id_of(c) != id by {}
            }
        }
        r
    }

    /// The lowercase name of the chain.
    pub fn to_lowercase(&self) -> (r: String)
        ensures
            r@ == chain_name_of(*self),
    {
        match self {
            Chain::ETH => "eth".to_owned(),
            Chain::GOERLI => "goerli".to_owned(),
            Chain::SEPOLIA => "sepolia".to_owned(),
            Chain::BSC => "bsc".to_owned(),
            Chain::CHAPEL => "chapel".to_owned(),
            Chain::POLYGON => "polygon".to_owned(),
            Chain::MUMBAI => "mumbai".to_owned(),
            Chain::FANTOM => "fantom".to_owned(),
            Chain::AVALANCHE => "avalanche".to_owned(),
            Chain::OPTIMISM => "optimism".to_owned(),
            Chain::ARBITRUM => "arbitrum".to_owned(),
            Chain::GNOSIS => "gnosis".to_owned(),
            Chain::BASE => "base".to_owned(),
            Chain::CELO => "celo".to_owned(),
            Chain::ZKEVM => "zkevm".to_owned(),
            Chain::ZkevmTestnet => "zkevm_testnet".to_owned(),
            Chain::BLAST => "blast".to_owned(),
            Chain::LOCAL => "local".to_owned(),
        }
    }

    /// The default RPC endpoint of the chain; callers may prefer an
    /// endpoint configured in the environment over this table.
    pub fn get_chain_rpc(&self) -> (r: String)
        ensures
            r@ == chain_rpc_of(*self),
    {
        match self {
            Chain::ETH => "https://eth.merkle.io".to_owned(),
            Chain::GOERLI => "https://rpc.ankr.com/eth_goerli".to_owned(),
            Chain::SEPOLIA => "https://rpc.ankr.com/eth_sepolia".to_owned(),
            Chain::BSC => "https://rpc.ankr.com/bsc".to_owned(),
            Chain::CHAPEL => "https://rpc.ankr.com/bsc_testnet_chapel".to_owned(),
            Chain::POLYGON => "https://polygon.llamarpc.com".to_owned(),
            Chain::MUMBAI => "https://rpc-mumbai.maticvigil.com/".to_owned(),
            Chain::FANTOM => "https://rpc.ankr.com/fantom".to_owned(),
            Chain::AVALANCHE => "https://rpc.ankr.com/avalanche".to_owned(),
            Chain::OPTIMISM => "https://rpc.ankr.com/optimism".to_owned(),
            Chain::ARBITRUM => "https://rpc.ankr.com/arbitrum".to_owned(),
            Chain::GNOSIS => "https://rpc.ankr.com/gnosis".to_owned(),
            Chain::BASE => "https://developer-access-mainnet.base.org".to_owned(),
            Chain::CELO => "https://rpc.ankr.com/celo".to_owned(),
            Chain::ZKEVM => "https://rpc.ankr.com/polygon_zkevm".to_owned(),
            Chain::ZkevmTestnet => "https://rpc.ankr.com/polygon_zkevm_testnet".to_owned(),
            Chain::BLAST => "https://rpc.ankr.com/blast".to_owned(),
            Chain::LOCAL => "http://localhost:8545".to_owned(),
        }
    }

    /// The block-explorer API endpoint of the chain.
    pub fn get_chain_etherscan_base(&self) -> (r: String)
        ensures
            r@ == chain_etherscan_of(*self),
    {
        match self {
            Chain::ETH => "https://api.etherscan.io/api".to_owned(),
            Chain::GOERLI => "https://api-goerli.etherscan.io/api".to_owned(),
            Chain::SEPOLIA => "https://api-sepolia.etherscan.io/api".to_owned(),
            Chain::BSC => "https://api.bscscan.com/api".to_owned(),
            Chain::CHAPEL => "https://api-testnet.bscscan.com/api".to_owned(),
            Chain::POLYGON => "https://api.polygonscan.com/api".to_owned(),
            Chain::MUMBAI => "https://mumbai.polygonscan.com/api".to_owned(),
            Chain::FANTOM => "https://api.ftmscan.com/api".to_owned(),
            Chain::AVALANCHE => "https://api.snowtrace.io/api".to_owned(),
            Chain::OPTIMISM => "https://api-optimistic.etherscan.io/api".to_owned(),
            Chain::ARBITRUM => "https://api.arbiscan.io/api".to_owned(),
            Chain::GNOSIS => "https://api.gnosisscan.io/api".to_owned(),
            Chain::BASE => "https://api.basescan.org/api".to_owned(),
            Chain::CELO => "https://api.celoscan.io/api".to_owned(),
            Chain::ZKEVM => "https://api-zkevm.polygonscan.com/api".to_owned(),
            Chain::ZkevmTestnet => "https://api-testnet-zkevm.polygonscan.com/api".to_owned(),
            Chain::BLAST => "https://api.routescan.io/v2/network/mainnet/evm/81457/etherscan".to_owned(),
            Chain::LOCAL => "http://localhost:8080/abi/".to_owned(),
        }
    }
}

/// One liquidity pair as the on-chain collaborator reports it.
#[derive(Clone, Debug, Default)]
pub struct PairData {
    /// Where the pair was found.
    pub src: String,
    /// Which side of the pair the token of interest is.
    pub in_: i32,
    /// The pair contract.
    pub pair: String,
    /// The token paid in.
    pub in_token: String,
    /// The next token of the route.
    pub next: String,
    /// The exchange interface the pair speaks.
    pub interface: String,
    /// The exact source tag.
    pub src_exact: String,
    /// Reserves of the first token at discovery.
    pub initial_reserves_0: EVMU256,
    /// Reserves of the second token at discovery.
    pub initial_reserves_1: EVMU256,
    /// Decimals of the first token.
    pub decimals_0: u32,
    /// Decimals of the second token.
    pub decimals_1: u32,
    /// The first token.
    pub token0: String,
    /// The second token.
    pub token1: String,
}

} // verus!
