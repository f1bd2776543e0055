//! Token and liquidity-pair context data consumed by the flashloan oracle
//! and its producers: which pools a token can be swapped through, and the
//! pair parameters those swaps need.

use vstd::prelude::*;
use crate::types::{EVMAddress, EVMU256};

verus! {

/// Parameters of one exchange flavour.
#[derive(Clone, Copy, Debug, Default)]
pub struct UniswapInfo {
    /// Pool fee in basis points.
    pub pool_fee: usize,
    /// Router contract, where the flavour has one.
    pub router: Option<EVMAddress>,
}

/// A constant-product pair hop: swap through `pair_address` from
/// `in_token_address` towards `next_hop`.
#[derive(Clone, Copy, Debug)]
pub struct UniswapPairContext {
    /// The pair contract.
    pub pair_address: EVMAddress,
    /// Token paid into the pair.
    pub in_token_address: EVMAddress,
    /// Token received out of the pair.
    pub next_hop: EVMAddress,
    /// Which side of the pair the input token is.
    pub side: u8,
    /// Exchange parameters of the pair's flavour.
    pub uniswap_info: UniswapInfo,
    /// Reserves at discovery time.
    pub initial_reserves: (EVMU256, EVMU256),
}

/// A concentrated-liquidity pair hop: the constant-product data plus the
/// pool's fee tier.
#[derive(Clone, Copy, Debug)]
pub struct UniswapV3PairContext {
    /// Fee tier of the pool.
    pub fee: u32,
    /// The underlying pair data.
    pub inner: UniswapPairContext,
}

/// A wrapped-ether hop: deposit or withdraw at the wrapped-ether contract.
#[derive(Clone, Copy, Debug, Default)]
pub struct WethContext {
    /// The wrapped-ether contract.
    pub weth_address: EVMAddress,
}

impl Default for UniswapPairContext {
    /// A hop with zeroed addresses and reserves.
    fn default() -> (r: Self)
        ensures
            r.side == 0,
    {
        UniswapPairContext {
            pair_address: EVMAddress { hi: 0, lo: 0 },
            in_token_address: EVMAddress { hi: 0, lo: 0 },
            next_hop: EVMAddress { hi: 0, lo: 0 },
            side: 0,
            uniswap_info: UniswapInfo { pool_fee: 0, router: None },
            initial_reserves: (EVMU256 { hi: 0, lo: 0 }, EVMU256 { hi: 0, lo: 0 }),
        }
    }
}

impl Default for UniswapV3PairContext {
    /// A hop with a zero fee tier over the default pair data.
    fn default() -> (r: Self)
        ensures
            r.fee == 0,
    {
        UniswapV3PairContext { fee: 0, inner: Default::default() }
    }
}

/// One hop of a swap route, in any of the supported pair flavours.
#[derive(Clone, Debug)]
pub enum PairContextTy {
    /// A constant-product pair.
    Uniswap(UniswapPairContext),
    /// A concentrated-liquidity pair.
    UniswapV3(UniswapV3PairContext),
    /// The wrapped-ether contract.
    Weth(WethContext),
}

/// A full swap route from a token to wrapped ether.
#[derive(Clone, Debug, Default)]
pub struct PathContext {
    /// The hops, in order.
    pub route: Vec<PairContextTy>,
}

/// Everything the flashloan accounting knows of one token: its swap routes
/// and whether it is wrapped ether itself.
#[derive(Clone, Debug, Default)]
pub struct TokenContext {
    /// Swap routes towards wrapped ether.
    pub swaps: Vec<PathContext>,
    /// Whether the token is wrapped ether itself.
    pub is_weth: bool,
    /// The wrapped-ether contract.
    pub weth_address: EVMAddress,
}

impl TokenContext {
    /// The context of the wrapped-ether token itself: no swap route is
    /// needed.
    pub fn new_weth(weth_address: EVMAddress) -> (r: TokenContext)
        ensures
            r.is_weth,
            r.weth_address == weth_address,
            r.swaps@.len() == 0,
    {
        TokenContext { swaps: Vec::new(), is_weth: true, weth_address }
    }
}

} // verus!
