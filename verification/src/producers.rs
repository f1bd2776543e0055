//! Producers compute derived facts from execution traces for the oracles
//! that need them; the ERC-20 producer tracks token balances per
//! `(token, holder)` pair.

use vstd::prelude::*;
use crate::encoding::{bytes_from_hex, hex_decode};
use crate::types::{EVMAddress, EVMU256};

verus! {

/// The ABI-encoded selector bytes of the ERC-20 balance query.
pub open spec fn balance_of_selector() -> Seq<u8> {
    seq![0x70u8, 0xa0u8, 0x82u8, 0x31u8]
}

/// Decode the hex spelling of the ERC-20 balance query selector.
pub(crate) fn decode_balance_of_selector() -> (r: Vec<u8>)
    ensures
        r@ == balance_of_selector(),
{
    let d = hex_decode("70a08231");
    proof {
        reveal_strlit("70a08231");
        assert(d is Ok);
        assert(bytes_from_hex("70a08231"@) =~= balance_of_selector());
    }
    match d {
        Ok(b) => b,
        Err(_) => Vec::new(),
    }
}

/// Observed token balances and the selector used to query them.
pub struct ERC20Producer {
    /// Balances per `(token, holder)` pair, first match wins.
    pub balances: Vec<((EVMAddress, EVMAddress), EVMU256)>,
    /// The balance query selector.
    pub balance_of: Vec<u8>,
}

impl ERC20Producer {
    /// A fresh producer with no observed balances.
    pub fn new() -> (r: Self)
        ensures
            r.balances@.len() == 0,
            r.balance_of@ == balance_of_selector(),
    {
        ERC20Producer { balances: Vec::new(), balance_of: decode_balance_of_selector() }
    }

    /// Record one observed balance.
    pub fn record_balance(&mut self, token: EVMAddress, holder: EVMAddress, amount: EVMU256)
        ensures
            final(self).balances@ == old(self).balances@.push(((token, holder), amount)),
            final(self).balance_of == old(self).balance_of,
    {
        self.balances.push(((token, holder), amount));
    }
}

} // verus!
