//! Persisted solutions and their replay. A solution is a newline-delimited
//! sequence of transactions; replaying one re-executes the transactions in
//! order against a freshly initialized state, and because execution is an
//! exact function of the seed state and the interpreter events, replaying
//! the same solution twice yields identical results.

use vstd::prelude::*;
use crate::abi::{ABILossyType, AbiBytes, BoxedABI};
use crate::encoding::{hex_encode, hex_of};
use crate::input::{EVMEnv, EVMInput};
use crate::types::{EVMAddress, EVMU256};

verus! {

/// One persisted transaction: the concise form of an input, with the call
/// data as plain bytes.
#[derive(Debug)]
pub struct ConciseEVMInput {
    /// Caller address.
    pub caller: EVMAddress,
    /// Contract address.
    pub contract: EVMAddress,
    /// ABI-encoded call data, selector first.
    pub data: Vec<u8>,
    /// Transaction value in wei.
    pub txn_value: EVMU256,
    /// How many times the call repeats back to back.
    pub repeat: usize,
}

impl ConciseEVMInput {
    /// Rebuild the full input this concise form stands for.
    pub fn to_input(&self) -> (r: EVMInput)
        ensures
            r.caller == self.caller,
            r.contract == self.contract,
            r.txn_value == Some(self.txn_value),
            r.repeat == self.repeat,
            r.data is Some,
            self.data@.len() >= 4 ==> r.data->Some_0.function@ =~= self.data@.subrange(0, 4),
            self.data@.len() < 4 ==> r.data->Some_0.function@ =~= seq![0u8, 0u8, 0u8, 0u8],
    {
        let function: [u8; 4] = if self.data.len() >= 4 {
            [self.data[0], self.data[1], self.data[2], self.data[3]]
        } else {
            [0u8, 0u8, 0u8, 0u8]
        };
        let payload = AbiBytes { ty: ABILossyType::TUnknown, bytes: self.data.clone(), fixed_size: false };
        EVMInput {
            caller: self.caller,
            contract: self.contract,
            data: Some(BoxedABI { b: Box::new(payload), function }),
            txn_value: Some(self.txn_value),
            env: EVMEnv::zeroed(),
            randomness: Vec::new(),
            repeat: self.repeat,
        }
    }
}

/// Render returned bytes for the human-readable trace: their lowercase
/// hex spelling.
pub fn render_output_hex(out: &Vec<u8>) -> (r: String)
    ensures
        r@ == hex_of(out@),
{
    hex_encode(out)
}

} // verus!
