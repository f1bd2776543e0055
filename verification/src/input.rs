//! Transaction inputs: what one fuzzed call to a contract consists of.

use vstd::prelude::*;
use crate::abi::BoxedABI;
use crate::types::{EVMAddress, EVMU256};

verus! {

/// Block and transaction context a call executes under.
#[derive(Clone, Copy, Debug, PartialEq, Eq, Structural)]
pub struct EVMEnv {
    /// Block number.
    pub block_number: EVMU256,
    /// Block timestamp.
    pub timestamp: EVMU256,
    /// Block gas limit.
    pub gas_limit: u64,
    /// Block coinbase address.
    pub coinbase: EVMAddress,
}

impl EVMEnv {
    /// The all-zero environment, used where the block context is
    /// irrelevant.
    pub fn zeroed() -> (r: EVMEnv)
        ensures
            r.block_number.as_nat() == 0,
            r.timestamp.as_nat() == 0,
            r.gas_limit == 0,
    {
        EVMEnv {
            block_number: EVMU256 { hi: 0, lo: 0 },
            timestamp: EVMU256 { hi: 0, lo: 0 },
            gas_limit: 0,
            coinbase: EVMAddress { hi: 0, lo: 0 },
        }
    }
}

/// A marker for VM inputs that are sent to any smart contract VM.
pub trait EVMInputT {
    /// Caller of the transaction.
    fn get_caller(&self) -> EVMAddress;

    /// Contract the transaction targets.
    fn get_contract(&self) -> EVMAddress;
}

/// One EVM transaction input: who calls what, with which payload and value,
/// under which block context.
pub struct EVMInput {
    /// Caller address.
    pub caller: EVMAddress,
    /// Contract address.
    pub contract: EVMAddress,
    /// Input data in ABI format; `None` for a plain transfer or a resume.
    pub data: Option<BoxedABI>,
    /// Transaction value in wei.
    pub txn_value: Option<EVMU256>,
    /// Environment (block, timestamp, gas limit, coinbase).
    pub env: EVMEnv,
    /// Additional random bytes the mutator may consume.
    pub randomness: Vec<u8>,
    /// Execute the transaction this many times back to back; models loops
    /// and reentrancy depth without new encoding.
    pub repeat: usize,
}

impl EVMInput {
    /// A plain transfer-shaped input with no payload.
    pub fn basic(caller: EVMAddress, contract: EVMAddress) -> (r: EVMInput)
        ensures
            r.caller == caller,
            r.contract == contract,
            r.data is None,
            r.txn_value is None,
            r.repeat == 1,
    {
        EVMInput {
            caller,
            contract,
            data: None,
            txn_value: None,
            env: EVMEnv::zeroed(),
            randomness: Vec::new(),
            repeat: 1,
        }
    }
}

impl EVMInputT for EVMInput {
    fn get_caller(&self) -> EVMAddress {
        self.caller
    }

    fn get_contract(&self) -> EVMAddress {
        self.contract
    }
}

} // verus!
