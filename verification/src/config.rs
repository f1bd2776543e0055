//! Run configuration and the contract material a fuzzing run starts from:
//! loaded contracts, their interface descriptions, and optional setup
//! state. Reading build artifacts off disk happens outside the library;
//! the loader here holds what was read, as plain values.

use vstd::prelude::*;
use crate::input::EVMEnv;
use crate::types::EVMAddress;
use crate::vm::EVMState;

verus! {

/// How on-chain storage is fetched by the outside collaborator.
#[derive(Copy, Clone, Debug, PartialEq, Eq, Structural)]
pub enum StorageFetchingMode {
    /// One dump request for a whole contract.
    Dump,
    /// One request per slot.
    OneByOne,
}

/// One function of a contract's interface.
#[derive(Debug, Clone)]
pub struct ABIConfig {
    /// The argument type signature.
    pub abi: String,
    /// The four-byte selector.
    pub function: [u8; 4],
    /// The function's name.
    pub function_name: String,
    /// Whether the arguments are fixed-size.
    pub is_static: bool,
    /// Whether the function accepts value.
    pub is_payable: bool,
    /// Whether this is the constructor.
    pub is_constructor: bool,
    /// Whether the function should seed the corpus.
    pub should_add_corpus: bool,
}

/// A contract's interface with its source tag.
#[derive(Debug, Clone)]
pub struct ABIInfo {
    /// Where the interface came from.
    pub source: String,
    /// The functions.
    pub abi: Vec<ABIConfig>,
}

/// One loaded contract.
#[derive(Debug, Clone)]
pub struct ContractInfo {
    /// The contract's name.
    pub name: String,
    /// Deployment or runtime bytecode.
    pub code: Vec<u8>,
    /// The interface.
    pub abi: Vec<ABIConfig>,
    /// Whether `code` is already deployed code.
    pub is_code_deployed: bool,
    /// Encoded constructor arguments.
    pub constructor_args: Vec<u8>,
    /// Address the contract is (to be) deployed at.
    pub deployed_address: EVMAddress,
    /// Source files as `(name, content)`.
    pub files: Vec<(String, String)>,
    /// Source-map replacement pairs, where present.
    pub source_map_replacements: Option<Vec<(String, String)>>,
    /// The raw source map, where present.
    pub raw_source_map: Option<String>,
}

/// State prepared by a setup routine before fuzzing starts.
#[derive(Debug)]
pub struct SetupData {
    /// World state after setup.
    pub evmstate: EVMState,
    /// Block context after setup.
    pub env: EVMEnv,
    /// Deployed code per address.
    pub code: Vec<(EVMAddress, Vec<u8>)>,
}

impl Clone for SetupData {
    fn clone(&self) -> (r: Self)
        ensures
            r.evmstate.same_persisted(self.evmstate),
            r.evmstate.observations_empty(),
            r.env == self.env,
            r.code@.len() == self.code@.len(),
    {
        let mut code: Vec<(EVMAddress, Vec<u8>)> = Vec::new();
        let mut i: usize = 0;
        while i < self.code.len()
            invariant
                0 <= i <= self.code@.len(),
                code@.len() == i,
            decreases self.code@.len() - i,
        {
            let (a, c) = &self.code[i];
            code.push((*a, c.clone()));
            i += 1;
        }
        SetupData { evmstate: self.evmstate.clone_for_execution(), env: self.env, code }
    }
}

/// Everything read off disk for a run: contracts, interfaces, and the
/// optional setup state.
#[derive(Debug, Clone)]
pub struct ContractLoader {
    /// The loaded contracts.
    pub contracts: Vec<ContractInfo>,
    /// The loaded interfaces.
    pub abis: Vec<ABIInfo>,
    /// Setup state, where a setup routine ran.
    pub setup_data: Option<SetupData>,
}

impl ContractLoader {
    /// A loader for a glob of build artifacts. Reading the files is the
    /// caller's concern; the loader itself starts empty.
    pub fn from_glob(_p: &str) -> (r: Self)
        ensures
            r.contracts@.len() == 0,
            r.abis@.len() == 0,
            r.setup_data is None,
    {
        ContractLoader { contracts: Vec::new(), abis: Vec::new(), setup_data: None }
    }
}

/// Command-line arguments of an EVM fuzzing run; the command-line shell
/// around the library parses into its own copy of this shape and hands
/// the values over.
#[derive(Debug, Default, Clone)]
pub struct EvmArgs {
    /// Glob pattern of the build artifacts to fuzz.
    pub target: String,
}

/// The configuration of one fuzzing run.
pub struct Config {
    /// The contract material to fuzz.
    pub contract_loader: ContractLoader,
    /// Working directory for artifacts.
    pub work_dir: String,
}

} // verus!
