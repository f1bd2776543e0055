//! Tests of the hex conversions, the chain tables, the ABI capability,
//! and the smaller data carriers.

use std::str::FromStr;

use ityfuzz::abi::{ABILossyType, AbiBytes, BoxedABI, ABI};
use ityfuzz::config::ContractLoader;
use ityfuzz::onchain::Chain;
use ityfuzz::oracles::IERC20OracleFlashloan;
use ityfuzz::producers::ERC20Producer;
use ityfuzz::solution::{render_output_hex, ConciseEVMInput};
use ityfuzz::state::FuzzState;
use ityfuzz::tokens::TokenContext;
use ityfuzz::types::{EVMAddress, EVMU256};

#[test]
fn output_renders_as_lowercase_hex() {
    assert_eq!(render_output_hex(&vec![]), "");
    assert_eq!(render_output_hex(&vec![0x00]), "00");
    assert_eq!(render_output_hex(&vec![0xde, 0xad, 0xbe, 0xef]), "deadbeef");
    assert_eq!(render_output_hex(&vec![0x0f, 0xf0]), "0ff0");
}

#[test]
fn producer_selector_is_balance_of() {
    let p = ERC20Producer::new();
    assert_eq!(p.balance_of, vec![0x70, 0xa0, 0x82, 0x31]);
    assert!(p.balances.is_empty());
    let oracle = IERC20OracleFlashloan::new(p);
    assert_eq!(oracle.balance_of, vec![0x70, 0xa0, 0x82, 0x31]);
    assert!(oracle.known_tokens.is_empty());
}

#[test]
fn chain_ids_match_the_table() {
    assert_eq!(Chain::ETH.get_chain_id(), 1);
    assert_eq!(Chain::BSC.get_chain_id(), 56);
    assert_eq!(Chain::LOCAL.get_chain_id(), 31337);
    assert_eq!(Chain::BLAST.get_chain_id(), 81457);
}

#[test]
fn chain_names_round_trip() {
    assert_eq!(Chain::ETH.to_lowercase(), "eth");
    assert_eq!(Chain::ZkevmTestnet.to_lowercase(), "zkevm_testnet");
    assert_eq!(Chain::from_str("eth"), Ok(Chain::ETH));
    assert_eq!(Chain::from_str("mainnet"), Ok(Chain::ETH));
    assert_eq!(Chain::from_str("Polygon"), Ok(Chain::POLYGON));
    assert_eq!(Chain::from_str("BSC"), Ok(Chain::BSC));
    assert_eq!(Chain::from_str("nonsense"), Err(()));
}

#[test]
fn chain_from_id_inverts_get_chain_id() {
    for c in [Chain::ETH, Chain::POLYGON, Chain::LOCAL, Chain::CELO] {
        assert_eq!(Chain::from_chain_id(c.get_chain_id() as u64), Some(c));
    }
    assert_eq!(Chain::from_chain_id(424242), None);
}

#[test]
fn chain_endpoints_are_nonempty() {
    assert_eq!(Chain::ETH.get_chain_rpc(), "https://eth.merkle.io");
    assert_eq!(Chain::ETH.get_chain_etherscan_base(), "https://api.etherscan.io/api");
}

#[test]
fn abi_capability_moves_bytes() {
    let mut payload = AbiBytes { ty: ABILossyType::TDynamic, bytes: vec![1, 2, 3], fixed_size: false };
    assert!(!payload.is_static());
    assert_eq!(payload.get_bytes(), vec![1, 2, 3]);
    assert_eq!(payload.get_size(), 3);
    assert!(payload.set_bytes(vec![9, 9]));
    assert_eq!(payload.get_bytes(), vec![9, 9]);
    let boxed = BoxedABI::new(Box::new(payload));
    assert_eq!(boxed.function, [0, 0, 0, 0]);
    let cloned = boxed.clone();
    assert_eq!(cloned.b.get_bytes(), vec![9, 9]);
}

#[test]
fn concise_input_rebuilds_the_full_input() {
    let c = ConciseEVMInput {
        caller: EVMAddress::from_low(1),
        contract: EVMAddress::from_low(2),
        data: vec![0xaa, 0xbb, 0xcc, 0xdd, 0x01],
        txn_value: EVMU256::from_low(5),
        repeat: 3,
    };
    let input = c.to_input();
    assert_eq!(input.caller, EVMAddress::from_low(1));
    assert_eq!(input.contract, EVMAddress::from_low(2));
    assert_eq!(input.txn_value, Some(EVMU256::from_low(5)));
    assert_eq!(input.repeat, 3);
    let data = input.data.unwrap();
    assert_eq!(data.function, [0xaa, 0xbb, 0xcc, 0xdd]);
    assert_eq!(data.b.get_bytes(), vec![0xaa, 0xbb, 0xcc, 0xdd, 0x01]);
}

#[test]
fn loader_from_glob_starts_empty() {
    let loader = ContractLoader::from_glob("out/*");
    assert!(loader.contracts.is_empty());
    assert!(loader.abis.is_empty());
    assert!(loader.setup_data.is_none());
}

#[test]
fn fuzz_state_keeps_a_forced_seed() {
    let s = FuzzState::new(12345);
    assert_eq!(s.seed, 12345);
    let drawn = FuzzState::new(0);
    // a clock-drawn seed is whatever it is; the constructor only promises
    // to keep a forced one
    let _ = drawn.seed;
}

#[test]
fn token_context_for_weth_needs_no_route() {
    let t = TokenContext::new_weth(EVMAddress::from_low(0xeee));
    assert!(t.is_weth);
    assert!(t.swaps.is_empty());
    assert_eq!(t.weth_address, EVMAddress::from_low(0xeee));
}
