//! Tests of the executor: event semantics, revert rollback, control leaks
//! and their LIFO resumption, reentrancy evidence, and the oracle
//! evaluator's findings.

use ityfuzz::executor::{EVMEvent, EVMExecutor, TxOutcome};
use ityfuzz::host::FuzzHost;
use ityfuzz::input::EVMInput;
use ityfuzz::oracles::{evaluate_oracles, BugKind};
use ityfuzz::scheduler::PowerABIScheduler;
use ityfuzz::solution::render_output_hex;
use ityfuzz::types::{EVMAddress, EVMU256};
use ityfuzz::vm::{EVMState, EVMStateError};

fn addr(n: u128) -> EVMAddress {
    EVMAddress::from_low(n)
}

fn word(n: u128) -> EVMU256 {
    EVMU256::from_low(n)
}

fn executor() -> EVMExecutor {
    EVMExecutor::new(
        FuzzHost::new(PowerABIScheduler::new(), String::from("work")),
        addr(0xdeb),
    )
}

fn basic_input(caller: u128, contract: u128) -> EVMInput {
    EVMInput::basic(addr(caller), addr(contract))
}

#[test]
fn completed_execution_applies_writes() {
    let mut ex = executor();
    let state = EVMState::new();
    let input = basic_input(1, 2);
    let events = vec![
        EVMEvent::Sstore { contract: addr(2), key: word(0), value: word(77) },
        EVMEvent::Stop { output: vec![0xab, 0xcd] },
    ];
    let r = ex.execute(&input, &state, &events);
    assert_eq!(r.outcome, TxOutcome::Completed);
    assert!(!r.reverted);
    assert_eq!(r.new_state.read_slot(addr(2), word(0)), word(77));
    assert_eq!(r.output, vec![0xab, 0xcd]);
    assert_eq!(render_output_hex(&r.output), "abcd");
    // the original seed state is untouched
    assert_eq!(state.read_slot(addr(2), word(0)), EVMU256::zero());
}

#[test]
fn reverted_execution_rolls_back() {
    let mut ex = executor();
    let mut state = EVMState::new();
    state.write_slot(addr(2), word(0), word(5));
    let input = basic_input(1, 2);
    let events = vec![
        EVMEvent::Sstore { contract: addr(2), key: word(0), value: word(99) },
        EVMEvent::Revert,
    ];
    let r = ex.execute(&input, &state, &events);
    assert_eq!(r.outcome, TxOutcome::Reverted);
    assert!(r.reverted);
    assert_eq!(r.new_state.read_slot(addr(2), word(0)), word(5));
    assert!(r.output.is_empty());
}

#[test]
fn insufficient_transfer_reverts_whole_transaction() {
    let mut ex = executor();
    let mut state = EVMState::new();
    state.credit(addr(1), word(10)).unwrap();
    let input = basic_input(1, 2);
    let events = vec![
        EVMEvent::Sstore { contract: addr(2), key: word(0), value: word(1) },
        EVMEvent::Transfer { from: addr(1), to: addr(2), amount: word(11) },
    ];
    let r = ex.execute(&input, &state, &events);
    assert_eq!(r.outcome, TxOutcome::Reverted);
    assert_eq!(r.new_state.balance_of(addr(1)), word(10));
    assert_eq!(r.new_state.read_slot(addr(2), word(0)), EVMU256::zero());
}

#[test]
fn transfer_moves_value() {
    let mut ex = executor();
    let mut state = EVMState::new();
    state.credit(addr(1), word(100)).unwrap();
    let input = basic_input(1, 2);
    let events = vec![
        EVMEvent::Transfer { from: addr(1), to: addr(2), amount: word(30) },
        EVMEvent::Stop { output: vec![] },
    ];
    let r = ex.execute(&input, &state, &events);
    assert_eq!(r.outcome, TxOutcome::Completed);
    assert_eq!(r.new_state.balance_of(addr(1)), word(70));
    assert_eq!(r.new_state.balance_of(addr(2)), word(30));
}

#[test]
fn leak_suspends_and_resume_pops_lifo() {
    let mut ex = executor();
    let state = EVMState::new();
    let input = basic_input(1, 2);
    let events = vec![
        EVMEvent::Leak { pc: 11, gas_remaining: 500, input: vec![1], output: vec![] },
        EVMEvent::Leak { pc: 22, gas_remaining: 400, input: vec![2], output: vec![] },
    ];
    let r = ex.execute(&input, &state, &events);
    assert_eq!(r.outcome, TxOutcome::Leaked);
    assert_eq!(r.new_state.post_execution.len(), 2);
    // the most recent leak resumes first
    assert_eq!(r.new_state.post_execution[1].pc, 22);
    let resumed = ex
        .resume(&input, &r.new_state, &vec![EVMEvent::Stop { output: vec![] }])
        .unwrap();
    assert_eq!(resumed.new_state.post_execution.len(), 1);
    assert_eq!(resumed.new_state.post_execution[0].pc, 11);
    let resumed2 = ex
        .resume(&input, &resumed.new_state, &vec![EVMEvent::Stop { output: vec![] }])
        .unwrap();
    assert_eq!(resumed2.new_state.post_execution.len(), 0);
    // with no pending leak, resume fails loudly
    let r3 = ex.resume(&input, &resumed2.new_state, &vec![]);
    assert!(matches!(r3, Err(EVMStateError::NoPendingLeak)));
}

#[test]
fn resumed_write_to_pre_read_slot_is_reentrancy_evidence() {
    let mut ex = executor();
    let state = EVMState::new();
    let input = basic_input(1, 2);
    // read slot 0, then leak control
    let events = vec![
        EVMEvent::Sload { contract: addr(2), key: word(0) },
        EVMEvent::Leak { pc: 50, gas_remaining: 100, input: vec![], output: vec![] },
    ];
    let r = ex.execute(&input, &state, &events);
    assert_eq!(r.outcome, TxOutcome::Leaked);
    assert!(r.reentrancy.is_empty());
    // the resumed frame writes the slot it read before leaking
    let resumed = ex
        .resume(
            &input,
            &r.new_state,
            &vec![
                EVMEvent::Sstore { contract: addr(2), key: word(0), value: word(1) },
                EVMEvent::Stop { output: vec![] },
            ],
        )
        .unwrap();
    assert_eq!(resumed.reentrancy, vec![(addr(2), word(0))]);
    let findings = evaluate_oracles(&state, &resumed.new_state, &resumed);
    assert!(findings.iter().any(|f| f.kind == BugKind::Reentrancy));
}

#[test]
fn observations_become_findings() {
    let mut ex = executor();
    let state = EVMState::new();
    let input = basic_input(1, 2);
    let events = vec![
        EVMEvent::SelfDestruct { contract: addr(2), pc: 8 },
        EVMEvent::TypedBug { name: String::from("assertion"), contract: addr(2), pc: 9 },
        EVMEvent::ArbitraryCall { caller: addr(2), target: addr(66), pc: 10 },
        EVMEvent::IntegerOverflow { contract: addr(2), pc: 11 },
        EVMEvent::BugMarker,
        EVMEvent::Stop { output: vec![] },
    ];
    let r = ex.execute(&input, &state, &events);
    let findings = evaluate_oracles(&state, &r.new_state, &r);
    let kinds: Vec<BugKind> = findings.iter().map(|f| f.kind).collect();
    assert_eq!(
        kinds,
        vec![
            BugKind::SelfDestruct,
            BugKind::TypedBug,
            BugKind::ArbitraryCall,
            BugKind::IntegerOverflow,
            BugKind::TypedBug,
        ]
    );
    assert_eq!(findings[0].pc, 8);
    assert_eq!(findings[2].address, addr(66));
}

#[test]
fn events_after_a_terminator_are_ignored() {
    let mut ex = executor();
    let state = EVMState::new();
    let input = basic_input(1, 2);
    let events = vec![
        EVMEvent::Stop { output: vec![1] },
        EVMEvent::Sstore { contract: addr(2), key: word(0), value: word(9) },
    ];
    let r = ex.execute(&input, &state, &events);
    assert_eq!(r.outcome, TxOutcome::Completed);
    assert_eq!(r.new_state.read_slot(addr(2), word(0)), EVMU256::zero());
    assert_eq!(r.output, vec![1]);
}

#[test]
fn coverage_is_recorded_even_when_the_transaction_reverts() {
    let mut ex = executor();
    let state = EVMState::new();
    let input = basic_input(1, 2);
    let edge = ityfuzz::host::map_index(addr(2), 5);
    let events = vec![
        EVMEvent::Jump { contract: addr(2), pc: 5 },
        EVMEvent::Revert,
    ];
    let r = ex.execute(&input, &state, &events);
    assert!(r.reverted);
    // rejection rolls the state back, but what execution already wrote to
    // the shared maps stays
    assert_eq!(ex.host.jmp_map[edge], 1);
}
