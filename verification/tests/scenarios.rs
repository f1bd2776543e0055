//! End-to-end scenarios: the guarded-branch hunt with comparison
//! feedback, the vault reentrancy attack, and replay idempotence.

use ityfuzz::executor::{EVMEvent, TxOutcome};
use ityfuzz::fuzzer::EVMFuzzer;
use ityfuzz::host::map_index;
use ityfuzz::input::EVMInput;
use ityfuzz::oracles::{evaluate_oracles, BugKind, Finding};
use ityfuzz::types::{EVMAddress, EVMU256};
use ityfuzz::vm::EVMState;

fn addr(n: u128) -> EVMAddress {
    EVMAddress::from_low(n)
}

fn word(n: u128) -> EVMU256 {
    EVMU256::from_low(n)
}

/// A contract with a branch guarded by `x == K`: it always compares the
/// input against the hidden constant, and only on equality runs the
/// guarded edge.
fn guarded_contract(contract: EVMAddress, x: EVMU256, k: EVMU256) -> Vec<EVMEvent> {
    let mut ev = vec![
        EVMEvent::Jump { contract, pc: 10 },
        EVMEvent::Compare { contract, pc: 20, lhs: x, rhs: k },
    ];
    if x == k {
        ev.push(EVMEvent::Jump { contract, pc: 30 });
    }
    ev.push(EVMEvent::Stop { output: vec![] });
    ev
}

#[test]
fn compare_feedback_guides_to_the_hidden_constant() {
    let hidden_k = word(123_456_789);
    let contract = addr(2);
    let caller = addr(1);
    let mut fuzzer = EVMFuzzer::new(String::from("work"), addr(0xdeb), 7);
    fuzzer.add_input(EVMInput::basic(caller, contract));
    fuzzer.add_state(EVMState::new());
    let cmp_site = map_index(contract, 20);
    let guarded_edge = map_index(contract, 30);

    // the mutated argument; the mutator nudges it by the best observed
    // comparison distance, the hint the compare feedback provides
    let mut x = word(0);
    let mut found_zero_distance = false;
    for _ in 0..10 {
        let (input_id, state_id) = fuzzer.select().unwrap();
        let seed = fuzzer.seed_state(state_id);
        let input = EVMInput::basic(caller, contract);
        let events = guarded_contract(contract, x, hidden_k);
        let result = fuzzer.executor.execute(&input, &seed, &events);
        assert_eq!(result.outcome, TxOutcome::Completed);
        let (_kept, _new_edges, _findings) =
            fuzzer.process_result(input_id, state_id, &seed, &result);
        let best = fuzzer.executor.host.cmp_map[cmp_site];
        if best.is_zero() {
            found_zero_distance = true;
            break;
        }
        // guided numeric approach: jump by the recorded distance
        x = x.checked_add(best).unwrap();
    }
    assert!(found_zero_distance);
    // the guarded branch's edge is covered and was accepted as coverage
    assert!(fuzzer.executor.host.jmp_map[guarded_edge] > 0);
    assert!(fuzzer.feedback.coverage.seen[guarded_edge]);
    assert_eq!(fuzzer.executor.host.cmp_map[cmp_site], word(0));
}

#[test]
fn vault_reentrancy_two_transaction_sequence() {
    let vault = addr(10);
    let attacker = addr(66);
    let mut fuzzer = EVMFuzzer::new(String::from("work"), addr(0xdeb), 3);
    let input = EVMInput::basic(attacker, vault);

    // world: the vault owes the attacker 100 wei, recorded in slot 0
    let mut state = EVMState::new();
    state.write_slot(vault, word(0), word(100));
    state.credit(vault, word(100)).unwrap();

    // transaction 1: withdrawal reads the owed amount, pays it out, and
    // hands control to the attacker before zeroing the slot
    let withdraw = vec![
        EVMEvent::Sload { contract: vault, key: word(0) },
        EVMEvent::Transfer { from: vault, to: attacker, amount: word(100) },
        EVMEvent::Leak { pc: 50, gas_remaining: 1000, input: vec![], output: vec![] },
    ];
    let r1 = fuzzer.executor.execute(&input, &state, &withdraw);
    assert_eq!(r1.outcome, TxOutcome::Leaked);
    assert_eq!(r1.new_state.balance_of(attacker), word(100));

    // transaction 2 resumes the leaked context; the vault's continuation
    // writes the slot the withdrawal had read before the leak
    let finish = vec![
        EVMEvent::Sstore { contract: vault, key: word(0), value: word(0) },
        EVMEvent::Stop { output: vec![] },
    ];
    let r2 = fuzzer.executor.resume(&input, &r1.new_state, &finish).unwrap();
    assert_eq!(r2.outcome, TxOutcome::Completed);

    let findings = evaluate_oracles(&state, &r2.new_state, &r2);
    assert!(findings.iter().any(|f| f.kind == BugKind::Reentrancy));

    // balance invariants hold after the attack: nothing went negative
    assert_eq!(r2.new_state.balance_of(vault), word(0));
    assert_eq!(r2.new_state.balance_of(attacker), word(100));
    // and a further withdrawal attempt cannot drive the vault negative
    let drain = vec![EVMEvent::Transfer { from: vault, to: attacker, amount: word(1) }];
    let r3 = fuzzer.executor.execute(&input, &r2.new_state, &drain);
    assert_eq!(r3.outcome, TxOutcome::Reverted);
}

/// Replay one persisted two-transaction solution against a fresh world,
/// returning all findings in order.
fn replay_solution() -> (Vec<Finding>, Vec<u8>) {
    let contract = addr(4);
    let caller = addr(3);
    let mut fuzzer = EVMFuzzer::new(String::from("work"), addr(0xdeb), 11);
    let input = EVMInput::basic(caller, contract);
    let state = EVMState::new();
    let tx1 = vec![
        EVMEvent::Sstore { contract, key: word(1), value: word(5) },
        EVMEvent::Stop { output: vec![0x01] },
    ];
    let tx2 = vec![
        EVMEvent::Sload { contract, key: word(1) },
        EVMEvent::IntegerOverflow { contract, pc: 33 },
        EVMEvent::Stop { output: vec![0x02, 0x03] },
    ];
    let r1 = fuzzer.executor.execute(&input, &state, &tx1);
    let mut findings = evaluate_oracles(&state, &r1.new_state, &r1);
    let r2 = fuzzer.executor.execute(&input, &r1.new_state, &tx2);
    findings.extend(evaluate_oracles(&r1.new_state, &r2.new_state, &r2));
    (findings, r2.output)
}

#[test]
fn replaying_a_solution_twice_gives_identical_findings() {
    let (f1, out1) = replay_solution();
    let (f2, out2) = replay_solution();
    assert_eq!(f1, f2);
    assert_eq!(out1, out2);
    assert_eq!(f1.len(), 1);
    assert_eq!(f1[0].kind, BugKind::IntegerOverflow);
    assert_eq!(f1[0].pc, 33);
}
