//! Tests of the EVM world-state model: storage round trips, zero defaults,
//! balance arithmetic, and the control-leak stack discipline.

use ityfuzz::types::{EVMAddress, EVMU256};
use ityfuzz::vm::{EVMState, EVMStateError, PostExecutionCtx};

fn addr(n: u128) -> EVMAddress {
    EVMAddress::from_low(n)
}

fn word(n: u128) -> EVMU256 {
    EVMU256::from_low(n)
}

#[test]
fn write_then_read_returns_written_value() {
    let mut s = EVMState::new();
    let a = addr(7);
    let k = word(42);
    let v = word(123456);
    s.write_slot(a, k, v);
    assert_eq!(s.read_slot(a, k), v);
    // overwriting replaces the value
    let v2 = word(999);
    s.write_slot(a, k, v2);
    assert_eq!(s.read_slot(a, k), v2);
    // an unrelated slot is untouched
    assert_eq!(s.read_slot(a, word(43)), EVMU256::zero());
}

#[test]
fn unwritten_slot_reads_zero() {
    let s = EVMState::new();
    assert_eq!(s.read_slot(addr(1), word(2)), EVMU256::zero());
    let mut s2 = EVMState::new();
    s2.write_slot(addr(1), word(2), word(3));
    // a different contract's same key still reads zero
    assert_eq!(s2.read_slot(addr(9), word(2)), EVMU256::zero());
}

#[test]
fn credit_and_debit_move_balances() {
    let mut s = EVMState::new();
    let a = addr(5);
    assert_eq!(s.balance_of(a), EVMU256::zero());
    s.credit(a, word(100)).unwrap();
    assert_eq!(s.balance_of(a), word(100));
    s.debit(a, word(30)).unwrap();
    assert_eq!(s.balance_of(a), word(70));
}

#[test]
fn debit_beyond_balance_fails_without_change() {
    let mut s = EVMState::new();
    let a = addr(5);
    s.credit(a, word(10)).unwrap();
    let r = s.debit(a, word(11));
    assert_eq!(r, Err(EVMStateError::InsufficientBalance));
    assert_eq!(s.balance_of(a), word(10));
}

#[test]
fn credit_overflow_fails() {
    let mut s = EVMState::new();
    let a = addr(5);
    s.credit(a, EVMU256::max()).unwrap();
    let r = s.credit(a, word(1));
    assert_eq!(r, Err(EVMStateError::BalanceOverflow));
    assert_eq!(s.balance_of(a), EVMU256::max());
}

fn leak_ctx(pc: usize) -> PostExecutionCtx {
    PostExecutionCtx {
        caller: addr(1),
        contract: addr(2),
        pc,
        gas_remaining: 1000,
        input: vec![1, 2, 3],
        output: vec![],
        pre_read_slots: vec![],
    }
}

#[test]
fn leak_stack_pops_in_lifo_order() {
    let mut s = EVMState::new();
    let n = 5;
    for i in 0..n {
        s.push_leak(leak_ctx(i));
    }
    // exactly n pops succeed, most recent first
    for i in (0..n).rev() {
        let ctx = s.pop_leak().expect("a pending leak");
        assert_eq!(ctx.pc, i);
    }
    // the (n+1)-th resume finds nothing
    assert!(s.pop_leak().is_none());
}

#[test]
fn clone_for_execution_keeps_persisted_and_clears_observations() {
    let mut s = EVMState::new();
    s.write_slot(addr(1), word(2), word(3));
    s.credit(addr(4), word(50)).unwrap();
    s.push_leak(leak_ctx(9));
    s.record_self_destruct(addr(1), 77);
    s.set_bug_hit();
    let c = s.clone_for_execution();
    assert_eq!(c.read_slot(addr(1), word(2)), word(3));
    assert_eq!(c.balance_of(addr(4)), word(50));
    assert_eq!(c.post_execution.len(), 1);
    assert!(!c.bug_hit);
    assert!(c.self_destruct.is_empty());
}

#[test]
fn word_arithmetic_edges() {
    assert_eq!(word(2).checked_add(word(3)).unwrap(), word(5));
    assert!(EVMU256::max().checked_add(word(1)).is_none());
    assert_eq!(word(5).checked_sub(word(2)).unwrap(), word(3));
    assert!(word(2).checked_sub(word(3)).is_none());
    assert!(word(2).lt(word(3)));
    assert!(!word(3).lt(word(3)));
    assert_eq!(word(7).distance(word(10)), word(3));
    assert_eq!(word(10).distance(word(7)), word(3));
    // carries across the limb boundary
    let lo_max = EVMU256 { hi: 0, lo: u128::MAX };
    let one = word(1);
    assert_eq!(lo_max.checked_add(one).unwrap(), EVMU256 { hi: 1, lo: 0 });
    assert_eq!(
        (EVMU256 { hi: 1, lo: 0 }).checked_sub(one).unwrap(),
        EVMU256 { hi: 0, lo: u128::MAX }
    );
}
