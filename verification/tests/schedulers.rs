//! Tests of the two corpus schedulers: deterministic selection, the power
//! schedule's scoring, the infant corpus's capacity bound and its
//! lowest-score-oldest-tie eviction.

use ityfuzz::input::EVMInput;
use ityfuzz::scheduler::{
    CorpusError, PowerABIScheduler, SortedDroppingScheduler, BASE_SCORE,
};
use ityfuzz::types::EVMAddress;
use ityfuzz::vm::EVMState;

fn input(n: u128) -> EVMInput {
    EVMInput::basic(EVMAddress::from_low(n), EVMAddress::from_low(n + 1))
}

#[test]
fn empty_corpus_selection_fails() {
    let mut s = PowerABIScheduler::new();
    assert_eq!(s.next(), Err(CorpusError::EmptyCorpus));
    let mut d = SortedDroppingScheduler::new();
    assert_eq!(d.next(), Err(CorpusError::EmptyCorpus));
}

#[test]
fn same_seed_same_results_same_selections() {
    let mut a = PowerABIScheduler::with_seed(42);
    let mut b = PowerABIScheduler::with_seed(42);
    for i in 0..5 {
        a.add(input(i));
        b.add(input(i));
    }
    let mut a_picks = vec![];
    let mut b_picks = vec![];
    for round in 0..50u64 {
        let ia = a.next().unwrap();
        let ib = b.next().unwrap();
        a_picks.push(ia);
        b_picks.push(ib);
        // the same sequence of on_result calls on both
        a.on_result(ia, round % 7);
        b.on_result(ib, round % 7);
    }
    assert_eq!(a_picks, b_picks);
}

#[test]
fn different_seeds_usually_diverge() {
    let mut a = PowerABIScheduler::with_seed(1);
    let mut b = PowerABIScheduler::with_seed(2);
    for i in 0..8 {
        a.add(input(i));
        b.add(input(i));
    }
    let mut diverged = false;
    for _ in 0..50 {
        if a.next().unwrap() != b.next().unwrap() {
            diverged = true;
        }
    }
    assert!(diverged);
}

#[test]
fn power_score_rewards_yield_and_caps() {
    let mut s = PowerABIScheduler::with_seed(0);
    let id = s.add(input(1));
    assert_eq!(s.entries[id].score, BASE_SCORE);
    // first trial with 4 new edges: boost = 4 * 256 / 1 = 1024
    s.on_result(id, 4);
    assert_eq!(s.entries[id].score, BASE_SCORE + 1024);
    assert_eq!(s.entries[id].tries, 1);
    // second trial with 4 new edges: boost = 1024 / 2 = 512
    s.on_result(id, 4);
    assert_eq!(s.entries[id].score, BASE_SCORE + 1024 + 512);
    // a dry trial adds nothing but still counts
    s.on_result(id, 0);
    assert_eq!(s.entries[id].score, BASE_SCORE + 1024 + 512);
    assert_eq!(s.entries[id].tries, 3);
}

#[test]
fn infant_corpus_respects_capacity_and_evicts_lowest_oldest() {
    let mut d = SortedDroppingScheduler::with_capacity(3, 7);
    let a = d.add(EVMState::new());
    let b = d.add(EVMState::new());
    let c = d.add(EVMState::new());
    assert_eq!((a, b, c), (0, 1, 2));
    assert_eq!(d.entries.len(), 3);
    // entry 1 gets a vote; 0 and 2 stay at the initial votes (a tie)
    d.on_result(1, true);
    // inserting the 4th state evicts exactly one entry: among the
    // equal-lowest (seq 0 and seq 2), the oldest (seq 0) goes first
    let id = d.add(EVMState::new());
    assert_eq!(d.entries.len(), 3);
    assert_eq!(id, 2);
    let seqs: Vec<u64> = d.entries.iter().map(|e| e.seq).collect();
    assert_eq!(seqs, vec![1, 2, 3]);
    // capacity is never exceeded, whatever we add
    for _ in 0..10 {
        d.add(EVMState::new());
        assert!(d.entries.len() <= 3);
    }
}

#[test]
fn infant_votes_floor_at_zero_and_reward_success() {
    let mut d = SortedDroppingScheduler::with_capacity(4, 0);
    let id = d.add(EVMState::new());
    let initial = d.entries[id].votes;
    d.on_result(id, true);
    assert_eq!(d.entries[id].votes, initial + 1);
    for _ in 0..100 {
        d.on_result(id, false);
    }
    assert_eq!(d.entries[id].votes, 0);
    d.on_result(id, false);
    assert_eq!(d.entries[id].votes, 0);
}

#[test]
fn infant_selection_deterministic_with_seed() {
    let mut a = SortedDroppingScheduler::with_capacity(8, 99);
    let mut b = SortedDroppingScheduler::with_capacity(8, 99);
    for _ in 0..5 {
        a.add(EVMState::new());
        b.add(EVMState::new());
    }
    for _ in 0..30 {
        let ia = a.next().unwrap();
        let ib = b.next().unwrap();
        assert_eq!(ia, ib);
        a.on_result(ia, ia % 2 == 0);
        b.on_result(ib, ib % 2 == 0);
    }
}
