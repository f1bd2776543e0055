//! Tests of the coverage side channels and the feedback judges: saturating
//! hit counters, only-decreasing comparison distances, and the
//! once-per-edge acceptance of coverage feedback.

use ityfuzz::feedback::{CmpFeedback, CoverageFeedback, DataflowFeedback, FeedbackPipeline};
use ityfuzz::host::{map_index, FuzzHost, MAP_SIZE};
use ityfuzz::scheduler::PowerABIScheduler;
use ityfuzz::types::{EVMAddress, EVMU256};

fn host() -> FuzzHost {
    FuzzHost::new(PowerABIScheduler::new(), String::from("work"))
}

#[test]
fn jump_map_counts_and_saturates() {
    let mut h = host();
    let idx = map_index(EVMAddress::from_low(3), 17);
    for _ in 0..300 {
        h.on_jump(idx);
    }
    assert_eq!(h.jmp_map[idx], 255);
    // another cell is untouched
    let other = (idx + 1) % MAP_SIZE;
    assert_eq!(h.jmp_map[other], 0);
}

#[test]
fn cmp_map_keeps_the_minimum() {
    let mut h = host();
    let idx = 5;
    h.on_compare(idx, EVMU256::from_low(100), EVMU256::from_low(40));
    assert_eq!(h.cmp_map[idx], EVMU256::from_low(60));
    // a worse distance does not overwrite a better one
    h.on_compare(idx, EVMU256::from_low(1000), EVMU256::from_low(0));
    assert_eq!(h.cmp_map[idx], EVMU256::from_low(60));
    // a better one does
    h.on_compare(idx, EVMU256::from_low(41), EVMU256::from_low(40));
    assert_eq!(h.cmp_map[idx], EVMU256::from_low(1));
}

#[test]
fn coverage_feedback_accepts_each_edge_once() {
    let mut h = host();
    let mut cov = CoverageFeedback::new();
    h.on_jump(10);
    let (accepted, new_edges) = cov.is_interesting(&h.jmp_map);
    assert!(accepted);
    assert_eq!(new_edges, 1);
    // the same edge alone never re-triggers acceptance
    let (again, n2) = cov.is_interesting(&h.jmp_map);
    assert!(!again);
    assert_eq!(n2, 0);
    // hitting the edge more does not matter; a fresh edge does
    h.on_jump(10);
    h.on_jump(11);
    let (third, n3) = cov.is_interesting(&h.jmp_map);
    assert!(third);
    assert_eq!(n3, 1);
}

#[test]
fn cmp_feedback_accepts_only_strict_improvement() {
    let mut h = host();
    let mut cmp = CmpFeedback::new();
    h.on_compare(4, EVMU256::from_low(50), EVMU256::from_low(20));
    assert!(cmp.is_interesting(&h.cmp_map));
    // unchanged distances are no improvement
    assert!(!cmp.is_interesting(&h.cmp_map));
    h.on_compare(4, EVMU256::from_low(21), EVMU256::from_low(20));
    assert!(cmp.is_interesting(&h.cmp_map));
}

#[test]
fn dataflow_feedback_wants_write_then_read() {
    let mut h = host();
    let mut df = DataflowFeedback::new();
    // a write alone is not enough
    h.on_write(9);
    assert!(!df.is_interesting(&h.read_map, &h.write_map));
    // the same cell read as well: a coupling, once
    h.on_read(9);
    assert!(df.is_interesting(&h.read_map, &h.write_map));
    assert!(!df.is_interesting(&h.read_map, &h.write_map));
}

#[test]
fn pipeline_accepts_when_any_judge_accepts() {
    let mut h = host();
    let mut p = FeedbackPipeline::new();
    let (none, zero) = p.evaluate(&h);
    assert!(!none);
    assert_eq!(zero, 0);
    h.on_write(3);
    h.on_read(3);
    let (dataflow_only, still_zero) = p.evaluate(&h);
    assert!(dataflow_only);
    assert_eq!(still_zero, 0);
    h.on_jump(2);
    let (coverage, one) = p.evaluate(&h);
    assert!(coverage);
    assert_eq!(one, 1);
}
