//! The fuzz-loop orchestrator: one logical cycle selects a transaction
//! input and a seed state, executes the mutated input against a clone of
//! that state, feeds the coverage side channels to the feedback pipeline,
//! reports the outcome to both schedulers, and runs the oracles. Mutation
//! and bytecode interpretation are outside capabilities; the orchestrator
//! consumes their results as plain values, so a failed execution is
//! reported and the loop can go on.

use vstd::prelude::*;
use crate::executor::{EVMExecutor, ExecutionResult};
use crate::feedback::{cov_accept, cmp_accept, count_new, df_accept, FeedbackPipeline};
use crate::host::{FuzzHost, MAP_SIZE};
use crate::oracles::{evaluate_oracles, findings_of, Finding};
use crate::scheduler::{
    power_score, CorpusError, PowerABIScheduler, SortedDroppingScheduler, VOTE_CAP,
};
use crate::types::EVMAddress;
use crate::vm::EVMState;

verus! {

/// The components of one fuzzing instance, explicitly owned: the executor
/// with its host and coverage maps, the infant-state corpus, and the
/// feedback pipeline. The transaction corpus lives in the host's
/// scheduler.
pub struct EVMFuzzer {
    /// Executor around the host and its maps.
    pub executor: EVMExecutor,
    /// Corpus of intermediate states used as mutation seeds.
    pub infant_scheduler: SortedDroppingScheduler,
    /// The three feedback judges.
    pub feedback: FeedbackPipeline,
}

impl EVMFuzzer {
    /// Every component is well formed.
    pub open spec fn wf(self) -> bool {
        &&& self.executor.host.wf()
        &&& self.executor.host.scheduler.wf()
        &&& self.infant_scheduler.wf()
        &&& self.feedback.wf()
    }

    /// A fresh instance: empty corpora seeded deterministically from
    /// `seed`, zeroed coverage maps, fresh feedback.
    pub fn new(work_dir: String, deployer: EVMAddress, seed: u64) -> (r: EVMFuzzer)
        ensures
            r.wf(),
            r.executor.host.scheduler.entries@.len() == 0,
            r.executor.host.scheduler.rng.state == seed,
            r.infant_scheduler.entries@.len() == 0,
            r.infant_scheduler.rng.state == seed,
            r.infant_scheduler.capacity == crate::scheduler::DEFAULT_INFANT_CAPACITY,
            r.executor.deployer == deployer,
    {
        let scheduler = PowerABIScheduler::with_seed(seed);
        let host = FuzzHost::new(scheduler, work_dir);
        let infant = SortedDroppingScheduler::with_capacity(
            crate::scheduler::DEFAULT_INFANT_CAPACITY,
            seed,
        );
        EVMFuzzer {
            executor: EVMExecutor::new(host, deployer),
            infant_scheduler: infant,
            feedback: FeedbackPipeline::new(),
        }
    }

    /// Store a transaction input; its identifier comes back.
    pub fn add_input(&mut self, input: crate::input::EVMInput) -> (id: usize)
        requires
            old(self).wf(),
        ensures
            final(self).wf(),
            id == old(self).executor.host.scheduler.entries@.len(),
            final(self).executor.host.scheduler.entries@.len() == id + 1,
            final(self).infant_scheduler == old(self).infant_scheduler,
            final(self).feedback == old(self).feedback,
    {
        self.executor.host.scheduler.add(input)
    }

    /// Store an infant state; its identifier comes back. At capacity the
    /// lowest-voted, oldest-on-tie entry is evicted first.
    pub fn add_state(&mut self, state: EVMState) -> (id: usize)
        requires
            old(self).wf(),
            old(self).infant_scheduler.next_seq < 0xffffffffffffffffu64,
        ensures
            final(self).wf(),
            final(self).infant_scheduler.entries@.len() <= old(self).infant_scheduler.capacity,
            id < final(self).infant_scheduler.entries@.len(),
            final(self).infant_scheduler.entries@[id as int].state == state,
            final(self).executor.host.scheduler == old(self).executor.host.scheduler,
            final(self).feedback == old(self).feedback,
    {
        self.infant_scheduler.add(state)
    }

    /// Select the next transaction input and seed state, by the two
    /// schedulers' weighted draws. Fails with `EmptyCorpus` exactly when
    /// either corpus is empty: nothing to fuzz is fatal for the run.
    pub fn select(&mut self) -> (r: Result<(usize, usize), CorpusError>)
        requires
            old(self).wf(),
        ensures
            final(self).wf(),
            final(self).executor.host.scheduler.entries == old(self).executor.host.scheduler.entries,
            final(self).infant_scheduler.entries == old(self).infant_scheduler.entries,
            final(self).feedback == old(self).feedback,
            r is Err <==> (old(self).executor.host.scheduler.entries@.len() == 0 || old(
                self,
            ).infant_scheduler.entries@.len() == 0),
            r is Ok ==> {
                &&& r->Ok_0.0 < old(self).executor.host.scheduler.entries@.len()
                &&& r->Ok_0.0 == old(self).executor.host.scheduler.spec_next_id()
                &&& r->Ok_0.1 < old(self).infant_scheduler.entries@.len()
                &&& r->Ok_0.1 == old(self).infant_scheduler.spec_next_id()
            },
    {
        let input_id = match self.executor.host.scheduler.next() {
            Ok(id) => id,
            Err(e) => {
                return Err(e);
            },
        };
        match self.infant_scheduler.next() {
            Ok(state_id) => Ok((input_id, state_id)),
            Err(e) => Err(e),
        }
    }

    /// Deep-copy a stored infant state as this cycle's execution seed.
    pub fn seed_state(&self, state_id: usize) -> (r: EVMState)
        requires
            state_id < self.infant_scheduler.entries@.len(),
        ensures
            r.same_persisted(self.infant_scheduler.entries@[state_id as int].state),
            r.observations_empty(),
    {
        self.infant_scheduler.get_state(state_id)
    }

    /// Feed one execution's results back: judge it by the coverage side
    /// channels, reward the input by its fresh-edge yield, vote on the
    /// seed state, keep the successor state as a new seed when the
    /// execution was interesting, and run the oracles. The returned
    /// triple is (kept, fresh edges, findings).
    pub fn process_result(
        &mut self,
        input_id: usize,
        state_id: usize,
        pre: &EVMState,
        result: &ExecutionResult,
    ) -> (r: (bool, u64, Vec<Finding>))
        requires
            old(self).wf(),
            input_id < old(self).executor.host.scheduler.entries@.len(),
            state_id < old(self).infant_scheduler.entries@.len(),
            old(self).executor.host.scheduler.entries@[input_id as int].tries
                < 0xffffffffffffffffu64,
            old(self).infant_scheduler.next_seq < 0xffffffffffffffffu64,
        ensures
            final(self).wf(),
            r.0 == (cov_accept(old(self).executor.host.jmp_map@, old(self).feedback.coverage.seen@)
                || cmp_accept(old(self).executor.host.cmp_map@, old(self).feedback.comparison.best@)
                || df_accept(
                old(self).executor.host.read_map@,
                old(self).executor.host.write_map@,
                old(self).feedback.dataflow.seen@,
            )),
            r.1 == count_new(
                old(self).executor.host.jmp_map@,
                old(self).feedback.coverage.seen@,
                MAP_SIZE as int,
            ),
            r.2@ == findings_of(result.new_state, result.reentrancy@),
            final(self).executor.host.scheduler.entries@[input_id as int].score == power_score(
                old(self).executor.host.scheduler.entries@[input_id as int].score as nat,
                old(self).executor.host.scheduler.entries@[input_id as int].tries as nat,
                r.1 as nat,
            ),
            final(self).executor.host.scheduler.entries@[input_id as int].tries
                == old(self).executor.host.scheduler.entries@[input_id as int].tries + 1,
            ({
                let votes = old(self).infant_scheduler.entries@[state_id as int].votes;
                let favorable = r.0 || r.2@.len() > 0;
                &&& (!r.0 && favorable && votes < VOTE_CAP
                    ==> final(self).infant_scheduler.entries@[state_id as int].votes == votes + 1)
                &&& (!r.0 && !favorable && votes > 0
                    ==> final(self).infant_scheduler.entries@[state_id as int].votes == votes - 1)
            }),
            r.0 ==> final(self).infant_scheduler.entries@.len() > 0
                && final(self).infant_scheduler.entries@.last().state.same_persisted(
                result.new_state,
            ),
    {
        let (accepted, new_edges) = self.feedback.evaluate(&self.executor.host);
        self.executor.host.scheduler.on_result(input_id, new_edges);
        let findings = evaluate_oracles(pre, &result.new_state, result);
        let favorable = accepted || findings.len() > 0;
        self.infant_scheduler.on_result(state_id, favorable);
        if accepted {
            let snap = result.new_state.clone_for_execution();
            let _ = self.infant_scheduler.add(snap);
        }
        (accepted, new_edges, findings)
    }
}

} // verus!
