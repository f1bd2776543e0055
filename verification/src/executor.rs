//! The executor drives one transaction's worth of interpreter events
//! against a clone of a seed state, updating the host's coverage side
//! channels on the way. Concrete bytecode interpretation is an outside
//! concern: the interpreter reports what happened as a sequence of
//! [`EVMEvent`] values, and this module gives that sequence its exact
//! meaning — including control leaks, their LIFO resumption, and the
//! rollback of a reverted transaction.

use vstd::prelude::*;
use crate::host::{FuzzHost, map_index, slot_index, site_index, slot_site_index, distance_nat};
use crate::input::EVMInput;
use crate::types::{EVMAddress, EVMU256, pow256};
use crate::vm::{copy_vec, CtxSnapshot, EVMState, EVMStateError, PostExecutionCtx};

verus! {

/// What the embedded interpreter reports, one step at a time.
#[derive(Debug)]
pub enum EVMEvent {
    /// A storage read.
    Sload { contract: EVMAddress, key: EVMU256 },
    /// A storage write.
    Sstore { contract: EVMAddress, key: EVMU256, value: EVMU256 },
    /// A taken branch edge.
    Jump { contract: EVMAddress, pc: usize },
    /// A comparison of two operands.
    Compare { contract: EVMAddress, pc: usize, lhs: EVMU256, rhs: EVMU256 },
    /// A value transfer between accounts.
    Transfer { from: EVMAddress, to: EVMAddress, amount: EVMU256 },
    /// A control leak: the fuzzer suspends this call instead of following
    /// it; the interpreter hands over the frame's buffers.
    Leak { pc: usize, gas_remaining: u64, input: Vec<u8>, output: Vec<u8> },
    /// A self-destruct observation.
    SelfDestruct { contract: EVMAddress, pc: usize },
    /// A named typed-bug observation.
    TypedBug { name: String, contract: EVMAddress, pc: usize },
    /// An arbitrary external call observation.
    ArbitraryCall { caller: EVMAddress, target: EVMAddress, pc: usize },
    /// An integer-overflow observation.
    IntegerOverflow { contract: EVMAddress, pc: usize },
    /// The bug-marker call.
    BugMarker,
    /// The transaction reverts; all state changes roll back.
    Revert,
    /// The transaction completes with output bytes.
    Stop { output: Vec<u8> },
}

/// Final classification of one transaction.
#[derive(Clone, Copy, Debug, PartialEq, Eq, Structural)]
pub enum TxOutcome {
    /// Ran to completion.
    Completed,
    /// Rolled back.
    Reverted,
    /// Suspended with at least one pending control leak.
    Leaked,
}

/// The mathematical state an event sequence acts on: storage and balances
/// as total maps, the leak stack, the observation sets, the four coverage
/// maps, and the running bookkeeping of one execution.
pub struct ExecEffect {
    /// Storage content per `(contract, slot)`.
    pub slots: Map<(EVMAddress, EVMU256), nat>,
    /// Balance per account.
    pub bals: Map<EVMAddress, nat>,
    /// Pending control-leak stack.
    pub leaks: Seq<CtxSnapshot>,
    /// Whether the bug marker was hit.
    pub bug_hit: bool,
    /// Self-destruct observations.
    pub self_destruct: Seq<(EVMAddress, usize)>,
    /// Typed-bug observations.
    pub typed_bug: Seq<(Seq<char>, EVMAddress, usize)>,
    /// Arbitrary-call observations.
    pub arbitrary_calls: Seq<(EVMAddress, EVMAddress, usize)>,
    /// Integer-overflow observations.
    pub integer_overflow: Seq<(EVMAddress, usize)>,
    /// Jump map cells.
    pub jmp: Seq<u8>,
    /// Read map cells.
    pub read: Seq<bool>,
    /// Write map cells.
    pub write: Seq<u8>,
    /// Comparison map cells, as distances.
    pub cmp: Seq<nat>,
    /// Slots read so far in this execution, in order.
    pub reads: Seq<(EVMAddress, EVMU256)>,
    /// Writes that hit a slot the suspended frame had read before its
    /// leak: reentrancy evidence.
    pub reentrancy: Seq<(EVMAddress, EVMU256)>,
    /// Output bytes of a completed transaction.
    pub output: Seq<u8>,
    /// Whether a terminator was reached; later events are ignored.
    pub done: bool,
    /// Whether the transaction rolled back.
    pub reverted: bool,
    /// Whether at least one control leak was recorded.
    pub leaked: bool,
}

/// The comparison map as a sequence of distances.
pub open spec fn cmp_view(s: Seq<EVMU256>) -> Seq<nat> {
    s.map_values(|w: EVMU256| w.as_nat())
}

/// The typed-bug observations with names as character sequences.
pub open spec fn typed_bug_view(s: Seq<(String, EVMAddress, usize)>) -> Seq<(Seq<char>, EVMAddress, usize)> {
    s.map_values(|t: (String, EVMAddress, usize)| (t.0@, t.1, t.2))
}

/// The model an execution starts from: the seed state's persisted content,
/// the host's current maps, and empty bookkeeping.
pub open spec fn init_effect(state: EVMState, host: FuzzHost) -> ExecEffect {
    ExecEffect {
        slots: Map::total(|p: (EVMAddress, EVMU256)| state.slot(p.0, p.1)),
        bals: Map::total(|a: EVMAddress| state.bal(a)),
        leaks: state.leaks(),
        bug_hit: false,
        self_destruct: Seq::empty(),
        typed_bug: Seq::empty(),
        arbitrary_calls: Seq::empty(),
        integer_overflow: Seq::empty(),
        jmp: host.jmp_map@,
        read: host.read_map@,
        write: host.write_map@,
        cmp: cmp_view(host.cmp_map@),
        reads: Seq::empty(),
        reentrancy: Seq::empty(),
        output: Seq::empty(),
        done: false,
        reverted: false,
        leaked: false,
    }
}

/// One saturating 8-bit increment.
pub open spec fn sat_inc(x: u8) -> u8 {
    if x == 255 {
        255u8
    } else {
        (x + 1) as u8
    }
}

/// The meaning of one interpreter event: how it transforms the model.
/// `watched` holds the slots a resumed frame had read before its leak.
pub open spec fn exec_step(
    m: ExecEffect,
    caller: EVMAddress,
    contract: EVMAddress,
    watched: Seq<(EVMAddress, EVMU256)>,
    e: EVMEvent,
) -> ExecEffect {
    if m.done {
        m
    } else {
        match e {
            EVMEvent::Sload { contract: c, key: k } => ExecEffect {
                reads: m.reads.push((c, k)),
                read: m.read.update(slot_site_index(c, k), true),
                ..m
            },
            EVMEvent::Sstore { contract: c, key: k, value: v } => ExecEffect {
                slots: m.slots.insert((c, k), v.as_nat()),
                write: m.write.update(
                    slot_site_index(c, k),
                    sat_inc(m.write[slot_site_index(c, k)]),
                ),
                reentrancy: if watched.contains((c, k)) {
                    m.reentrancy.push((c, k))
                } else {
                    m.reentrancy
                },
                ..m
            },
            EVMEvent::Jump { contract: c, pc } => ExecEffect {
                jmp: m.jmp.update(site_index(c, pc), sat_inc(m.jmp[site_index(c, pc)])),
                ..m
            },
            EVMEvent::Compare { contract: c, pc, lhs, rhs } => ExecEffect {
                cmp: m.cmp.update(
                    site_index(c, pc),
                    if distance_nat(lhs, rhs) < m.cmp[site_index(c, pc)] {
                        distance_nat(lhs, rhs)
                    } else {
                        m.cmp[site_index(c, pc)]
                    },
                ),
                ..m
            },
            EVMEvent::Transfer { from, to, amount } => if m.bals[from] < amount.as_nat() {
                ExecEffect { done: true, reverted: true, ..m }
            } else {
                let b1 = m.bals.insert(from, (m.bals[from] - amount.as_nat()) as nat);
                if b1[to] + amount.as_nat() >= pow256() {
                    ExecEffect { done: true, reverted: true, ..m }
                } else {
                    ExecEffect { bals: b1.insert(to, (b1[to] + amount.as_nat()) as nat), ..m }
                }
            },
            EVMEvent::Leak { pc, gas_remaining, input, output } => ExecEffect {
                leaks: m.leaks.push(
                    CtxSnapshot {
                        caller,
                        contract,
                        pc,
                        gas_remaining,
                        input: input@,
                        output: output@,
                        pre_read_slots: m.reads,
                    },
                ),
                leaked: true,
                ..m
            },
            EVMEvent::SelfDestruct { contract: c, pc } => ExecEffect {
                self_destruct: m.self_destruct.push((c, pc)),
                ..m
            },
            EVMEvent::TypedBug { name, contract: c, pc } => ExecEffect {
                typed_bug: m.typed_bug.push((name@, c, pc)),
                ..m
            },
            EVMEvent::ArbitraryCall { caller: cl, target, pc } => ExecEffect {
                arbitrary_calls: m.arbitrary_calls.push((cl, target, pc)),
                ..m
            },
            EVMEvent::IntegerOverflow { contract: c, pc } => ExecEffect {
                integer_overflow: m.integer_overflow.push((c, pc)),
                ..m
            },
            EVMEvent::BugMarker => ExecEffect { bug_hit: true, ..m },
            EVMEvent::Revert => ExecEffect { done: true, reverted: true, ..m },
            EVMEvent::Stop { output } => ExecEffect { done: true, output: output@, ..m },
        }
    }
}

/// The meaning of a whole event sequence: events after a terminator are
/// ignored.
pub open spec fn run_events(
    m: ExecEffect,
    caller: EVMAddress,
    contract: EVMAddress,
    watched: Seq<(EVMAddress, EVMU256)>,
    events: Seq<EVMEvent>,
) -> ExecEffect
    decreases events.len(),
{
    if events.len() == 0 {
        m
    } else {
        run_events(exec_step(m, caller, contract, watched, events[0]), caller, contract, watched, events.skip(1))
    }
}

/// Running one more event equals stepping the run so far.
proof fn lemma_run_snoc(
    m: ExecEffect,
    caller: EVMAddress,
    contract: EVMAddress,
    watched: Seq<(EVMAddress, EVMU256)>,
    events: Seq<EVMEvent>,
    e: EVMEvent,
)
    ensures
        run_events(m, caller, contract, watched, events.push(e)) == exec_step(
            run_events(m, caller, contract, watched, events),
            caller,
            contract,
            watched,
            e,
        ),
    decreases events.len(),
{
    let p = events.push(e);
    if events.len() == 0 {
        assert(p[0] == e);
        assert(p.skip(1) =~= Seq::<EVMEvent>::empty());
        assert(run_events(m, caller, contract, watched, p) == run_events(
            exec_step(m, caller, contract, watched, e),
            caller,
            contract,
            watched,
            p.skip(1),
        ));
        assert(run_events(m, caller, contract, watched, events) == m);
    } else {
        assert(p[0] == events[0]);
        assert(p.skip(1) =~= events.skip(1).push(e));
        lemma_run_snoc(
            exec_step(m, caller, contract, watched, events[0]),
            caller,
            contract,
            watched,
            events.skip(1),
            e,
        );
        assert(run_events(m, caller, contract, watched, p) == run_events(
            exec_step(m, caller, contract, watched, events[0]),
            caller,
            contract,
            watched,
            p.skip(1),
        ));
    }
}

/// Once a terminator was reached, further events change nothing.
proof fn lemma_run_done(
    m: ExecEffect,
    caller: EVMAddress,
    contract: EVMAddress,
    watched: Seq<(EVMAddress, EVMU256)>,
    events: Seq<EVMEvent>,
)
    requires
        m.done,
    ensures
        run_events(m, caller, contract, watched, events) == m,
    decreases events.len(),
{
    if events.len() > 0 {
        lemma_run_done(m, caller, contract, watched, events.skip(1));
    }
}

/// What one transaction produced: the successor state, the returned
/// bytes, the outcome, and the reentrancy evidence of this run.
pub struct ExecutionResult {
    /// The state after the transaction; on a revert this is the seed
    /// state's persisted content unchanged.
    pub new_state: EVMState,
    /// Output bytes; empty unless the transaction completed.
    pub output: Vec<u8>,
    /// Whether the transaction rolled back.
    pub reverted: bool,
    /// Final classification.
    pub outcome: TxOutcome,
    /// Writes that hit a slot the resumed frame had read before leaking.
    pub reentrancy: Vec<(EVMAddress, EVMU256)>,
}

/// Whether a slot list holds a given slot.
fn contains_slot(w: &Vec<(EVMAddress, EVMU256)>, c: EVMAddress, k: EVMU256) -> (r: bool)
    ensures
        r == w@.contains((c, k)),
{
    let n = w.len();
    let mut i: usize = 0;
    while i < n
        invariant
            n == w@.len(),
            0 <= i <= n,
            forall|j: int| 0 <= j < i ==> w@[j] != (c, k),
        decreases n - i,
    {
        let (ea, ek) = w[i];
        if ea == c && ek == k {
            assert(w@[i as int] == (c, k));
            return true;
        }
        i += 1;
    }
    assert(!w@.contains((c, k)));
    false
}

/// Storage reads carry over to a state whose storage entries are the same.
proof fn lemma_carry_slots(
    a_new: EVMState,
    a_old: EVMState,
    m: Map<(EVMAddress, EVMU256), nat>,
)
    requires
        a_new.state@ == a_old.state@,
        forall|a: EVMAddress, k: EVMU256| a_old.slot(a, k) == m[(a, k)],
    ensures
        forall|a: EVMAddress, k: EVMU256| a_new.slot(a, k) == m[(a, k)],
{
    assert forall|a: EVMAddress, k: EVMU256| a_new.slot(a, k) == m[(a, k)] by {
        assert(a_old.slot(a, k) == m[(a, k)]);
    }
}

/// Balance reads carry over to a state whose balance entries are the same.
proof fn lemma_carry_bals(a_new: EVMState, a_old: EVMState, m: Map<EVMAddress, nat>)
    requires
        a_new.balance@ == a_old.balance@,
        forall|a: EVMAddress| a_old.bal(a) == m[a],
    ensures
        forall|a: EVMAddress| a_new.bal(a) == m[a],
{
    assert forall|a: EVMAddress| a_new.bal(a) == m[a] by {
        assert(a_old.bal(a) == m[a]);
    }
}

/// EVM executor: wraps the host (with its coverage maps) and drives event
/// sequences against seed states.
pub struct EVMExecutor {
    /// Host providing the blockchain environment and the coverage maps.
    pub host: FuzzHost,
    /// Deployer address used during corpus initialization.
    pub deployer: EVMAddress,
    /// Known arbitrary-call sites, as `(caller, pc)`.
    pub _known_arbitrary: Vec<(EVMAddress, usize)>,
}

/// Whether the scratch state and local bookkeeping agree with the model,
/// apart from the coverage maps.
pub open spec fn state_matches(
    scratch: EVMState,
    reads: Seq<(EVMAddress, EVMU256)>,
    reent: Seq<(EVMAddress, EVMU256)>,
    leaked: bool,
    m: ExecEffect,
) -> bool {
    &&& forall|a: EVMAddress, k: EVMU256| scratch.slot(a, k) == m.slots[(a, k)]
    &&& forall|a: EVMAddress| scratch.bal(a) == m.bals[a]
    &&& scratch.leaks() == m.leaks
    &&& scratch.bug_hit == m.bug_hit
    &&& scratch.self_destruct@ == m.self_destruct
    &&& typed_bug_view(scratch.typed_bug@) == m.typed_bug
    &&& scratch.arbitrary_calls@ == m.arbitrary_calls
    &&& scratch.integer_overflow@ == m.integer_overflow
    &&& reads == m.reads
    &&& reent == m.reentrancy
    &&& leaked == m.leaked
}

/// Whether the host's maps agree with the model's maps.
pub open spec fn maps_match(host: FuzzHost, m: ExecEffect) -> bool {
    &&& host.jmp_map@ == m.jmp
    &&& host.read_map@ == m.read
    &&& host.write_map@ == m.write
    &&& cmp_view(host.cmp_map@) == m.cmp
}

impl EVMExecutor {
    /// A fresh executor around the given host.
    pub fn new(host: FuzzHost, deployer: EVMAddress) -> (r: EVMExecutor)
        ensures
            r.host == host,
            r.deployer == deployer,
            r._known_arbitrary@.len() == 0,
    {
        EVMExecutor { host, deployer, _known_arbitrary: Vec::new() }
    }

    /// Drive one event sequence against `scratch`, whose observation sets
    /// start empty, watching `watched` slots for reentrant writes. The
    /// result is exactly the model run of the events.
    fn run_loop(
        &mut self,
        scratch: EVMState,
        caller: EVMAddress,
        contract: EVMAddress,
        watched: &Vec<(EVMAddress, EVMU256)>,
        events: &Vec<EVMEvent>,
    ) -> (r: (EVMState, Vec<u8>, bool, bool, Vec<(EVMAddress, EVMU256)>))
        requires
            old(self).host.wf(),
            scratch.observations_empty(),
        ensures
            final(self).host.wf(),
            final(self).host.evmstate == old(self).host.evmstate,
            final(self).host.scheduler == old(self).host.scheduler,
            final(self).host.work_dir == old(self).host.work_dir,
            final(self).deployer == old(self).deployer,
            final(self)._known_arbitrary == old(self)._known_arbitrary,
            ({
                let m = run_events(
                    init_effect(scratch, old(self).host),
                    caller,
                    contract,
                    watched@,
                    events@,
                );
                &&& maps_match(final(self).host, m)
                &&& r.2 == m.reverted
                &&& r.3 == m.leaked
                &&& (!m.reverted ==> state_matches(r.0, m.reads, r.4@, r.3, m))
                &&& (!m.reverted ==> r.1@ == m.output)
                &&& r.4@ == m.reentrancy
            }),
    {
        let ghost m0 = init_effect(scratch, old(self).host);
        let mut st = scratch;
        let mut reads: Vec<(EVMAddress, EVMU256)> = Vec::new();
        let mut reent: Vec<(EVMAddress, EVMU256)> = Vec::new();
        let mut output: Vec<u8> = Vec::new();
        let mut reverted = false;
        let mut leaked = false;
        let mut done = false;
        let n = events.len();
        let mut i: usize = 0;
        proof {
            assert(events@.take(0) =~= Seq::<EVMEvent>::empty());
            assert forall|a: EVMAddress, k: EVMU256| st.slot(a, k) == m0.slots[(a, k)] by {
                assert(m0.slots.contains_key((a, k)));
            }
            assert forall|a: EVMAddress| st.bal(a) == m0.bals[a] by {
                assert(m0.bals.contains_key(a));
            }
            assert(typed_bug_view(st.typed_bug@) =~= Seq::<(Seq<char>, EVMAddress, usize)>::empty());
            assert(st.self_destruct@ =~= Seq::<(EVMAddress, usize)>::empty());
            assert(st.arbitrary_calls@ =~= Seq::<(EVMAddress, EVMAddress, usize)>::empty());
            assert(st.integer_overflow@ =~= Seq::<(EVMAddress, usize)>::empty());
            assert(reads@ =~= Seq::<(EVMAddress, EVMU256)>::empty());
            assert(reent@ =~= Seq::<(EVMAddress, EVMU256)>::empty());
            assert(state_matches(st, reads@, reent@, leaked, m0));
        }
        while i < n && !done
            invariant
                n == events@.len(),
                0 <= i <= n,
                self.host.wf(),
                self.host.evmstate == old(self).host.evmstate,
                self.host.scheduler == old(self).host.scheduler,
                self.host.work_dir == old(self).host.work_dir,
                self.deployer == old(self).deployer,
                self._known_arbitrary == old(self)._known_arbitrary,
                reverted ==> done,
                ({
                    let m = run_events(m0, caller, contract, watched@, events@.take(i as int));
                    &&& maps_match(self.host, m)
                    &&& done == m.done
                    &&& reverted == m.reverted
                    &&& (!m.reverted ==> state_matches(st, reads@, reent@, leaked, m))
                    &&& (!m.reverted ==> output@ == m.output)
                    &&& reent@ == m.reentrancy
                    &&& leaked == m.leaked
                }),
            decreases n - i,
        {
            let ghost m_pre = run_events(m0, caller, contract, watched@, events@.take(i as int));
            let ghost st0 = st;
            proof {
                assert(events@.take(i + 1) =~= events@.take(i as int).push(events@[i as int]));
                lemma_run_snoc(m0, caller, contract, watched@, events@.take(i as int), events@[i as int]);
            }
            match &events[i] {
                EVMEvent::Sload { contract: c, key: k } => {
                    let _v = st.read_slot(*c, *k);
                    reads.push((*c, *k));
                    let idx = slot_index(*c, *k);
                    self.host.on_read(idx);
                },
                EVMEvent::Sstore { contract: c, key: k, value: v } => {
                    st.write_slot(*c, *k, *v);
                    let idx = slot_index(*c, *k);
                    self.host.on_write(idx);
                    if contains_slot(watched, *c, *k) {
                        reent.push((*c, *k));
                    }
                    proof {
                        let m_post = exec_step(m_pre, caller, contract, watched@, events@[i as int]);
                        assert forall|a: EVMAddress, k2: EVMU256| st.slot(a, k2) == m_post.slots[(
                            a,
                            k2,
                        )] by {
                            if a == *c && k2 == *k {
                                assert(m_post.slots[(a, k2)] == (*v).as_nat());
                            } else {
                                assert((a, k2) != (*c, *k));
                                assert(m_post.slots[(a, k2)] == m_pre.slots[(a, k2)]);
                            }
                        }
                        lemma_carry_bals(st, st0, m_pre.bals);
                    }
                },
                EVMEvent::Jump { contract: c, pc } => {
                    let idx = map_index(*c, *pc);
                    self.host.on_jump(idx);
                },
                EVMEvent::Compare { contract: c, pc, lhs, rhs } => {
                    let idx = map_index(*c, *pc);
                    self.host.on_compare(idx, *lhs, *rhs);
                    proof {
                        let m_post = exec_step(m_pre, caller, contract, watched@, events@[i as int]);
                        assert(cmp_view(self.host.cmp_map@) =~= m_post.cmp);
                    }
                },
                EVMEvent::Transfer { from, to, amount } => {
                    let bf = st.balance_of(*from);
                    if bf.lt(*amount) {
                        reverted = true;
                        done = true;
                    } else {
                        let feasible: bool = if from == to {
                            true
                        } else {
                            let bt = st.balance_of(*to);
                            bt.checked_add(*amount).is_some()
                        };
                        if !feasible {
                            reverted = true;
                            done = true;
                        } else {
                            let r1 = st.debit(*from, *amount);
                            let r2 = st.credit(*to, *amount);
                            proof {
                                assert(r1 is Ok);
                                assert(r2 is Ok);
                                let m_post = exec_step(m_pre, caller, contract, watched@, events@[i as int]);
                                let b1 = m_pre.bals.insert(
                                    *from,
                                    (m_pre.bals[*from] - (*amount).as_nat()) as nat,
                                );
                                assert(m_post.bals == b1.insert(*to, (b1[*to] + (*amount).as_nat()) as nat));
                                assert forall|a: EVMAddress| st.bal(a) == m_post.bals[a] by {
                                    if a == *to {
                                        assert(m_post.bals[a] == (b1[*to] + (*amount).as_nat()) as nat);
                                    } else if a == *from {
                                        assert(m_post.bals[a] == b1[a]);
                                        assert(b1[a] == (m_pre.bals[*from] - (*amount).as_nat()) as nat);
                                    } else {
                                        assert(m_post.bals[a] == b1[a]);
                                        assert(b1[a] == m_pre.bals[a]);
                                    }
                                }
                                lemma_carry_slots(st, st0, m_pre.slots);
                            }
                        }
                    }
                },
                EVMEvent::Leak { pc, gas_remaining, input, output: out } => {
                    let ctx = PostExecutionCtx {
                        caller,
                        contract,
                        pc: *pc,
                        gas_remaining: *gas_remaining,
                        input: input.clone(),
                        output: out.clone(),
                        pre_read_slots: copy_vec(&reads),
                    };
                    st.push_leak(ctx);
                    leaked = true;
                    proof {
                        lemma_carry_slots(st, st0, m_pre.slots);
                        lemma_carry_bals(st, st0, m_pre.bals);
                    }
                },
                EVMEvent::SelfDestruct { contract: c, pc } => {
                    st.record_self_destruct(*c, *pc);
                    proof {
                        lemma_carry_slots(st, st0, m_pre.slots);
                        lemma_carry_bals(st, st0, m_pre.bals);
                    }
                },
                EVMEvent::TypedBug { name, contract: c, pc } => {
                    let ghost prev = st.typed_bug@;
                    st.record_typed_bug(name.clone(), *c, *pc);
                    proof {
                        let m_post = exec_step(m_pre, caller, contract, watched@, events@[i as int]);
                        assert(m_post.typed_bug == m_pre.typed_bug.push(((*name)@, *c, *pc)));
                        assert forall|j: int| 0 <= j < st.typed_bug@.len() implies typed_bug_view(
                            st.typed_bug@,
                        )[j] == m_post.typed_bug[j] by {
                            if j < prev.len() {
                                assert(st.typed_bug@[j] == prev[j]);
                                assert(typed_bug_view(prev)[j] == m_pre.typed_bug[j]);
                            }
                        }
                        assert(typed_bug_view(st.typed_bug@) =~~= m_post.typed_bug);
                        lemma_carry_slots(st, st0, m_pre.slots);
                        lemma_carry_bals(st, st0, m_pre.bals);
                    }
                },
                EVMEvent::ArbitraryCall { caller: cl, target, pc } => {
                    st.record_arbitrary_call(*cl, *target, *pc);
                    proof {
                        lemma_carry_slots(st, st0, m_pre.slots);
                        lemma_carry_bals(st, st0, m_pre.bals);
                    }
                },
                EVMEvent::IntegerOverflow { contract: c, pc } => {
                    st.record_integer_overflow(*c, *pc);
                    proof {
                        lemma_carry_slots(st, st0, m_pre.slots);
                        lemma_carry_bals(st, st0, m_pre.bals);
                    }
                },
                EVMEvent::BugMarker => {
                    st.set_bug_hit();
                    proof {
                        lemma_carry_slots(st, st0, m_pre.slots);
                        lemma_carry_bals(st, st0, m_pre.bals);
                    }
                },
                EVMEvent::Revert => {
                    reverted = true;
                    done = true;
                },
                EVMEvent::Stop { output: out } => {
                    output = out.clone();
                    done = true;
                },
            }
            i += 1;
        }
        proof {
            let m_i = run_events(m0, caller, contract, watched@, events@.take(i as int));
            if done {
                lemma_run_done(m_i, caller, contract, watched@, events@.skip(i as int));
            }
            assert(events@.take(i as int) + events@.skip(i as int) =~= events@);
            lemma_run_append(m0, caller, contract, watched@, events@.take(i as int), events@.skip(i as int));
            if i == n {
                assert(events@.take(i as int) =~= events@);
            }
        }
        (st, output, reverted, leaked, reent)
    }
}

/// The model a resumed execution starts from: as a fresh one, but with
/// the most recent leak context already consumed.
pub open spec fn init_effect_resumed(state: EVMState, host: FuzzHost) -> ExecEffect {
    ExecEffect { leaks: state.leaks().drop_last(), ..init_effect(state, host) }
}

impl EVMExecutor {
    /// Execute one transaction against a clone of `state`: the interpreter
    /// events get their exact model meaning, the coverage maps record the
    /// run whatever its outcome, and a reverted transaction leaves the
    /// resulting state at the seed's persisted content.
    pub fn execute(
        &mut self,
        input: &EVMInput,
        state: &EVMState,
        events: &Vec<EVMEvent>,
    ) -> (r: ExecutionResult)
        requires
            old(self).host.wf(),
        ensures
            final(self).host.wf(),
            final(self).host.evmstate == old(self).host.evmstate,
            final(self).host.scheduler == old(self).host.scheduler,
            final(self).host.work_dir == old(self).host.work_dir,
            final(self).deployer == old(self).deployer,
            final(self)._known_arbitrary == old(self)._known_arbitrary,
            ({
                let m = run_events(
                    init_effect(*state, old(self).host),
                    input.caller,
                    input.contract,
                    Seq::empty(),
                    events@,
                );
                &&& maps_match(final(self).host, m)
                &&& r.reverted == m.reverted
                &&& r.outcome == (if m.reverted {
                    TxOutcome::Reverted
                } else if m.leaked {
                    TxOutcome::Leaked
                } else {
                    TxOutcome::Completed
                })
                &&& r.reentrancy@ == m.reentrancy
                &&& (!m.reverted ==> state_matches(r.new_state, m.reads, m.reentrancy, m.leaked, m)
                    && r.output@ == m.output)
                &&& (m.reverted ==> r.new_state.same_persisted(*state)
                    && r.new_state.observations_empty() && r.output@.len() == 0)
            }),
    {
        let scratch = state.clone_for_execution();
        let ghost scr = scratch;
        let empty_watch: Vec<(EVMAddress, EVMU256)> = Vec::new();
        let (st, out, reverted, leaked, reent) = self.run_loop(
            scratch,
            input.caller,
            input.contract,
            &empty_watch,
            events,
        );
        proof {
            assert(empty_watch@ =~= Seq::<(EVMAddress, EVMU256)>::empty());
            lemma_same_init_effect(scr, *state, old(self).host);
        }
        let outcome = if reverted {
            TxOutcome::Reverted
        } else if leaked {
            TxOutcome::Leaked
        } else {
            TxOutcome::Completed
        };
        if reverted {
            ExecutionResult {
                new_state: state.clone_for_execution(),
                output: Vec::new(),
                reverted,
                outcome,
                reentrancy: reent,
            }
        } else {
            ExecutionResult { new_state: st, output: out, reverted, outcome, reentrancy: reent }
        }
    }

    /// Resume the most recently leaked call context of `state`: the
    /// context is popped (each one is resumed exactly once) and the events
    /// continue from it, with its pre-leak reads watched for reentrant
    /// writes. A state with no pending leak fails with `NoPendingLeak`,
    /// never silently.
    pub fn resume(
        &mut self,
        input: &EVMInput,
        state: &EVMState,
        events: &Vec<EVMEvent>,
    ) -> (r: Result<ExecutionResult, EVMStateError>)
        requires
            old(self).host.wf(),
        ensures
            final(self).host.wf(),
            final(self).host.evmstate == old(self).host.evmstate,
            final(self).host.scheduler == old(self).host.scheduler,
            final(self).host.work_dir == old(self).host.work_dir,
            final(self).deployer == old(self).deployer,
            final(self)._known_arbitrary == old(self)._known_arbitrary,
            state.leaks().len() == 0 ==> r is Err && r->Err_0 == EVMStateError::NoPendingLeak
                && final(self).host == old(self).host,
            state.leaks().len() > 0 ==> r is Ok && ({
                let m = run_events(
                    init_effect_resumed(*state, old(self).host),
                    input.caller,
                    input.contract,
                    state.leaks().last().pre_read_slots,
                    events@,
                );
                let res = r->Ok_0;
                &&& maps_match(final(self).host, m)
                &&& res.reverted == m.reverted
                &&& res.outcome == (if m.reverted {
                    TxOutcome::Reverted
                } else if m.leaked {
                    TxOutcome::Leaked
                } else {
                    TxOutcome::Completed
                })
                &&& res.reentrancy@ == m.reentrancy
                &&& (!m.reverted ==> state_matches(res.new_state, m.reads, m.reentrancy, m.leaked, m)
                    && res.output@ == m.output)
                &&& (m.reverted ==> res.new_state.state@ == state.state@
                    && res.new_state.balance@ == state.balance@
                    && res.new_state.leaks() == state.leaks().drop_last()
                    && res.new_state.observations_empty() && res.output@.len() == 0)
            }),
    {
        let mut scratch = state.clone_for_execution();
        match scratch.pop_leak() {
            None => Err(EVMStateError::NoPendingLeak),
            Some(ctx) => {
                let ghost scr = scratch;
                let watched = ctx.pre_read_slots;
                let (st, out, reverted, leaked, reent) = self.run_loop(
                    scratch,
                    input.caller,
                    input.contract,
                    &watched,
                    events,
                );
                proof {
                    assert(watched@ == state.leaks().last().pre_read_slots);
                    lemma_same_init_effect_resumed(scr, *state, old(self).host);
                }
                let outcome = if reverted {
                    TxOutcome::Reverted
                } else if leaked {
                    TxOutcome::Leaked
                } else {
                    TxOutcome::Completed
                };
                if reverted {
                    let mut rolled = state.clone_for_execution();
                    let _popped = rolled.pop_leak();
                    Ok(
                        ExecutionResult {
                            new_state: rolled,
                            output: Vec::new(),
                            reverted,
                            outcome,
                            reentrancy: reent,
                        },
                    )
                } else {
                    Ok(
                        ExecutionResult {
                            new_state: st,
                            output: out,
                            reverted,
                            outcome,
                            reentrancy: reent,
                        },
                    )
                }
            },
        }
    }
}

/// Two states with the same persisted content start from the same model.
proof fn lemma_same_init_effect(a: EVMState, b: EVMState, host: FuzzHost)
    requires
        a.state@ == b.state@,
        a.balance@ == b.balance@,
        a.leaks() == b.leaks(),
    ensures
        init_effect(a, host) == init_effect(b, host),
{
    assert(init_effect(a, host).slots =~= init_effect(b, host).slots);
    assert(init_effect(a, host).bals =~= init_effect(b, host).bals);
}

/// A state whose last leak was popped starts from the resumed model of the
/// original state.
proof fn lemma_same_init_effect_resumed(a: EVMState, b: EVMState, host: FuzzHost)
    requires
        a.state@ == b.state@,
        a.balance@ == b.balance@,
        b.leaks().len() > 0,
        a.leaks() == b.leaks().drop_last(),
    ensures
        init_effect(a, host) == init_effect_resumed(b, host),
{
    assert(init_effect(a, host).slots =~= init_effect_resumed(b, host).slots);
    assert(init_effect(a, host).bals =~= init_effect_resumed(b, host).bals);
}

/// Replay idempotence: the same events executed from two equally
/// initialized states and hosts produce the same model, so a replayed
/// solution yields identical storage effects, observations and findings
/// both times.
pub proof fn lemma_replay_deterministic(
    s1: EVMState,
    s2: EVMState,
    h1: FuzzHost,
    h2: FuzzHost,
    caller: EVMAddress,
    contract: EVMAddress,
    watched: Seq<(EVMAddress, EVMU256)>,
    events: Seq<EVMEvent>,
)
    requires
        s1.state@ == s2.state@,
        s1.balance@ == s2.balance@,
        s1.leaks() == s2.leaks(),
        h1.jmp_map@ == h2.jmp_map@,
        h1.read_map@ == h2.read_map@,
        h1.write_map@ == h2.write_map@,
        h1.cmp_map@ == h2.cmp_map@,
    ensures
        run_events(init_effect(s1, h1), caller, contract, watched, events) == run_events(
            init_effect(s2, h2),
            caller,
            contract,
            watched,
            events,
        ),
{
    assert(init_effect(s1, h1).slots =~= init_effect(s2, h2).slots);
    assert(init_effect(s1, h1).bals =~= init_effect(s2, h2).bals);
    assert(init_effect(s1, h1) == init_effect(s2, h2));
}

/// Running a concatenation runs the two halves in order.
proof fn lemma_run_append(
    m: ExecEffect,
    caller: EVMAddress,
    contract: EVMAddress,
    watched: Seq<(EVMAddress, EVMU256)>,
    s1: Seq<EVMEvent>,
    s2: Seq<EVMEvent>,
)
    ensures
        run_events(m, caller, contract, watched, s1 + s2) == run_events(
            run_events(m, caller, contract, watched, s1),
            caller,
            contract,
            watched,
            s2,
        ),
    decreases s1.len(),
{
    if s1.len() == 0 {
        assert(s1 + s2 =~= s2);
    } else {
        assert((s1 + s2)[0] == s1[0]);
        assert((s1 + s2).skip(1) =~= s1.skip(1) + s2);
        lemma_run_append(exec_step(m, caller, contract, watched, s1[0]), caller, contract, watched, s1.skip(1), s2);
    }
}

} // verus!
