//! The EVM world-state model: per-contract storage, balances, the pending
//! control-leak stack, and the transient observation sets that carry
//! oracle-relevant facts out of one execution.

use vstd::prelude::*;
use crate::types::{EVMAddress, EVMU256, pow256};

verus! {

/// Failures of state operations. A debit past the balance or a resume with
/// no pending leak is a condition the caller handles, never a panic.
#[derive(Clone, Copy, Debug, PartialEq, Eq, Structural)]
pub enum EVMStateError {
    /// A debit asked for more than the account holds.
    InsufficientBalance,
    /// A credit would push the balance past the largest 256-bit word.
    BalanceOverflow,
    /// A resume was asked of a state with no pending control leak.
    NoPendingLeak,
}

/// One suspended call frame, recorded when a control leak happens: enough
/// to resume interpretation exactly once from the captured point.
#[derive(Debug)]
pub struct PostExecutionCtx {
    /// Caller of the suspended frame.
    pub caller: EVMAddress,
    /// Contract whose code was being interpreted.
    pub contract: EVMAddress,
    /// Program counter to resume from.
    pub pc: usize,
    /// Gas left to the suspended frame.
    pub gas_remaining: u64,
    /// Input buffer of the suspended call.
    pub input: Vec<u8>,
    /// Output buffer captured so far.
    pub output: Vec<u8>,
    /// Storage slots read before the leak; a later write to one of them by
    /// the resumed frame is reentrancy evidence.
    pub pre_read_slots: Vec<(EVMAddress, EVMU256)>,
}

/// The mathematical content of a [`PostExecutionCtx`]: the same fields with
/// buffers as sequences.
pub struct CtxSnapshot {
    /// Caller of the suspended frame.
    pub caller: EVMAddress,
    /// Contract whose code was being interpreted.
    pub contract: EVMAddress,
    /// Program counter to resume from.
    pub pc: usize,
    /// Gas left to the suspended frame.
    pub gas_remaining: u64,
    /// Input buffer of the suspended call.
    pub input: Seq<u8>,
    /// Output buffer captured so far.
    pub output: Seq<u8>,
    /// Storage slots read before the leak.
    pub pre_read_slots: Seq<(EVMAddress, EVMU256)>,
}

impl View for PostExecutionCtx {
    type V = CtxSnapshot;

    open spec fn view(&self) -> CtxSnapshot {
        CtxSnapshot {
            caller: self.caller,
            contract: self.contract,
            pc: self.pc,
            gas_remaining: self.gas_remaining,
            input: self.input@,
            output: self.output@,
            pre_read_slots: self.pre_read_slots@,
        }
    }
}

/// An element-by-element copy of a vector of plain copyable values.
pub(crate) fn copy_vec<T: Copy>(v: &Vec<T>) -> (r: Vec<T>)
    ensures
        r@ == v@,
{
    let mut r: Vec<T> = Vec::new();
    let mut i: usize = 0;
    while i < v.len()
        invariant
            0 <= i <= v@.len(),
            r@ == v@.subrange(0, i as int),
        decreases v@.len() - i,
    {
        r.push(v[i]);
        proof {
            assert(r@ =~= v@.subrange(0, i + 1));
        }
        i += 1;
    }
    proof {
        assert(r@ =~= v@);
    }
    r
}

impl Clone for PostExecutionCtx {
    fn clone(&self) -> (r: Self)
        ensures
            r@ == self@,
    {
        let r = PostExecutionCtx {
            caller: self.caller,
            contract: self.contract,
            pc: self.pc,
            gas_remaining: self.gas_remaining,
            input: self.input.clone(),
            output: self.output.clone(),
            pre_read_slots: copy_vec(&self.pre_read_slots),
        };
        proof {
            assert(r.input@ =~= self.input@);
            assert(r.output@ =~= self.output@);
        }
        r
    }
}

/// Value of slot `k` of contract `a` in an association sequence, reading the
/// first matching entry; an absent slot reads as zero.
pub open spec fn slot_lookup(s: Seq<(EVMAddress, EVMU256, EVMU256)>, a: EVMAddress, k: EVMU256) -> nat
    decreases s.len(),
{
    if s.len() == 0 {
        0
    } else if s[0].0 == a && s[0].1 == k {
        s[0].2.as_nat()
    } else {
        slot_lookup(s.skip(1), a, k)
    }
}

/// Balance of `a` in an association sequence, reading the first matching
/// entry; an absent account reads as zero.
pub open spec fn balance_lookup(s: Seq<(EVMAddress, EVMU256)>, a: EVMAddress) -> nat
    decreases s.len(),
{
    if s.len() == 0 {
        0
    } else if s[0].0 == a {
        s[0].1.as_nat()
    } else {
        balance_lookup(s.skip(1), a)
    }
}

/// A sequence with no entry for `(a, k)` reads as zero at `(a, k)`.
pub proof fn lemma_slot_absent_zero(s: Seq<(EVMAddress, EVMU256, EVMU256)>, a: EVMAddress, k: EVMU256)
    requires
        forall|j: int| 0 <= j < s.len() ==> !(s[j].0 == a && s[j].1 == k),
    ensures
        slot_lookup(s, a, k) == 0,
    decreases s.len(),
{
    if s.len() > 0 {
        lemma_slot_absent_zero(s.skip(1), a, k);
    }
}

/// Overwriting the first matching entry changes the lookup at its key and
/// nothing else.
proof fn lemma_slot_update(
    s: Seq<(EVMAddress, EVMU256, EVMU256)>,
    i: int,
    a: EVMAddress,
    k: EVMU256,
    v: EVMU256,
    a2: EVMAddress,
    k2: EVMU256,
)
    requires
        0 <= i < s.len(),
        forall|j: int| 0 <= j < i ==> !(s[j].0 == a && s[j].1 == k),
        s[i].0 == a && s[i].1 == k,
    ensures
        slot_lookup(s.update(i, (a, k, v)), a2, k2) == (if a2 == a && k2 == k {
            v.as_nat()
        } else {
            slot_lookup(s, a2, k2)
        }),
    decreases i,
{
    let t = s.update(i, (a, k, v));
    if i == 0 {
        assert(t[0] == (a, k, v));
        if a2 == a && k2 == k {
            assert(slot_lookup(t, a2, k2) == v.as_nat());
        } else {
            assert(t.skip(1) =~= s.skip(1));
            assert(slot_lookup(t, a2, k2) == slot_lookup(t.skip(1), a2, k2));
            assert(slot_lookup(s, a2, k2) == slot_lookup(s.skip(1), a2, k2));
        }
    } else {
        assert(t[0] == s[0]);
        assert(!(s[0].0 == a && s[0].1 == k));
        if s[0].0 == a2 && s[0].1 == k2 {
            assert(slot_lookup(t, a2, k2) == s[0].2.as_nat());
            assert(slot_lookup(s, a2, k2) == s[0].2.as_nat());
        } else {
            assert(t.skip(1) =~= s.skip(1).update(i - 1, (a, k, v)));
            lemma_slot_update(s.skip(1), i - 1, a, k, v, a2, k2);
            assert(slot_lookup(t, a2, k2) == slot_lookup(t.skip(1), a2, k2));
            assert(slot_lookup(s, a2, k2) == slot_lookup(s.skip(1), a2, k2));
        }
    }
}

/// Appending an entry for a key with no earlier entry changes the lookup at
/// that key and nothing else.
proof fn lemma_slot_push(
    s: Seq<(EVMAddress, EVMU256, EVMU256)>,
    a: EVMAddress,
    k: EVMU256,
    v: EVMU256,
    a2: EVMAddress,
    k2: EVMU256,
)
    requires
        forall|j: int| 0 <= j < s.len() ==> !(s[j].0 == a && s[j].1 == k),
    ensures
        slot_lookup(s.push((a, k, v)), a2, k2) == (if a2 == a && k2 == k {
            v.as_nat()
        } else {
            slot_lookup(s, a2, k2)
        }),
    decreases s.len(),
{
    let t = s.push((a, k, v));
    if s.len() == 0 {
        assert(t[0] == (a, k, v));
        if a2 == a && k2 == k {
            assert(slot_lookup(t, a2, k2) == v.as_nat());
        } else {
            assert(t.skip(1) =~= Seq::<(EVMAddress, EVMU256, EVMU256)>::empty());
            assert(slot_lookup(t, a2, k2) == slot_lookup(t.skip(1), a2, k2));
        }
    } else {
        assert(t[0] == s[0]);
        if s[0].0 == a2 && s[0].1 == k2 {
            assert(slot_lookup(t, a2, k2) == s[0].2.as_nat());
            assert(slot_lookup(s, a2, k2) == s[0].2.as_nat());
        } else {
            assert(t.skip(1) =~= s.skip(1).push((a, k, v)));
            lemma_slot_push(s.skip(1), a, k, v, a2, k2);
            assert(slot_lookup(t, a2, k2) == slot_lookup(t.skip(1), a2, k2));
            assert(slot_lookup(s, a2, k2) == slot_lookup(s.skip(1), a2, k2));
        }
    }
}

/// As `lemma_slot_update`, for the balance sequence.
proof fn lemma_balance_update(
    s: Seq<(EVMAddress, EVMU256)>,
    i: int,
    a: EVMAddress,
    v: EVMU256,
    a2: EVMAddress,
)
    requires
        0 <= i < s.len(),
        forall|j: int| 0 <= j < i ==> s[j].0 != a,
        s[i].0 == a,
    ensures
        balance_lookup(s.update(i, (a, v)), a2) == (if a2 == a {
            v.as_nat()
        } else {
            balance_lookup(s, a2)
        }),
    decreases i,
{
    let t = s.update(i, (a, v));
    if i == 0 {
        assert(t[0] == (a, v));
        if a2 == a {
            assert(balance_lookup(t, a2) == v.as_nat());
        } else {
            assert(t.skip(1) =~= s.skip(1));
            assert(balance_lookup(t, a2) == balance_lookup(t.skip(1), a2));
            assert(balance_lookup(s, a2) == balance_lookup(s.skip(1), a2));
        }
    } else {
        assert(t[0] == s[0]);
        if s[0].0 == a2 {
            assert(balance_lookup(t, a2) == s[0].1.as_nat());
            assert(balance_lookup(s, a2) == s[0].1.as_nat());
        } else {
            assert(t.skip(1) =~= s.skip(1).update(i - 1, (a, v)));
            lemma_balance_update(s.skip(1), i - 1, a, v, a2);
            assert(balance_lookup(t, a2) == balance_lookup(t.skip(1), a2));
            assert(balance_lookup(s, a2) == balance_lookup(s.skip(1), a2));
        }
    }
}

/// As `lemma_slot_push`, for the balance sequence.
proof fn lemma_balance_push(s: Seq<(EVMAddress, EVMU256)>, a: EVMAddress, v: EVMU256, a2: EVMAddress)
    requires
        forall|j: int| 0 <= j < s.len() ==> s[j].0 != a,
    ensures
        balance_lookup(s.push((a, v)), a2) == (if a2 == a {
            v.as_nat()
        } else {
            balance_lookup(s, a2)
        }),
    decreases s.len(),
{
    let t = s.push((a, v));
    if s.len() == 0 {
        assert(t[0] == (a, v));
        if a2 == a {
            assert(balance_lookup(t, a2) == v.as_nat());
        } else {
            assert(t.skip(1) =~= Seq::<(EVMAddress, EVMU256)>::empty());
            assert(balance_lookup(t, a2) == balance_lookup(t.skip(1), a2));
        }
    } else {
        assert(t[0] == s[0]);
        if s[0].0 == a2 {
            assert(balance_lookup(t, a2) == s[0].1.as_nat());
            assert(balance_lookup(s, a2) == s[0].1.as_nat());
        } else {
            assert(t.skip(1) =~= s.skip(1).push((a, v)));
            lemma_balance_push(s.skip(1), a, v, a2);
            assert(balance_lookup(t, a2) == balance_lookup(t.skip(1), a2));
            assert(balance_lookup(s, a2) == balance_lookup(s.skip(1), a2));
        }
    }
}

/// One blockchain world state: storage and balances persist across
/// executions; the observation sets are execution-scoped and start empty on
/// every clone taken as a mutation seed.
#[derive(Debug)]
pub struct EVMState {
    /// Per-contract slot storage as `(contract, slot, value)` entries; the
    /// first matching entry holds the value, absent slots read as zero.
    pub state: Vec<(EVMAddress, EVMU256, EVMU256)>,
    /// Wei balances as `(account, balance)` entries; absent accounts read
    /// as zero and no operation drives a balance negative.
    pub balance: Vec<(EVMAddress, EVMU256)>,
    /// Pending control-leak continuations, most recent last (a stack).
    pub post_execution: Vec<PostExecutionCtx>,
    /// Whether a bug-marker call was hit in this execution.
    pub bug_hit: bool,
    /// Self-destructs observed in this execution, as `(contract, pc)`.
    pub self_destruct: Vec<(EVMAddress, usize)>,
    /// Named typed-bug observations of this execution.
    pub typed_bug: Vec<(String, EVMAddress, usize)>,
    /// Arbitrary external calls observed, as `(caller, target, pc)`.
    pub arbitrary_calls: Vec<(EVMAddress, EVMAddress, usize)>,
    /// Integer overflows observed, as `(contract, pc)`.
    pub integer_overflow: Vec<(EVMAddress, usize)>,
}

impl EVMState {
    /// Value of slot `k` of contract `a`, as an integer.
    pub open spec fn slot(self, a: EVMAddress, k: EVMU256) -> nat {
        slot_lookup(self.state@, a, k)
    }

    /// Balance of account `a`, as an integer.
    pub open spec fn bal(self, a: EVMAddress) -> nat {
        balance_lookup(self.balance@, a)
    }

    /// The pending control-leak stack, most recent last.
    pub open spec fn leaks(self) -> Seq<CtxSnapshot> {
        self.post_execution@.map_values(|c: PostExecutionCtx| c@)
    }

    /// Whether all execution-scoped observation sets are empty, as they are
    /// at the start of every execution.
    pub open spec fn observations_empty(self) -> bool {
        &&& !self.bug_hit
        &&& self.self_destruct@.len() == 0
        &&& self.typed_bug@.len() == 0
        &&& self.arbitrary_calls@.len() == 0
        &&& self.integer_overflow@.len() == 0
    }

    /// Whether the persisted part (storage, balances, pending leaks) of two
    /// states is the same.
    pub open spec fn same_persisted(self, other: EVMState) -> bool {
        &&& self.state@ == other.state@
        &&& self.balance@ == other.balance@
        &&& self.leaks() == other.leaks()
    }

    /// Create a new EVM state: empty storage, no balances, no pending
    /// leaks, no observations.
    pub fn new() -> (r: Self)
        ensures
            r.state@.len() == 0,
            r.balance@.len() == 0,
            r.leaks().len() == 0,
            r.observations_empty(),
            forall|a: EVMAddress, k: EVMU256| r.slot(a, k) == 0,
            forall|a: EVMAddress| r.bal(a) == 0,
    {
        EVMState {
            state: Vec::new(),
            balance: Vec::new(),
            post_execution: Vec::new(),
            bug_hit: false,
            self_destruct: Vec::new(),
            typed_bug: Vec::new(),
            arbitrary_calls: Vec::new(),
            integer_overflow: Vec::new(),
        }
    }

    /// Read slot `k` of contract `a`; an unwritten slot reads as zero and
    /// the state is not touched.
    pub fn read_slot(&self, a: EVMAddress, k: EVMU256) -> (r: EVMU256)
        ensures
            r.as_nat() == self.slot(a, k),
    {
        let n = self.state.len();
        let mut i: usize = 0;
        proof {
            assert(self.state@.skip(0) =~= self.state@);
        }
        while i < n
            invariant
                n == self.state@.len(),
                0 <= i <= n,
                slot_lookup(self.state@, a, k) == slot_lookup(self.state@.skip(i as int), a, k),
            decreases n - i,
        {
            let (ea, ek, ev) = self.state[i];
            proof {
                assert(self.state@.skip(i as int)[0] == self.state@[i as int]);
            }
            if ea == a && ek == k {
                return ev;
            }
            proof {
                assert(self.state@.skip(i as int).skip(1) =~= self.state@.skip(i + 1));
            }
            i += 1;
        }
        proof {
            assert(self.state@.skip(n as int) =~= Seq::<(EVMAddress, EVMU256, EVMU256)>::empty());
        }
        EVMU256 { hi: 0, lo: 0 }
    }

    /// Write value `v` to slot `k` of contract `a`. Only that slot changes;
    /// balances, leaks and observations stay as they were.
    pub fn write_slot(&mut self, a: EVMAddress, k: EVMU256, v: EVMU256)
        ensures
            forall|a2: EVMAddress, k2: EVMU256| final(self).slot(a2, k2) == (if a2 == a && k2 == k {
                v.as_nat()
            } else {
                old(self).slot(a2, k2)
            }),
            final(self).balance == old(self).balance,
            final(self).post_execution == old(self).post_execution,
            final(self).bug_hit == old(self).bug_hit,
            final(self).self_destruct == old(self).self_destruct,
            final(self).typed_bug == old(self).typed_bug,
            final(self).arbitrary_calls == old(self).arbitrary_calls,
            final(self).integer_overflow == old(self).integer_overflow,
    {
        let n = self.state.len();
        let mut i: usize = 0;
        while i < n
            invariant
                n == self.state@.len(),
                0 <= i <= n,
                *self == *old(self),
                forall|j: int| 0 <= j < i ==> !(self.state@[j].0 == a && self.state@[j].1 == k),
            decreases n - i,
        {
            let (ea, ek, _ev) = self.state[i];
            if ea == a && ek == k {
                self.state[i] = (a, k, v);
                proof {
                    assert(self.state@ == old(self).state@.update(i as int, (a, k, v)));
                    assert forall|a2: EVMAddress, k2: EVMU256|
                        slot_lookup(self.state@, a2, k2) == (if a2 == a && k2 == k {
                            v.as_nat()
                        } else {
                            slot_lookup(old(self).state@, a2, k2)
                        }) by {
                        lemma_slot_update(old(self).state@, i as int, a, k, v, a2, k2);
                    }
                }
                return;
            }
            i += 1;
        }
        self.state.push((a, k, v));
        proof {
            assert(self.state@ == old(self).state@.push((a, k, v)));
            assert forall|a2: EVMAddress, k2: EVMU256|
                slot_lookup(self.state@, a2, k2) == (if a2 == a && k2 == k {
                    v.as_nat()
                } else {
                    slot_lookup(old(self).state@, a2, k2)
                }) by {
                lemma_slot_push(old(self).state@, a, k, v, a2, k2);
            }
        }
    }

    /// Balance of account `a`; an account never credited reads as zero.
    pub fn balance_of(&self, a: EVMAddress) -> (r: EVMU256)
        ensures
            r.as_nat() == self.bal(a),
    {
        let n = self.balance.len();
        let mut i: usize = 0;
        proof {
            assert(self.balance@.skip(0) =~= self.balance@);
        }
        while i < n
            invariant
                n == self.balance@.len(),
                0 <= i <= n,
                balance_lookup(self.balance@, a) == balance_lookup(self.balance@.skip(i as int), a),
            decreases n - i,
        {
            let (ea, ev) = self.balance[i];
            proof {
                assert(self.balance@.skip(i as int)[0] == self.balance@[i as int]);
            }
            if ea == a {
                return ev;
            }
            proof {
                assert(self.balance@.skip(i as int).skip(1) =~= self.balance@.skip(i + 1));
            }
            i += 1;
        }
        proof {
            assert(self.balance@.skip(n as int) =~= Seq::<(EVMAddress, EVMU256)>::empty());
        }
        EVMU256 { hi: 0, lo: 0 }
    }

    /// Set the balance of `a` outright; used by credit and debit.
    fn set_balance(&mut self, a: EVMAddress, v: EVMU256)
        ensures
            forall|a2: EVMAddress| final(self).bal(a2) == (if a2 == a {
                v.as_nat()
            } else {
                old(self).bal(a2)
            }),
            final(self).state == old(self).state,
            final(self).post_execution == old(self).post_execution,
            final(self).bug_hit == old(self).bug_hit,
            final(self).self_destruct == old(self).self_destruct,
            final(self).typed_bug == old(self).typed_bug,
            final(self).arbitrary_calls == old(self).arbitrary_calls,
            final(self).integer_overflow == old(self).integer_overflow,
    {
        let n = self.balance.len();
        let mut i: usize = 0;
        while i < n
            invariant
                n == self.balance@.len(),
                0 <= i <= n,
                *self == *old(self),
                forall|j: int| 0 <= j < i ==> self.balance@[j].0 != a,
            decreases n - i,
        {
            let (ea, _ev) = self.balance[i];
            if ea == a {
                self.balance[i] = (a, v);
                proof {
                    assert(self.balance@ == old(self).balance@.update(i as int, (a, v)));
                    assert forall|a2: EVMAddress|
                        balance_lookup(self.balance@, a2) == (if a2 == a {
                            v.as_nat()
                        } else {
                            balance_lookup(old(self).balance@, a2)
                        }) by {
                        lemma_balance_update(old(self).balance@, i as int, a, v, a2);
                    }
                }
                return;
            }
            i += 1;
        }
        self.balance.push((a, v));
        proof {
            assert(self.balance@ == old(self).balance@.push((a, v)));
            assert forall|a2: EVMAddress|
                balance_lookup(self.balance@, a2) == (if a2 == a {
                    v.as_nat()
                } else {
                    balance_lookup(old(self).balance@, a2)
                }) by {
                lemma_balance_push(old(self).balance@, a, v, a2);
            }
        }
    }

    /// Add `amount` wei to account `a`. Fails (and changes nothing) only
    /// when the balance would pass the largest 256-bit word.
    pub fn credit(&mut self, a: EVMAddress, amount: EVMU256) -> (r: Result<(), EVMStateError>)
        ensures
            r is Ok <==> old(self).bal(a) + amount.as_nat() < pow256(),
            r is Ok ==> forall|a2: EVMAddress| final(self).bal(a2) == (if a2 == a {
                (old(self).bal(a) + amount.as_nat()) as int
            } else {
                old(self).bal(a2) as int
            }),
            r is Err ==> r->Err_0 == EVMStateError::BalanceOverflow
                && final(self).balance == old(self).balance,
            final(self).state == old(self).state,
            final(self).post_execution == old(self).post_execution,
            final(self).bug_hit == old(self).bug_hit,
            final(self).self_destruct == old(self).self_destruct,
            final(self).typed_bug == old(self).typed_bug,
            final(self).arbitrary_calls == old(self).arbitrary_calls,
            final(self).integer_overflow == old(self).integer_overflow,
    {
        let cur = self.balance_of(a);
        match cur.checked_add(amount) {
            Some(nv) => {
                self.set_balance(a, nv);
                Ok(())
            },
            None => Err(EVMStateError::BalanceOverflow),
        }
    }

    /// Remove `amount` wei from account `a`. Fails (and changes nothing)
    /// when the account holds less than `amount`: a balance is never
    /// driven negative.
    pub fn debit(&mut self, a: EVMAddress, amount: EVMU256) -> (r: Result<(), EVMStateError>)
        ensures
            r is Ok <==> old(self).bal(a) >= amount.as_nat(),
            r is Ok ==> forall|a2: EVMAddress| final(self).bal(a2) == (if a2 == a {
                old(self).bal(a) - amount.as_nat()
            } else {
                old(self).bal(a2) as int
            }),
            r is Err ==> r->Err_0 == EVMStateError::InsufficientBalance
                && final(self).balance == old(self).balance,
            final(self).state == old(self).state,
            final(self).post_execution == old(self).post_execution,
            final(self).bug_hit == old(self).bug_hit,
            final(self).self_destruct == old(self).self_destruct,
            final(self).typed_bug == old(self).typed_bug,
            final(self).arbitrary_calls == old(self).arbitrary_calls,
            final(self).integer_overflow == old(self).integer_overflow,
    {
        let cur = self.balance_of(a);
        match cur.checked_sub(amount) {
            Some(nv) => {
                self.set_balance(a, nv);
                Ok(())
            },
            None => Err(EVMStateError::InsufficientBalance),
        }
    }

    /// Append a control-leak continuation: the most recently pushed context
    /// is the first to be resumed.
    pub fn push_leak(&mut self, ctx: PostExecutionCtx)
        ensures
            final(self).leaks() == old(self).leaks().push(ctx@),
            final(self).state == old(self).state,
            final(self).balance == old(self).balance,
            final(self).bug_hit == old(self).bug_hit,
            final(self).self_destruct == old(self).self_destruct,
            final(self).typed_bug == old(self).typed_bug,
            final(self).arbitrary_calls == old(self).arbitrary_calls,
            final(self).integer_overflow == old(self).integer_overflow,
    {
        let ghost prev = self.post_execution@;
        self.post_execution.push(ctx);
        proof {
            assert(self.leaks() =~= prev.map_values(|c: PostExecutionCtx| c@).push(ctx@));
        }
    }

    /// Remove and return the most recently pushed leak context, or `None`
    /// (leaving the state unchanged) when none is pending. Each context is
    /// handed out exactly once.
    pub fn pop_leak(&mut self) -> (r: Option<PostExecutionCtx>)
        ensures
            old(self).leaks().len() == 0 ==> r is None && final(self).leaks() == old(self).leaks(),
            old(self).leaks().len() > 0 ==> {
                &&& r is Some
                &&& r->Some_0@ == old(self).leaks().last()
                &&& final(self).leaks() == old(self).leaks().drop_last()
            },
            final(self).state == old(self).state,
            final(self).balance == old(self).balance,
            final(self).bug_hit == old(self).bug_hit,
            final(self).self_destruct == old(self).self_destruct,
            final(self).typed_bug == old(self).typed_bug,
            final(self).arbitrary_calls == old(self).arbitrary_calls,
            final(self).integer_overflow == old(self).integer_overflow,
    {
        let ghost prev = self.post_execution@;
        let r = self.post_execution.pop();
        proof {
            if prev.len() == 0 {
                assert(self.leaks() =~= old(self).leaks());
            } else {
                assert(self.leaks() =~= old(self).leaks().drop_last());
            }
        }
        r
    }

    /// Record a self-destruct observation.
    pub fn record_self_destruct(&mut self, a: EVMAddress, pc: usize)
        ensures
            final(self).self_destruct@ == old(self).self_destruct@.push((a, pc)),
            final(self).state == old(self).state,
            final(self).balance == old(self).balance,
            final(self).post_execution == old(self).post_execution,
            final(self).bug_hit == old(self).bug_hit,
            final(self).typed_bug == old(self).typed_bug,
            final(self).arbitrary_calls == old(self).arbitrary_calls,
            final(self).integer_overflow == old(self).integer_overflow,
    {
        self.self_destruct.push((a, pc));
    }

    /// Record a named typed-bug observation.
    pub fn record_typed_bug(&mut self, name: String, a: EVMAddress, pc: usize)
        ensures
            final(self).typed_bug@ == old(self).typed_bug@.push((name, a, pc)),
            final(self).state == old(self).state,
            final(self).balance == old(self).balance,
            final(self).post_execution == old(self).post_execution,
            final(self).bug_hit == old(self).bug_hit,
            final(self).self_destruct == old(self).self_destruct,
            final(self).arbitrary_calls == old(self).arbitrary_calls,
            final(self).integer_overflow == old(self).integer_overflow,
    {
        self.typed_bug.push((name, a, pc));
    }

    /// Record an arbitrary external call observation.
    pub fn record_arbitrary_call(&mut self, caller: EVMAddress, target: EVMAddress, pc: usize)
        ensures
            final(self).arbitrary_calls@ == old(self).arbitrary_calls@.push((caller, target, pc)),
            final(self).state == old(self).state,
            final(self).balance == old(self).balance,
            final(self).post_execution == old(self).post_execution,
            final(self).bug_hit == old(self).bug_hit,
            final(self).self_destruct == old(self).self_destruct,
            final(self).typed_bug == old(self).typed_bug,
            final(self).integer_overflow == old(self).integer_overflow,
    {
        self.arbitrary_calls.push((caller, target, pc));
    }

    /// Record an integer-overflow observation.
    pub fn record_integer_overflow(&mut self, a: EVMAddress, pc: usize)
        ensures
            final(self).integer_overflow@ == old(self).integer_overflow@.push((a, pc)),
            final(self).state == old(self).state,
            final(self).balance == old(self).balance,
            final(self).post_execution == old(self).post_execution,
            final(self).bug_hit == old(self).bug_hit,
            final(self).self_destruct == old(self).self_destruct,
            final(self).typed_bug == old(self).typed_bug,
            final(self).arbitrary_calls == old(self).arbitrary_calls,
    {
        self.integer_overflow.push((a, pc));
    }

    /// Mark the bug-marker call as hit.
    pub fn set_bug_hit(&mut self)
        ensures
            final(self).bug_hit,
            final(self).state == old(self).state,
            final(self).balance == old(self).balance,
            final(self).post_execution == old(self).post_execution,
            final(self).self_destruct == old(self).self_destruct,
            final(self).typed_bug == old(self).typed_bug,
            final(self).arbitrary_calls == old(self).arbitrary_calls,
            final(self).integer_overflow == old(self).integer_overflow,
    {
        self.bug_hit = true;
    }

    /// Deep-copy the persisted part of the state (storage, balances,
    /// pending leaks) into a fresh state whose observation sets start
    /// empty, as every execution against a mutation seed requires.
    pub fn clone_for_execution(&self) -> (r: EVMState)
        ensures
            r.same_persisted(*self),
            r.observations_empty(),
    {
        let mut pe: Vec<PostExecutionCtx> = Vec::new();
        let mut i: usize = 0;
        while i < self.post_execution.len()
            invariant
                0 <= i <= self.post_execution@.len(),
                pe@.len() == i,
                forall|j: int| 0 <= j < i ==> pe@[j]@ == self.post_execution@[j]@,
            decreases self.post_execution@.len() - i,
        {
            pe.push(self.post_execution[i].clone());
            i += 1;
        }
        let r = EVMState {
            state: copy_vec(&self.state),
            balance: copy_vec(&self.balance),
            post_execution: pe,
            bug_hit: false,
            self_destruct: Vec::new(),
            typed_bug: Vec::new(),
            arbitrary_calls: Vec::new(),
            integer_overflow: Vec::new(),
        };
        proof {
            assert(r.leaks() =~= self.leaks());
        }
        r
    }
}

/// Write/read round trip: after one write of `v` at `(a, k)`, that slot
/// reads back exactly `v`, and every other slot reads as before. The
/// hypothesis is `write_slot`'s postcondition, so the law covers every
/// state the API can produce.
pub proof fn lemma_write_read_round_trip(
    pre: EVMState,
    post: EVMState,
    a: EVMAddress,
    k: EVMU256,
    v: EVMU256,
)
    requires
        forall|a2: EVMAddress, k2: EVMU256| post.slot(a2, k2) == (if a2 == a && k2 == k {
            v.as_nat()
        } else {
            pre.slot(a2, k2)
        }),
    ensures
        post.slot(a, k) == v.as_nat(),
        forall|a2: EVMAddress, k2: EVMU256| !(a2 == a && k2 == k) ==> post.slot(a2, k2)
            == pre.slot(a2, k2),
{
}

/// Leak stack discipline: with `pushed` contexts stacked on top of `base`,
/// the `n`-th resume (counting from zero) pops exactly the `n`-th most
/// recently pushed context, and leaves the stack one shorter — LIFO order.
/// After `pushed.len()` resumes the stack is `base` again, and on an empty
/// stack `pop_leak` returns `None`, so the next resume fails.
pub proof fn lemma_leak_stack_lifo(base: Seq<CtxSnapshot>, pushed: Seq<CtxSnapshot>, n: int)
    requires
        0 <= n < pushed.len(),
    ensures
        (base + pushed).take(base.len() + pushed.len() - n).last() == pushed[pushed.len() - 1 - n],
        (base + pushed).take(base.len() + pushed.len() - n).drop_last() == (base + pushed).take(
            base.len() + pushed.len() - (n + 1),
        ),
        (base + pushed).take(base.len() as int) == base,
{
    let whole = base + pushed;
    let l = base.len() + pushed.len();
    assert(whole.take(l - n).last() == whole[l - n - 1]);
    assert(whole[base.len() + (pushed.len() - 1 - n)] == pushed[pushed.len() - 1 - n]);
    assert(whole.take(l - n).drop_last() =~= whole.take(l - (n + 1)));
    assert(whole.take(base.len() as int) =~= base);
}

} // verus!
