//! The oracle evaluator: read-only inspection of post-execution state that
//! turns the observation sets and the reentrancy evidence of one execution
//! into bug findings. Findings are the intended output of the whole
//! system, never an error.

use vstd::prelude::*;
use crate::executor::ExecutionResult;
use crate::producers::{balance_of_selector, decode_balance_of_selector, ERC20Producer};
use crate::tokens::TokenContext;
use crate::types::{EVMAddress, EVMU256};
use crate::vm::EVMState;

verus! {

/// The classes of bugs the oracles report.
#[derive(Clone, Copy, Debug, PartialEq, Eq, Structural)]
pub enum BugKind {
    /// A storage slot read before a control leak was written by the
    /// resumed frame.
    Reentrancy,
    /// An arithmetic overflow observation.
    IntegerOverflow,
    /// A call to an arbitrary, attacker-chosen target.
    ArbitraryCall,
    /// A self-destruct observation.
    SelfDestruct,
    /// A named typed-bug observation (also covers the bug marker).
    TypedBug,
    /// A user invariant function that failed.
    InvariantViolation,
}

/// One finding: the bug class and the address/program-counter evidence.
/// Reentrancy findings carry the written contract and a zero counter, as
/// the evidence is a slot rather than a site.
#[derive(Clone, Copy, Debug, PartialEq, Eq, Structural)]
pub struct Finding {
    /// The bug class.
    pub kind: BugKind,
    /// The contract the evidence points at.
    pub address: EVMAddress,
    /// The program counter of the evidence, where one exists.
    pub pc: usize,
}

/// The findings the self-destruct observations yield.
pub open spec fn sd_findings(s: Seq<(EVMAddress, usize)>) -> Seq<Finding> {
    s.map_values(
        |t: (EVMAddress, usize)| Finding { kind: BugKind::SelfDestruct, address: t.0, pc: t.1 },
    )
}

/// The findings the typed-bug observations yield.
pub open spec fn tb_findings(s: Seq<(String, EVMAddress, usize)>) -> Seq<Finding> {
    s.map_values(
        |t: (String, EVMAddress, usize)| Finding { kind: BugKind::TypedBug, address: t.1, pc: t.2 },
    )
}

/// The findings the arbitrary-call observations yield.
pub open spec fn ac_findings(s: Seq<(EVMAddress, EVMAddress, usize)>) -> Seq<Finding> {
    s.map_values(
        |t: (EVMAddress, EVMAddress, usize)| Finding {
            kind: BugKind::ArbitraryCall,
            address: t.1,
            pc: t.2,
        },
    )
}

/// The findings the integer-overflow observations yield.
pub open spec fn io_findings(s: Seq<(EVMAddress, usize)>) -> Seq<Finding> {
    s.map_values(
        |t: (EVMAddress, usize)| Finding { kind: BugKind::IntegerOverflow, address: t.0, pc: t.1 },
    )
}

/// The findings the reentrancy evidence yields.
pub open spec fn re_findings(s: Seq<(EVMAddress, EVMU256)>) -> Seq<Finding> {
    s.map_values(
        |t: (EVMAddress, EVMU256)| Finding { kind: BugKind::Reentrancy, address: t.0, pc: 0 },
    )
}

/// Everything one execution's observations and reentrancy evidence yield.
pub open spec fn findings_of(post: EVMState, reentrancy: Seq<(EVMAddress, EVMU256)>) -> Seq<
    Finding,
> {
    sd_findings(post.self_destruct@) + tb_findings(post.typed_bug@) + ac_findings(
        post.arbitrary_calls@,
    ) + io_findings(post.integer_overflow@) + re_findings(reentrancy) + (if post.bug_hit {
        seq![Finding { kind: BugKind::TypedBug, address: EVMAddress { hi: 0, lo: 0 }, pc: 0 }]
    } else {
        Seq::empty()
    })
}

/// Run all registered oracles over one execution: a pure read of the
/// pre-state, the post-state, and the execution's own evidence. Every
/// observation becomes exactly one finding, in a fixed order.
pub fn evaluate_oracles(_pre: &EVMState, post: &EVMState, result: &ExecutionResult) -> (r: Vec<
    Finding,
>)
    ensures
        r@ == findings_of(*post, result.reentrancy@),
{
    let mut r: Vec<Finding> = Vec::new();
    let mut i: usize = 0;
    while i < post.self_destruct.len()
        invariant
            0 <= i <= post.self_destruct@.len(),
            r@.len() == i,
            forall|j: int| 0 <= j < i ==> r@[j] == (Finding {
                kind: BugKind::SelfDestruct,
                address: post.self_destruct@[j].0,
                pc: post.self_destruct@[j].1,
            }),
        decreases post.self_destruct@.len() - i,
    {
        let (a, pc) = post.self_destruct[i];
        r.push(Finding { kind: BugKind::SelfDestruct, address: a, pc });
        i += 1;
    }
    proof {
        assert(r@ =~= sd_findings(post.self_destruct@));
    }
    let ghost base1 = r@;
    let mut i: usize = 0;
    while i < post.typed_bug.len()
        invariant
            0 <= i <= post.typed_bug@.len(),
            r@.len() == base1.len() + i,
            forall|j: int| 0 <= j < base1.len() ==> r@[j] == base1[j],
            forall|j: int| 0 <= j < i ==> r@[base1.len() + j] == (Finding {
                kind: BugKind::TypedBug,
                address: post.typed_bug@[j].1,
                pc: post.typed_bug@[j].2,
            }),
        decreases post.typed_bug@.len() - i,
    {
        let a = post.typed_bug[i].1;
        let pc = post.typed_bug[i].2;
        r.push(Finding { kind: BugKind::TypedBug, address: a, pc });
        i += 1;
    }
    proof {
        assert(r@ =~= base1 + tb_findings(post.typed_bug@));
    }
    let ghost base2 = r@;
    let mut i: usize = 0;
    while i < post.arbitrary_calls.len()
        invariant
            0 <= i <= post.arbitrary_calls@.len(),
            r@.len() == base2.len() + i,
            forall|j: int| 0 <= j < base2.len() ==> r@[j] == base2[j],
            forall|j: int| 0 <= j < i ==> r@[base2.len() + j] == (Finding {
                kind: BugKind::ArbitraryCall,
                address: post.arbitrary_calls@[j].1,
                pc: post.arbitrary_calls@[j].2,
            }),
        decreases post.arbitrary_calls@.len() - i,
    {
        let (_c, t, pc) = post.arbitrary_calls[i];
        r.push(Finding { kind: BugKind::ArbitraryCall, address: t, pc });
        i += 1;
    }
    proof {
        assert(r@ =~= base2 + ac_findings(post.arbitrary_calls@));
    }
    let ghost base3 = r@;
    let mut i: usize = 0;
    while i < post.integer_overflow.len()
        invariant
            0 <= i <= post.integer_overflow@.len(),
            r@.len() == base3.len() + i,
            forall|j: int| 0 <= j < base3.len() ==> r@[j] == base3[j],
            forall|j: int| 0 <= j < i ==> r@[base3.len() + j] == (Finding {
                kind: BugKind::IntegerOverflow,
                address: post.integer_overflow@[j].0,
                pc: post.integer_overflow@[j].1,
            }),
        decreases post.integer_overflow@.len() - i,
    {
        let (a, pc) = post.integer_overflow[i];
        r.push(Finding { kind: BugKind::IntegerOverflow, address: a, pc });
        i += 1;
    }
    proof {
        assert(r@ =~= base3 + io_findings(post.integer_overflow@));
    }
    let ghost base4 = r@;
    let mut i: usize = 0;
    while i < result.reentrancy.len()
        invariant
            0 <= i <= result.reentrancy@.len(),
            r@.len() == base4.len() + i,
            forall|j: int| 0 <= j < base4.len() ==> r@[j] == base4[j],
            forall|j: int| 0 <= j < i ==> r@[base4.len() + j] == (Finding {
                kind: BugKind::Reentrancy,
                address: result.reentrancy@[j].0,
                pc: 0,
            }),
        decreases result.reentrancy@.len() - i,
    {
        let (a, _k) = result.reentrancy[i];
        r.push(Finding { kind: BugKind::Reentrancy, address: a, pc: 0 });
        i += 1;
    }
    proof {
        assert(r@ =~= base4 + re_findings(result.reentrancy@));
    }
    if post.bug_hit {
        r.push(Finding { kind: BugKind::TypedBug, address: EVMAddress { hi: 0, lo: 0 }, pc: 0 });
    }
    proof {
        assert(r@ =~= findings_of(*post, result.reentrancy@));
    }
    r
}

/// The flashloan oracle: watches token balances across executions and the
/// known token and pair data needed to price them.
pub struct IERC20OracleFlashloan {
    /// The ERC-20 balance query selector.
    pub balance_of: Vec<u8>,
    /// Known token contexts, first match wins.
    pub known_tokens: Vec<(EVMAddress, TokenContext)>,
    /// Known pair reserve slots, first match wins.
    pub known_pair_reserve_slot: Vec<(EVMAddress, EVMU256)>,
    /// The producer that tracks balances for this oracle.
    pub erc20_producer: ERC20Producer,
}

impl IERC20OracleFlashloan {
    /// A fresh oracle around the given producer, knowing no tokens yet.
    pub fn new(erc20_producer: ERC20Producer) -> (r: Self)
        ensures
            r.balance_of@ == balance_of_selector(),
            r.known_tokens@.len() == 0,
            r.known_pair_reserve_slot@.len() == 0,
            r.erc20_producer == erc20_producer,
    {
        IERC20OracleFlashloan {
            balance_of: decode_balance_of_selector(),
            known_tokens: Vec::new(),
            known_pair_reserve_slot: Vec::new(),
            erc20_producer,
        }
    }

    /// Register a token's context.
    pub fn register_token(&mut self, token: EVMAddress, context: TokenContext)
        ensures
            final(self).known_tokens@.len() == old(self).known_tokens@.len() + 1,
            final(self).known_tokens@[old(self).known_tokens@.len() as int].0 == token,
            final(self).balance_of == old(self).balance_of,
            final(self).known_pair_reserve_slot == old(self).known_pair_reserve_slot,
    {
        self.known_tokens.push((token, context));
    }
}

} // verus!
