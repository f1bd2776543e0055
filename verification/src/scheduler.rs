//! The two corpus schedulers: a power schedule over transaction inputs and
//! a sorted-dropping schedule over intermediate VM states. Both make
//! weighted pseudo-random selections whose outcome is an exact function of
//! the corpus and the seed, so a replay with the same seed and the same
//! feedback reproduces the same selection stream.

use vstd::prelude::*;
use crate::input::EVMInput;
use crate::rng::{FuzzRng, rng_step};
use crate::vm::EVMState;

verus! {

/// Corpus faults: selecting from an empty corpus is fatal to the run.
#[derive(Clone, Copy, Debug, PartialEq, Eq, Structural)]
pub enum CorpusError {
    /// No entry is stored, so nothing can be selected.
    EmptyCorpus,
}

/// Initial score of a freshly added transaction input.
pub const BASE_SCORE: u64 = 16;

/// Largest score an input can accumulate.
pub const SCORE_CAP: u64 = 0x100000000;

/// Initial votes of a freshly added infant state.
pub const INIT_VOTES: u64 = 3;

/// Largest vote count an infant state can accumulate.
pub const VOTE_CAP: u64 = 0xffffffff;

/// Default capacity of the infant-state corpus.
pub const DEFAULT_INFANT_CAPACITY: usize = 128;

/// Sum of a sequence of selection weights.
pub open spec fn total_weight(s: Seq<u64>) -> nat
    decreases s.len(),
{
    if s.len() == 0 {
        0
    } else {
        (s[0] + total_weight(s.skip(1))) as nat
    }
}

/// The index selected by a weighted draw `r`: the first index whose prefix
/// sum exceeds `r`, or the last index when `r` runs past the total.
pub open spec fn weighted_pick(s: Seq<u64>, r: nat) -> int
    decreases s.len(),
{
    if s.len() <= 1 {
        0
    } else if r < s[0] {
        0
    } else {
        1 + weighted_pick(s.skip(1), (r - s[0]) as nat)
    }
}

/// A weight sum is at most the length times the largest weight.
proof fn lemma_total_weight_upper(s: Seq<u64>)
    ensures
        total_weight(s) <= s.len() * 0xffffffffffffffffu64,
    decreases s.len(),
{
    if s.len() > 0 {
        lemma_total_weight_upper(s.skip(1));
    }
}

/// When every weight is at least one, the sum is at least the length.
proof fn lemma_total_weight_lower(s: Seq<u64>)
    requires
        forall|i: int| 0 <= i < s.len() ==> s[i] >= 1,
    ensures
        total_weight(s) >= s.len(),
    decreases s.len(),
{
    if s.len() > 0 {
        assert(forall|i: int| 0 <= i < s.skip(1).len() ==> s.skip(1)[i] == s[i + 1]);
        lemma_total_weight_lower(s.skip(1));
    }
}

/// Sum the weights; the result is exactly the spec-level total.
fn total_of(w: &Vec<u64>) -> (t: u128)
    ensures
        t == total_weight(w@),
{
    let n = w.len();
    let mut total: u128 = 0;
    let mut i: usize = 0;
    proof {
        assert(w@.skip(0) =~= w@);
    }
    while i < n
        invariant
            n == w@.len(),
            0 <= i <= n,
            total + total_weight(w@.skip(i as int)) == total_weight(w@),
            total <= i * 0xffffffffffffffffu64,
        decreases n - i,
    {
        proof {
            assert(w@.skip(i as int)[0] == w@[i as int]);
            assert(w@.skip(i as int).skip(1) =~= w@.skip(i + 1));
            lemma_total_weight_upper(w@.skip(i + 1));
        }
        total = total + (w[i] as u128);
        i += 1;
    }
    proof {
        assert(w@.skip(n as int) =~= Seq::<u64>::empty());
    }
    total
}

/// Walk the weights with a draw; the result is exactly the spec-level pick.
fn pick_at(w: &Vec<u64>, draw: u128) -> (r: usize)
    requires
        w@.len() > 0,
    ensures
        r < w@.len(),
        r == weighted_pick(w@, draw as nat),
{
    let n = w.len();
    let mut i: usize = 0;
    let mut rem: u128 = draw;
    proof {
        assert(w@.skip(0) =~= w@);
    }
    while i + 1 < n && (w[i] as u128) <= rem
        invariant
            n == w@.len(),
            0 <= i < n,
            rem <= draw,
            weighted_pick(w@, draw as nat) == i + weighted_pick(w@.skip(i as int), rem as nat),
        decreases n - i,
    {
        proof {
            assert(w@.skip(i as int)[0] == w@[i as int]);
            assert(w@.skip(i as int).skip(1) =~= w@.skip(i + 1));
        }
        rem = rem - (w[i] as u128);
        i += 1;
    }
    proof {
        assert(w@.skip(i as int)[0] == w@[i as int]);
        if i + 1 < n {
            assert(rem < w@[i as int]);
        }
        assert(weighted_pick(w@.skip(i as int), rem as nat) == 0);
    }
    i
}

/// The score the power schedule assigns after one more trial that found
/// `k` new edges: the boost is proportional to the yield and inversely
/// proportional to how often the entry was already tried, capped so scores
/// stay bounded.
pub open spec fn power_score(score: nat, tries: nat, k: nat) -> nat {
    let boosted = score + (k * 256) / (tries + 1);
    if boosted > SCORE_CAP {
        SCORE_CAP as nat
    } else {
        boosted
    }
}

/// One stored transaction input with its schedule bookkeeping.
pub struct TxEntry {
    /// The stored input.
    pub input: EVMInput,
    /// Current selection weight; always in `1 ..= SCORE_CAP`.
    pub score: u64,
    /// How many times this entry has been selected and executed.
    pub tries: u64,
}

/// Power-schedule corpus of transaction inputs: selection is a weighted
/// pseudo-random choice over scores, and scores grow with coverage yield.
pub struct PowerABIScheduler {
    /// Stored inputs with their scores, in insertion order.
    pub entries: Vec<TxEntry>,
    /// Deterministic selection randomness.
    pub rng: FuzzRng,
}

impl PowerABIScheduler {
    /// The selection weights, in corpus order.
    pub open spec fn scores(self) -> Seq<u64> {
        self.entries@.map_values(|e: TxEntry| e.score)
    }

    /// The trial counts, in corpus order.
    pub open spec fn tries(self) -> Seq<u64> {
        self.entries@.map_values(|e: TxEntry| e.tries)
    }

    /// Every score is positive and capped, so a weighted draw is always
    /// possible over a non-empty corpus.
    pub open spec fn wf(self) -> bool {
        forall|i: int| 0 <= i < self.entries@.len() ==> 1 <= #[trigger] self.entries@[i].score <= SCORE_CAP
    }

    /// What the scheduler's observable behaviour depends on: scores, trial
    /// counts, and the randomness state.
    pub open spec fn sig(self) -> (Seq<u64>, Seq<u64>, u64) {
        (self.scores(), self.tries(), self.rng.state)
    }

    /// The index the next selection returns, as a function of the corpus
    /// and the randomness state alone.
    pub open spec fn spec_next_id(self) -> int {
        weighted_pick(
            self.scores(),
            rng_step(self.rng.state) as nat % total_weight(self.scores()),
        )
    }

    /// Create an empty corpus seeded with zero.
    pub fn new() -> (r: Self)
        ensures
            r.entries@.len() == 0,
            r.rng.state == 0,
            r.wf(),
    {
        PowerABIScheduler { entries: Vec::new(), rng: FuzzRng::new(0) }
    }

    /// Create an empty corpus with the given selection seed.
    pub fn with_seed(seed: u64) -> (r: Self)
        ensures
            r.entries@.len() == 0,
            r.rng.state == seed,
            r.wf(),
    {
        PowerABIScheduler { entries: Vec::new(), rng: FuzzRng::new(seed) }
    }

    /// Store an input; its identifier is its position in the corpus.
    pub fn add(&mut self, input: EVMInput) -> (id: usize)
        ensures
            id == old(self).entries@.len(),
            final(self).entries@.len() == old(self).entries@.len() + 1,
            forall|j: int| 0 <= j < old(self).entries@.len()
                ==> final(self).entries@[j] == old(self).entries@[j],
            final(self).entries@[id as int].input == input,
            final(self).entries@[id as int].score == BASE_SCORE,
            final(self).entries@[id as int].tries == 0,
            final(self).rng == old(self).rng,
            old(self).wf() ==> final(self).wf(),
    {
        let id = self.entries.len();
        self.entries.push(TxEntry { input, score: BASE_SCORE, tries: 0 });
        id
    }

    /// Borrow a stored input by identifier.
    pub fn get_input(&self, id: usize) -> (r: &EVMInput)
        requires
            id < self.entries@.len(),
        ensures
            *r == self.entries@[id as int].input,
    {
        &self.entries[id].input
    }

    /// Select the next input to mutate: a weighted pseudo-random choice
    /// over the current scores. Fails exactly when the corpus is empty,
    /// which is fatal for the run; otherwise the chosen index is the exact
    /// weighted pick determined by the seed.
    pub fn next(&mut self) -> (r: Result<usize, CorpusError>)
        requires
            old(self).wf(),
        ensures
            final(self).entries == old(self).entries,
            final(self).wf(),
            old(self).entries@.len() == 0 ==> r is Err && r->Err_0 == CorpusError::EmptyCorpus
                && final(self).rng == old(self).rng,
            old(self).entries@.len() > 0 ==> {
                &&& r is Ok
                &&& r->Ok_0 < old(self).entries@.len()
                &&& r->Ok_0 == old(self).spec_next_id()
                &&& final(self).rng.state == rng_step(old(self).rng.state)
            },
    {
        let n = self.entries.len();
        if n == 0 {
            return Err(CorpusError::EmptyCorpus);
        }
        let mut w: Vec<u64> = Vec::new();
        let mut i: usize = 0;
        while i < n
            invariant
                n == self.entries@.len(),
                0 <= i <= n,
                w@.len() == i,
                forall|j: int| 0 <= j < i ==> w@[j] == #[trigger] self.entries@[j].score,
            decreases n - i,
        {
            w.push(self.entries[i].score);
            i += 1;
        }
        proof {
            assert(w@ =~= self.scores());
            assert(forall|j: int| 0 <= j < w@.len() ==> w@[j] >= 1);
            lemma_total_weight_lower(w@);
        }
        let total = total_of(&w);
        let d = self.rng.next_u64();
        let draw = (d as u128) % total;
        let idx = pick_at(&w, draw);
        Ok(idx)
    }

    /// Report the outcome of executing a stored input: `new_edges` is how
    /// many edges the execution saw for the first time. The entry's score
    /// moves to the exact power-schedule value and its trial count grows
    /// by one; nothing else changes.
    pub fn on_result(&mut self, id: usize, new_edges: u64)
        requires
            id < old(self).entries@.len(),
            old(self).entries@[id as int].tries < 0xffffffffffffffffu64,
        ensures
            final(self).entries@.len() == old(self).entries@.len(),
            forall|j: int| 0 <= j < old(self).entries@.len() && j != id
                ==> final(self).entries@[j] == old(self).entries@[j],
            final(self).entries@[id as int].input == old(self).entries@[id as int].input,
            final(self).entries@[id as int].tries == old(self).entries@[id as int].tries + 1,
            final(self).entries@[id as int].score == power_score(
                old(self).entries@[id as int].score as nat,
                old(self).entries@[id as int].tries as nat,
                new_edges as nat,
            ),
            final(self).rng == old(self).rng,
            old(self).wf() ==> final(self).wf(),
    {
        let score = self.entries[id].score;
        let tries = self.entries[id].tries;
        let boost: u128 = ((new_edges as u128) * 256) / ((tries as u128) + 1);
        let boosted: u128 = (score as u128) + boost;
        let new_score: u64 = if boosted > (SCORE_CAP as u128) {
            SCORE_CAP
        } else {
            boosted as u64
        };
        let e = &mut self.entries[id];
        e.score = new_score;
        e.tries = tries + 1;
    }
}

impl Default for PowerABIScheduler {
    /// An empty corpus seeded with zero.
    fn default() -> (r: Self)
        ensures
            r.entries@.len() == 0,
            r.rng.state == 0,
            r.wf(),
    {
        PowerABIScheduler::new()
    }
}

/// The selection a scheduler makes is a function of its scores and its
/// randomness state alone: two schedulers with the same seed whose corpora
/// received the same results select the same entry, and their signatures
/// stay equal afterwards, so by induction the whole selection stream of a
/// run is reproduced by a replay with the same seed and the same sequence
/// of reported results.
pub proof fn lemma_scheduler_determinism(a: PowerABIScheduler, b: PowerABIScheduler)
    requires
        a.sig() == b.sig(),
    ensures
        a.spec_next_id() == b.spec_next_id(),
        rng_step(a.rng.state) == rng_step(b.rng.state),
        forall|id: int, k: nat| 0 <= id < a.scores().len() ==> power_score(
            a.scores()[id] as nat,
            a.tries()[id] as nat,
            k,
        ) == power_score(b.scores()[id] as nat, b.tries()[id] as nat, k),
{
    assert(a.scores() == b.scores());
    assert(a.rng.state == b.rng.state);
}

/// One stored infant state with its vote bookkeeping.
pub struct InfantEntry {
    /// The stored intermediate VM state.
    pub state: EVMState,
    /// Accumulated votes; never above `VOTE_CAP`, floored at zero.
    pub votes: u64,
    /// Insertion stamp: strictly increasing, so the oldest entry among
    /// equal-vote entries is well defined.
    pub seq: u64,
}

/// Index of the entry a full corpus evicts: lowest votes, and the oldest
/// (smallest insertion stamp) among equal-lowest.
pub open spec fn evict_index(s: Seq<InfantEntry>) -> int
    decreases s.len(),
{
    if s.len() <= 1 {
        0
    } else {
        let t = 1 + evict_index(s.skip(1));
        if s[t].votes < s[0].votes || (s[t].votes == s[0].votes && s[t].seq < s[0].seq) {
            t
        } else {
            0
        }
    }
}

/// The eviction index is a valid index.
pub proof fn lemma_evict_in_range(s: Seq<InfantEntry>)
    requires
        s.len() > 0,
    ensures
        0 <= evict_index(s) < s.len(),
    decreases s.len(),
{
    if s.len() > 1 {
        lemma_evict_in_range(s.skip(1));
    }
}

/// The evicted entry has minimal votes, and among entries with those votes
/// it has the smallest insertion stamp: the lowest-scored, oldest-on-tie
/// entry leaves first.
pub proof fn lemma_evict_is_min(s: Seq<InfantEntry>)
    requires
        s.len() > 0,
    ensures
        0 <= evict_index(s) < s.len(),
        forall|j: int| 0 <= j < s.len() ==> s[evict_index(s)].votes < #[trigger] s[j].votes
            || (s[evict_index(s)].votes == s[j].votes && s[evict_index(s)].seq <= s[j].seq),
    decreases s.len(),
{
    lemma_evict_in_range(s);
    if s.len() > 1 {
        lemma_evict_is_min(s.skip(1));
        let t = 1 + evict_index(s.skip(1));
        let e = evict_index(s);
        assert forall|j: int| 0 <= j < s.len() implies s[e].votes < #[trigger] s[j].votes
            || (s[e].votes == s[j].votes && s[e].seq <= s[j].seq) by {
            if j >= 1 {
                assert(s.skip(1)[j - 1] == s[j]);
                assert(s.skip(1)[t - 1] == s[t]);
            }
        }
    }
}

/// Sorted-dropping corpus of infant states: bounded capacity, vote-driven
/// weights, deterministic eviction of the lowest-voted, oldest entry.
pub struct SortedDroppingScheduler {
    /// Stored states with their votes, in insertion order.
    pub entries: Vec<InfantEntry>,
    /// Largest number of states kept at once.
    pub capacity: usize,
    /// Next insertion stamp.
    pub next_seq: u64,
    /// Deterministic selection randomness.
    pub rng: FuzzRng,
}

impl SortedDroppingScheduler {
    /// The selection weights: each entry's votes plus one, so a state with
    /// no votes yet can still be drawn.
    pub open spec fn weights(self) -> Seq<u64> {
        self.entries@.map_values(|e: InfantEntry| (e.votes + 1) as u64)
    }

    /// Corpus well-formedness: bounded size, capped votes, strictly
    /// increasing insertion stamps below the next stamp.
    pub open spec fn wf(self) -> bool {
        &&& self.capacity >= 1
        &&& self.entries@.len() <= self.capacity
        &&& forall|i: int| 0 <= i < self.entries@.len()
            ==> #[trigger] self.entries@[i].votes <= VOTE_CAP
        &&& forall|i: int, j: int| 0 <= i < j < self.entries@.len()
            ==> self.entries@[i].seq < self.entries@[j].seq
        &&& forall|i: int| 0 <= i < self.entries@.len()
            ==> #[trigger] self.entries@[i].seq < self.next_seq
    }

    /// The index the next selection returns, as a function of the corpus
    /// and the randomness state alone.
    pub open spec fn spec_next_id(self) -> int {
        weighted_pick(
            self.weights(),
            rng_step(self.rng.state) as nat % total_weight(self.weights()),
        )
    }

    /// Create an empty corpus with the default capacity, seeded with zero.
    pub fn new() -> (r: Self)
        ensures
            r.entries@.len() == 0,
            r.capacity == DEFAULT_INFANT_CAPACITY,
            r.rng.state == 0,
            r.wf(),
    {
        SortedDroppingScheduler {
            entries: Vec::new(),
            capacity: DEFAULT_INFANT_CAPACITY,
            next_seq: 0,
            rng: FuzzRng::new(0),
        }
    }

    /// Create an empty corpus with the given capacity and selection seed.
    pub fn with_capacity(capacity: usize, seed: u64) -> (r: Self)
        requires
            capacity >= 1,
        ensures
            r.entries@.len() == 0,
            r.capacity == capacity,
            r.rng.state == seed,
            r.wf(),
    {
        SortedDroppingScheduler {
            entries: Vec::new(),
            capacity,
            next_seq: 0,
            rng: FuzzRng::new(seed),
        }
    }

    /// Store an infant state. Below capacity the state is appended; at
    /// capacity the lowest-voted entry (oldest among ties) is evicted
    /// first, so the corpus never exceeds its capacity. The identifier is
    /// the new entry's position.
    pub fn add(&mut self, state: EVMState) -> (id: usize)
        requires
            old(self).wf(),
            old(self).next_seq < 0xffffffffffffffffu64,
        ensures
            final(self).wf(),
            final(self).entries@.len() <= old(self).capacity,
            final(self).capacity == old(self).capacity,
            final(self).rng == old(self).rng,
            id == final(self).entries@.len() - 1,
            final(self).entries@[id as int].state == state,
            final(self).entries@[id as int].votes == INIT_VOTES,
            final(self).entries@[id as int].seq == old(self).next_seq,
            final(self).next_seq == old(self).next_seq + 1,
            old(self).entries@.len() < old(self).capacity ==> final(self).entries@
                == old(self).entries@.push(final(self).entries@[id as int]),
            old(self).entries@.len() >= old(self).capacity ==> final(self).entries@
                == old(self).entries@.remove(evict_index(old(self).entries@)).push(
                final(self).entries@[id as int],
            ),
    {
        let n = self.entries.len();
        if n >= self.capacity {
            let e = self.find_evict();
            self.entries.remove(e);
            proof {
                lemma_evict_is_min(old(self).entries@);
                assert forall|i: int, j: int|
                    0 <= i < j < self.entries@.len() implies self.entries@[i].seq
                    < self.entries@[j].seq by {
                    if j < e {
                        assert(self.entries@[i] == old(self).entries@[i]);
                        assert(self.entries@[j] == old(self).entries@[j]);
                    } else if i < e {
                        assert(self.entries@[i] == old(self).entries@[i]);
                        assert(self.entries@[j] == old(self).entries@[j + 1]);
                    } else {
                        assert(self.entries@[i] == old(self).entries@[i + 1]);
                        assert(self.entries@[j] == old(self).entries@[j + 1]);
                    }
                }
            }
        }
        let id = self.entries.len();
        let seq = self.next_seq;
        self.entries.push(InfantEntry { state, votes: INIT_VOTES, seq });
        self.next_seq = seq + 1;
        proof {
            let fin = self.entries@;
            assert forall|i: int, j: int| 0 <= i < j < fin.len() implies fin[i].seq
                < fin[j].seq by {
                if j == fin.len() - 1 {
                    assert(fin[i].seq < old(self).next_seq);
                }
            }
        }
        id
    }

    /// Borrow a stored state by identifier.
    pub fn get(&self, id: usize) -> (r: &EVMState)
        requires
            id < self.entries@.len(),
        ensures
            *r == self.entries@[id as int].state,
    {
        &self.entries[id].state
    }

    /// Deep-copy a stored state as a mutation seed: the persisted part is
    /// the stored one, the observation sets start empty. The canonical
    /// stored copy is never handed out.
    pub fn get_state(&self, id: usize) -> (r: EVMState)
        requires
            id < self.entries@.len(),
        ensures
            r.same_persisted(self.entries@[id as int].state),
            r.observations_empty(),
    {
        self.entries[id].state.clone_for_execution()
    }

    /// Select the next seed state: a weighted pseudo-random choice over
    /// votes. Fails exactly when the corpus is empty; otherwise the chosen
    /// index is the exact weighted pick determined by the seed.
    pub fn next(&mut self) -> (r: Result<usize, CorpusError>)
        requires
            old(self).wf(),
        ensures
            final(self).entries == old(self).entries,
            final(self).capacity == old(self).capacity,
            final(self).next_seq == old(self).next_seq,
            final(self).wf(),
            old(self).entries@.len() == 0 ==> r is Err && r->Err_0 == CorpusError::EmptyCorpus
                && final(self).rng == old(self).rng,
            old(self).entries@.len() > 0 ==> {
                &&& r is Ok
                &&& r->Ok_0 < old(self).entries@.len()
                &&& r->Ok_0 == old(self).spec_next_id()
                &&& final(self).rng.state == rng_step(old(self).rng.state)
            },
    {
        let n = self.entries.len();
        if n == 0 {
            return Err(CorpusError::EmptyCorpus);
        }
        let mut w: Vec<u64> = Vec::new();
        let mut i: usize = 0;
        while i < n
            invariant
                n == self.entries@.len(),
                0 <= i <= n,
                w@.len() == i,
                forall|j: int| 0 <= j < self.entries@.len()
                    ==> #[trigger] self.entries@[j].votes <= VOTE_CAP,
                forall|j: int| 0 <= j < i ==> w@[j] == #[trigger] self.entries@[j].votes + 1,
            decreases n - i,
        {
            w.push(self.entries[i].votes + 1);
            i += 1;
        }
        proof {
            assert(w@ =~= self.weights());
            assert(forall|j: int| 0 <= j < w@.len() ==> w@[j] >= 1);
            lemma_total_weight_lower(w@);
        }
        let total = total_of(&w);
        let d = self.rng.next_u64();
        let draw = (d as u128) % total;
        let idx = pick_at(&w, draw);
        Ok(idx)
    }

    /// Report whether executing from a stored state was favorable (new
    /// coverage or a new bug class): favorable outcomes gain a vote up to
    /// the cap, others lose one down to zero.
    pub fn on_result(&mut self, id: usize, favorable: bool)
        requires
            old(self).wf(),
            id < old(self).entries@.len(),
        ensures
            final(self).wf(),
            final(self).entries@.len() == old(self).entries@.len(),
            final(self).capacity == old(self).capacity,
            final(self).next_seq == old(self).next_seq,
            final(self).rng == old(self).rng,
            forall|j: int| 0 <= j < old(self).entries@.len() && j != id
                ==> final(self).entries@[j] == old(self).entries@[j],
            final(self).entries@[id as int].state == old(self).entries@[id as int].state,
            final(self).entries@[id as int].seq == old(self).entries@[id as int].seq,
            favorable ==> final(self).entries@[id as int].votes == (if old(
                self,
            ).entries@[id as int].votes < VOTE_CAP {
                old(self).entries@[id as int].votes + 1
            } else {
                VOTE_CAP as int
            }),
            !favorable ==> final(self).entries@[id as int].votes == (if old(
                self,
            ).entries@[id as int].votes > 0 {
                old(self).entries@[id as int].votes - 1
            } else {
                0
            }),
    {
        let votes = self.entries[id].votes;
        let new_votes: u64 = if favorable {
            if votes < VOTE_CAP {
                votes + 1
            } else {
                VOTE_CAP
            }
        } else {
            if votes > 0 {
                votes - 1
            } else {
                0
            }
        };
        let e = &mut self.entries[id];
        e.votes = new_votes;
    }
}

impl Default for SortedDroppingScheduler {
    /// An empty corpus with the default capacity, seeded with zero.
    fn default() -> (r: Self)
        ensures
            r.entries@.len() == 0,
            r.capacity == DEFAULT_INFANT_CAPACITY,
            r.rng.state == 0,
            r.wf(),
    {
        SortedDroppingScheduler::new()
    }
}

impl SortedDroppingScheduler {
    /// Find the entry a full corpus evicts; walks backwards so the spec's
    /// head-first recursion lines up with the loop.
    fn find_evict(&self) -> (r: usize)
        requires
            self.entries@.len() > 0,
        ensures
            r < self.entries@.len(),
            r == evict_index(self.entries@),
    {
        let n = self.entries.len();
        let mut i: usize = n - 1;
        let mut b: usize = n - 1;
        proof {
            assert(self.entries@.skip(n - 1).len() == 1);
        }
        while i > 0
            invariant
                n == self.entries@.len(),
                0 <= i <= b < n,
                b == i + evict_index(self.entries@.skip(i as int)),
            decreases i,
        {
            let cand = i - 1;
            proof {
                lemma_evict_in_range(self.entries@.skip(i as int));
                assert(self.entries@.skip(cand as int)[0] == self.entries@[cand as int]);
                assert(self.entries@.skip(cand as int).skip(1) =~= self.entries@.skip(i as int));
                assert(self.entries@.skip(cand as int)[b - cand] == self.entries@[b as int]);
            }
            let bv = self.entries[b].votes;
            let bs = self.entries[b].seq;
            let cv = self.entries[cand].votes;
            let cs = self.entries[cand].seq;
            if bv < cv || (bv == cv && bs < cs) {
                // keep b
            } else {
                b = cand;
            }
            i = cand;
        }
        proof {
            assert(self.entries@.skip(0) =~= self.entries@);
        }
        b
    }
}

/// A well-formed infant corpus never exceeds its capacity.
pub proof fn lemma_infant_capacity_bound(s: SortedDroppingScheduler)
    requires
        s.wf(),
    ensures
        s.entries@.len() <= s.capacity,
{
}

} // verus!
