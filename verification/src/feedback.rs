//! The feedback pipeline: three independent judges decide whether an
//! execution is worth keeping. Coverage feedback looks for edges never
//! seen before, comparison feedback for strictly closer operand
//! distances, dataflow feedback for a written slot that was also read.
//! Any single judge accepting keeps the input; rejection changes nothing
//! beyond each judge's own bookkeeping.

use vstd::prelude::*;
use crate::host::{FuzzHost, MAP_SIZE};
use crate::types::EVMU256;

verus! {

/// Whether the jump map holds an edge the seen set lacks.
pub open spec fn cov_accept(jmp: Seq<u8>, seen: Seq<bool>) -> bool {
    exists|i: int| 0 <= i < jmp.len() && jmp[i] > 0 && !(#[trigger] seen[i])
}

/// The seen set after merging the jump map's hits.
pub open spec fn seen_after(jmp: Seq<u8>, seen: Seq<bool>) -> Seq<bool> {
    Seq::new(seen.len(), |i: int| seen[i] || jmp[i] > 0)
}

/// How many edges among the first `n` are hit and not yet seen.
pub open spec fn count_new(jmp: Seq<u8>, seen: Seq<bool>, n: int) -> nat
    decreases n,
{
    if n <= 0 {
        0
    } else {
        count_new(jmp, seen, n - 1) + (if jmp[n - 1] > 0 && !seen[n - 1] {
            1nat
        } else {
            0nat
        })
    }
}

/// Whether the comparison map improved on any site's best distance.
pub open spec fn cmp_accept(cmp: Seq<EVMU256>, best: Seq<EVMU256>) -> bool {
    exists|i: int| 0 <= i < cmp.len() && (#[trigger] cmp[i]).as_nat() < best[i].as_nat()
}

/// Whether some cell was both written and read, and that coupling is new.
pub open spec fn df_accept(read: Seq<bool>, write: Seq<u8>, seen: Seq<bool>) -> bool {
    exists|i: int| 0 <= i < read.len() && read[i] && write[i] > 0 && !(#[trigger] seen[i])
}

/// Coverage feedback: accepts when an edge turns from unseen to seen; the
/// seen set only ever grows, so one edge triggers acceptance at most once.
pub struct CoverageFeedback {
    /// Edges accepted so far.
    pub seen: Vec<bool>,
}

/// Comparison feedback: accepts when a comparison site's smallest observed
/// operand distance strictly shrinks; the recorded distances never grow.
pub struct CmpFeedback {
    /// Best (smallest) distance accepted so far, per site.
    pub best: Vec<EVMU256>,
}

/// Dataflow feedback: accepts when an execution writes a cell that is also
/// read, the first time that coupling shows.
pub struct DataflowFeedback {
    /// Couplings accepted so far.
    pub seen: Vec<bool>,
}

impl CoverageFeedback {
    /// The seen set has the map size.
    pub open spec fn wf(self) -> bool {
        self.seen@.len() == MAP_SIZE
    }

    /// A fresh judge with nothing seen.
    pub fn new() -> (r: Self)
        ensures
            r.wf(),
            forall|i: int| 0 <= i < MAP_SIZE ==> !(#[trigger] r.seen@[i]),
    {
        CoverageFeedback { seen: crate::host::filled(MAP_SIZE, false) }
    }

    /// Judge a jump map: report whether any hit edge is new, how many are, and
    /// merge all hits into the seen set.
    pub fn is_interesting(&mut self, jmp_map: &Vec<u8>) -> (r: (bool, u64))
        requires
            old(self).wf(),
            jmp_map@.len() == MAP_SIZE,
        ensures
            final(self).wf(),
            r.0 == cov_accept(jmp_map@, old(self).seen@),
            r.1 == count_new(jmp_map@, old(self).seen@, MAP_SIZE as int),
            final(self).seen@ == seen_after(jmp_map@, old(self).seen@),
            forall|i: int| 0 <= i < MAP_SIZE ==> old(self).seen@[i] ==> final(self).seen@[i],
    {
        let mut found = false;
        let mut cnt: u64 = 0;
        let mut i: usize = 0;
        while i < MAP_SIZE
            invariant
                old(self).wf(),
                self.seen@.len() == MAP_SIZE,
                jmp_map@.len() == MAP_SIZE,
                0 <= i <= MAP_SIZE,
                cnt <= i,
                cnt == count_new(jmp_map@, old(self).seen@, i as int),
                found == exists|j: int| 0 <= j < i && jmp_map@[j] > 0 && !(#[trigger] old(
                    self,
                ).seen@[j]),
                forall|j: int| 0 <= j < i ==> self.seen@[j] == (old(self).seen@[j] || jmp_map@[j]
                    > 0),
                forall|j: int| i <= j < MAP_SIZE ==> self.seen@[j] == old(self).seen@[j],
            decreases MAP_SIZE - i,
        {
            let hit = jmp_map[i] > 0;
            let was = self.seen[i];
            if hit && !was {
                found = true;
                cnt = cnt + 1;
            }
            if hit {
                self.seen[i] = true;
            }
            i += 1;
        }
        proof {
            assert(self.seen@ =~= seen_after(jmp_map@, old(self).seen@));
        }
        (found, cnt)
    }
}

/// Once every hit edge of a map is already seen, coverage feedback rejects
/// it: in particular an execution whose only hit edge was accepted before
/// never re-triggers acceptance on that edge alone.
pub proof fn lemma_coverage_no_retrigger(jmp: Seq<u8>, seen: Seq<bool>)
    requires
        jmp.len() == seen.len(),
        forall|i: int| 0 <= i < jmp.len() && jmp[i] > 0 ==> #[trigger] seen[i],
    ensures
        !cov_accept(jmp, seen),
{
}

/// The seen set after a judgement contains every edge it contained before
/// and every hit edge, so acceptance of a fixed edge happens at most once.
pub proof fn lemma_coverage_monotonic(jmp: Seq<u8>, seen: Seq<bool>, e: int)
    requires
        jmp.len() == seen.len(),
        0 <= e < jmp.len(),
        jmp[e] > 0 || seen[e],
    ensures
        seen_after(jmp, seen)[e],
{
}

impl CmpFeedback {
    /// The best-distance table has the map size.
    pub open spec fn wf(self) -> bool {
        self.best@.len() == MAP_SIZE
    }

    /// A fresh judge with the largest distance everywhere.
    pub fn new() -> (r: Self)
        ensures
            r.wf(),
            forall|i: int| 0 <= i < MAP_SIZE ==> (#[trigger] r.best@[i]).as_nat()
                == crate::types::pow256() - 1,
    {
        CmpFeedback { best: crate::host::filled(MAP_SIZE, EVMU256::max()) }
    }

    /// Judge a comparison map: report whether any site came strictly
    /// closer than ever before, and keep the smaller distance per site.
    pub fn is_interesting(&mut self, cmp_map: &Vec<EVMU256>) -> (r: bool)
        requires
            old(self).wf(),
            cmp_map@.len() == MAP_SIZE,
        ensures
            final(self).wf(),
            r == cmp_accept(cmp_map@, old(self).best@),
            forall|i: int| 0 <= i < MAP_SIZE ==> (#[trigger] final(self).best@[i]).as_nat() == (
            if cmp_map@[i].as_nat() < old(self).best@[i].as_nat() {
                cmp_map@[i].as_nat()
            } else {
                old(self).best@[i].as_nat()
            }),
            forall|i: int| 0 <= i < MAP_SIZE ==> (#[trigger] final(self).best@[i]).as_nat() <= old(
                self,
            ).best@[i].as_nat(),
    {
        let mut found = false;
        let mut i: usize = 0;
        while i < MAP_SIZE
            invariant
                old(self).wf(),
                self.best@.len() == MAP_SIZE,
                cmp_map@.len() == MAP_SIZE,
                0 <= i <= MAP_SIZE,
                found == exists|j: int| 0 <= j < i && (#[trigger] cmp_map@[j]).as_nat() < old(
                    self,
                ).best@[j].as_nat(),
                forall|j: int| 0 <= j < i ==> (#[trigger] self.best@[j]).as_nat() == (if cmp_map@[j].as_nat()
                    < old(self).best@[j].as_nat() {
                    cmp_map@[j].as_nat()
                } else {
                    old(self).best@[j].as_nat()
                }),
                forall|j: int| i <= j < MAP_SIZE ==> self.best@[j] == old(self).best@[j],
            decreases MAP_SIZE - i,
        {
            let cur = cmp_map[i];
            let prev = self.best[i];
            if cur.lt(prev) {
                found = true;
                self.best[i] = cur;
            }
            i += 1;
        }
        found
    }
}

impl DataflowFeedback {
    /// The seen set has the map size.
    pub open spec fn wf(self) -> bool {
        self.seen@.len() == MAP_SIZE
    }

    /// A fresh judge with nothing seen.
    pub fn new() -> (r: Self)
        ensures
            r.wf(),
            forall|i: int| 0 <= i < MAP_SIZE ==> !(#[trigger] r.seen@[i]),
    {
        DataflowFeedback { seen: crate::host::filled(MAP_SIZE, false) }
    }

    /// Judge the read and write maps: report whether a new written-then-
    /// read coupling showed, and remember every coupling seen.
    pub fn is_interesting(&mut self, read_map: &Vec<bool>, write_map: &Vec<u8>) -> (r: bool)
        requires
            old(self).wf(),
            read_map@.len() == MAP_SIZE,
            write_map@.len() == MAP_SIZE,
        ensures
            final(self).wf(),
            r == df_accept(read_map@, write_map@, old(self).seen@),
            forall|i: int| 0 <= i < MAP_SIZE
                ==> (#[trigger] final(self).seen@[i])
                    == (old(self).seen@[i] || (read_map@[i] && write_map@[i] > 0)),
            forall|i: int| 0 <= i < MAP_SIZE && old(self).seen@[i]
                ==> (#[trigger] final(self).seen@[i]),
    {
        let mut found = false;
        let mut i: usize = 0;
        while i < MAP_SIZE
            invariant
                old(self).wf(),
                self.seen@.len() == MAP_SIZE,
                read_map@.len() == MAP_SIZE,
                write_map@.len() == MAP_SIZE,
                0 <= i <= MAP_SIZE,
                found == exists|j: int| 0 <= j < i && read_map@[j] && write_map@[j] > 0 && !(
                #[trigger] old(self).seen@[j]),
                forall|j: int| 0 <= j < i ==> (#[trigger] self.seen@[j]) == (old(self).seen@[j]
                    || (read_map@[j] && write_map@[j] > 0)),
                forall|j: int| i <= j < MAP_SIZE ==> self.seen@[j] == old(self).seen@[j],
            decreases MAP_SIZE - i,
        {
            let coupled = read_map[i] && write_map[i] > 0;
            let was = self.seen[i];
            if coupled && !was {
                found = true;
            }
            if coupled {
                self.seen[i] = true;
            }
            i += 1;
        }
        found
    }
}

/// The three judges combined by logical OR, as one pipeline.
pub struct FeedbackPipeline {
    /// The coverage judge.
    pub coverage: CoverageFeedback,
    /// The comparison judge.
    pub comparison: CmpFeedback,
    /// The dataflow judge.
    pub dataflow: DataflowFeedback,
}

impl FeedbackPipeline {
    /// All three judges are well formed.
    pub open spec fn wf(self) -> bool {
        self.coverage.wf() && self.comparison.wf() && self.dataflow.wf()
    }

    /// A fresh pipeline.
    pub fn new() -> (r: Self)
        ensures
            r.wf(),
    {
        FeedbackPipeline {
            coverage: CoverageFeedback::new(),
            comparison: CmpFeedback::new(),
            dataflow: DataflowFeedback::new(),
        }
    }

    /// Judge one execution by the host's maps: the input is kept when any
    /// judge accepts it; the second result is how many edges were new.
    pub fn evaluate(&mut self, host: &FuzzHost) -> (r: (bool, u64))
        requires
            old(self).wf(),
            host.wf(),
        ensures
            final(self).wf(),
            r.0 == (cov_accept(host.jmp_map@, old(self).coverage.seen@) || cmp_accept(
                host.cmp_map@,
                old(self).comparison.best@,
            ) || df_accept(host.read_map@, host.write_map@, old(self).dataflow.seen@)),
            r.1 == count_new(host.jmp_map@, old(self).coverage.seen@, MAP_SIZE as int),
            final(self).coverage.seen@ == seen_after(host.jmp_map@, old(self).coverage.seen@),
    {
        let (cov, new_edges) = self.coverage.is_interesting(&host.jmp_map);
        let cmp = self.comparison.is_interesting(&host.cmp_map);
        let df = self.dataflow.is_interesting(&host.read_map, &host.write_map);
        (cov || cmp || df, new_edges)
    }
}

} // verus!
