//! Ranking of candidate execution algorithms under a workspace budget.
//!
//! The vendor library's heuristic search is an outside collaborator: the
//! caller performs the search for a problem and hands its outcome to
//! [`tune`], which keeps, in the reported preference order, the candidates
//! whose scratch requirement fits the caller's budget, truncates the list
//! to the requested length, and stamps each survivor with the key of the
//! problem it may execute.

use vstd::prelude::*;

use crate::error::MatMulError;
use crate::problem::MatMulProblem;
use crate::problem::ProblemKey;

verus! {

/// An opaque algorithm handle of the vendor library: an identifier plus an
/// internal configuration word, never interpreted by this layer.
#[derive(Clone, Copy, Debug, PartialEq, Eq, Structural)]
pub struct AlgoHandle {
    pub id: u64,
    pub config: u64,
}

/// One entry the heuristic search reported: a handle and the scratch bytes
/// it requires.
#[derive(Clone, Copy, Debug, PartialEq, Eq, Structural)]
pub struct RawCandidate {
    pub handle: AlgoHandle,
    pub workspace_size: usize,
}

/// What the vendor library's heuristic search reported for one problem:
/// either its candidates in preference order, best first, or a rejection
/// of the data-type and precision combination.
#[derive(Debug)]
pub enum SearchOutcome {
    Found(Vec<RawCandidate>),
    Unsupported,
}

/// A ranked candidate fit for execution: a handle, its scratch requirement,
/// and — held privately, so it cannot be forged — the key of the problem it
/// was tuned for.
#[derive(Clone, Copy, Debug, PartialEq, Eq, Structural)]
pub struct Candidate {
    handle: AlgoHandle,
    workspace_size: usize,
    key: ProblemKey,
}

impl Candidate {
    /// The algorithm handle of this candidate.
    pub closed spec fn spec_handle(self) -> AlgoHandle {
        self.handle
    }

    /// The scratch bytes this candidate requires.
    pub closed spec fn spec_workspace_size(self) -> usize {
        self.workspace_size
    }

    /// The key of the problem this candidate was tuned for.
    pub closed spec fn spec_key(self) -> ProblemKey {
        self.key
    }

    /// Copies out the algorithm handle.
    pub fn handle(&self) -> (h: AlgoHandle)
        ensures
            h == self.spec_handle(),
    {
        self.handle
    }

    /// The scratch bytes this candidate requires.
    pub fn workspace_size(&self) -> (n: usize)
        ensures
            n == self.spec_workspace_size(),
    {
        self.workspace_size
    }

    /// Copies out the key of the problem this candidate was tuned for.
    pub fn key(&self) -> (k: ProblemKey)
        ensures
            k == self.spec_key(),
    {
        self.key
    }
}

/// The handle and scratch requirement of a ranked candidate, without its
/// problem key.
pub open spec fn raw_of(c: Candidate) -> RawCandidate {
    RawCandidate { handle: c.spec_handle(), workspace_size: c.spec_workspace_size() }
}

/// The raw entries of a ranked list, in order.
pub open spec fn ranked_raw(v: Seq<Candidate>) -> Seq<RawCandidate> {
    v.map_values(|c: Candidate| raw_of(c))
}

/// The reported entries whose scratch requirement fits the budget, in the
/// reported order.
pub open spec fn spec_filter(raw: Seq<RawCandidate>, limit: usize) -> Seq<RawCandidate> {
    raw.filter(|c: RawCandidate| c.workspace_size <= limit)
}

/// What tuning returns for a successful search: the fitting entries in
/// reported order, truncated to the first `maxc`.
pub open spec fn spec_tune(raw: Seq<RawCandidate>, limit: usize, maxc: usize) -> Seq<
    RawCandidate,
> {
    let kept = spec_filter(raw, limit);
    if kept.len() <= maxc {
        kept
    } else {
        kept.take(maxc as int)
    }
}

/// Every entry the tuner would report fits the workspace budget, whatever
/// the heuristic search reported and however long the list was allowed to
/// be.
pub proof fn lemma_tune_within_limit(raw: Seq<RawCandidate>, limit: usize, maxc: usize)
    ensures
        forall|i: int|
            0 <= i < spec_tune(raw, limit, maxc).len() ==> (#[trigger] spec_tune(
                raw,
                limit,
                maxc,
            )[i]).workspace_size <= limit,
{
    broadcast use Seq::<_>::lemma_filter_pred;
    broadcast use Seq::<_>::lemma_filter_len;

    let kept = spec_filter(raw, limit);
    assert forall|i: int| 0 <= i < spec_tune(raw, limit, maxc).len() implies (
    #[trigger] spec_tune(raw, limit, maxc)[i]).workspace_size <= limit by {
        assert(spec_tune(raw, limit, maxc)[i] == kept[i]);
    };
}

/// Tuning is a function of the reported search outcome and the budgets:
/// two runs over equal outcomes rank identically, and whatever either
/// search reported, every entry of either run fits the budget.
pub proof fn lemma_tune_stable(
    raw1: Seq<RawCandidate>,
    raw2: Seq<RawCandidate>,
    limit: usize,
    maxc: usize,
)
    requires
        raw1 == raw2,
    ensures
        spec_tune(raw1, limit, maxc) == spec_tune(raw2, limit, maxc),
        forall|i: int|
            0 <= i < spec_tune(raw1, limit, maxc).len() ==> (#[trigger] spec_tune(
                raw1,
                limit,
                maxc,
            )[i]).workspace_size <= limit,
        forall|i: int|
            0 <= i < spec_tune(raw2, limit, maxc).len() ==> (#[trigger] spec_tune(
                raw2,
                limit,
                maxc,
            )[i]).workspace_size <= limit,
{
    lemma_tune_within_limit(raw1, limit, maxc);
    lemma_tune_within_limit(raw2, limit, maxc);
}

/// Every entry the tuner would report was reported by the heuristic search
/// itself: the tuner invents no algorithm and alters no workspace
/// requirement.
pub proof fn lemma_tune_entries_reported(raw: Seq<RawCandidate>, limit: usize, maxc: usize)
    ensures
        forall|i: int|
            0 <= i < spec_tune(raw, limit, maxc).len() ==> raw.contains(
                #[trigger] spec_tune(raw, limit, maxc)[i],
            ),
{
    broadcast use Seq::<_>::lemma_filter_contains_rev;
    broadcast use Seq::<_>::lemma_filter_len;

    let kept = spec_filter(raw, limit);
    assert forall|i: int| 0 <= i < spec_tune(raw, limit, maxc).len() implies raw.contains(
        #[trigger] spec_tune(raw, limit, maxc)[i],
    ) by {
        assert(spec_tune(raw, limit, maxc)[i] == kept[i]);
        assert(0 <= i < kept.len() && kept[i] == kept[i]);
        assert(kept.contains(kept[i]));
    };
}

/// With a zero workspace budget the tuner reports no candidates whenever
/// every algorithm the search found needs non-zero scratch memory.
pub proof fn lemma_tune_zero_budget(raw: Seq<RawCandidate>, maxc: usize)
    requires
        forall|i: int| 0 <= i < raw.len() ==> (#[trigger] raw[i]).workspace_size > 0,
    ensures
        spec_tune(raw, 0, maxc) == Seq::<RawCandidate>::empty(),
{
    broadcast use Seq::<_>::lemma_filter_pred;
    broadcast use Seq::<_>::lemma_filter_contains_rev;
    broadcast use Seq::<_>::lemma_filter_len;

    let kept = spec_filter(raw, 0);
    if kept.len() > 0 {
        let x = kept[0];
        assert(x.workspace_size <= 0);
        assert(kept.contains(x));
        assert(raw.contains(x));
        let j = choose|j: int| 0 <= j < raw.len() && raw[j] == x;
        assert(raw[j].workspace_size > 0);
        assert(false);
    }
    assert(kept =~= Seq::<RawCandidate>::empty());
}

/// Ranks the heuristic search's outcome for `problem` under a workspace
/// budget.
///
/// A rejected type combination surfaces as `UnsupportedCombination`.  A
/// successful search yields, in the reported preference order, the
/// candidates needing at most `workspace_limit` scratch bytes, at most
/// `max_candidates` of them, each stamped with `problem`'s key; an empty
/// list is an ordinary outcome, not an error.
pub fn tune(
    problem: &MatMulProblem,
    outcome: SearchOutcome,
    workspace_limit: usize,
    max_candidates: usize,
) -> (r: Result<Vec<Candidate>, MatMulError>)
    ensures
        r is Ok <==> outcome is Found,
        outcome matches SearchOutcome::Found(raw) ==> (r matches Ok(v) && {
            &&& ranked_raw(v@) == spec_tune(raw@, workspace_limit, max_candidates)
            &&& v@.len() == spec_tune(raw@, workspace_limit, max_candidates).len()
            &&& forall|i: int|
                0 <= i < v@.len() ==> raw_of(#[trigger] v@[i]) == spec_tune(
                    raw@,
                    workspace_limit,
                    max_candidates,
                )[i]
            &&& forall|i: int|
                0 <= i < v@.len() ==> (#[trigger] v@[i]).spec_workspace_size() <= workspace_limit
            &&& forall|i: int| 0 <= i < v@.len() ==> (#[trigger] v@[i]).spec_key()
                == problem.spec_key()
            &&& v@.len() <= max_candidates
        }),
        outcome is Unsupported ==> (r matches Err(e) && e == MatMulError::UnsupportedCombination),
{
    match outcome {
        SearchOutcome::Unsupported => Err(MatMulError::UnsupportedCombination),
        SearchOutcome::Found(raw) => {
            let key = problem.key();
            let mut out: Vec<Candidate> = Vec::new();
            let mut i: usize = 0;
            proof {
                broadcast use Seq::<_>::lemma_filter_len;

                assert(raw@.take(0) =~= Seq::<RawCandidate>::empty());
                assert(spec_filter(raw@.take(0), workspace_limit) =~= Seq::<
                    RawCandidate,
                >::empty());
                assert(ranked_raw(out@) =~= Seq::<RawCandidate>::empty());
            }
            while i < raw.len()
                invariant
                    i <= raw@.len(),
                    out@.len() <= max_candidates,
                    ranked_raw(out@) == spec_tune(
                        raw@.take(i as int),
                        workspace_limit,
                        max_candidates,
                    ),
                    out@.len() < max_candidates ==> spec_filter(
                        raw@.take(i as int),
                        workspace_limit,
                    ).len() == out@.len(),
                    forall|j: int|
                        0 <= j < out@.len() ==> (#[trigger] out@[j]).spec_workspace_size()
                            <= workspace_limit,
                    forall|j: int|
                        0 <= j < out@.len() ==> (#[trigger] out@[j]).spec_key()
                            == problem.spec_key(),
                    key == problem.spec_key(),
                decreases raw@.len() - i,
            {
                let c = raw[i];
                let ghost prefix = raw@.take(i as int);
                let ghost kept = spec_filter(prefix, workspace_limit);
                proof {
                    broadcast use Seq::<_>::lemma_filter_push;
                    broadcast use Seq::<_>::lemma_filter_len;

                    assert(raw@.take(i + 1) =~= prefix.push(raw@[i as int]));
                }
                if c.workspace_size <= workspace_limit && out.len() < max_candidates {
                    let cand = Candidate { handle: c.handle, workspace_size: c.workspace_size, key };
                    out.push(cand);
                    proof {
                        assert(spec_filter(raw@.take(i + 1), workspace_limit) =~= kept.push(c));
                        assert(ranked_raw(out@) =~= ranked_raw(out@.drop_last()).push(raw_of(cand)));
                    }
                } else {
                    proof {
                        if c.workspace_size <= workspace_limit {
                            // The list already holds `max_candidates` entries, so the
                            // filtered prefix is truncated at the same point as before.
                            assert(spec_filter(raw@.take(i + 1), workspace_limit) =~= kept.push(c));
                            assert(kept.len() >= max_candidates);
                            assert(kept.push(c).take(max_candidates as int) =~= kept.take(
                                max_candidates as int,
                            ));
                            if kept.len() == max_candidates {
                                assert(kept.take(max_candidates as int) =~= kept);
                            }
                        } else {
                            assert(spec_filter(raw@.take(i + 1), workspace_limit) =~= kept);
                        }
                    }
                }
                i = i + 1;
            }
            proof {
                assert(raw@.take(raw@.len() as int) =~= raw@);
                assert forall|j: int| 0 <= j < out@.len() implies raw_of(#[trigger] out@[j])
                    == spec_tune(raw@, workspace_limit, max_candidates)[j] by {
                    assert(ranked_raw(out@)[j] == raw_of(out@[j]));
                };
            }
            Ok(out)
        },
    }
}

} // verus!
