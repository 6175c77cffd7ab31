//! One evaluation-and-merge cycle on a pull request, as a state machine: the caller
//! performs each action and hands back what it observed.
use vstd::prelude::*;
use crate::github::{MergeMethod, MergeResponse, PullRequestIdentifier};
use crate::merge::{merge_decision, MergeDecision, MergeResult, PullRequestMerger};
use crate::steps::{Step, StepVerdict};

verus! {

/// What the driving loop does after a cycle.
#[derive(Clone, Copy, Debug, PartialEq, Eq, Structural)]
pub enum DirectorState {
    /// Sleep, then run another cycle.
    Waiting,
    /// Stop: the pull request was merged, or nothing more can be done.
    Done,
}

/// The next action of a cycle.
#[derive(Clone, Copy, Debug, PartialEq, Eq, Structural)]
pub enum CycleAction {
    /// Evaluate the check at this index and report its verdict.
    RunStep(usize),
    /// Send a merge request with this method and report the response.
    Submit(MergeMethod),
    /// The cycle is over.
    Finish(DirectorState),
    /// The last merge response was a failure that ends the run.
    Fail,
}

/// The outcome of the checks from index `i` on, where `verdicts` are the verdicts
/// reported so far for `n` checks; `None` when every one of them is satisfied.
pub open spec fn checks_outcome(n: int, verdicts: Seq<StepVerdict>, i: int) -> Option<
    CycleAction,
>
    decreases n - i,
{
    if i < 0 || i >= n {
        None
    } else if i >= verdicts.len() {
        Some(CycleAction::RunStep(i as usize))
    } else {
        match verdicts[i] {
            StepVerdict::Satisfied => checks_outcome(n, verdicts, i + 1),
            StepVerdict::NotSatisfied(_) => Some(CycleAction::Finish(DirectorState::Waiting)),
            StepVerdict::Resolved => Some(CycleAction::Finish(DirectorState::Done)),
        }
    }
}

/// The state that a merge result leads to.
pub open spec fn state_after_merge(r: MergeResult) -> DirectorState {
    match r {
        MergeResult::Success => DirectorState::Done,
        MergeResult::Conflict => DirectorState::Waiting,
    }
}

/// The cycle's action once every check is satisfied.
pub open spec fn merge_action(d: MergeDecision) -> CycleAction {
    match d {
        MergeDecision::Submit(m) => CycleAction::Submit(m),
        MergeDecision::Finish(r) => CycleAction::Finish(state_after_merge(r)),
        MergeDecision::Abort => CycleAction::Fail,
    }
}

/// The next action of a cycle with `n` checks, a merger with `plan` and `exhausted`,
/// and the verdicts and merge responses reported so far.
pub open spec fn cycle_action(
    n: int,
    verdicts: Seq<StepVerdict>,
    plan: Seq<MergeMethod>,
    exhausted: MergeResult,
    responses: Seq<MergeResponse>,
) -> CycleAction {
    match checks_outcome(n, verdicts, 0) {
        Some(a) => a,
        None => merge_action(merge_decision(plan, exhausted, responses, 0)),
    }
}

/// Owns the checks, in order, and the merger, for one pull request.
pub struct Director<M: PullRequestMerger> {
    pub identifier: PullRequestIdentifier,
    pub merger: M,
    pub steps: Vec<Step>,
}

impl<M: PullRequestMerger> Director<M> {
    /// The next action of this director after `verdicts` and `responses`.
    pub open spec fn action_spec(
        &self,
        verdicts: Seq<StepVerdict>,
        responses: Seq<MergeResponse>,
    ) -> CycleAction {
        cycle_action(
            self.steps@.len() as int,
            verdicts,
            self.merger.attempt_plan(),
            self.merger.result_when_exhausted(),
            responses,
        )
    }

    pub fn new(merger: M, steps: Vec<Step>, identifier: PullRequestIdentifier) -> (r: Self)
        ensures
            r.merger == merger,
            r.steps == steps,
            r.identifier == identifier,
    {
        Director { identifier, merger, steps }
    }

    /// The state that a merge result leads to: `Done` after a success, `Waiting` after
    /// a conflict.
    pub fn state_after_merge(result: MergeResult) -> (r: DirectorState)
        ensures
            r == state_after_merge(result),
    {
        match result {
            MergeResult::Success => DirectorState::Done,
            MergeResult::Conflict => DirectorState::Waiting,
        }
    }

    /// The next action of a cycle, where `verdicts[i]` is the verdict of the `i`-th
    /// check and `responses[i]` the response to the `i`-th merge request.
    pub fn run(&self, verdicts: &Vec<StepVerdict>, responses: &Vec<MergeResponse>) -> (r:
        CycleAction)
        ensures
            r == self.action_spec(verdicts@, responses@),
    {
        let n = self.steps.len();
        let mut i: usize = 0;
        while i < n
            invariant
                n == self.steps@.len(),
                i <= n,
                checks_outcome(n as int, verdicts@, 0) == checks_outcome(
                    n as int,
                    verdicts@,
                    i as int,
                ),
            decreases n - i,
        {
            if i >= verdicts.len() {
                return CycleAction::RunStep(i);
            }
            match verdicts[i] {
                StepVerdict::Satisfied => {},
                StepVerdict::NotSatisfied(_) => {
                    return CycleAction::Finish(DirectorState::Waiting);
                },
                StepVerdict::Resolved => {
                    return CycleAction::Finish(DirectorState::Done);
                },
            }
            i = i + 1;
        }
        match self.merger.merge(responses) {
            MergeDecision::Submit(m) => CycleAction::Submit(m),
            MergeDecision::Finish(result) => CycleAction::Finish(Self::state_after_merge(result)),
            MergeDecision::Abort => CycleAction::Fail,
        }
    }
}

/// While every verdict before index `k` is satisfied, the outcome of the checks is the
/// one from index `k` on.
proof fn lemma_skip_satisfied(n: int, verdicts: Seq<StepVerdict>, k: int)
    requires
        0 <= k <= verdicts.len(),
        forall|j: int| 0 <= j < k ==> verdicts[j] == StepVerdict::Satisfied,
    ensures
        checks_outcome(n, verdicts, 0) == checks_outcome(n, verdicts, k),
    decreases k,
{
    if k > 0 {
        lemma_skip_satisfied(n, verdicts, k - 1);
    }
}

/// When the checks are all satisfied, the verdicts cover every check and each of them
/// is satisfied.
proof fn lemma_all_satisfied(n: int, verdicts: Seq<StepVerdict>, i: int)
    requires
        0 <= i,
        checks_outcome(n, verdicts, i) is None,
    ensures
        forall|j: int| i <= j < n ==> j < verdicts.len() && verdicts[j] == StepVerdict::Satisfied,
    decreases n - i,
{
    if i < n {
        lemma_all_satisfied(n, verdicts, i + 1);
    }
}

/// A check that is not satisfied, after satisfied ones, ends the cycle with `Waiting`,
/// whatever the later checks and the merger would say: no merge is requested.
pub proof fn lemma_director_waits_on_unsatisfied<M: PullRequestMerger>(
    director: Director<M>,
    verdicts: Seq<StepVerdict>,
    responses: Seq<MergeResponse>,
    k: int,
)
    requires
        0 <= k < director.steps@.len(),
        k < verdicts.len(),
        forall|j: int| 0 <= j < k ==> verdicts[j] == StepVerdict::Satisfied,
        verdicts[k] is NotSatisfied,
    ensures
        director.action_spec(verdicts, responses) == CycleAction::Finish(DirectorState::Waiting),
{
    lemma_skip_satisfied(director.steps@.len() as int, verdicts, k);
}

/// A merge is requested only when every check has reported that it is satisfied.
pub proof fn lemma_director_merges_only_when_ready<M: PullRequestMerger>(
    director: Director<M>,
    verdicts: Seq<StepVerdict>,
    responses: Seq<MergeResponse>,
)
    requires
        director.action_spec(verdicts, responses) is Submit,
    ensures
        verdicts.len() >= director.steps@.len(),
        forall|j: int|
            0 <= j < director.steps@.len() ==> verdicts[j] == StepVerdict::Satisfied,
{
    let n = director.steps@.len() as int;
    lemma_checks_never_submit(n, verdicts, 0);
    lemma_all_satisfied(n, verdicts, 0);
    if n > 0 {
        assert(verdicts[n - 1] == StepVerdict::Satisfied);
    }
}

/// The checks alone never lead to a merge request.
proof fn lemma_checks_never_submit(n: int, verdicts: Seq<StepVerdict>, i: int)
    ensures
        checks_outcome(n, verdicts, i) matches Some(a) ==> !(a is Submit),
    decreases n - i,
{
    if 0 <= i < n && i < verdicts.len() && verdicts[i] == StepVerdict::Satisfied {
        lemma_checks_never_submit(n, verdicts, i + 1);
    }
}

/// A cycle ends with `Done` only after a successful merge, or when a check found the
/// pull request resolved, after satisfied ones.
pub proof fn lemma_director_done_only_when_final<M: PullRequestMerger>(
    director: Director<M>,
    verdicts: Seq<StepVerdict>,
    responses: Seq<MergeResponse>,
)
    requires
        director.action_spec(verdicts, responses) == CycleAction::Finish(DirectorState::Done),
    ensures
        (forall|j: int|
            0 <= j < director.steps@.len() ==> j < verdicts.len() && verdicts[j]
                == StepVerdict::Satisfied) && merge_decision(
            director.merger.attempt_plan(),
            director.merger.result_when_exhausted(),
            responses,
            0,
        ) == MergeDecision::Finish(MergeResult::Success) || exists|k: int|
            0 <= k < director.steps@.len() && k < verdicts.len() && verdicts[k]
                == StepVerdict::Resolved && forall|j: int|
                0 <= j < k ==> verdicts[j] == StepVerdict::Satisfied,
{
    let n = director.steps@.len() as int;
    if checks_outcome(n, verdicts, 0) is None {
        lemma_all_satisfied(n, verdicts, 0);
    } else {
        lemma_resolved_found(n, verdicts, 0);
    }
}

/// When the checks end the cycle with `Done`, some check found the pull request
/// resolved and every one before it was satisfied.
proof fn lemma_resolved_found(n: int, verdicts: Seq<StepVerdict>, i: int)
    requires
        0 <= i,
        forall|j: int| 0 <= j < i ==> verdicts[j] == StepVerdict::Satisfied,
        checks_outcome(n, verdicts, i) == Some(CycleAction::Finish(DirectorState::Done)),
    ensures
        exists|k: int|
            i <= k < n && k < verdicts.len() && verdicts[k] == StepVerdict::Resolved && forall|
                j: int,
            |
                0 <= j < k ==> verdicts[j] == StepVerdict::Satisfied,
    decreases n - i,
{
    if verdicts[i] == StepVerdict::Satisfied {
        assert forall|j: int| 0 <= j < i + 1 implies verdicts[j] == StepVerdict::Satisfied by {
            if j < i {
            }
        }
        lemma_resolved_found(n, verdicts, i + 1);
    }
}

} // verus!
