//! Merging a ready pull request, trying merge methods in turn.
use vstd::prelude::*;
use crate::config::MergeConfig;
use crate::github::{MergeMethod, MergeRequestBody, MergeResponse, PullRequest};

verus! {

/// How a merge ended.
#[derive(Clone, Copy, Debug, PartialEq, Eq, Structural)]
pub enum MergeResult {
    Success,
    /// The pull request changed under the merge; try again next cycle.
    Conflict,
}

/// What a merger does next, given the responses to its requests so far.
#[derive(Clone, Copy, Debug, PartialEq, Eq, Structural)]
pub enum MergeDecision {
    /// Send a merge request with this method and report the response.
    Submit(MergeMethod),
    /// The merge is over with this result.
    Finish(MergeResult),
    /// The last response was a failure that ends the run.
    Abort,
}

/// The decision of a merger that tries the methods of `plan` in order and reports
/// `exhausted` once every one of them was refused as not allowed, when the responses
/// from the `i`-th request on are `responses[i..]`.
pub open spec fn merge_decision(
    plan: Seq<MergeMethod>,
    exhausted: MergeResult,
    responses: Seq<MergeResponse>,
    i: int,
) -> MergeDecision
    decreases plan.len() - i,
{
    if i < 0 || i >= plan.len() {
        MergeDecision::Finish(exhausted)
    } else if i >= responses.len() {
        MergeDecision::Submit(plan[i])
    } else {
        match responses[i] {
            MergeResponse::Merged => MergeDecision::Finish(MergeResult::Success),
            MergeResponse::MethodNotAllowed => merge_decision(plan, exhausted, responses, i + 1),
            MergeResponse::Conflict => MergeDecision::Finish(MergeResult::Conflict),
            MergeResponse::Failed => MergeDecision::Abort,
        }
    }
}


/// Something that merges a pull request once every readiness check passed.
pub trait PullRequestMerger {
    /// The merge methods that this merger requests, in order.
    spec fn attempt_plan(&self) -> Seq<MergeMethod>;

    /// The result once every method of the plan was refused as not allowed.
    spec fn result_when_exhausted(&self) -> MergeResult;

    /// The next step of a merge, where `responses[i]` answered the `i`-th request.
    fn merge(&self, responses: &Vec<MergeResponse>) -> (r: MergeDecision)
        ensures
            r == merge_decision(self.attempt_plan(), self.result_when_exhausted(), responses@, 0),
    ;
}

/// The methods in the order they are tried: `default` first, then the others of
/// Squash, Merge, Rebase in that order.
pub open spec fn methods_starting_with(default: MergeMethod) -> Seq<MergeMethod> {
    match default {
        MergeMethod::Squash => seq![MergeMethod::Squash, MergeMethod::Merge, MergeMethod::Rebase],
        MergeMethod::Merge => seq![MergeMethod::Merge, MergeMethod::Squash, MergeMethod::Rebase],
        MergeMethod::Rebase => seq![MergeMethod::Rebase, MergeMethod::Squash, MergeMethod::Merge],
    }
}

/// The merger that requests each method in turn, starting with the configured one.
pub struct DefaultPullRequestMerger {
    merge_methods: Vec<MergeMethod>,
}

impl DefaultPullRequestMerger {
    /// The methods are Squash, Merge and Rebase, each once, one of them moved to the front.
    #[verifier::type_invariant]
    spec fn inv(&self) -> bool {
        exists|d: MergeMethod| self.merge_methods@ == methods_starting_with(d)
    }

    /// The methods in the order that this merger tries them.
    pub closed spec fn methods(&self) -> Seq<MergeMethod> {
        self.merge_methods@
    }

    /// The decision of this merger after `responses`.
    pub open spec fn merge_spec(&self, responses: Seq<MergeResponse>) -> MergeDecision {
        merge_decision(self.methods(), MergeResult::Conflict, responses, 0)
    }

    pub fn new(config: MergeConfig) -> (r: Self)
        ensures
            r.methods() == methods_starting_with(config.default_method),
    {
        let merge_methods = Self::build_merge_methods(config.default_method);
        assert(merge_methods@ == methods_starting_with(config.default_method));
        Self { merge_methods }
    }

    /// The commit message of a merge: the pull request's body for a squash, none otherwise.
    pub fn build_merge_message(pull_request: &PullRequest, method: &MergeMethod) -> (r: Option<
        String,
    >)
        ensures
            *method == MergeMethod::Squash ==> r == pull_request.body,
            *method != MergeMethod::Squash ==> r.is_none(),
    {
        if *method == MergeMethod::Squash {
            match &pull_request.body {
                Some(body) => Some(body.clone()),
                None => None,
            }
        } else {
            None
        }
    }

    /// The request that merges `pull_request` with `method`, on condition that its head
    /// is still the commit that was checked.
    pub fn build_merge_request(pull_request: &PullRequest, method: MergeMethod) -> (r:
        MergeRequestBody)
        ensures
            r.sha == pull_request.head_sha,
            r.commit_title == pull_request.title,
            method == MergeMethod::Squash ==> r.commit_message == pull_request.body,
            method != MergeMethod::Squash ==> r.commit_message.is_none(),
            r.merge_method == method,
    {
        let commit_message = Self::build_merge_message(pull_request, &method);
        MergeRequestBody {
            sha: pull_request.head_sha.clone(),
            commit_title: pull_request.title.clone(),
            commit_message,
            merge_method: method,
        }
    }

    /// Squash, Merge and Rebase, with `default_method` moved to the front.
    pub fn build_merge_methods(default_method: MergeMethod) -> (r: Vec<MergeMethod>)
        ensures
            r@ == methods_starting_with(default_method),
    {
        let mut methods: Vec<MergeMethod> = Vec::new();
        methods.push(default_method);
        if default_method != MergeMethod::Squash {
            methods.push(MergeMethod::Squash);
        }
        if default_method != MergeMethod::Merge {
            methods.push(MergeMethod::Merge);
        }
        if default_method != MergeMethod::Rebase {
            methods.push(MergeMethod::Rebase);
        }
        assert(methods@ =~= methods_starting_with(default_method));
        methods
    }
}

impl PullRequestMerger for DefaultPullRequestMerger {
    open spec fn attempt_plan(&self) -> Seq<MergeMethod> {
        self.methods()
    }

    open spec fn result_when_exhausted(&self) -> MergeResult {
        MergeResult::Conflict
    }

    fn merge(&self, responses: &Vec<MergeResponse>) -> (r: MergeDecision) {
        let ghost plan = self.attempt_plan();
        let mut i: usize = 0;
        while i < self.merge_methods.len()
            invariant
                plan == self.merge_methods@,
                i <= plan.len(),
                merge_decision(plan, MergeResult::Conflict, responses@, 0) == merge_decision(
                    plan,
                    MergeResult::Conflict,
                    responses@,
                    i as int,
                ),
            decreases self.merge_methods.len() - i,
        {
            if i >= responses.len() {
                return MergeDecision::Submit(self.merge_methods[i]);
            }
            match responses[i] {
                MergeResponse::Merged => {
                    return MergeDecision::Finish(MergeResult::Success);
                },
                MergeResponse::Conflict => {
                    return MergeDecision::Finish(MergeResult::Conflict);
                },
                MergeResponse::Failed => {
                    return MergeDecision::Abort;
                },
                MergeResponse::MethodNotAllowed => {},
            }
            i = i + 1;
        }
        MergeDecision::Finish(MergeResult::Conflict)
    }
}

/// The dry-run merger: it sends nothing and reports success.
pub struct DummyPullRequestMerger;

impl Default for DummyPullRequestMerger {
    fn default() -> (r: Self) {
        DummyPullRequestMerger
    }
}

impl PullRequestMerger for DummyPullRequestMerger {
    open spec fn attempt_plan(&self) -> Seq<MergeMethod> {
        Seq::empty()
    }

    open spec fn result_when_exhausted(&self) -> MergeResult {
        MergeResult::Success
    }

    fn merge(&self, responses: &Vec<MergeResponse>) -> (r: MergeDecision) {
        MergeDecision::Finish(MergeResult::Success)
    }
}

/// Each of Squash, Merge and Rebase is tried exactly once, the configured one first.
pub proof fn lemma_merge_methods_cover_all(default: MergeMethod)
    ensures
        methods_starting_with(default).len() == 3,
        methods_starting_with(default)[0] == default,
        forall|m: MergeMethod| #[trigger] methods_starting_with(default).contains(m),
        forall|i: int, j: int|
            0 <= i < j < 3 ==> methods_starting_with(default)[i] != methods_starting_with(
                default,
            )[j],
{
    let s = methods_starting_with(default);
    assert forall|m: MergeMethod| #[trigger] s.contains(m) by {
        if s[0] == m {
        } else if s[1] == m {
        } else {
            assert(s[2] == m);
        }
    }
}

/// While every response so far refused its method as not allowed, the decision is
/// the one taken after those responses.
proof fn lemma_skip_not_allowed(
    plan: Seq<MergeMethod>,
    exhausted: MergeResult,
    responses: Seq<MergeResponse>,
    k: int,
)
    requires
        0 <= k <= responses.len(),
        forall|j: int| 0 <= j < k ==> responses[j] == MergeResponse::MethodNotAllowed,
    ensures
        merge_decision(plan, exhausted, responses, 0) == merge_decision(
            plan,
            exhausted,
            responses,
            k,
        ),
    decreases k,
{
    if k > 0 {
        lemma_skip_not_allowed(plan, exhausted, responses, k - 1);
    }
}

/// Once a request succeeded, a merger reports success and requests nothing more,
/// whatever else it is told afterwards.
pub proof fn lemma_merge_stops_at_success<M: PullRequestMerger>(
    merger: M,
    responses: Seq<MergeResponse>,
    k: int,
)
    requires
        0 <= k < responses.len(),
        k < merger.attempt_plan().len(),
        forall|j: int| 0 <= j < k ==> responses[j] == MergeResponse::MethodNotAllowed,
        responses[k] == MergeResponse::Merged,
    ensures
        merge_decision(merger.attempt_plan(), merger.result_when_exhausted(), responses, 0)
            == MergeDecision::Finish(MergeResult::Success),
{
    lemma_skip_not_allowed(merger.attempt_plan(), merger.result_when_exhausted(), responses, k);
}

/// A conflict ends the merge at once with `Conflict`: no further method is requested.
pub proof fn lemma_merge_stops_at_conflict<M: PullRequestMerger>(
    merger: M,
    responses: Seq<MergeResponse>,
    k: int,
)
    requires
        0 <= k < responses.len(),
        k < merger.attempt_plan().len(),
        forall|j: int| 0 <= j < k ==> responses[j] == MergeResponse::MethodNotAllowed,
        responses[k] == MergeResponse::Conflict,
    ensures
        merge_decision(merger.attempt_plan(), merger.result_when_exhausted(), responses, 0)
            == MergeDecision::Finish(MergeResult::Conflict),
{
    lemma_skip_not_allowed(merger.attempt_plan(), merger.result_when_exhausted(), responses, k);
}

/// After methods refused as not allowed, the default merger requests the next method
/// of its order, and reports `Conflict` only once every method was refused.
pub proof fn lemma_merge_moves_past_not_allowed(
    merger: DefaultPullRequestMerger,
    responses: Seq<MergeResponse>,
)
    requires
        forall|j: int| 0 <= j < responses.len() ==> responses[j] == MergeResponse::MethodNotAllowed,
    ensures
        responses.len() < merger.methods().len() ==> merger.merge_spec(responses) == MergeDecision::Submit(
            merger.methods()[responses.len() as int],
        ),
        responses.len() >= merger.methods().len() ==> merger.merge_spec(responses) == MergeDecision::Finish(
            MergeResult::Conflict,
        ),
{
    let plan = merger.methods();
    if responses.len() < plan.len() {
        lemma_skip_not_allowed(plan, MergeResult::Conflict, responses, responses.len() as int);
    } else {
        lemma_skip_not_allowed(plan, MergeResult::Conflict, responses, plan.len() as int);
    }
}

/// The dry-run merger reports success on every input and never requests a merge.
pub proof fn lemma_dummy_merger_always_succeeds(
    merger: DummyPullRequestMerger,
    responses: Seq<MergeResponse>,
)
    ensures
        merge_decision(merger.attempt_plan(), merger.result_when_exhausted(), responses, 0)
            == MergeDecision::Finish(MergeResult::Success),
        !(merge_decision(
            merger.attempt_plan(),
            merger.result_when_exhausted(),
            responses,
            0,
        ) is Submit),
{
}

} // verus!
