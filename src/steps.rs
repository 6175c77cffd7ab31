//! The readiness checks that must all pass before a merge is attempted.
use vstd::prelude::*;
use crate::config::{PullRequestReviewsConfig, RepoReviewsConfig};
use crate::github::{BuildStatus, MergeableState, PullRequest, PullRequestState, ReviewState};

verus! {

/// Why a cycle waits.
#[derive(Clone, Copy, Debug, PartialEq, Eq, Structural)]
pub enum WaitReason {
    /// The head branch is behind its base and must be updated first.
    BehindBase,
    /// A build of the head commit has not finished.
    BuildPending,
    /// A build of the head commit failed; someone has to look at it.
    BuildFailed,
    /// Fewer approving reviews than required.
    NotEnoughApprovals { approvals: u64, required: u32 },
}

/// The verdict of one readiness check.
#[derive(Clone, Copy, Debug, PartialEq, Eq, Structural)]
pub enum StepVerdict {
    Satisfied,
    NotSatisfied(WaitReason),
    /// The pull request was closed or merged elsewhere: there is nothing left to do.
    Resolved,
}

/// A readiness check could not be set up.
#[derive(Clone, Copy, Debug, PartialEq, Eq, Structural)]
pub enum StepError {
    /// Two review overrides name the same repository; the one at this index repeats
    /// an earlier one.
    DuplicateRepository(usize),
}

/// Some two overrides name the same repository.
pub open spec fn has_duplicate_repos(repos: Seq<RepoReviewsConfig>) -> bool {
    exists|i: int, j: int| 0 <= i < j < repos.len() && #[trigger] repos[i].repo@ == #[trigger] repos[j].repo@
}

/// Index `j` is the first override that names a repository named by an earlier one.
pub open spec fn first_duplicate_repo(repos: Seq<RepoReviewsConfig>, j: int) -> bool {
    &&& 0 <= j < repos.len()
    &&& exists|i: int| 0 <= i < j && #[trigger] repos[i].repo@ == repos[j].repo@
    &&& forall|a: int, b: int| 0 <= a < b < j ==> #[trigger] repos[a].repo@ != #[trigger] repos[b].repo@
}

/// The approvals required in `repo`: those of the first override from index `i` on
/// that names it, else the default.
pub open spec fn required_approvals_from(
    config: PullRequestReviewsConfig,
    repo: Seq<char>,
    i: int,
) -> u32
    decreases config.repos@.len() - i,
{
    if i < 0 || i >= config.repos@.len() {
        config.default.approvals
    } else if config.repos@[i].repo@ == repo {
        config.repos@[i].config.approvals
    } else {
        required_approvals_from(config, repo, i + 1)
    }
}

/// The approvals required in `repo`.
pub open spec fn required_approvals(config: PullRequestReviewsConfig, repo: Seq<char>) -> u32 {
    required_approvals_from(config, repo, 0)
}

/// The number of approving reviews among `reviews`.
pub open spec fn count_approved(reviews: Seq<ReviewState>) -> nat
    decreases reviews.len(),
{
    if reviews.len() == 0 {
        0
    } else {
        count_approved(reviews.drop_last()) + if reviews.last() == ReviewState::Approved {
            1nat
        } else {
            0nat
        }
    }
}

/// The verdict on the approving reviews of a pull request.
pub open spec fn reviews_verdict(approvals: nat, required: u32) -> StepVerdict {
    if approvals >= required {
        StepVerdict::Satisfied
    } else {
        StepVerdict::NotSatisfied(
            WaitReason::NotEnoughApprovals { approvals: approvals as u64, required },
        )
    }
}

/// The verdict on the builds of the head commit, one status per workflow runner: any
/// failure fails, all must have succeeded, anything else is still pending.
pub open spec fn builds_verdict(builds: Seq<BuildStatus>) -> StepVerdict {
    if exists|i: int| 0 <= i < builds.len() && builds[i] == BuildStatus::Failed {
        StepVerdict::NotSatisfied(WaitReason::BuildFailed)
    } else if forall|i: int| 0 <= i < builds.len() ==> builds[i] == BuildStatus::Succeeded {
        StepVerdict::Satisfied
    } else {
        StepVerdict::NotSatisfied(WaitReason::BuildPending)
    }
}

/// The check that a pull request has approving reviews enough, under the configured
/// policy.
pub struct CheckReviewsStep {
    pub config: PullRequestReviewsConfig,
}

impl CheckReviewsStep {
    /// Fails when two overrides name the same repository.
    pub fn new(config: PullRequestReviewsConfig) -> (r: Result<Self, StepError>)
        ensures
            r is Ok <==> !has_duplicate_repos(config.repos@),
            r matches Ok(s) ==> s.config == config,
            r matches Err(StepError::DuplicateRepository(j)) ==> first_duplicate_repo(
                config.repos@,
                j as int,
            ),
    {
        let n = config.repos.len();
        let mut j: usize = 0;
        while j < n
            invariant
                n == config.repos@.len(),
                j <= n,
                forall|a: int, b: int|
                    0 <= a < b < j ==> #[trigger] config.repos@[a].repo@ != #[trigger] config.repos@[b].repo@,
            decreases n - j,
        {
            let mut i: usize = 0;
            while i < j
                invariant
                    n == config.repos@.len(),
                    i <= j < n,
                    forall|a: int, b: int|
                        0 <= a < b < j ==> #[trigger] config.repos@[a].repo@ != #[trigger] config.repos@[b].repo@,
                    forall|a: int| 0 <= a < i ==> #[trigger] config.repos@[a].repo@ != config.repos@[j as int].repo@,
                decreases j - i,
            {
                if config.repos[i].repo == config.repos[j].repo {
                    assert(config.repos@[i as int].repo@ == config.repos@[j as int].repo@);
                    return Err(StepError::DuplicateRepository(j));
                }
                i = i + 1;
            }
            j = j + 1;
        }
        Ok(CheckReviewsStep { config })
    }

    /// The approvals required in `repo`.
    pub fn required_approvals(&self, repo: &String) -> (r: u32)
        ensures
            r == required_approvals(self.config, repo@),
    {
        let mut i: usize = 0;
        while i < self.config.repos.len()
            invariant
                i <= self.config.repos@.len(),
                required_approvals(self.config, repo@) == required_approvals_from(
                    self.config,
                    repo@,
                    i as int,
                ),
            decreases self.config.repos@.len() - i,
        {
            if self.config.repos[i].repo == *repo {
                return self.config.repos[i].config.approvals;
            }
            i = i + 1;
        }
        self.config.default.approvals
    }
}

/// The number of approving reviews among `reviews`.
pub fn count_approvals(reviews: &Vec<ReviewState>) -> (r: u64)
    requires
        reviews@.len() <= u64::MAX,
    ensures
        r == count_approved(reviews@),
{
    let mut count: u64 = 0;
    let mut i: usize = 0;
    while i < reviews.len()
        invariant
            i <= reviews@.len() <= u64::MAX,
            count == count_approved(reviews@.subrange(0, i as int)),
            count <= i,
        decreases reviews@.len() - i,
    {
        assert(reviews@.subrange(0, i + 1).drop_last() =~= reviews@.subrange(0, i as int));
        if reviews[i] == ReviewState::Approved {
            count = count + 1;
        }
        i = i + 1;
    }
    assert(reviews@.subrange(0, i as int) =~= reviews@);
    count
}

/// The verdict on the builds of the head commit, one status per workflow runner.
pub fn check_builds(builds: &Vec<BuildStatus>) -> (r: StepVerdict)
    ensures
        r == builds_verdict(builds@),
{
    let mut all_succeeded = true;
    let mut i: usize = 0;
    while i < builds.len()
        invariant
            i <= builds@.len(),
            forall|k: int| 0 <= k < i ==> builds@[k] != BuildStatus::Failed,
            all_succeeded <==> forall|k: int| 0 <= k < i ==> builds@[k] == BuildStatus::Succeeded,
        decreases builds@.len() - i,
    {
        if builds[i] == BuildStatus::Failed {
            return StepVerdict::NotSatisfied(WaitReason::BuildFailed);
        }
        if builds[i] != BuildStatus::Succeeded {
            all_succeeded = false;
        }
        i = i + 1;
    }
    if all_succeeded {
        StepVerdict::Satisfied
    } else {
        StepVerdict::NotSatisfied(WaitReason::BuildPending)
    }
}

/// One readiness check.
pub enum Step {
    /// The pull request must still be open.
    CheckCurrentState,
    /// The head branch must not be behind its base.
    CheckBehindMaster,
    /// Every workflow runner must report a successful build of the head commit.
    CheckBuildFailed,
    /// The pull request must have approving reviews enough.
    CheckReviews(CheckReviewsStep),
}

/// The verdict of `step` on pull request `pr` of repository `repo`, where `builds`
/// are the statuses that the workflow runners report for its head commit.
pub open spec fn step_verdict(
    step: Step,
    repo: Seq<char>,
    pr: PullRequest,
    builds: Seq<BuildStatus>,
) -> StepVerdict {
    match step {
        Step::CheckCurrentState => if pr.state == PullRequestState::Open {
            StepVerdict::Satisfied
        } else {
            StepVerdict::Resolved
        },
        Step::CheckBehindMaster => if pr.mergeable_state == MergeableState::Behind {
            StepVerdict::NotSatisfied(WaitReason::BehindBase)
        } else {
            StepVerdict::Satisfied
        },
        Step::CheckBuildFailed => builds_verdict(builds),
        Step::CheckReviews(s) => reviews_verdict(
            count_approved(pr.reviews@),
            required_approvals(s.config, repo),
        ),
    }
}

impl Step {
    /// Whether this check reads the workflow runners' build statuses.
    pub fn needs_build_statuses(&self) -> (r: bool)
        ensures
            r == (*self is CheckBuildFailed),
    {
        match self {
            Step::CheckBuildFailed => true,
            _ => false,
        }
    }

    /// Evaluates this check on pull request `pr` of repository `repo`; `builds` are the
    /// statuses that the workflow runners report for its head commit.
    pub fn evaluate(&self, repo: &String, pr: &PullRequest, builds: &Vec<BuildStatus>) -> (r:
        StepVerdict)
        requires
            pr.reviews@.len() <= u64::MAX,
        ensures
            r == step_verdict(*self, repo@, *pr, builds@),
    {
        match self {
            Step::CheckCurrentState => {
                if pr.state == PullRequestState::Open {
                    StepVerdict::Satisfied
                } else {
                    StepVerdict::Resolved
                }
            },
            Step::CheckBehindMaster => {
                if pr.mergeable_state == MergeableState::Behind {
                    StepVerdict::NotSatisfied(WaitReason::BehindBase)
                } else {
                    StepVerdict::Satisfied
                }
            },
            Step::CheckBuildFailed => check_builds(builds),
            Step::CheckReviews(s) => {
                let approvals = count_approvals(&pr.reviews);
                let required = s.required_approvals(repo);
                if approvals >= required as u64 {
                    StepVerdict::Satisfied
                } else {
                    StepVerdict::NotSatisfied(
                        WaitReason::NotEnoughApprovals { approvals, required },
                    )
                }
            },
        }
    }
}

/// The checks of a run, in the order they are evaluated: current state, behind base,
/// builds, and the reviews unless they are ignored.
pub fn build_steps(reviews_config: PullRequestReviewsConfig, ignore_reviews: bool) -> (r: Result<
    Vec<Step>,
    StepError,
>)
    ensures
        r is Err <==> (!ignore_reviews && has_duplicate_repos(reviews_config.repos@)),
        r matches Err(StepError::DuplicateRepository(j)) ==> first_duplicate_repo(
            reviews_config.repos@,
            j as int,
        ),
        r matches Ok(steps) ==> {
            &&& steps@.len() == if ignore_reviews { 3int } else { 4int }
            &&& steps@[0] is CheckCurrentState
            &&& steps@[1] is CheckBehindMaster
            &&& steps@[2] is CheckBuildFailed
            &&& !ignore_reviews ==> steps@[3] == Step::CheckReviews(CheckReviewsStep { config: reviews_config })
        },
{
    let mut steps: Vec<Step> = Vec::new();
    steps.push(Step::CheckCurrentState);
    steps.push(Step::CheckBehindMaster);
    steps.push(Step::CheckBuildFailed);
    if !ignore_reviews {
        match CheckReviewsStep::new(reviews_config) {
            Ok(step) => steps.push(Step::CheckReviews(step)),
            Err(e) => {
                return Err(e);
            },
        }
    }
    Ok(steps)
}

} // verus!
