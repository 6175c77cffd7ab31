//! The settings that the library is built from.
use vstd::prelude::*;
use crate::github::MergeMethod;

verus! {

/// All settings of a run.
#[derive(Debug)]
pub struct MergebroConfig {
    pub github: GithubConfig,
    pub merge: MergeConfig,
    pub poll: PollConfig,
    pub workflows: WorkflowsConfig,
    pub reviews: PullRequestReviewsConfig,
}

/// How long to wait between two cycles.
#[derive(Debug)]
pub struct PollConfig {
    pub delay_seconds: u8,
}

impl Default for PollConfig {
    fn default() -> (r: PollConfig)
        ensures
            r.delay_seconds == 30,
    {
        PollConfig { delay_seconds: 30 }
    }
}

/// The merge method to try first.
#[derive(Debug)]
pub struct MergeConfig {
    pub default_method: MergeMethod,
}

impl Default for MergeConfig {
    fn default() -> (r: MergeConfig)
        ensures
            r.default_method == MergeMethod::Merge,
    {
        MergeConfig { default_method: MergeMethod::Merge }
    }
}

/// The account that talks to the host.
#[derive(Debug)]
pub struct GithubConfig {
    pub username: String,
    pub token: String,
}

/// The external workflow runners that are configured.
#[derive(Debug)]
pub struct WorkflowsConfig {
    pub circleci: Option<CircleCiConfig>,
}

impl Default for WorkflowsConfig {
    fn default() -> (r: WorkflowsConfig)
        ensures
            r.circleci.is_none(),
    {
        WorkflowsConfig { circleci: None }
    }
}

/// Access to the CircleCI service.
#[derive(Debug)]
pub struct CircleCiConfig {
    pub token: String,
}

/// How many approvals a pull request needs: a default, and overrides per repository.
#[derive(Debug)]
pub struct PullRequestReviewsConfig {
    pub default: ReviewsConfig,
    pub repos: Vec<RepoReviewsConfig>,
}

impl Default for PullRequestReviewsConfig {
    fn default() -> (r: Self)
        ensures
            r.default.approvals == 1,
            r.repos@.len() == 0,
    {
        Self { default: ReviewsConfig { approvals: 1 }, repos: Vec::new() }
    }
}

/// The review settings of one repository.
#[derive(Debug)]
pub struct RepoReviewsConfig {
    pub repo: String,
    pub config: ReviewsConfig,
}

/// A number of approving reviews.
#[derive(Debug)]
pub struct ReviewsConfig {
    pub approvals: u32,
}

} // verus!
