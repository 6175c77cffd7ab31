use mergebro::config::{
    MergeConfig, PollConfig, PullRequestReviewsConfig, RepoReviewsConfig, ReviewsConfig,
    WorkflowsConfig,
};
use mergebro::director::{CycleAction, Director, DirectorState};
use mergebro::github::{
    parse_decimal, BuildStatus, IdentifierError, MergeMethod, MergeResponse, MergeableState,
    PullRequest, PullRequestIdentifier, PullRequestState, ReviewState,
};
use mergebro::merge::{DefaultPullRequestMerger, DummyPullRequestMerger, MergeResult, PullRequestMerger};
use mergebro::steps::{
    build_steps, check_builds, count_approvals, CheckReviewsStep, Step, StepError, StepVerdict,
    WaitReason,
};

fn identifier() -> PullRequestIdentifier {
    PullRequestIdentifier { owner: "acme".to_string(), repo: "widgets".to_string(), pull_number: 7 }
}

fn open_pr(reviews: Vec<ReviewState>) -> PullRequest {
    PullRequest {
        title: "Fix".to_string(),
        body: None,
        head_sha: "deadbeef".to_string(),
        base_ref: "main".to_string(),
        state: PullRequestState::Open,
        mergeable_state: MergeableState::Clean,
        reviews,
    }
}

fn reviews_config(default: u32, repos: &[(&str, u32)]) -> PullRequestReviewsConfig {
    PullRequestReviewsConfig {
        default: ReviewsConfig { approvals: default },
        repos: repos
            .iter()
            .map(|(r, a)| RepoReviewsConfig {
                repo: r.to_string(),
                config: ReviewsConfig { approvals: *a },
            })
            .collect(),
    }
}

/// Runs one cycle: evaluates checks as asked and answers merge requests from `answers`.
/// Returns the final action and how many merge requests were sent.
fn run_cycle<M: PullRequestMerger>(
    director: &Director<M>,
    pr: &PullRequest,
    builds: &Vec<BuildStatus>,
    answers: &[MergeResponse],
) -> (CycleAction, usize) {
    let mut verdicts = vec![];
    let mut responses = vec![];
    loop {
        match director.run(&verdicts, &responses) {
            CycleAction::RunStep(i) => {
                verdicts.push(director.steps[i].evaluate(&director.identifier.repo, pr, builds))
            }
            CycleAction::Submit(_) => responses.push(answers[responses.len()]),
            other => return (other, responses.len()),
        }
    }
}

fn default_director(reviews: PullRequestReviewsConfig) -> Director<DefaultPullRequestMerger> {
    let steps = build_steps(reviews, false).unwrap();
    let merger = DefaultPullRequestMerger::new(MergeConfig { default_method: MergeMethod::Merge });
    Director::new(merger, steps, identifier())
}

#[test]
fn config_defaults() {
    assert_eq!(PollConfig::default().delay_seconds, 30);
    assert_eq!(MergeConfig::default().default_method, MergeMethod::Merge);
    assert!(WorkflowsConfig::default().circleci.is_none());
    let reviews = PullRequestReviewsConfig::default();
    assert_eq!(reviews.default.approvals, 1);
    assert!(reviews.repos.is_empty());
}

#[test]
fn repository_override_of_two_with_one_approval_waits() {
    let director = default_director(reviews_config(1, &[("widgets", 2)]));
    let pr = open_pr(vec![ReviewState::Approved, ReviewState::Commented]);
    let (action, merges) = run_cycle(&director, &pr, &vec![BuildStatus::Succeeded], &[]);
    assert_eq!(action, CycleAction::Finish(DirectorState::Waiting));
    assert_eq!(merges, 0);
}

#[test]
fn head_changed_before_merge_waits() {
    let director = default_director(reviews_config(1, &[]));
    let pr = open_pr(vec![ReviewState::Approved]);
    let (action, merges) =
        run_cycle(&director, &pr, &vec![BuildStatus::Succeeded], &[MergeResponse::Conflict]);
    assert_eq!(action, CycleAction::Finish(DirectorState::Waiting));
    assert_eq!(merges, 1);
}

#[test]
fn successful_merge_is_done() {
    let director = default_director(reviews_config(1, &[]));
    let pr = open_pr(vec![ReviewState::Approved]);
    let answers = [MergeResponse::MethodNotAllowed, MergeResponse::Merged];
    let (action, merges) = run_cycle(&director, &pr, &vec![], &answers);
    assert_eq!(action, CycleAction::Finish(DirectorState::Done));
    assert_eq!(merges, 2);
}

#[test]
fn failed_merge_request_fails_cycle() {
    let director = default_director(reviews_config(1, &[]));
    let pr = open_pr(vec![ReviewState::Approved]);
    let (action, _) = run_cycle(&director, &pr, &vec![], &[MergeResponse::Failed]);
    assert_eq!(action, CycleAction::Fail);
}

#[test]
fn closed_pull_request_is_done_without_merge() {
    let director = default_director(reviews_config(1, &[]));
    let mut pr = open_pr(vec![ReviewState::Approved]);
    pr.state = PullRequestState::Merged;
    let (action, merges) = run_cycle(&director, &pr, &vec![], &[]);
    assert_eq!(action, CycleAction::Finish(DirectorState::Done));
    assert_eq!(merges, 0);
}

#[test]
fn behind_base_waits() {
    let director = default_director(reviews_config(1, &[]));
    let mut pr = open_pr(vec![ReviewState::Approved]);
    pr.mergeable_state = MergeableState::Behind;
    assert_eq!(
        director.steps[1].evaluate(&director.identifier.repo, &pr, &vec![]),
        StepVerdict::NotSatisfied(WaitReason::BehindBase)
    );
    let (action, merges) = run_cycle(&director, &pr, &vec![], &[]);
    assert_eq!(action, CycleAction::Finish(DirectorState::Waiting));
    assert_eq!(merges, 0);
}

#[test]
fn first_action_runs_first_check() {
    let director = default_director(reviews_config(1, &[]));
    assert_eq!(director.run(&vec![], &vec![]), CycleAction::RunStep(0));
    let verdicts = vec![StepVerdict::Satisfied, StepVerdict::Satisfied];
    assert_eq!(director.run(&verdicts, &vec![]), CycleAction::RunStep(2));
}

#[test]
fn dry_run_cycle_is_done_without_requests() {
    let steps = build_steps(reviews_config(1, &[]), true).unwrap();
    assert_eq!(steps.len(), 3);
    let director = Director::new(DummyPullRequestMerger::default(), steps, identifier());
    let pr = open_pr(vec![]);
    let (action, merges) = run_cycle(&director, &pr, &vec![], &[]);
    assert_eq!(action, CycleAction::Finish(DirectorState::Done));
    assert_eq!(merges, 0);
}

#[test]
fn state_after_merge_maps_results() {
    assert_eq!(Director::<DummyPullRequestMerger>::state_after_merge(MergeResult::Success), DirectorState::Done);
    assert_eq!(Director::<DummyPullRequestMerger>::state_after_merge(MergeResult::Conflict), DirectorState::Waiting);
}

#[test]
fn build_statuses_combine() {
    assert_eq!(check_builds(&vec![]), StepVerdict::Satisfied);
    assert_eq!(
        check_builds(&vec![BuildStatus::Succeeded, BuildStatus::Succeeded]),
        StepVerdict::Satisfied
    );
    assert_eq!(
        check_builds(&vec![BuildStatus::Succeeded, BuildStatus::Pending]),
        StepVerdict::NotSatisfied(WaitReason::BuildPending)
    );
    assert_eq!(
        check_builds(&vec![BuildStatus::Unknown]),
        StepVerdict::NotSatisfied(WaitReason::BuildPending)
    );
    assert_eq!(
        check_builds(&vec![BuildStatus::Pending, BuildStatus::Failed]),
        StepVerdict::NotSatisfied(WaitReason::BuildFailed)
    );
}

#[test]
fn approvals_are_counted() {
    let reviews = vec![
        ReviewState::Approved,
        ReviewState::ChangesRequested,
        ReviewState::Approved,
        ReviewState::Dismissed,
    ];
    assert_eq!(count_approvals(&reviews), 2);
    assert_eq!(count_approvals(&vec![]), 0);
}

#[test]
fn required_approvals_fall_back_to_default() {
    let step = CheckReviewsStep::new(reviews_config(1, &[("widgets", 2), ("gears", 3)])).unwrap();
    assert_eq!(step.required_approvals(&"widgets".to_string()), 2);
    assert_eq!(step.required_approvals(&"gears".to_string()), 3);
    assert_eq!(step.required_approvals(&"other".to_string()), 1);
    let verdict = Step::CheckReviews(step).evaluate(
        &"gears".to_string(),
        &open_pr(vec![ReviewState::Approved, ReviewState::Approved]),
        &vec![],
    );
    assert_eq!(
        verdict,
        StepVerdict::NotSatisfied(WaitReason::NotEnoughApprovals { approvals: 2, required: 3 })
    );
}

#[test]
fn duplicate_repository_override_is_rejected() {
    let config = reviews_config(1, &[("widgets", 2), ("gears", 1), ("widgets", 3)]);
    assert_eq!(CheckReviewsStep::new(config).err(), Some(StepError::DuplicateRepository(2)));
    let config = reviews_config(1, &[("widgets", 2), ("widgets", 3)]);
    assert_eq!(build_steps(config, false).err(), Some(StepError::DuplicateRepository(1)));
    let config = reviews_config(1, &[("widgets", 2), ("widgets", 3)]);
    assert_eq!(build_steps(config, true).map(|s| s.len()).ok(), Some(3));
}

#[test]
fn pull_request_path_is_read() {
    let segments: Vec<String> =
        ["acme", "widgets", "pull", "42"].iter().map(|s| s.to_string()).collect();
    let id = PullRequestIdentifier::from_path_segments(&segments).unwrap();
    assert_eq!(id.owner, "acme");
    assert_eq!(id.repo, "widgets");
    assert_eq!(id.pull_number, 42);
}

#[test]
fn malformed_pull_request_paths_are_rejected() {
    let to_vec = |v: &[&str]| v.iter().map(|s| s.to_string()).collect::<Vec<String>>();
    assert_eq!(
        PullRequestIdentifier::from_path_segments(&to_vec(&["acme", "widgets", "issues", "42"]))
            .err(),
        Some(IdentifierError::NotAPullRequestPath)
    );
    assert_eq!(
        PullRequestIdentifier::from_path_segments(&to_vec(&["acme", "widgets", "pull"])).err(),
        Some(IdentifierError::NotAPullRequestPath)
    );
    assert_eq!(
        PullRequestIdentifier::from_path_segments(&to_vec(&["acme", "widgets", "pull", "4x"]))
            .err(),
        Some(IdentifierError::InvalidPullNumber)
    );
}

#[test]
fn decimal_numbers_are_parsed() {
    assert_eq!(parse_decimal("0"), Some(0));
    assert_eq!(parse_decimal("1234"), Some(1234));
    assert_eq!(parse_decimal("18446744073709551615"), Some(u64::MAX));
    assert_eq!(parse_decimal("18446744073709551616"), None);
    assert_eq!(parse_decimal(""), None);
    assert_eq!(parse_decimal("-1"), None);
}
