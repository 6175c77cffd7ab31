//! The pull request data that the rest of the library reads, as plain values.
use vstd::prelude::*;

verus! {

/// A strategy for integrating a pull request into its base branch.
#[derive(Clone, Copy, Debug, PartialEq, Eq, Structural)]
pub enum MergeMethod {
    Merge,
    Squash,
    Rebase,
}

/// Identifies the pull request that a run works on.
#[derive(Clone, Debug)]
pub struct PullRequestIdentifier {
    pub owner: String,
    pub repo: String,
    pub pull_number: u64,
}

/// The value of a string of decimal digits.
pub open spec fn decimal_value(s: Seq<char>) -> int
    decreases s.len(),
{
    if s.len() == 0 {
        0
    } else {
        decimal_value(s.drop_last()) * 10 + (s.last() as int - '0' as int)
    }
}

/// A non-empty string of decimal digits.
pub open spec fn is_decimal(s: Seq<char>) -> bool {
    s.len() > 0 && forall|i: int| 0 <= i < s.len() ==> '0' <= #[trigger] s[i] <= '9'
}

/// The value of a prefix of a string of digits is at most that of the whole string.
proof fn lemma_prefix_value_bounded(s: Seq<char>, i: int)
    requires
        forall|k: int| 0 <= k < s.len() ==> '0' <= #[trigger] s[k] <= '9',
        0 <= i <= s.len(),
    ensures
        0 <= decimal_value(s.subrange(0, i)) <= decimal_value(s),
    decreases s.len() - i,
{
    if i < s.len() {
        lemma_prefix_value_bounded(s, i + 1);
        assert(s.subrange(0, i + 1).drop_last() =~= s.subrange(0, i));
    } else {
        assert(s.subrange(0, i) =~= s);
    }
    lemma_value_nonnegative(s.subrange(0, i));
}

proof fn lemma_value_nonnegative(s: Seq<char>)
    requires
        forall|k: int| 0 <= k < s.len() ==> '0' <= #[trigger] s[k] <= '9',
    ensures
        decimal_value(s) >= 0,
    decreases s.len(),
{
    if s.len() > 0 {
        lemma_value_nonnegative(s.drop_last());
    }
}

/// The number that `s` spells in decimal, if it is one and fits in a `u64`.
pub fn parse_decimal(s: &str) -> (r: Option<u64>)
    ensures
        r is Some <==> is_decimal(s@) && decimal_value(s@) <= u64::MAX,
        r matches Some(v) ==> v == decimal_value(s@),
{
    let n = s.unicode_len();
    if n == 0 {
        return None;
    }
    let mut i: usize = 0;
    while i < n
        invariant
            n == s@.len(),
            i <= n,
            forall|k: int| 0 <= k < i ==> '0' <= #[trigger] s@[k] <= '9',
        decreases n - i,
    {
        let c = s.get_char(i);
        if c < '0' || c > '9' {
            return None;
        }
        i = i + 1;
    }
    let mut value: u64 = 0;
    let mut i: usize = 0;
    while i < n
        invariant
            n == s@.len(),
            i <= n,
            is_decimal(s@),
            value == decimal_value(s@.subrange(0, i as int)),
        decreases n - i,
    {
        let c = s.get_char(i);
        let digit = (c as u32 - '0' as u32) as u64;
        assert(s@.subrange(0, i + 1).drop_last() =~= s@.subrange(0, i as int));
        if value > (u64::MAX - digit) / 10 {
            proof {
                lemma_prefix_value_bounded(s@, i + 1);
            }
            return None;
        }
        value = value * 10 + digit;
        i = i + 1;
    }
    assert(s@.subrange(0, n as int) =~= s@);
    Some(value)
}

/// Why a pull request address could not be read.
#[derive(Clone, Copy, Debug, PartialEq, Eq, Structural)]
pub enum IdentifierError {
    /// The path is not `owner/repo/pull/number`.
    NotAPullRequestPath,
    /// The pull request number is not a decimal number that fits in 64 bits.
    InvalidPullNumber,
}

/// The path segments of a pull request's page: owner, repository, `pull`, number.
pub open spec fn is_pull_request_path(segments: Seq<String>) -> bool {
    &&& segments.len() == 4
    &&& segments[0]@.len() > 0
    &&& segments[1]@.len() > 0
    &&& segments[2]@ == seq!['p', 'u', 'l', 'l']
}

/// Whether `s` reads `pull`.
fn is_pull_word(s: &str) -> (r: bool)
    ensures
        r == (s@ == seq!['p', 'u', 'l', 'l']),
{
    if s.unicode_len() != 4 {
        return false;
    }
    let r = s.get_char(0) == 'p' && s.get_char(1) == 'u' && s.get_char(2) == 'l' && s.get_char(3)
        == 'l';
    if r {
        assert(s@ =~= seq!['p', 'u', 'l', 'l']);
    }
    r
}

impl PullRequestIdentifier {
    /// Reads the identifier from the path segments of a pull request's page address.
    pub fn from_path_segments(segments: &Vec<String>) -> (r: Result<Self, IdentifierError>)
        ensures
            !is_pull_request_path(segments@) ==> r == Err::<Self, IdentifierError>(
                IdentifierError::NotAPullRequestPath,
            ),
            is_pull_request_path(segments@) ==> match r {
                Ok(id) => id.owner == segments@[0] && id.repo == segments@[1] && is_decimal(
                    segments@[3]@,
                ) && id.pull_number == decimal_value(segments@[3]@),
                Err(e) => e == IdentifierError::InvalidPullNumber && !(is_decimal(
                    segments@[3]@,
                ) && decimal_value(segments@[3]@) <= u64::MAX),
            },
    {
        if segments.len() != 4 || segments[0].as_str().unicode_len() == 0
            || segments[1].as_str().unicode_len() == 0 || !is_pull_word(segments[2].as_str()) {
            return Err(IdentifierError::NotAPullRequestPath);
        }
        match parse_decimal(segments[3].as_str()) {
            Some(pull_number) => Ok(
                PullRequestIdentifier {
                    owner: segments[0].clone(),
                    repo: segments[1].clone(),
                    pull_number,
                },
            ),
            None => Err(IdentifierError::InvalidPullNumber),
        }
    }
}

/// Whether a pull request is still open, or was resolved.
#[derive(Clone, Copy, Debug, PartialEq, Eq, Structural)]
pub enum PullRequestState {
    Open,
    Closed,
    Merged,
}

/// How the head branch stands against its base, as the host reports it.
#[derive(Clone, Copy, Debug, PartialEq, Eq, Structural)]
pub enum MergeableState {
    Clean,
    Behind,
    Blocked,
    Dirty,
    Unstable,
    Draft,
    HasHooks,
    Unknown,
}

/// The state of one review left on a pull request.
#[derive(Clone, Copy, Debug, PartialEq, Eq, Structural)]
pub enum ReviewState {
    Approved,
    ChangesRequested,
    Commented,
    Dismissed,
    Pending,
}

/// A snapshot of a pull request, fetched afresh at the start of every cycle.
#[derive(Clone, Debug)]
pub struct PullRequest {
    pub title: String,
    pub body: Option<String>,
    pub head_sha: String,
    pub base_ref: String,
    pub state: PullRequestState,
    pub mergeable_state: MergeableState,
    pub reviews: Vec<ReviewState>,
}

/// What a workflow runner reports for the latest build of a commit.
#[derive(Clone, Copy, Debug, PartialEq, Eq, Structural)]
pub enum BuildStatus {
    Succeeded,
    Failed,
    Pending,
    Unknown,
}

/// The request that asks the host to merge a pull request.
#[derive(Clone, Debug)]
pub struct MergeRequestBody {
    /// The head commit that the pull request must still point at.
    pub sha: String,
    pub commit_title: String,
    pub commit_message: Option<String>,
    pub merge_method: MergeMethod,
}

/// How the host answered one merge request, classified.
#[derive(Clone, Copy, Debug, PartialEq, Eq, Structural)]
pub enum MergeResponse {
    /// The pull request was merged.
    Merged,
    /// The repository does not allow this merge method.
    MethodNotAllowed,
    /// The head commit no longer matches the expected one.
    Conflict,
    /// Any other failure; it ends the run.
    Failed,
}

} // verus!
