//! A pull request as the forge reports it, and the rules that read such a
//! report: how its readiness is classified and how an answer of the forge is
//! turned into data or into an error.
use crate::github::{GitHubError, GitHubErrorView, GitHubRepo, GitHubRepoView};
use vstd::prelude::*;
use vstd::string::*;

verus! {

/// Whether the forge can merge the pull request as it stands.
#[derive(Clone, Copy, Debug, PartialEq, Eq, Structural)]
pub enum MergeableState {
    Conflicting,
    Mergeable,
    Unknown,
    Other,
}

/// Life-cycle state of a pull request.
#[derive(Clone, Copy, Debug, PartialEq, Eq, Structural)]
pub enum PullRequestState {
    Closed,
    Merged,
    Open,
    Other,
}

/// Combined state of the checks of one commit.
#[derive(Clone, Copy, Debug, PartialEq, Eq, Structural)]
pub enum StatusState {
    Error,
    Expected,
    Failure,
    Pending,
    Success,
    Other,
}

/// Readiness of a pull request as shown in the status report.
#[derive(Clone, Copy, Debug, PartialEq, Eq, Structural)]
pub enum PullStatus {
    ChecksFailed,
    NeedsApproval,
    Mergeable,
    Merged,
}

/// One commit of a pull request: only its check rollup is of interest.
#[derive(Clone, Copy, Debug, PartialEq, Eq)]
pub struct PullRequestCommit {
    pub status_check_rollup: Option<StatusState>,
}

/// What the forge knows of one pull request.
#[derive(Clone, Debug, PartialEq, Eq)]
pub struct PullRequestDetails {
    pub id: String,
    pub permalink: String,
    pub merged: bool,
    pub mergeable: MergeableState,
    pub state: PullRequestState,
    /// The most recent commits, newest first; entries may be missing.
    pub commits: Option<Vec<Option<PullRequestCommit>>>,
}

/// A classified pull request.
#[derive(Debug, PartialEq, Eq)]
pub struct PullState {
    pub status: PullStatus,
    pub permalink: String,
}

/// The classification, in strict priority order: merged first, then the
/// forge's own mergeability flag, and only then the check rollup of the most
/// recent commit, where success and pending count as mergeable and everything
/// else, a missing rollup included, as failed checks.
pub open spec fn classify(merged: bool, mergeable: MergeableState, rollup: Option<StatusState>)
    -> PullStatus {
    if merged {
        PullStatus::Merged
    } else if mergeable == MergeableState::Mergeable {
        PullStatus::Mergeable
    } else if rollup == Some(StatusState::Success) || rollup == Some(StatusState::Pending) {
        PullStatus::Mergeable
    } else {
        PullStatus::ChecksFailed
    }
}

/// The check rollup of the first listed commit, if there is one.
pub open spec fn first_rollup(commits: Option<Vec<Option<PullRequestCommit>>>) -> Option<
    StatusState,
> {
    match commits {
        Some(nodes) => if nodes@.len() > 0 {
            match nodes@[0] {
                Some(commit) => commit.status_check_rollup,
                None => None,
            }
        } else {
            None
        },
        None => None,
    }
}

impl PullRequestDetails {
    /// The classification of this pull request.
    pub open spec fn status_spec(&self) -> PullStatus {
        classify(self.merged, self.mergeable, first_rollup(self.commits))
    }

    /// Check rollup of the most recent commit.
    pub fn latest_rollup(&self) -> (out: Option<StatusState>)
        ensures
            out == first_rollup(self.commits),
    {
        match &self.commits {
            Some(nodes) => {
                if nodes.len() > 0 {
                    match &nodes[0] {
                        Some(commit) => commit.status_check_rollup,
                        None => None,
                    }
                } else {
                    None
                }
            },
            None => None,
        }
    }

    /// Classifies the pull request.
    pub fn status(&self) -> (out: PullStatus)
        ensures
            out == self.status_spec(),
    {
        if self.merged {
            return PullStatus::Merged;
        }
        if self.mergeable == MergeableState::Mergeable {
            return PullStatus::Mergeable;
        }
        match self.latest_rollup() {
            Some(StatusState::Success) | Some(StatusState::Pending) => PullStatus::Mergeable,
            _ => PullStatus::ChecksFailed,
        }
    }

    /// Whether the pull request can still be updated.
    pub fn is_open(&self) -> (out: bool)
        ensures
            out == (self.state == PullRequestState::Open),
    {
        self.state == PullRequestState::Open
    }

    /// The classification together with the permalink.
    pub fn into_pull_state(self) -> (out: PullState)
        ensures
            out.status == self.status_spec(),
            out.permalink == self.permalink,
    {
        let status = self.status();
        PullState { status, permalink: self.permalink }
    }
}

/// A merged pull request is reported as merged whatever its mergeability flag
/// and its checks say.
pub proof fn merged_wins(mergeable: MergeableState, rollup: Option<StatusState>)
    ensures
        classify(true, mergeable, rollup) == PullStatus::Merged,
{
}

/// The forge's own flag outranks the checks of the latest commit.
pub proof fn mergeable_flag_outranks_checks(rollup: Option<StatusState>)
    ensures
        classify(false, MergeableState::Mergeable, rollup) == PullStatus::Mergeable,
{
}

/// Without the flag, an unmerged pull request is mergeable exactly when the
/// latest commit's rollup is success or pending; with no commit or no rollup it
/// has failed its checks.
pub proof fn checks_decide_last(mergeable: MergeableState, rollup: Option<StatusState>)
    requires
        mergeable != MergeableState::Mergeable,
    ensures
        classify(false, mergeable, rollup) == PullStatus::Mergeable <==> (rollup == Some(
            StatusState::Success,
        ) || rollup == Some(StatusState::Pending)),
        classify(false, mergeable, rollup) != PullStatus::Mergeable ==> classify(
            false,
            mergeable,
            rollup,
        ) == PullStatus::ChecksFailed,
        first_rollup(None) == None::<StatusState>,
        forall|nodes: Vec<Option<PullRequestCommit>>|
            nodes@.len() == 0 ==> #[trigger] first_rollup(Some(nodes)) == None::<StatusState>,
{
}

/// No pull request is ever classified as waiting for approval.
pub proof fn never_needs_approval(
    merged: bool,
    mergeable: MergeableState,
    rollup: Option<StatusState>,
)
    ensures
        classify(merged, mergeable, rollup) != PullStatus::NeedsApproval,
{
}

/// An answer to a GraphQL request: the decoded `data` member, if the answer
/// had one, and the `errors` member rendered as text.
#[derive(Clone, Debug, PartialEq, Eq)]
pub struct Reply<T> {
    pub data: Option<T>,
    pub errors: String,
}

/// The answer to a pull-request query, or the text of the transport failure.
/// Inside `data`: the repository, if it exists, and in it the pull request, if
/// it exists.
pub type PullRequestReply = Result<Reply<Option<Option<PullRequestDetails>>>, String>;

/// The default branch of a repository.
#[derive(Clone, Debug, PartialEq, Eq)]
pub struct BranchRef {
    pub name: String,
    pub prefix: String,
}

/// What the forge knows of one repository.
#[derive(Clone, Debug, PartialEq, Eq)]
pub struct RepositoryDetails {
    pub id: String,
    pub default_branch_ref: Option<BranchRef>,
}

/// The answer to a repository query. Inside `data`: the repository, if it
/// exists.
pub type RepositoryReply = Result<Reply<Option<RepositoryDetails>>, String>;

/// The pull request that a create or update call produced.
#[derive(Clone, Debug, PartialEq, Eq)]
pub struct PullRequestOutput {
    pub number: i64,
    pub permalink: String,
}

/// The answer to a create or update call. Inside `data`: the payload of the
/// call, if present, and in it the pull request, if present.
pub type MutationReply = Result<Reply<Option<Option<PullRequestOutput>>>, String>;

/// What a create call is aimed at.
#[derive(Clone, Debug, PartialEq, Eq)]
pub struct GithubApiRepo {
    pub id: String,
    pub target_branch: String,
    pub prefix: String,
}

/// A result whose error is seen through its view.
pub open spec fn seen<T>(r: Result<T, GitHubError>) -> Result<T, GitHubErrorView> {
    match r {
        Ok(v) => Ok(v),
        Err(e) => Err(e@),
    }
}

/// What a pull-request answer amounts to for the pull request `number` of
/// `repo`.
pub open spec fn details_of(repo: GitHubRepoView, number: i64, reply: PullRequestReply) -> Result<
    PullRequestDetails,
    GitHubErrorView,
> {
    match reply {
        Err(text) => Err(GitHubErrorView::NetworkError(text@)),
        Ok(answer) => match answer.data {
            None => Err(GitHubErrorView::GraphQlError { error: answer.errors@ }),
            Some(None) => Err(
                GitHubErrorView::NoSuchRepository { owner: repo.owner, repo: repo.repo },
            ),
            Some(Some(None)) => Err(
                GitHubErrorView::NoSuchPullRequest { owner: repo.owner, repo: repo.repo, number },
            ),
            Some(Some(Some(details))) => Ok(details),
        },
    }
}

/// Reads a pull-request answer: the details, or the error that names what was
/// missing.
pub fn pull_request_details(repo: &GitHubRepo, number: i64, reply: PullRequestReply) -> (out:
    Result<PullRequestDetails, GitHubError>)
    ensures
        seen(out) == details_of(repo@, number, reply),
{
    let answer = match reply {
        Ok(answer) => answer,
        Err(text) => {
            return Err(GitHubError::NetworkError(text));
        },
    };
    let repository = match answer.data {
        Some(repository) => repository,
        None => {
            return Err(GitHubError::GraphQlError { error: answer.errors });
        },
    };
    let pull_request = match repository {
        Some(pull_request) => pull_request,
        None => {
            return Err(
                GitHubError::NoSuchRepository {
                    owner: repo.owner.clone(),
                    repo: repo.repo.clone(),
                },
            );
        },
    };
    match pull_request {
        Some(details) => Ok(details),
        None => Err(
            GitHubError::NoSuchPullRequest {
                owner: repo.owner.clone(),
                repo: repo.repo.clone(),
                number,
            },
        ),
    }
}

/// The classified state a pull-request answer amounts to.
pub open spec fn pull_state_of(repo: GitHubRepoView, number: i64, reply: PullRequestReply)
    -> Result<(PullStatus, String), GitHubErrorView> {
    match details_of(repo, number, reply) {
        Ok(details) => Ok((details.status_spec(), details.permalink)),
        Err(e) => Err(e),
    }
}

/// Classifies the pull request `pr_number` of `repo` from the forge's answer
/// to the query for it.
pub fn fetch_pull_state(repo: &GitHubRepo, pr_number: i64, reply: PullRequestReply) -> (out:
    Result<PullState, GitHubError>)
    ensures
        match pull_state_of(repo@, pr_number, reply) {
            Ok(expected) => out matches Ok(state) && state.status == expected.0 && state.permalink
                == expected.1,
            Err(e) => out matches Err(got) && got@ == e,
        },
{
    match pull_request_details(repo, pr_number, reply) {
        Ok(details) => Ok(details.into_pull_state()),
        Err(e) => Err(e),
    }
}

/// What a repository answer amounts to: the identifier of the repository, its
/// default branch as a full reference, and the reference prefix.
pub open spec fn target_of(repo: GitHubRepoView, reply: RepositoryReply) -> Result<
    (String, Seq<char>, String),
    GitHubErrorView,
> {
    match reply {
        Err(text) => Err(GitHubErrorView::NetworkError(text@)),
        Ok(answer) => match answer.data {
            None => Err(GitHubErrorView::GraphQlError { error: answer.errors@ }),
            Some(None) => Err(
                GitHubErrorView::NoSuchRepository { owner: repo.owner, repo: repo.repo },
            ),
            Some(Some(details)) => match details.default_branch_ref {
                None => Err(
                    GitHubErrorView::NoDefaultBranch { owner: repo.owner, repo: repo.repo },
                ),
                Some(branch) => Ok((details.id, branch.prefix@ + branch.name@, branch.prefix)),
            },
        },
    }
}

/// Reads a repository answer.
pub fn repository_details(repo: &GitHubRepo, reply: RepositoryReply) -> (out: Result<
    GithubApiRepo,
    GitHubError,
>)
    ensures
        match target_of(repo@, reply) {
            Ok(expected) => out matches Ok(target) && target.id == expected.0
                && target.target_branch@ == expected.1 && target.prefix == expected.2,
            Err(e) => out matches Err(got) && got@ == e,
        },
{
    let answer = match reply {
        Ok(answer) => answer,
        Err(text) => {
            return Err(GitHubError::NetworkError(text));
        },
    };
    let repository = match answer.data {
        Some(repository) => repository,
        None => {
            return Err(GitHubError::GraphQlError { error: answer.errors });
        },
    };
    let details = match repository {
        Some(details) => details,
        None => {
            return Err(
                GitHubError::NoSuchRepository {
                    owner: repo.owner.clone(),
                    repo: repo.repo.clone(),
                },
            );
        },
    };
    match details.default_branch_ref {
        Some(branch) => {
            let target_branch = branch.prefix.clone().concat(branch.name.as_str());
            Ok(GithubApiRepo { id: details.id, target_branch, prefix: branch.prefix })
        },
        None => Err(
            GitHubError::NoDefaultBranch { owner: repo.owner.clone(), repo: repo.repo.clone() },
        ),
    }
}

/// What the answer to a create or update call amounts to.
pub open spec fn output_of(reply: MutationReply) -> Result<PullRequestOutput, GitHubErrorView> {
    match reply {
        Err(text) => Err(GitHubErrorView::NetworkError(text@)),
        Ok(answer) => match answer.data {
            None => Err(GitHubErrorView::GraphQlError { error: answer.errors@ }),
            Some(Some(Some(pull_request))) => Ok(pull_request),
            Some(_) => Err(GitHubErrorView::UnableToCreatePullRequest),
        },
    }
}

/// Reads the answer to a create or update call.
pub fn mutation_output(reply: MutationReply) -> (out: Result<PullRequestOutput, GitHubError>)
    ensures
        seen(out) == output_of(reply),
{
    let answer = match reply {
        Ok(answer) => answer,
        Err(text) => {
            return Err(GitHubError::NetworkError(text));
        },
    };
    match answer.data {
        None => Err(GitHubError::GraphQlError { error: answer.errors }),
        Some(Some(Some(pull_request))) => Ok(pull_request),
        Some(_) => Err(GitHubError::UnableToCreatePullRequest),
    }
}

} // verus!
