//! Reconciliation of a target's pull request with the forge: whether to update
//! the remembered pull request or to create a new one, one decision per answer
//! of the forge. The caller sends what an action asks for and hands the answer
//! back; no request is made from here.
use crate::github::{GitHubError, GitHubErrorView, GitHubRepo, GitHubRepoView};
use crate::pull_request::{
    details_of, mutation_output, output_of, pull_request_details, repository_details, seen,
    target_of, MutationReply, PullRequestOutput, PullRequestReply, PullRequestState,
    RepositoryReply,
};
use vstd::prelude::*;
use vstd::string::*;

verus! {

/// The branch to publish and the texts of its pull request.
#[derive(Clone, Copy, Debug)]
pub struct PullRequestDescription<'a> {
    pub branch: &'a str,
    pub title: &'a str,
    pub body: &'a str,
}

/// A description with its texts as sequences of characters.
pub struct PullRequestDescriptionView {
    pub branch: Seq<char>,
    pub title: Seq<char>,
    pub body: Seq<char>,
}

impl<'a> View for PullRequestDescription<'a> {
    type V = PullRequestDescriptionView;

    open spec fn view(&self) -> PullRequestDescriptionView {
        PullRequestDescriptionView { branch: self.branch@, title: self.title@, body: self.body@ }
    }
}

/// Why a pull request is looked up.
#[derive(Clone, Copy, Debug, PartialEq, Eq, Structural)]
pub enum Lookup {
    /// To learn whether the remembered pull request is still open.
    CheckOpen,
    /// To learn the identifier of the pull request that is about to be updated.
    LoadForUpdate,
}

/// What the caller has to do next.
#[derive(Debug, PartialEq, Eq)]
pub enum SyncAction {
    /// Query the pull request `number` of the repository and hand the answer
    /// to `on_pull_request` with the same number and purpose.
    AskPullRequest { number: i64, purpose: Lookup },
    /// Query the repository and hand the answer to `on_repository`.
    AskRepository,
    /// Update title and body of a pull request and hand the answer to
    /// `on_mutation`.
    Update { pull_request_id: String, body: String, title: String },
    /// Create a pull request and hand the answer to `on_mutation`.
    Create { repository_id: String, base_ref: String, head_ref: String, body: String, title: String },
    /// The reconciliation is over.
    Done(Result<PullRequestOutput, GitHubError>),
}

/// An action with its texts as sequences of characters.
pub enum SyncActionView {
    AskPullRequest { number: i64, purpose: Lookup },
    AskRepository,
    Update { pull_request_id: Seq<char>, body: Seq<char>, title: Seq<char> },
    Create {
        repository_id: Seq<char>,
        base_ref: Seq<char>,
        head_ref: Seq<char>,
        body: Seq<char>,
        title: Seq<char>,
    },
    Done(Result<PullRequestOutput, GitHubErrorView>),
}

impl View for SyncAction {
    type V = SyncActionView;

    open spec fn view(&self) -> SyncActionView {
        match self {
            SyncAction::AskPullRequest { number, purpose } => SyncActionView::AskPullRequest {
                number: *number,
                purpose: *purpose,
            },
            SyncAction::AskRepository => SyncActionView::AskRepository,
            SyncAction::Update { pull_request_id, body, title } => SyncActionView::Update {
                pull_request_id: pull_request_id@,
                body: body@,
                title: title@,
            },
            SyncAction::Create { repository_id, base_ref, head_ref, body, title } => {
                SyncActionView::Create {
                    repository_id: repository_id@,
                    base_ref: base_ref@,
                    head_ref: head_ref@,
                    body: body@,
                    title: title@,
                }
            },
            SyncAction::Done(outcome) => SyncActionView::Done(seen(*outcome)),
        }
    }
}

/// First action: with a remembered pull request, ask whether it is still
/// open; without one, go for the repository, whose default branch a new pull
/// request is opened against.
pub open spec fn first_action(pr_number: Option<i64>) -> SyncActionView {
    match pr_number {
        Some(number) => SyncActionView::AskPullRequest { number, purpose: Lookup::CheckOpen },
        None => SyncActionView::AskRepository,
    }
}

/// Starts the reconciliation of one target.
pub fn sync_pull_request(pr_number: Option<i64>) -> (out: SyncAction)
    ensures
        out@ == first_action(pr_number),
{
    match pr_number {
        Some(number) => SyncAction::AskPullRequest { number, purpose: Lookup::CheckOpen },
        None => SyncAction::AskRepository,
    }
}

/// The action after a pull-request answer. An answer that cannot be read ends
/// the reconciliation with its error. Asked whether the pull request is open:
/// an open one is looked up once more to be updated, any other state leads to
/// the repository and so to a new pull request. Asked for the update: title
/// and body are replaced, and nothing else.
pub open spec fn after_pull_request(
    repo: GitHubRepoView,
    description: PullRequestDescriptionView,
    number: i64,
    purpose: Lookup,
    reply: PullRequestReply,
) -> SyncActionView {
    match details_of(repo, number, reply) {
        Err(e) => SyncActionView::Done(Err(e)),
        Ok(details) => match purpose {
            Lookup::CheckOpen => if details.state == PullRequestState::Open {
                SyncActionView::AskPullRequest { number, purpose: Lookup::LoadForUpdate }
            } else {
                SyncActionView::AskRepository
            },
            Lookup::LoadForUpdate => SyncActionView::Update {
                pull_request_id: details.id@,
                body: description.body,
                title: description.title,
            },
        },
    }
}

/// Decides on the answer to a pull-request query.
pub fn on_pull_request(
    repo: &GitHubRepo,
    description: &PullRequestDescription<'_>,
    number: i64,
    purpose: Lookup,
    reply: PullRequestReply,
) -> (out: SyncAction)
    ensures
        out@ == after_pull_request(repo@, description@, number, purpose, reply),
{
    let details = match pull_request_details(repo, number, reply) {
        Ok(details) => details,
        Err(e) => {
            return SyncAction::Done(Err(e));
        },
    };
    match purpose {
        Lookup::CheckOpen => {
            if details.is_open() {
                SyncAction::AskPullRequest { number, purpose: Lookup::LoadForUpdate }
            } else {
                SyncAction::AskRepository
            }
        },
        Lookup::LoadForUpdate => SyncAction::Update {
            pull_request_id: details.id,
            body: description.body.to_owned(),
            title: description.title.to_owned(),
        },
    }
}

/// The action after a repository answer: a new pull request from the
/// configured branch, written as a full reference, into the repository's
/// default branch; or the end, with the error of an answer that cannot be
/// read.
pub open spec fn after_repository(
    repo: GitHubRepoView,
    description: PullRequestDescriptionView,
    reply: RepositoryReply,
) -> SyncActionView {
    match target_of(repo, reply) {
        Err(e) => SyncActionView::Done(Err(e)),
        Ok(target) => SyncActionView::Create {
            repository_id: target.0@,
            base_ref: target.1,
            head_ref: target.2@ + description.branch,
            body: description.body,
            title: description.title,
        },
    }
}

/// Decides on the answer to a repository query.
pub fn on_repository(
    repo: &GitHubRepo,
    description: &PullRequestDescription<'_>,
    reply: RepositoryReply,
) -> (out: SyncAction)
    ensures
        out@ == after_repository(repo@, description@, reply),
{
    match repository_details(repo, reply) {
        Err(e) => SyncAction::Done(Err(e)),
        Ok(target) => {
            let head_ref = target.prefix.concat(description.branch);
            SyncAction::Create {
                repository_id: target.id,
                base_ref: target.target_branch,
                head_ref,
                body: description.body.to_owned(),
                title: description.title.to_owned(),
            }
        },
    }
}

/// Ends the reconciliation with what the create or update call answered.
pub fn on_mutation(reply: MutationReply) -> (out: SyncAction)
    ensures
        out@ == SyncActionView::Done(output_of(reply)),
{
    SyncAction::Done(mutation_output(reply))
}

/// A remembered pull request that is still open is updated: the reconciliation
/// asks for it, asks once more for its identifier, and then sends an update of
/// title and body for that identifier. No create call is part of it.
pub proof fn open_pull_request_is_updated(
    repo: GitHubRepoView,
    description: PullRequestDescriptionView,
    number: i64,
    first: PullRequestReply,
    second: PullRequestReply,
)
    requires
        details_of(repo, number, first) matches Ok(d) && d.state == PullRequestState::Open,
        details_of(repo, number, second) is Ok,
    ensures
        first_action(Some(number)) == (SyncActionView::AskPullRequest {
            number,
            purpose: Lookup::CheckOpen,
        }),
        after_pull_request(repo, description, number, Lookup::CheckOpen, first) == (
        SyncActionView::AskPullRequest { number, purpose: Lookup::LoadForUpdate }),
        after_pull_request(repo, description, number, Lookup::LoadForUpdate, second) == (
        SyncActionView::Update {
            pull_request_id: details_of(repo, number, second)->Ok_0.id@,
            body: description.body,
            title: description.title,
        }),
{
}

/// A remembered pull request that is no longer open is replaced: the
/// reconciliation turns to the repository and then sends a create call against
/// its default branch. No update call is part of it.
pub proof fn closed_pull_request_is_recreated(
    repo: GitHubRepoView,
    description: PullRequestDescriptionView,
    number: i64,
    first: PullRequestReply,
    second: RepositoryReply,
)
    requires
        details_of(repo, number, first) matches Ok(d) && d.state != PullRequestState::Open,
        target_of(repo, second) is Ok,
    ensures
        after_pull_request(repo, description, number, Lookup::CheckOpen, first)
            == SyncActionView::AskRepository,
        after_repository(repo, description, second) is Create,
        after_repository(repo, description, second)->Create_base_ref == target_of(
            repo,
            second,
        )->Ok_0.1,
{
}

/// Whatever the forge answers, a pull-request answer never leads to a create
/// call and a repository answer never leads to an update call.
pub proof fn paths_do_not_cross(
    repo: GitHubRepoView,
    description: PullRequestDescriptionView,
    number: i64,
    purpose: Lookup,
    pull: PullRequestReply,
    repository: RepositoryReply,
)
    ensures
        !(after_pull_request(repo, description, number, purpose, pull) is Create),
        !(after_repository(repo, description, repository) is Update),
        !(after_repository(repo, description, repository) is AskPullRequest),
{
}

} // verus!
