//! GitHub side of a campaign: repository coordinates, the error taxonomy and
//! the classification of a pull request's readiness.
pub use crate::pull_request::{fetch_pull_state, PullRequestOutput, PullState, PullStatus};
pub use crate::reconcile::PullRequestDescription;
use crate::text::{decimal, decimal_text};
use vstd::prelude::*;
use vstd::string::*;

verus! {

/// A repository on GitHub together with the URL it is cloned from.
#[derive(Debug, Clone, PartialEq, Eq)]
pub struct GitHubRepo {
    pub owner: String,
    pub repo: String,
    pub clone_url: String,
}

/// A repository with its texts as sequences of characters.
pub struct GitHubRepoView {
    pub owner: Seq<char>,
    pub repo: Seq<char>,
    pub clone_url: Seq<char>,
}

impl View for GitHubRepo {
    type V = GitHubRepoView;

    open spec fn view(&self) -> GitHubRepoView {
        GitHubRepoView { owner: self.owner@, repo: self.repo@, clone_url: self.clone_url@ }
    }
}

impl GitHubRepo {
    /// The repository `owner/repo`, cloned from `clone_url`.
    pub fn new(owner: &str, repo: &str, clone_url: &str) -> (out: Self)
        ensures
            out@.owner == owner@,
            out@.repo == repo@,
            out@.clone_url == clone_url@,
    {
        Self { owner: owner.to_owned(), repo: repo.to_owned(), clone_url: clone_url.to_owned() }
    }

    /// The `owner/repo` form used in messages.
    pub fn slug(&self) -> (out: String)
        ensures
            out@ == slug_of(self.owner@, self.repo@),
    {
        self.owner.clone().concat("/").concat(self.repo.as_str())
    }
}

/// `owner/repo`.
pub open spec fn slug_of(owner: Seq<char>, repo: Seq<char>) -> Seq<char> {
    owner + "/"@ + repo
}

/// What can go wrong while talking to GitHub.
#[derive(Debug, Clone, PartialEq, Eq)]
pub enum GitHubError {
    UnableToDetermineRepo { path: String },
    GraphQlError { error: String },
    NoSuchRepository { owner: String, repo: String },
    NoSuchPullRequest { owner: String, repo: String, number: i64 },
    NoDefaultBranch { owner: String, repo: String },
    UnableToCreatePullRequest,
    NetworkError(String),
}

/// A GitHub error with its texts as sequences of characters.
pub enum GitHubErrorView {
    UnableToDetermineRepo { path: Seq<char> },
    GraphQlError { error: Seq<char> },
    NoSuchRepository { owner: Seq<char>, repo: Seq<char> },
    NoSuchPullRequest { owner: Seq<char>, repo: Seq<char>, number: i64 },
    NoDefaultBranch { owner: Seq<char>, repo: Seq<char> },
    UnableToCreatePullRequest,
    NetworkError(Seq<char>),
}

impl View for GitHubError {
    type V = GitHubErrorView;

    open spec fn view(&self) -> GitHubErrorView {
        match self {
            GitHubError::UnableToDetermineRepo { path } => GitHubErrorView::UnableToDetermineRepo {
                path: path@,
            },
            GitHubError::GraphQlError { error } => GitHubErrorView::GraphQlError { error: error@ },
            GitHubError::NoSuchRepository { owner, repo } => GitHubErrorView::NoSuchRepository {
                owner: owner@,
                repo: repo@,
            },
            GitHubError::NoSuchPullRequest { owner, repo, number } => {
                GitHubErrorView::NoSuchPullRequest { owner: owner@, repo: repo@, number: *number }
            },
            GitHubError::NoDefaultBranch { owner, repo } => GitHubErrorView::NoDefaultBranch {
                owner: owner@,
                repo: repo@,
            },
            GitHubError::UnableToCreatePullRequest => GitHubErrorView::UnableToCreatePullRequest,
            GitHubError::NetworkError(text) => GitHubErrorView::NetworkError(text@),
        }
    }
}

/// The pattern a clone URL has to match: an HTTPS or SSH prefix on the host
/// `github.com`, spelled exactly, then `owner/repo` with an optional `.git`
/// suffix.
pub const REPO_URL_PATTERN: &'static str =
    "^(https://github\\.com/|git@github\\.com:)(?P<owner>.+?)/(?P<repo>.+?)(\\.git)?$";

/// What the `regex` crate captures in the groups named `first` and `second`
/// when `pattern` is matched against `haystack`: `None` when the pattern does
/// not compile, when it does not match, or when one of the groups took no part
/// in the match.
pub uninterp spec fn regex_named_pair(
    pattern: Seq<char>,
    haystack: Seq<char>,
    first: Seq<char>,
    second: Seq<char>,
) -> Option<(Seq<char>, Seq<char>)>;

/// A captured pair with its texts as sequences of characters.
pub open spec fn pair_view(pair: Option<(String, String)>) -> Option<(Seq<char>, Seq<char>)> {
    match pair {
        Some(p) => Some((p.0@, p.1@)),
        None => None,
    }
}

/// Compiles `pattern` with `regex::Regex::new`, searches `haystack` with
/// `Regex::captures` and reads two groups with `Captures::name`. Nothing is
/// proved of the matching itself: the contract only gives the outcome its name,
/// `regex_named_pair`, which is a function of the four strings.
#[verifier::external_body]
fn named_pair(pattern: &str, haystack: &str, first: &str, second: &str) -> (out: Option<
    (String, String),
>)
    ensures
        pair_view(out) == regex_named_pair(pattern@, haystack@, first@, second@),
{
    let found = regex::Regex::new(pattern).ok()?.captures(haystack)?;
    Some((found.name(first)?.as_str().to_owned(), found.name(second)?.as_str().to_owned()))
}

/// The outcome of resolving a URL, seen through the views of both sides.
pub open spec fn repo_result_view(r: Result<GitHubRepo, GitHubError>) -> Result<
    GitHubRepoView,
    GitHubErrorView,
> {
    match r {
        Ok(repo) => Ok(repo@),
        Err(e) => Err(e@),
    }
}

/// The repository a URL names, given what the URL pattern captured in it.
pub open spec fn repo_of_match(url: Seq<char>, captured: Option<(Seq<char>, Seq<char>)>) -> Result<
    GitHubRepoView,
    GitHubErrorView,
> {
    match captured {
        Some(p) => Ok(GitHubRepoView { owner: p.0, repo: p.1, clone_url: url }),
        None => Err(GitHubErrorView::UnableToDetermineRepo { path: url }),
    }
}

/// Builds the repository from the captured owner and name, or the error that
/// reports the URL as unrecognised.
pub fn repo_from_match(url: &str, captured: Option<(String, String)>) -> (out: Result<
    GitHubRepo,
    GitHubError,
>)
    ensures
        repo_result_view(out) == repo_of_match(url@, pair_view(captured)),
{
    match captured {
        Some(p) => Ok(GitHubRepo { owner: p.0, repo: p.1, clone_url: url.to_owned() }),
        None => Err(GitHubError::UnableToDetermineRepo { path: url.to_owned() }),
    }
}

/// Resolves a clone URL to its owner and repository. The URL is accepted
/// exactly when `REPO_URL_PATTERN` matches it.
pub fn extract_github_info(url: &str) -> (out: Result<GitHubRepo, GitHubError>)
    ensures
        repo_result_view(out) == repo_of_match(
            url@,
            regex_named_pair(REPO_URL_PATTERN@, url@, "owner"@, "repo"@),
        ),
{
    repo_from_match(url, named_pair(REPO_URL_PATTERN, url, "owner", "repo"))
}

impl GitHubErrorView {
    /// The text shown for the error.
    pub open spec fn message(self) -> Seq<char> {
        match self {
            GitHubErrorView::UnableToDetermineRepo { path } =>
                "Unable to determine GitHub owner/repo from "@ + path,
            GitHubErrorView::GraphQlError { error } => "GraphQL responded with errors: "@ + error,
            GitHubErrorView::NoSuchRepository { owner, repo } => "Repository "@ + owner + "/"@
                + repo + " does not exist"@,
            GitHubErrorView::NoSuchPullRequest { owner, repo, number } => "Pull Request "@ + owner
                + "/"@ + repo + "/"@ + decimal(number as int) + " does not exist"@,
            GitHubErrorView::NoDefaultBranch { owner, repo } => "Repository "@ + owner + "/"@
                + repo + " has no default branch"@,
            GitHubErrorView::UnableToCreatePullRequest => "Unable to create Pull Request"@,
            GitHubErrorView::NetworkError(text) => text,
        }
    }
}

impl GitHubError {
    /// The text shown for the error.
    pub fn message(&self) -> (out: String)
        ensures
            out@ == self@.message(),
    {
        match self {
            GitHubError::UnableToDetermineRepo { path } => String::from_str(
                "Unable to determine GitHub owner/repo from ",
            ).concat(path.as_str()),
            GitHubError::GraphQlError { error } => String::from_str(
                "GraphQL responded with errors: ",
            ).concat(error.as_str()),
            GitHubError::NoSuchRepository { owner, repo } => String::from_str(
                "Repository ",
            ).concat(owner.as_str()).concat("/").concat(repo.as_str()).concat(" does not exist"),
            GitHubError::NoSuchPullRequest { owner, repo, number } => {
                let digits = decimal_text(*number);
                String::from_str("Pull Request ").concat(owner.as_str()).concat("/").concat(
                    repo.as_str(),
                ).concat("/").concat(digits.as_str()).concat(" does not exist")
            },
            GitHubError::NoDefaultBranch { owner, repo } => String::from_str(
                "Repository ",
            ).concat(owner.as_str()).concat("/").concat(repo.as_str()).concat(
                " has no default branch",
            ),
            GitHubError::UnableToCreatePullRequest => String::from_str(
                "Unable to create Pull Request",
            ),
            GitHubError::NetworkError(text) => text.clone(),
        }
    }
}

} // verus!
