//! Follow-up work on the pull requests of a campaign: a script run once for
//! every target that has one.
use crate::github::{
    extract_github_info, regex_named_pair, repo_of_match, GitHubError, GitHubRepo,
    REPO_URL_PATTERN,
};
use crate::migration::{MigrationError, MigrationErrorView};
use crate::models::{CreatedPullRequest, CreatedPullRequestView, MigrationInput, NamedTarget};
use crate::pull_request::PullState;
use crate::steps::MigrationStepResult;
use crate::workspace::{env_view, keys_of, keys_once, work_dir, work_dir_of, CommandError};
use vstd::prelude::*;
use vstd::string::*;

verus! {

/// The follow-up for one target.
#[derive(Debug, PartialEq, Eq)]
pub struct WorkTask {
    pub repo_name: String,
    pub pull: CreatedPullRequest,
    pub clone_url: String,
    pub target_dir: String,
    pub followup_script: String,
}

/// A follow-up task with its texts as sequences of characters.
pub struct WorkTaskView {
    pub repo_name: Seq<char>,
    pub pull: CreatedPullRequestView,
    pub clone_url: Seq<char>,
    pub target_dir: Seq<char>,
    pub followup_script: Seq<char>,
}

impl View for WorkTask {
    type V = WorkTaskView;

    open spec fn view(&self) -> WorkTaskView {
        WorkTaskView {
            repo_name: self.repo_name@,
            pull: self.pull@,
            clone_url: self.clone_url@,
            target_dir: self.target_dir@,
            followup_script: self.followup_script@,
        }
    }
}

/// The follow-up tasks for the first `upto` targets: one for each target
/// that remembers a pull request, in the order of the targets, each in the
/// directory below `root` that belongs to the target's position.
pub open spec fn follow_ups(
    targets: Seq<NamedTarget>,
    root: Seq<char>,
    script: Seq<char>,
    upto: int,
) -> Seq<WorkTaskView>
    decreases upto,
{
    if upto <= 0 {
        Seq::empty()
    } else {
        let earlier = follow_ups(targets, root, script, upto - 1);
        let entry = targets[upto - 1];
        match entry.target.pull_request {
            Some(pr) => earlier.push(
                WorkTaskView {
                    repo_name: entry.name@,
                    pull: pr@,
                    clone_url: entry.target.repo@,
                    target_dir: work_dir_of(root, (upto - 1) as nat),
                    followup_script: script,
                },
            ),
            None => earlier,
        }
    }
}

/// The tasks of a queue, each by its view.
pub open spec fn queue_view(queue: Seq<WorkTask>) -> Seq<WorkTaskView> {
    queue.map_values(|t: WorkTask| t@)
}

/// The follow-up tasks of a campaign: one for each target that remembers a
/// pull request, in the order of the targets, all with the same script and
/// each with a directory of its own.
pub fn work_queue(input: &MigrationInput, work_directory_root: &str, followup_script: &str) -> (out:
    Vec<WorkTask>)
    ensures
        queue_view(out@) == follow_ups(
            input.targets@,
            work_directory_root@,
            followup_script@,
            input.targets@.len() as int,
        ),
{
    let mut queue: Vec<WorkTask> = Vec::new();
    let mut i: usize = 0;
    assert(queue_view(queue@) =~= follow_ups(
        input.targets@,
        work_directory_root@,
        followup_script@,
        0,
    ));
    while i < input.targets.len()
        invariant
            i <= input.targets@.len(),
            queue_view(queue@) == follow_ups(
                input.targets@,
                work_directory_root@,
                followup_script@,
                i as int,
            ),
        decreases input.targets@.len() - i,
    {
        let entry = &input.targets[i];
        let ghost before = queue@;
        match &entry.target.pull_request {
            Some(pull) => {
                let task = WorkTask {
                    repo_name: entry.name.clone(),
                    pull: pull.clone(),
                    clone_url: entry.target.repo.clone(),
                    target_dir: work_dir(work_directory_root, i),
                    followup_script: followup_script.to_owned(),
                };
                queue.push(task);
                assert(queue_view(queue@) =~= queue_view(before).push(task@));
            },
            None => {},
        }
        i += 1;
    }
    queue
}

/// The environment of a follow-up script: the clone URL and the permalink of
/// the pull request.
pub open spec fn followup_env(clone_url: Seq<char>, permalink: Seq<char>) -> Seq<
    (Seq<char>, Seq<char>),
> {
    seq![("CLU_CLONE_URL"@, clone_url), ("CLU_PULL_REQUEST_URL"@, permalink)]
}

impl WorkTask {
    /// Judges the resolution of the clone URL: a URL that names no
    /// repository fails the follow-up.
    pub fn repository(&self, resolved: Result<GitHubRepo, GitHubError>) -> (out: Result<
        GitHubRepo,
        MigrationStepResult<()>,
    >)
        ensures
            match resolved {
                Ok(repo) => out == Ok::<GitHubRepo, MigrationStepResult<()>>(repo),
                Err(e) => out matches Err(r) && r.failed_as(
                    "invalid-url"@,
                    MigrationErrorView::InvalidGitRepo { source: e@ },
                ),
            },
    {
        match resolved {
            Ok(repo) => Ok(repo),
            Err(e) => Err(
                MigrationStepResult::failure(
                    "invalid-url",
                    MigrationError::InvalidGitRepo { source: e },
                ),
            ),
        }
    }

    /// Resolves the clone URL of the target, which has to match
    /// `REPO_URL_PATTERN`.
    pub fn resolve(&self) -> (out: Result<GitHubRepo, MigrationStepResult<()>>)
        ensures
            match repo_of_match(
                self.clone_url@,
                regex_named_pair(REPO_URL_PATTERN@, self.clone_url@, "owner"@, "repo"@),
            ) {
                Ok(repo) => out matches Ok(found) && found@ == repo,
                Err(e) => out matches Err(r) && r.failed_as(
                    "invalid-url"@,
                    MigrationErrorView::InvalidGitRepo { source: e },
                ),
            },
    {
        self.repository(extract_github_info(self.clone_url.as_str()))
    }

    /// Judges the lookup of the pull request: without its state the
    /// follow-up fails; with it, the script's environment is known.
    pub fn environment(&self, state: Result<PullState, GitHubError>) -> (out: Result<
        Vec<(String, String)>,
        MigrationStepResult<()>,
    >)
        ensures
            match state {
                Ok(found) => out matches Ok(env) && env_view(env@) == followup_env(
                    self.clone_url@,
                    found.permalink@,
                ) && keys_once(env_view(env@)),
                Err(e) => out matches Err(r) && r.failed_as(
                    "no-pull-request"@,
                    MigrationErrorView::AnyHowError(e@.message()),
                ),
            },
    {
        match state {
            Ok(found) => {
                let mut env: Vec<(String, String)> = Vec::new();
                env.push((String::from_str("CLU_CLONE_URL"), self.clone_url.clone()));
                env.push((String::from_str("CLU_PULL_REQUEST_URL"), found.permalink));
                proof {
                    reveal_strlit("CLU_CLONE_URL");
                    reveal_strlit("CLU_PULL_REQUEST_URL");
                    assert(env_view(env@) =~= followup_env(self.clone_url@, found.permalink@));
                    assert("CLU_CLONE_URL"@.len() != "CLU_PULL_REQUEST_URL"@.len());
                    assert(keys_of(env_view(env@)) =~= seq![
                        "CLU_CLONE_URL"@,
                        "CLU_PULL_REQUEST_URL"@,
                    ]);
                }
                Ok(env)
            },
            Err(e) => Err(
                MigrationStepResult::failure(
                    "no-pull-request",
                    MigrationError::AnyHowError(e.message()),
                ),
            ),
        }
    }

    /// The result of a follow-up whose execution context could not be
    /// opened.
    pub fn workspace_failed(cause: String) -> (out: MigrationStepResult<()>)
        ensures
            out.failed_as("workspace"@, MigrationErrorView::IoError(cause@)),
    {
        MigrationStepResult::failure("workspace", MigrationError::IoError(cause))
    }
}

/// Runs the follow-up script.
#[derive(Debug, Clone, Copy)]
pub struct FollowUpStep<'a> {
    pub command: &'a str,
}

impl<'a> FollowUpStep<'a> {
    /// The step that runs `command`.
    pub fn new(command: &'a str) -> (out: Self)
        ensures
            out.command == command,
    {
        Self { command }
    }

    /// Judges the step by the outcome of the script.
    pub fn conclude(&self, outcome: Result<(), CommandError>) -> (out: MigrationStepResult<()>)
        ensures
            match outcome {
                Ok(_) => out.succeeded_as("follow-up"@, ()),
                Err(e) => out.failed_as("follow-up"@, MigrationErrorView::CommandError(e@)),
            },
    {
        match outcome {
            Ok(_) => MigrationStepResult::success("follow-up"),
            Err(e) => MigrationStepResult::failure("follow-up", MigrationError::CommandError(e)),
        }
    }
}

} // verus!
