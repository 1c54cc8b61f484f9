//! The steps of a pipeline. Each step says what is to be run and judges what
//! came of it; running it is left to the caller.
use crate::github::{GitHubError, GitHubRepo};
use crate::migration::{MigrationError, MigrationErrorView};
use crate::models::CreatedPullRequest;
use crate::pull_request::PullRequestOutput;
use crate::reconcile::{first_action, sync_pull_request, PullRequestDescription, SyncAction};
use crate::text::texts;
use crate::workspace::CommandError;
use vstd::prelude::*;
use vstd::string::*;

verus! {

/// What one step of a pipeline came to.
#[derive(Debug, PartialEq, Eq)]
pub struct MigrationStepResult<Output> {
    /// Name of the step, or of the part of it, that produced the result.
    pub name: String,
    /// Whether the pipeline stops here.
    pub terminal: bool,
    pub result: Result<Output, MigrationError>,
    pub did_execute: bool,
}

impl<Output> MigrationStepResult<Output> {
    /// The step succeeded with `value` and the pipeline continues.
    pub open spec fn succeeded_as(&self, name: Seq<char>, value: Output) -> bool {
        self.name@ == name && !self.terminal && self.did_execute && self.result == Ok::<
            Output,
            MigrationError,
        >(value)
    }

    /// The step failed with `error` and the pipeline stops.
    pub open spec fn failed_as(&self, name: Seq<char>, error: MigrationErrorView) -> bool {
        self.name@ == name && self.terminal && self.did_execute && (self.result matches Err(e)
            && e@ == error)
    }

    /// The pipeline stops without an error.
    pub open spec fn aborted_as(&self, name: Seq<char>) -> bool {
        self.name@ == name && self.terminal && self.did_execute && self.result is Ok
    }

    /// The result of a step that produced `result` and lets the pipeline
    /// continue.
    pub fn success_with_result(name: &str, result: Output) -> (out: Self)
        ensures
            out.succeeded_as(name@, result),
    {
        Self { name: name.to_owned(), terminal: false, result: Ok(result), did_execute: true }
    }

    /// The result of a step that failed: the pipeline stops with `error`.
    pub fn failure(name: &str, error: MigrationError) -> (out: Self)
        ensures
            out.failed_as(name@, error@),
            out.result == Err::<Output, MigrationError>(error),
    {
        Self { name: name.to_owned(), terminal: true, result: Err(error), did_execute: true }
    }
}

impl MigrationStepResult<()> {
    /// The result of a step that lets the pipeline continue.
    pub fn success(name: &str) -> (out: Self)
        ensures
            out.succeeded_as(name@, ()),
    {
        Self::success_with_result(name, ())
    }

    /// The result of a step that stops the pipeline without an error.
    pub fn abort(name: &str) -> (out: Self)
        ensures
            out.aborted_as(name@),
    {
        Self { name: name.to_owned(), terminal: true, result: Ok(()), did_execute: true }
    }
}

/// Clones the target and puts it on the campaign's branch.
#[derive(Debug, Clone, Copy)]
pub struct CloneRepoStep<'a> {
    pub branch_name: &'a str,
    pub repo: &'a GitHubRepo,
}

impl<'a> CloneRepoStep<'a> {
    /// The step that clones `repo` and puts it on `branch_name`.
    pub fn new(branch_name: &'a str, repo: &'a GitHubRepo) -> (out: Self)
        ensures
            out.branch_name == branch_name,
            out.repo == repo,
    {
        Self { branch_name, repo }
    }

    /// The command that clones the repository into `destination`.
    pub fn clone_command(&self, destination: &str) -> (out: String)
        ensures
            out@ == "git clone "@ + self.repo.clone_url@ + " "@ + destination@,
    {
        String::from_str("git clone ").concat(self.repo.clone_url.as_str()).concat(" ").concat(
            destination,
        )
    }

    /// The full reference of the branch that is created and checked out.
    pub fn branch_ref(&self) -> (out: String)
        ensures
            out@ == "refs/heads/"@ + self.branch_name@,
    {
        String::from_str("refs/heads/").concat(self.branch_name)
    }

    /// Judges the step: success, or a failure that names the repository and
    /// carries the description of what went wrong.
    pub fn conclude(&self, outcome: Result<(), String>) -> (out: MigrationStepResult<()>)
        ensures
            match outcome {
                Ok(_) => out.succeeded_as("clone"@, ()),
                Err(cause) => out.failed_as(
                    "clone"@,
                    MigrationErrorView::UnableToCheckoutRepo {
                        repo: crate::github::slug_of(self.repo.owner@, self.repo.repo@),
                        source: cause@,
                    },
                ),
            },
    {
        match outcome {
            Ok(_) => MigrationStepResult::success("clone"),
            Err(cause) => MigrationStepResult::failure(
                "clone",
                MigrationError::UnableToCheckoutRepo { repo: self.repo.slug(), source: cause },
            ),
        }
    }
}

/// Pushes the branch, refusing to overwrite what it has not seen.
#[derive(Debug, Clone, Copy)]
pub struct PushRepoStep {}

impl PushRepoStep {
    /// The push step; it needs nothing of its own.
    pub fn new() -> (out: Self) {
        Self {  }
    }

    /// The push command: forced, but only over the remote state that is known
    /// locally.
    pub fn command(&self) -> (out: &'static str)
        ensures
            out@ == "git push --force-with-lease"@,
    {
        "git push --force-with-lease"
    }

    /// Judges the step by the outcome of the push command.
    pub fn conclude(&self, outcome: Result<(), CommandError>) -> (out: MigrationStepResult<()>)
        ensures
            match outcome {
                Ok(_) => out.succeeded_as("push"@, ()),
                Err(e) => out.failed_as("push"@, MigrationErrorView::CommandError(e@)),
            },
    {
        match outcome {
            Err(e) => MigrationStepResult::failure("push", MigrationError::CommandError(e)),
            Ok(_) => MigrationStepResult::success("push"),
        }
    }
}

impl Default for PushRepoStep {
    fn default() -> (out: Self) {
        Self::new()
    }
}

/// Asks the operator's command whether the migration applies to the target.
#[derive(Debug, Clone, Copy)]
pub struct PreFlightCheckStep<'a> {
    pub command: &'a str,
}

impl<'a> PreFlightCheckStep<'a> {
    /// The step that asks `command`.
    pub fn new(command: &'a str) -> (out: Self)
        ensures
            out.command == command,
    {
        Self { command }
    }

    /// Judges the step: a command that did not succeed means that the target
    /// needs no migration, which stops the pipeline without an error.
    pub fn conclude(&self, outcome: Result<(), CommandError>) -> (out: MigrationStepResult<()>)
        ensures
            match outcome {
                Ok(_) => out.succeeded_as("pre-flight"@, ()),
                Err(_) => out.aborted_as("pre-flight"@),
            },
    {
        match outcome {
            Ok(_) => MigrationStepResult::success("pre-flight"),
            Err(_) => MigrationStepResult::abort("pre-flight"),
        }
    }
}

/// Inspection of the working tree after a script.
#[derive(Debug, Clone, Copy)]
pub struct RepoCheck {}

impl RepoCheck {
    /// Judges a listing of the files that differ from what is committed:
    /// the tree is clean exactly when the listing is empty. A listing that
    /// could not be made is an error of its own.
    pub fn check_for_untracked_files(step_name: &str, listing: Result<Vec<String>, String>) -> (out:
        Result<(), MigrationError>)
        ensures
            match listing {
                Err(cause) => out matches Err(e) && e@ == MigrationErrorView::GitError(cause@),
                Ok(files) => if files@.len() == 0 {
                    out is Ok
                } else {
                    out matches Err(e) && e@ == (MigrationErrorView::WorkingDirNotClean {
                        step_name: step_name@,
                        files: texts(files@),
                    })
                },
            },
    {
        match listing {
            Err(cause) => Err(MigrationError::GitError(cause)),
            Ok(files) => {
                if files.len() > 0 {
                    Err(
                        MigrationError::WorkingDirNotClean {
                            step_name: step_name.to_owned(),
                            files,
                        },
                    )
                } else {
                    Ok(())
                }
            },
        }
    }
}

/// Runs one script of the recipe and checks that it left nothing behind.
#[derive(Debug, Clone, Copy)]
pub struct MigrationScriptStep<'a> {
    pub step_name: &'a str,
    pub command: &'a str,
}

impl<'a> MigrationScriptStep<'a> {
    /// The step called `step_name` that runs `command`.
    pub fn new(step_name: &'a str, command: &'a str) -> (out: Self)
        ensures
            out.step_name == step_name,
            out.command == command,
    {
        Self { step_name, command }
    }

    /// Judges the script's command. A command that failed fails the step;
    /// after one that succeeded the working tree has to be inspected, and
    /// there is no result yet.
    pub fn after_command(&self, outcome: Result<(), CommandError>) -> (out: Option<
        MigrationStepResult<()>,
    >)
        ensures
            match outcome {
                Ok(_) => out is None,
                Err(_) => out matches Some(r) && r.failed_as(
                    "migration-step:exec"@,
                    MigrationErrorView::MigrationStepErrored { step_name: self.step_name@ },
                ),
            },
    {
        match outcome {
            Ok(_) => None,
            Err(_) => Some(
                MigrationStepResult::failure(
                    "migration-step:exec",
                    MigrationError::MigrationStepErrored { step_name: self.step_name.to_owned() },
                ),
            ),
        }
    }

    /// Judges the step after its command succeeded, by the listing of the
    /// working tree: any file in it fails the step.
    pub fn conclude(&self, listing: Result<Vec<String>, String>) -> (out: MigrationStepResult<()>)
        ensures
            match listing {
                Err(cause) => out.failed_as(
                    "migration-step:untracked_files"@,
                    MigrationErrorView::GitError(cause@),
                ),
                Ok(files) => if files@.len() == 0 {
                    out.succeeded_as("migration-step"@, ())
                } else {
                    out.failed_as(
                        "migration-step:untracked_files"@,
                        MigrationErrorView::WorkingDirNotClean {
                            step_name: self.step_name@,
                            files: texts(files@),
                        },
                    )
                },
            },
    {
        match RepoCheck::check_for_untracked_files(self.step_name, listing) {
            Err(e) => MigrationStepResult::failure("migration-step:untracked_files", e),
            Ok(_) => MigrationStepResult::success("migration-step"),
        }
    }
}

/// Publishes the branch as a pull request: a new one, or the one of an
/// earlier run brought up to date.
#[derive(Debug, Clone, Copy)]
pub struct UpdateGithubStep<'a> {
    pub repo: &'a GitHubRepo,
    pub existing_pr: &'a Option<CreatedPullRequest>,
    pub branch: &'a str,
    pub title: &'a str,
    pub body: &'a str,
}

/// The number of a remembered pull request.
pub open spec fn remembered_number(pr: Option<CreatedPullRequest>) -> Option<i64> {
    match pr {
        Some(p) => Some(p.pr_number),
        None => None,
    }
}

impl<'a> UpdateGithubStep<'a> {
    /// Branch, title and body of the pull request.
    pub fn description(&self) -> (out: PullRequestDescription<'a>)
        ensures
            out.branch == self.branch,
            out.title == self.title,
            out.body == self.body,
    {
        PullRequestDescription { branch: self.branch, title: self.title, body: self.body }
    }

    /// Starts the reconciliation with the number of the remembered pull
    /// request, if there is one.
    pub fn begin(&self) -> (out: SyncAction)
        ensures
            out@ == first_action(remembered_number(*self.existing_pr)),
    {
        match self.existing_pr {
            Some(pr) => sync_pull_request(Some(pr.pr_number)),
            None => sync_pull_request(None),
        }
    }

    /// Judges the step by what the reconciliation ended with.
    pub fn conclude(&self, outcome: Result<PullRequestOutput, GitHubError>) -> (out:
        MigrationStepResult<CreatedPullRequest>)
        ensures
            match outcome {
                Err(e) => out.failed_as(
                    "pull-request"@,
                    MigrationErrorView::UnableToCreatePullRequest { source: e@ },
                ),
                Ok(created) => out.name@ == "pull-request"@ && !out.terminal && out.did_execute && (
                out.result matches Ok(pr) && pr.pr_number == created.number && pr.url
                    == created.permalink),
            },
    {
        match outcome {
            Err(e) => MigrationStepResult::failure(
                "pull-request",
                MigrationError::UnableToCreatePullRequest { source: e },
            ),
            Ok(created) => {
                let pr = CreatedPullRequest { pr_number: created.number, url: created.permalink };
                MigrationStepResult::success_with_result("pull-request", pr)
            },
        }
    }
}

} // verus!
