//! A campaign's run seen from above: how a target becomes a task, and how the
//! outcomes of the pipelines flow back into the persisted state and into the
//! failure report.
use crate::github::{
    extract_github_info, regex_named_pair, repo_of_match, GitHubError, GitHubRepo,
    GitHubRepoView, REPO_URL_PATTERN,
};
use crate::migration::{
    DryRunOpts, ExecutionOptions, MigrationError, MigrationErrorView, MigrationStatus,
    MigrationTask,
};
use crate::models::{
    pull_request_view, CreatedPullRequestView, MigrationDefinition, MigrationInput, NamedTarget,
    TargetDescription,
};
use crate::pull_request::{details_of, PullRequestReply, PullRequestState};
use crate::reconcile::{
    after_pull_request, first_action, open_pull_request_is_updated, Lookup,
    PullRequestDescriptionView, SyncActionView,
};
use crate::steps::remembered_number;
use crate::text::{digits, natural_text, texts};
use crate::workspace::{
    copy_env, env_view, lies_inside, work_dir, work_dir_of, work_dirs_are_disjoint,
};
use vstd::prelude::*;
use vstd::string::*;

verus! {

/// View of an optional environment: none counts as empty.
pub open spec fn env_or_empty(env: Option<Vec<(String, String)>>) -> Seq<(Seq<char>, Seq<char>)> {
    match env {
        Some(pairs) => env_view(pairs@),
        None => Seq::empty(),
    }
}

/// Whether `task` is the task of `target`, which stands at position `index`
/// of the campaign under `pretty_name`, for the repository `repo`: run with
/// the given options, with the target's environment, in the directory below
/// `root` that belongs to that position alone.
pub open spec fn is_task_of(
    task: MigrationTask<'_>,
    definition: &MigrationDefinition,
    dry_run_opts: DryRunOpts,
    root: Seq<char>,
    index: nat,
    pretty_name: Seq<char>,
    target: TargetDescription,
    repo: GitHubRepo,
) -> bool {
    &&& task.pretty_name@ == pretty_name
    &&& task.repo == repo
    &&& task.definition == definition
    &&& task.exec_opts.skip_pull_request == dry_run_opts.skip_pull_request
    &&& task.exec_opts.skip_push == dry_run_opts.skip_push
    &&& task.exec_opts.dry_run == dry_run_opts.dry_run
    &&& task.exec_opts.work_dir@ == work_dir_of(root, index)
    &&& env_view(task.exec_opts.env@) == env_or_empty(target.env)
    &&& (target.wf() ==> task.exec_opts.wf())
    &&& pull_request_view(task.pull_request) == pull_request_view(target.pull_request)
    &&& task.skip == target.skip
}

/// Builds the task of the target at position `index` from the repository its
/// URL resolved to, or reports the URL as invalid.
pub fn task_for<'a>(
    definition: &'a MigrationDefinition,
    dry_run_opts: &DryRunOpts,
    work_directory_root: &str,
    index: usize,
    pretty_name: &str,
    target: &TargetDescription,
    resolved: Result<GitHubRepo, GitHubError>,
) -> (out: Result<MigrationTask<'a>, MigrationError>)
    ensures
        match resolved {
            Ok(repo) => out matches Ok(task) && is_task_of(
                task,
                definition,
                *dry_run_opts,
                work_directory_root@,
                index as nat,
                pretty_name@,
                *target,
                repo,
            ),
            Err(e) => out matches Err(err) && err@ == (MigrationErrorView::InvalidGitRepo {
                source: e@,
            }),
        },
{
    let repo = match resolved {
        Ok(repo) => repo,
        Err(e) => {
            return Err(MigrationError::InvalidGitRepo { source: e });
        },
    };
    let env = match &target.env {
        Some(pairs) => copy_env(pairs),
        None => Vec::new(),
    };
    assert(env_view(env@) =~= env_or_empty(target.env));
    let exec_opts = ExecutionOptions {
        skip_pull_request: dry_run_opts.skip_pull_request,
        skip_push: dry_run_opts.skip_push,
        dry_run: dry_run_opts.dry_run,
        work_dir: work_dir(work_directory_root, index),
        env,
    };
    let pull_request = match &target.pull_request {
        Some(pr) => Some(pr.clone()),
        None => None,
    };
    Ok(MigrationTask::new(pretty_name, repo, definition, exec_opts, pull_request, target.skip))
}

/// Builds the task of the target at position `index`. The target's URL has to
/// name a GitHub repository.
pub fn prepare_migration<'a>(
    definition: &'a MigrationDefinition,
    dry_run_opts: &DryRunOpts,
    work_directory_root: &str,
    index: usize,
    pretty_name: &str,
    target: &TargetDescription,
) -> (out: Result<MigrationTask<'a>, MigrationError>)
    ensures
        match repo_of_match(
            target.repo@,
            regex_named_pair(REPO_URL_PATTERN@, target.repo@, "owner"@, "repo"@),
        ) {
            Ok(repo) => out matches Ok(task) && task.repo@ == repo && is_task_of(
                task,
                definition,
                *dry_run_opts,
                work_directory_root@,
                index as nat,
                pretty_name@,
                *target,
                task.repo,
            ),
            Err(e) => out matches Err(err) && err@ == (MigrationErrorView::InvalidGitRepo {
                source: e,
            }),
        },
{
    let resolved = extract_github_info(target.repo.as_str());
    task_for(definition, dry_run_opts, work_directory_root, index, pretty_name, target, resolved)
}

/// Name of the copy of the state file that is made before a run begun at
/// `epoch_seconds`.
pub fn backup_name(path: &str, epoch_seconds: u64) -> (out: String)
    ensures
        out@ == path@ + "."@ + digits(epoch_seconds as nat) + ".bck"@,
{
    let stamp = natural_text(epoch_seconds);
    String::from_str(path).concat(".").concat(stamp.as_str()).concat(".bck")
}

/// The outcome at position `i`, if there is one.
pub open spec fn outcome_at(results: Seq<Option<MigrationStatus>>, i: int) -> Option<
    MigrationStatus,
> {
    if 0 <= i < results.len() {
        results[i]
    } else {
        None
    }
}

/// The pull request a target remembers after a run: the one that the run
/// published, or else the one it remembered before.
pub open spec fn remembered_after(target: TargetDescription, outcome: Option<MigrationStatus>)
    -> Option<CreatedPullRequestView> {
    match outcome {
        Some(MigrationStatus::PullRequest(r)) => match r.result {
            Ok(pr) => Some(pr@),
            Err(_) => pull_request_view(target.pull_request),
        },
        _ => pull_request_view(target.pull_request),
    }
}

/// The line of the failure report for a target, if its pipeline failed.
pub open spec fn failure_line(name: Seq<char>, outcome: Option<MigrationStatus>) -> Option<
    Seq<char>,
> {
    match outcome {
        Some(MigrationStatus::PullRequest(r)) => match r.result {
            Err(e) => Some(name + ": Unable to run migration because of "@ + e@.message()),
            Ok(_) => None,
        },
        Some(MigrationStatus::EmptyResponse(r)) => match r.result {
            Err(e) => Some(name + ": Unable to run migration because: "@ + e@.message()),
            Ok(_) => None,
        },
        None => None,
    }
}

/// The failure report for the first `upto` targets: the lines of those that
/// failed, in the order of the targets.
pub open spec fn failure_log(
    targets: Seq<NamedTarget>,
    results: Seq<Option<MigrationStatus>>,
    upto: int,
) -> Seq<Seq<char>>
    decreases upto,
{
    if upto <= 0 {
        Seq::empty()
    } else {
        let earlier = failure_log(targets, results, upto - 1);
        match failure_line(targets[upto - 1].name@, outcome_at(results, upto - 1)) {
            Some(line) => earlier.push(line),
            None => earlier,
        }
    }
}

/// Whether `after` is `before` with at most the remembered pull request
/// changed.
pub open spec fn same_but_pull_request(before: NamedTarget, after: NamedTarget) -> bool {
    &&& after.name == before.name
    &&& after.target.repo == before.target.repo
    &&& after.target.env == before.target.env
    &&& after.target.skip == before.target.skip
}

/// Takes the outcomes of a run, given by target position, into the campaign
/// state and returns the failure report. A target whose pipeline published a
/// pull request remembers that one from now on; every other target keeps
/// what it had. The report holds one line for each target whose pipeline
/// failed, and none for a target that was stopped without error.
pub fn record_results(input: &mut MigrationInput, results: &Vec<Option<MigrationStatus>>) -> (out:
    Vec<String>)
    ensures
        final(input).definition == old(input).definition,
        final(input).targets@.len() == old(input).targets@.len(),
        old(input).wf() ==> final(input).wf(),
        forall|i: int|
            0 <= i < old(input).targets@.len() ==> same_but_pull_request(
                old(input).targets@[i],
                #[trigger] final(input).targets@[i],
            ) && pull_request_view(final(input).targets@[i].target.pull_request)
                == remembered_after(old(input).targets@[i].target, outcome_at(results@, i)),
        texts(out@) == failure_log(old(input).targets@, results@, old(input).targets@.len() as int),
{
    let mut log: Vec<String> = Vec::new();
    let count = input.targets.len();
    let mut i: usize = 0;
    while i < count
        invariant
            i <= count,
            count == old(input).targets@.len(),
            input.targets@.len() == count,
            input.definition == old(input).definition,
            forall|j: int|
                0 <= j < count ==> same_but_pull_request(
                    old(input).targets@[j],
                    #[trigger] input.targets@[j],
                ),
            forall|j: int|
                0 <= j < i ==> pull_request_view(
                    (#[trigger] input.targets@[j]).target.pull_request,
                ) == remembered_after(old(input).targets@[j].target, outcome_at(results@, j)),
            forall|j: int| i <= j < count ==> (#[trigger] input.targets@[j]) == old(
                input,
            ).targets@[j],
            texts(log@) == failure_log(old(input).targets@, results@, i as int),
        decreases count - i,
    {
        if i < results.len() {
            match &results[i] {
                Some(MigrationStatus::PullRequest(step)) => match &step.result {
                    Ok(pr) => {
                        input.targets[i].target.pull_request = Some(pr.clone());
                    },
                    Err(e) => {
                        let line = input.targets[i].name.clone().concat(
                            ": Unable to run migration because of ",
                        ).concat(e.message().as_str());
                        log.push(line);
                    },
                },
                Some(MigrationStatus::EmptyResponse(step)) => match &step.result {
                    Ok(_) => {},
                    Err(e) => {
                        let line = input.targets[i].name.clone().concat(
                            ": Unable to run migration because: ",
                        ).concat(e.message().as_str());
                        log.push(line);
                    },
                },
                None => {},
            }
        }
        i += 1;
    }
    proof {
        if old(input).wf() {
            assert(crate::models::names_of(input.targets@) =~= crate::models::names_of(
                old(input).targets@,
            ));
        }
    }
    log
}

/// A pipeline that was stopped without error, whatever the reason, leaves no
/// line in the failure report.
pub proof fn stopped_without_error_is_not_reported(name: Seq<char>, status: MigrationStatus)
    requires
        match status {
            MigrationStatus::EmptyResponse(r) => r.result is Ok,
            MigrationStatus::PullRequest(r) => r.result is Ok,
        },
    ensures
        failure_line(name, Some(status)) is None,
{
}

/// A target whose pipeline did not publish a pull request keeps the one it
/// remembered, so that a later run can try again.
pub proof fn failed_target_keeps_its_state(target: TargetDescription, status: MigrationStatus)
    requires
        !(status matches MigrationStatus::PullRequest(r) && r.result is Ok),
    ensures
        remembered_after(target, Some(status)) == pull_request_view(target.pull_request),
        remembered_after(target, None) == pull_request_view(target.pull_request),
{
}

/// Running a campaign again does not publish a second pull request: a target
/// that remembers a pull request begins its reconciliation by asking for
/// that one, and while the forge reports it as open the only call that
/// changes anything is an update of it.
pub proof fn rerun_updates_remembered_pull_request(
    task: MigrationTask<'_>,
    target: TargetDescription,
    published: CreatedPullRequestView,
    repo: GitHubRepoView,
    description: PullRequestDescriptionView,
    first: PullRequestReply,
    second: PullRequestReply,
)
    requires
        pull_request_view(target.pull_request) == Some(published),
        pull_request_view(task.pull_request) == pull_request_view(target.pull_request),
        details_of(repo, published.pr_number, first) matches Ok(d) && d.state
            == PullRequestState::Open,
        details_of(repo, published.pr_number, second) is Ok,
    ensures
        first_action(remembered_number(task.pull_request)) == (SyncActionView::AskPullRequest {
            number: published.pr_number,
            purpose: Lookup::CheckOpen,
        }),
        after_pull_request(repo, description, published.pr_number, Lookup::CheckOpen, first) == (
        SyncActionView::AskPullRequest {
            number: published.pr_number,
            purpose: Lookup::LoadForUpdate,
        }),
        after_pull_request(repo, description, published.pr_number, Lookup::LoadForUpdate, second)
            is Update,
{
    open_pull_request_is_updated(repo, description, published.pr_number, first, second);
}

/// Two targets of one campaign are never worked on in the same place: the
/// tasks built for two different positions below one root have different
/// directories, and neither directory lies inside the other.
pub proof fn tasks_do_not_share_a_directory(
    first: MigrationTask<'_>,
    second: MigrationTask<'_>,
    root: Seq<char>,
    i: nat,
    j: nat,
)
    requires
        i != j,
        first.exec_opts.work_dir@ == work_dir_of(root, i),
        second.exec_opts.work_dir@ == work_dir_of(root, j),
    ensures
        first.exec_opts.work_dir@ != second.exec_opts.work_dir@,
        !lies_inside(first.exec_opts.work_dir@, second.exec_opts.work_dir@),
        !lies_inside(second.exec_opts.work_dir@, first.exec_opts.work_dir@),
{
    work_dirs_are_disjoint(root, i, j);
}

} // verus!
