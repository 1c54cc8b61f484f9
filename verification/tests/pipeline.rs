use clu::github::{extract_github_info, GitHubError, GitHubRepo};
use clu::migration::{
    dirty_tree_message, DryRunOpts, ExecutionOptions, MigrationError, MigrationStatus,
    MigrationTask, Progress, Stage,
};
use clu::campaign::record_results;
use clu::models::{
    CreatedPullRequest, MigrationDefinition, MigrationInput, MigrationStep, PrCreationDetails,
    RepoCheckout, TargetDescription,
};
use clu::pull_request::PullRequestOutput;
use clu::reconcile::{Lookup, SyncAction};
use clu::steps::{
    CloneRepoStep, MigrationScriptStep, MigrationStepResult, PreFlightCheckStep, PushRepoStep,
    RepoCheck,
};
use clu::workspace::CommandError;

fn definition(steps: usize) -> MigrationDefinition {
    MigrationDefinition {
        checkout: RepoCheckout {
            branch_name: "demo".to_owned(),
            pre_flight: "/usr/bin/true".to_owned(),
        },
        pr: PrCreationDetails { title: "Title".to_owned(), description: "Body".to_owned() },
        steps: (0..steps)
            .map(|i| MigrationStep {
                name: format!("step-{}", i),
                migration_script: format!("script-{}.sh", i),
            })
            .collect(),
    }
}

fn options(skip_pull_request: bool, skip_push: bool, dry_run: bool) -> ExecutionOptions {
    ExecutionOptions {
        skip_pull_request,
        skip_push,
        dry_run,
        env: Vec::new(),
        work_dir: "work-dir".to_owned(),
    }
}

fn task<'a>(
    definition: &'a MigrationDefinition,
    exec_opts: ExecutionOptions,
    skip: bool,
) -> MigrationTask<'a> {
    MigrationTask::new(
        "repo-a",
        GitHubRepo::new("org", "repo-a", "git@github.com:org/repo-a.git"),
        definition,
        exec_opts,
        None,
        skip,
    )
}

fn went_on(name: &str) -> MigrationStatus {
    MigrationStatus::EmptyResponse(MigrationStepResult::success(name))
}

fn nonzero() -> CommandError {
    CommandError::NonZeroExit { command: "c".to_owned(), working_dir: "/w".to_owned(), code: 1 }
}

fn stages(task: &MigrationTask<'_>, stop_at: Option<usize>) -> (Vec<Stage>, MigrationStatus) {
    let mut seen = Vec::new();
    let mut progress = task.start();
    loop {
        match progress {
            Progress::Finished(status) => return (seen, status),
            Progress::Perform(stage) => {
                seen.push(stage);
                let status = if stop_at == Some(seen.len() - 1) {
                    MigrationStatus::EmptyResponse(MigrationStepResult::failure(
                        "stopped",
                        MigrationError::MigrationNotRequired,
                    ))
                } else if stage == Stage::Publish {
                    MigrationStatus::PullRequest(MigrationStepResult::success_with_result(
                        "pull-request",
                        CreatedPullRequest { pr_number: 1, url: "u".to_owned() },
                    ))
                } else {
                    went_on("ok")
                };
                progress = task.advance(stage, status);
            }
        }
    }
}

#[test]
fn skipped_target_aborts_before_any_step() {
    let d = definition(2);
    let t = task(&d, options(false, false, false), true);
    assert_eq!(
        t.start(),
        Progress::Finished(MigrationStatus::EmptyResponse(MigrationStepResult {
            name: "skip".to_owned(),
            terminal: true,
            result: Ok(()),
            did_execute: true,
        }))
    );
    let (seen, _) = stages(&t, None);
    assert!(seen.is_empty());
}

#[test]
fn unskipped_target_opens_its_context_first() {
    let d = definition(0);
    let t = task(&d, options(false, false, false), false);
    assert_eq!(t.start(), Progress::Perform(Stage::Init));
}

#[test]
fn steps_run_in_the_fixed_order() {
    let d = definition(3);
    let t = task(&d, options(false, false, false), false);
    let (seen, status) = stages(&t, None);
    assert_eq!(
        seen,
        vec![
            Stage::Init,
            Stage::Clone,
            Stage::PreFlight,
            Stage::Script(0),
            Stage::Script(1),
            Stage::Script(2),
            Stage::Push,
            Stage::Publish
        ]
    );
    assert_eq!(
        status,
        MigrationStatus::PullRequest(MigrationStepResult::success_with_result(
            "pull-request",
            CreatedPullRequest { pr_number: 1, url: "u".to_owned() }
        ))
    );
}

#[test]
fn pipeline_without_scripts_goes_from_pre_flight_to_push() {
    let d = definition(0);
    let t = task(&d, options(false, false, false), false);
    let (seen, _) = stages(&t, None);
    assert_eq!(
        seen,
        vec![Stage::Init, Stage::Clone, Stage::PreFlight, Stage::Push, Stage::Publish]
    );
}

#[test]
fn first_stop_prevents_every_later_step() {
    let d = definition(2);
    let t = task(&d, options(false, false, false), false);
    for stop in 0..7 {
        let (seen, status) = stages(&t, Some(stop));
        assert_eq!(seen.len(), stop + 1);
        assert_eq!(
            status,
            MigrationStatus::EmptyResponse(MigrationStepResult::failure(
                "stopped",
                MigrationError::MigrationNotRequired
            ))
        );
    }
}

#[test]
fn abort_stops_like_a_failure() {
    let d = definition(2);
    let t = task(&d, options(false, false, false), false);
    let aborted = MigrationStatus::EmptyResponse(MigrationStepResult::abort("pre-flight"));
    assert_eq!(
        t.advance(Stage::PreFlight, aborted),
        Progress::Finished(MigrationStatus::EmptyResponse(MigrationStepResult::abort(
            "pre-flight"
        )))
    );
}

#[test]
fn dry_run_stops_before_push() {
    let d = definition(1);
    let t = task(&d, options(false, false, true), false);
    let (seen, status) = stages(&t, None);
    assert_eq!(seen, vec![Stage::Init, Stage::Clone, Stage::PreFlight, Stage::Script(0)]);
    assert_eq!(status, MigrationStatus::EmptyResponse(MigrationStepResult::abort("push")));
}

#[test]
fn skip_push_stops_before_push() {
    let d = definition(1);
    let t = task(&d, options(false, true, false), false);
    let (seen, status) = stages(&t, None);
    assert_eq!(seen.last(), Some(&Stage::Script(0)));
    assert_eq!(status, MigrationStatus::EmptyResponse(MigrationStepResult::abort("push")));
}

#[test]
fn skip_pull_request_stops_after_push() {
    let d = definition(1);
    let t = task(&d, options(true, false, false), false);
    let (seen, status) = stages(&t, None);
    assert_eq!(seen.last(), Some(&Stage::Push));
    assert_eq!(status, MigrationStatus::EmptyResponse(MigrationStepResult::abort("pull-request")));
}

#[test]
fn script_position_past_the_recipe_counts_as_done() {
    let d = definition(1);
    let t = task(&d, options(false, false, false), false);
    assert_eq!(t.advance(Stage::Script(5), went_on("x")), Progress::Perform(Stage::Push));
    assert_eq!(t.advance(Stage::Script(usize::MAX), went_on("x")), Progress::Perform(Stage::Push));
    assert_eq!(t.advance(Stage::Script(0), went_on("x")), Progress::Perform(Stage::Push));
}

#[test]
fn publish_result_is_the_outcome_even_when_it_failed() {
    let d = definition(0);
    let t = task(&d, options(false, false, false), false);
    let failed = MigrationStatus::PullRequest(MigrationStepResult::failure(
        "pull-request",
        MigrationError::UnableToCreatePullRequest { source: GitHubError::UnableToCreatePullRequest },
    ));
    match t.advance(Stage::Publish, failed) {
        Progress::Finished(MigrationStatus::PullRequest(r)) => {
            assert!(r.terminal);
            assert!(r.result.is_err());
        }
        other => panic!("unexpected {:?}", other),
    }
}

#[test]
fn exclusive_modes() {
    assert!(DryRunOpts { skip_pull_request: false, skip_push: false, dry_run: false }
        .is_exclusive());
    assert!(DryRunOpts { skip_pull_request: true, skip_push: false, dry_run: false }
        .is_exclusive());
    assert!(DryRunOpts { skip_pull_request: false, skip_push: true, dry_run: false }
        .is_exclusive());
    assert!(DryRunOpts { skip_pull_request: false, skip_push: false, dry_run: true }
        .is_exclusive());
    assert!(!DryRunOpts { skip_pull_request: true, skip_push: true, dry_run: false }
        .is_exclusive());
    assert!(!DryRunOpts { skip_pull_request: true, skip_push: false, dry_run: true }
        .is_exclusive());
    assert!(!DryRunOpts { skip_pull_request: false, skip_push: true, dry_run: true }
        .is_exclusive());
}

#[test]
fn push_and_pull_request_switches() {
    assert!(options(false, false, false).is_push_enabled());
    assert!(options(false, false, false).is_pr_enabled());
    assert!(!options(false, false, true).is_push_enabled());
    assert!(!options(false, false, true).is_pr_enabled());
    assert!(!options(false, true, false).is_push_enabled());
    assert!(options(false, true, false).is_pr_enabled());
    assert!(options(true, false, false).is_push_enabled());
    assert!(!options(true, false, false).is_pr_enabled());
}

#[test]
fn clone_step_commands_and_results() {
    let repo = GitHubRepo::new("org", "repo-a", "git@github.com:org/repo-a.git");
    let step = CloneRepoStep::new("demo", &repo);
    assert_eq!(step.clone_command("/w/repo"), "git clone git@github.com:org/repo-a.git /w/repo");
    assert_eq!(step.branch_ref(), "refs/heads/demo");
    assert_eq!(step.conclude(Ok(())), MigrationStepResult::success("clone"));
    assert_eq!(
        step.conclude(Err("fatal: not found".to_owned())),
        MigrationStepResult {
            name: "clone".to_owned(),
            terminal: true,
            result: Err(MigrationError::UnableToCheckoutRepo {
                repo: "org/repo-a".to_owned(),
                source: "fatal: not found".to_owned()
            }),
            did_execute: true,
        }
    );
}

#[test]
fn pre_flight_failure_is_an_abort() {
    let step = PreFlightCheckStep::new("/usr/bin/false");
    assert_eq!(step.conclude(Ok(())), MigrationStepResult::success("pre-flight"));
    let stopped = step.conclude(Err(nonzero()));
    assert_eq!(stopped, MigrationStepResult::abort("pre-flight"));
    assert!(stopped.terminal);
    assert_eq!(stopped.result, Ok(()));
}

#[test]
fn failing_script_fails_the_step() {
    let step = MigrationScriptStep::new("rename", "rename.sh");
    assert_eq!(
        step.after_command(Err(nonzero())),
        Some(MigrationStepResult::failure(
            "migration-step:exec",
            MigrationError::MigrationStepErrored { step_name: "rename".to_owned() }
        ))
    );
    assert_eq!(
        step.after_command(Err(CommandError::IoError("gone".to_owned()))),
        Some(MigrationStepResult::failure(
            "migration-step:exec",
            MigrationError::MigrationStepErrored { step_name: "rename".to_owned() }
        ))
    );
    assert_eq!(step.after_command(Ok(())), None);
}

#[test]
fn untracked_files_fail_a_successful_script() {
    let step = MigrationScriptStep::new("rename", "rename.sh");
    assert_eq!(step.after_command(Ok(())), None);
    let result = step.conclude(Ok(vec!["new.txt".to_owned(), "b.txt".to_owned()]));
    assert_eq!(
        result,
        MigrationStepResult {
            name: "migration-step:untracked_files".to_owned(),
            terminal: true,
            result: Err(MigrationError::WorkingDirNotClean {
                step_name: "rename".to_owned(),
                files: vec!["new.txt".to_owned(), "b.txt".to_owned()]
            }),
            did_execute: true,
        }
    );
}

#[test]
fn clean_tree_lets_the_pipeline_continue() {
    let step = MigrationScriptStep::new("rename", "rename.sh");
    let result = step.conclude(Ok(vec![]));
    assert_eq!(result, MigrationStepResult::success("migration-step"));
    assert!(!result.terminal);
}

#[test]
fn unreadable_tree_is_a_git_error() {
    let step = MigrationScriptStep::new("rename", "rename.sh");
    assert_eq!(
        step.conclude(Err("not a repository".to_owned())),
        MigrationStepResult::failure(
            "migration-step:untracked_files",
            MigrationError::GitError("not a repository".to_owned())
        )
    );
    assert_eq!(
        RepoCheck::check_for_untracked_files("s", Err("x".to_owned())),
        Err(MigrationError::GitError("x".to_owned()))
    );
    assert_eq!(RepoCheck::check_for_untracked_files("s", Ok(vec![])), Ok(()));
    assert_eq!(
        RepoCheck::check_for_untracked_files("s", Ok(vec!["f".to_owned()])),
        Err(MigrationError::WorkingDirNotClean {
            step_name: "s".to_owned(),
            files: vec!["f".to_owned()]
        })
    );
}

#[test]
fn push_step_command_and_results() {
    let step = PushRepoStep::new();
    assert_eq!(step.command(), "git push --force-with-lease");
    assert_eq!(step.conclude(Ok(())), MigrationStepResult::success("push"));
    assert_eq!(
        PushRepoStep::default().conclude(Err(nonzero())),
        MigrationStepResult::failure("push", MigrationError::CommandError(nonzero()))
    );
}

#[test]
fn publish_step_results() {
    let d = definition(0);
    let t = task(&d, options(false, false, false), false);
    let step = t.publish_step();
    assert_eq!(step.begin(), SyncAction::AskRepository);
    let description = step.description();
    assert_eq!(description.branch, "demo");
    assert_eq!(description.title, "Title");
    assert_eq!(description.body, "Body");
    assert_eq!(
        step.conclude(Ok(PullRequestOutput { number: 3, permalink: "https://p/3".to_owned() })),
        MigrationStepResult {
            name: "pull-request".to_owned(),
            terminal: false,
            result: Ok(CreatedPullRequest { pr_number: 3, url: "https://p/3".to_owned() }),
            did_execute: true,
        }
    );
    assert_eq!(
        step.conclude(Err(GitHubError::UnableToCreatePullRequest)),
        MigrationStepResult::failure(
            "pull-request",
            MigrationError::UnableToCreatePullRequest {
                source: GitHubError::UnableToCreatePullRequest
            }
        )
    );
}

#[test]
fn publish_step_starts_from_the_remembered_pull_request() {
    let d = definition(0);
    let mut t = task(&d, options(false, false, false), false);
    t.pull_request = Some(CreatedPullRequest { pr_number: 44, url: "https://p/44".to_owned() });
    assert_eq!(
        t.publish_step().begin(),
        SyncAction::AskPullRequest { number: 44, purpose: Lookup::CheckOpen }
    );
}

#[test]
fn task_hands_its_recipe_to_the_steps() {
    let d = definition(2);
    let t = task(&d, options(false, false, false), false);
    assert_eq!(t.clone_step().branch_name, "demo");
    assert_eq!(t.clone_step().repo.owner, "org");
    assert_eq!(t.pre_flight_step().command, "/usr/bin/true");
    let second = t.script_step(1).unwrap();
    assert_eq!(second.step_name, "step-1");
    assert_eq!(second.command, "script-1.sh");
    assert!(t.script_step(2).is_none());
}

#[test]
fn step_result_builders() {
    let ok: MigrationStepResult<i32> = MigrationStepResult::success_with_result("n", 5);
    assert_eq!(
        ok,
        MigrationStepResult { name: "n".to_owned(), terminal: false, result: Ok(5), did_execute: true }
    );
    let failed: MigrationStepResult<i32> =
        MigrationStepResult::failure("f", MigrationError::MigrationNotRequired);
    assert_eq!(
        failed,
        MigrationStepResult {
            name: "f".to_owned(),
            terminal: true,
            result: Err(MigrationError::MigrationNotRequired),
            did_execute: true
        }
    );
    assert_eq!(
        MigrationStepResult::abort("a"),
        MigrationStepResult { name: "a".to_owned(), terminal: true, result: Ok(()), did_execute: true }
    );
    assert_eq!(
        MigrationStepResult::success("s"),
        MigrationStepResult { name: "s".to_owned(), terminal: false, result: Ok(()), did_execute: true }
    );
}

#[test]
fn migration_error_messages() {
    assert_eq!(
        MigrationError::UnableToCheckoutRepo { repo: "o/r".to_owned(), source: "boom".to_owned() }
            .message(),
        "Unable to checkout o/r. Got error: boom"
    );
    assert_eq!(
        MigrationError::UnableToCreatePullRequest { source: GitHubError::UnableToCreatePullRequest }
            .message(),
        "Unable to creat pull request."
    );
    assert_eq!(
        MigrationError::InvalidGitRepo {
            source: GitHubError::UnableToDetermineRepo { path: "x".to_owned() }
        }
        .message(),
        "Unable to parse Git Repo."
    );
    assert_eq!(
        MigrationError::MigrationNotRequired.message(),
        "Migration determined that repo was not eligible for migration."
    );
    assert_eq!(
        MigrationError::MigrationStepErrored { step_name: "rename".to_owned() }.message(),
        "Migration step `rename` exited non-zero."
    );
    assert_eq!(MigrationError::IoError("io".to_owned()).message(), "io");
    assert_eq!(MigrationError::AnyHowError("any".to_owned()).message(), "any");
    assert_eq!(MigrationError::GitError("git".to_owned()).message(), "git");
    assert_eq!(
        MigrationError::CommandError(nonzero()).message(),
        "c exited with 1. You can check /w for the output files"
    );
}

#[test]
fn dirty_tree_message_lists_the_files_quoted() {
    assert_eq!(
        MigrationError::WorkingDirNotClean {
            step_name: "rename".to_owned(),
            files: vec!["a.txt".to_owned(), "dir/b \"c\".txt".to_owned()]
        }
        .message(),
        "Migration step `rename` left working directory had untracked filed: [\"a.txt\", \"dir/b \\\"c\\\".txt\"]."
    );
    assert_eq!(
        dirty_tree_message("s", "[]"),
        "Migration step `s` left working directory had untracked filed: []."
    );
}

#[test]
fn end_to_end_new_pull_request() {
    let mut d = definition(0);
    d.steps.push(MigrationStep { name: "rename".to_owned(), migration_script: "rename.sh".to_owned() });
    let repo = extract_github_info("git@github.com:org/repo-a.git").unwrap();
    let t = MigrationTask::new("repo-a", repo, &d, options(false, false, false), None, false);
    let mut seen = Vec::new();
    let mut progress = t.start();
    let status = loop {
        let stage = match progress {
            Progress::Finished(status) => break status,
            Progress::Perform(stage) => stage,
        };
        seen.push(stage);
        let status = match stage {
            Stage::Init => went_on("init"),
            Stage::Clone => MigrationStatus::EmptyResponse(t.clone_step().conclude(Ok(()))),
            Stage::PreFlight => {
                MigrationStatus::EmptyResponse(t.pre_flight_step().conclude(Ok(())))
            }
            Stage::Script(i) => {
                let step = t.script_step(i).unwrap();
                assert_eq!(step.command, "rename.sh");
                assert_eq!(step.after_command(Ok(())), None);
                MigrationStatus::EmptyResponse(step.conclude(Ok(vec![])))
            }
            Stage::Push => MigrationStatus::EmptyResponse(PushRepoStep::new().conclude(Ok(()))),
            Stage::Publish => {
                let step = t.publish_step();
                assert_eq!(step.begin(), SyncAction::AskRepository);
                MigrationStatus::PullRequest(step.conclude(Ok(PullRequestOutput {
                    number: 1,
                    permalink: "https://github.com/org/repo-a/pull/1".to_owned(),
                })))
            }
        };
        progress = t.advance(stage, status);
    };
    assert_eq!(
        seen,
        vec![Stage::Init, Stage::Clone, Stage::PreFlight, Stage::Script(0), Stage::Push, Stage::Publish]
    );
    assert_eq!(
        status,
        MigrationStatus::PullRequest(MigrationStepResult::success_with_result(
            "pull-request",
            CreatedPullRequest {
                pr_number: 1,
                url: "https://github.com/org/repo-a/pull/1".to_owned()
            }
        ))
    );
    let mut state = MigrationInput::new(definition(0));
    state.insert("repo-a".to_owned(), TargetDescription::new("git@github.com:org/repo-a.git"));
    let failures = record_results(&mut state, &vec![Some(status)]);
    assert!(failures.is_empty());
    assert_eq!(
        state.targets[0].target.pull_request,
        Some(CreatedPullRequest {
            pr_number: 1,
            url: "https://github.com/org/repo-a/pull/1".to_owned()
        })
    );
}
