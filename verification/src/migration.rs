//! One target's migration: its options, its errors, and the pipeline that
//! decides, after every step, whether and how to go on.
use crate::github::{GitHubError, GitHubErrorView, GitHubRepo};
use crate::models::{CreatedPullRequest, MigrationDefinition};
use crate::steps::{
    CloneRepoStep, MigrationScriptStep, MigrationStepResult, PreFlightCheckStep, UpdateGithubStep,
};
use crate::text::{debug_list, debug_listing, texts};
use crate::workspace::{copy_env, env_view, keys_once, CommandError, CommandErrorView, Workspace};
use vstd::prelude::*;
use vstd::string::*;

verus! {

/// The three ways to hold a run back from publishing. At most one is set.
#[derive(Debug, Clone, Copy, PartialEq, Eq, Structural)]
pub struct DryRunOpts {
    /// The branch is pushed, but no pull request is created or updated.
    pub skip_pull_request: bool,
    /// Nothing is pushed.
    pub skip_push: bool,
    /// Nothing leaves the machine: the scripts run locally and that is all.
    pub dry_run: bool,
}

impl DryRunOpts {
    /// At most one of the three modes is chosen.
    pub open spec fn exclusive(&self) -> bool {
        !(self.skip_pull_request && self.skip_push) && !(self.skip_pull_request && self.dry_run)
            && !(self.skip_push && self.dry_run)
    }

    /// Whether at most one of the three modes is chosen.
    pub fn is_exclusive(&self) -> (out: bool)
        ensures
            out == self.exclusive(),
    {
        !(self.skip_pull_request && self.skip_push) && !(self.skip_pull_request && self.dry_run)
            && !(self.skip_push && self.dry_run)
    }
}

/// How one target is run.
#[derive(Debug, Clone, PartialEq, Eq)]
pub struct ExecutionOptions {
    pub skip_pull_request: bool,
    pub skip_push: bool,
    pub dry_run: bool,
    /// Environment of the target's commands: each name once.
    pub env: Vec<(String, String)>,
    /// Directory the target is worked on in, which no other target shares.
    pub work_dir: String,
}

impl ExecutionOptions {
    /// The environment sets every name once.
    pub open spec fn wf(&self) -> bool {
        keys_once(env_view(self.env@))
    }

    /// The branch is pushed unless the run is dry or pushing is skipped.
    pub open spec fn push_enabled(&self) -> bool {
        !self.dry_run && !self.skip_push
    }

    /// A pull request is published unless the run is dry or publishing is
    /// skipped.
    pub open spec fn pr_enabled(&self) -> bool {
        !self.dry_run && !self.skip_pull_request
    }

    /// Whether the branch is pushed.
    pub fn is_push_enabled(&self) -> (out: bool)
        ensures
            out == self.push_enabled(),
    {
        !self.dry_run && !self.skip_push
    }

    /// Whether a pull request is created or updated.
    pub fn is_pr_enabled(&self) -> (out: bool)
        ensures
            out == self.pr_enabled(),
    {
        !self.dry_run && !self.skip_pull_request
    }
}

/// Why a target's migration failed.
#[derive(Debug, PartialEq, Eq)]
#[allow(inconsistent_fields)]
pub enum MigrationError {
    /// Cloning the repository or creating the branch failed; `source`
    /// describes the cause.
    UnableToCheckoutRepo { repo: String, source: String },
    UnableToCreatePullRequest { source: GitHubError },
    InvalidGitRepo { source: GitHubError },
    MigrationNotRequired,
    MigrationStepErrored { step_name: String },
    WorkingDirNotClean { step_name: String, files: Vec<String> },
    IoError(String),
    AnyHowError(String),
    GitError(String),
    CommandError(CommandError),
}

#[allow(inconsistent_fields)]
pub enum MigrationErrorView {
    UnableToCheckoutRepo { repo: Seq<char>, source: Seq<char> },
    UnableToCreatePullRequest { source: GitHubErrorView },
    InvalidGitRepo { source: GitHubErrorView },
    MigrationNotRequired,
    MigrationStepErrored { step_name: Seq<char> },
    WorkingDirNotClean { step_name: Seq<char>, files: Seq<Seq<char>> },
    IoError(Seq<char>),
    AnyHowError(Seq<char>),
    GitError(Seq<char>),
    CommandError(CommandErrorView),
}

impl View for MigrationError {
    type V = MigrationErrorView;

    open spec fn view(&self) -> MigrationErrorView {
        match self {
            MigrationError::UnableToCheckoutRepo { repo, source } => {
                MigrationErrorView::UnableToCheckoutRepo { repo: repo@, source: source@ }
            },
            MigrationError::UnableToCreatePullRequest { source } => {
                MigrationErrorView::UnableToCreatePullRequest { source: source@ }
            },
            MigrationError::InvalidGitRepo { source } => MigrationErrorView::InvalidGitRepo {
                source: source@,
            },
            MigrationError::MigrationNotRequired => MigrationErrorView::MigrationNotRequired,
            MigrationError::MigrationStepErrored { step_name } => {
                MigrationErrorView::MigrationStepErrored { step_name: step_name@ }
            },
            MigrationError::WorkingDirNotClean { step_name, files } => {
                MigrationErrorView::WorkingDirNotClean {
                    step_name: step_name@,
                    files: texts(files@),
                }
            },
            MigrationError::IoError(text) => MigrationErrorView::IoError(text@),
            MigrationError::AnyHowError(text) => MigrationErrorView::AnyHowError(text@),
            MigrationError::GitError(text) => MigrationErrorView::GitError(text@),
            MigrationError::CommandError(e) => MigrationErrorView::CommandError(e@),
        }
    }
}

/// The message for a step that left the working tree dirty, given the listing
/// of the files as it is to be shown.
pub open spec fn dirty_tree_text(step_name: Seq<char>, listing: Seq<char>) -> Seq<char> {
    "Migration step `"@ + step_name + "` left working directory had untracked filed: "@ + listing
        + "."@
}

/// Writes the message for a step that left the working tree dirty.
pub fn dirty_tree_message(step_name: &str, listing: &str) -> (out: String)
    ensures
        out@ == dirty_tree_text(step_name@, listing@),
{
    String::from_str("Migration step `").concat(step_name).concat(
        "` left working directory had untracked filed: ",
    ).concat(listing).concat(".")
}

impl MigrationErrorView {
    /// The text shown for the error.
    pub open spec fn message(self) -> Seq<char> {
        match self {
            MigrationErrorView::UnableToCheckoutRepo { repo, source } => "Unable to checkout "@
                + repo + ". Got error: "@ + source,
            MigrationErrorView::UnableToCreatePullRequest { source } =>
                "Unable to creat pull request."@,
            MigrationErrorView::InvalidGitRepo { source } => "Unable to parse Git Repo."@,
            MigrationErrorView::MigrationNotRequired =>
                "Migration determined that repo was not eligible for migration."@,
            MigrationErrorView::MigrationStepErrored { step_name } => "Migration step `"@
                + step_name + "` exited non-zero."@,
            MigrationErrorView::WorkingDirNotClean { step_name, files } => dirty_tree_text(
                step_name,
                debug_listing(files),
            ),
            MigrationErrorView::IoError(text) => text,
            MigrationErrorView::AnyHowError(text) => text,
            MigrationErrorView::GitError(text) => text,
            MigrationErrorView::CommandError(e) => e.message(),
        }
    }
}

impl MigrationError {
    /// The text shown for the error.
    pub fn message(&self) -> (out: String)
        ensures
            out@ == self@.message(),
    {
        match self {
            MigrationError::UnableToCheckoutRepo { repo, source } => String::from_str(
                "Unable to checkout ",
            ).concat(repo.as_str()).concat(". Got error: ").concat(source.as_str()),
            MigrationError::UnableToCreatePullRequest { source } => String::from_str(
                "Unable to creat pull request.",
            ),
            MigrationError::InvalidGitRepo { source } => String::from_str(
                "Unable to parse Git Repo.",
            ),
            MigrationError::MigrationNotRequired => String::from_str(
                "Migration determined that repo was not eligible for migration.",
            ),
            MigrationError::MigrationStepErrored { step_name } => String::from_str(
                "Migration step `",
            ).concat(step_name.as_str()).concat("` exited non-zero."),
            MigrationError::WorkingDirNotClean { step_name, files } => {
                let listing = debug_list(files);
                dirty_tree_message(step_name.as_str(), listing.as_str())
            },
            MigrationError::IoError(text) => text.clone(),
            MigrationError::AnyHowError(text) => text.clone(),
            MigrationError::GitError(text) => text.clone(),
            MigrationError::CommandError(e) => e.message(),
        }
    }
}

/// How a target's pipeline ended.
#[derive(Debug, PartialEq, Eq)]
pub enum MigrationStatus {
    /// It ended in a step that yields no value.
    EmptyResponse(MigrationStepResult<()>),
    /// It ended in the publishing step.
    PullRequest(MigrationStepResult<CreatedPullRequest>),
}

impl MigrationStatus {
    /// The step stopped the pipeline.
    pub open spec fn terminal(&self) -> bool {
        match self {
            MigrationStatus::EmptyResponse(r) => r.terminal,
            MigrationStatus::PullRequest(r) => r.terminal,
        }
    }

    /// The pipeline ended without an error in a step called `name` that
    /// stopped it.
    pub open spec fn aborted_as(&self, name: Seq<char>) -> bool {
        self matches MigrationStatus::EmptyResponse(r) && r.aborted_as(name)
    }
}

/// The steps of a pipeline, in the order in which they run.
#[derive(Debug, Clone, Copy, PartialEq, Eq, Structural)]
pub enum Stage {
    /// Opening the execution context.
    Init,
    Clone,
    PreFlight,
    /// The migration script at this position of the recipe.
    Script(usize),
    Push,
    Publish,
}

/// What follows a step that let the pipeline continue.
pub enum Sequel {
    /// The next step.
    Stage(Stage),
    /// The pipeline stops, without error, under this name.
    Abort(Seq<char>),
    /// The pipeline is over.
    End,
}

/// What the one who runs the pipeline has to do next.
#[derive(Debug, PartialEq, Eq)]
pub enum Progress {
    /// Run this step and report its result.
    Perform(Stage),
    /// Nothing more: this is the outcome for the target.
    Finished(MigrationStatus),
}

/// One target with everything its pipeline needs.
#[derive(Debug)]
pub struct MigrationTask<'a> {
    pub pretty_name: String,
    pub repo: GitHubRepo,
    pub definition: &'a MigrationDefinition,
    pub exec_opts: ExecutionOptions,
    pub pull_request: Option<CreatedPullRequest>,
    pub skip: bool,
}

impl<'a> MigrationTask<'a> {
    /// The task of the target called `pretty_name`.
    pub fn new(
        pretty_name: &str,
        repo: GitHubRepo,
        definition: &'a MigrationDefinition,
        exec_opts: ExecutionOptions,
        pull_request: Option<CreatedPullRequest>,
        skip: bool,
    ) -> (out: Self)
        ensures
            out.pretty_name@ == pretty_name@,
            out.repo == repo,
            out.definition == definition,
            out.exec_opts == exec_opts,
            out.pull_request == pull_request,
            out.skip == skip,
    {
        Self { pretty_name: pretty_name.to_owned(), repo, definition, exec_opts, pull_request, skip }
    }

    /// What follows once the scripts before position `i` are done: the
    /// script at `i`, or, behind the last one, the push if it is enabled.
    pub open spec fn from_script(&self, i: int) -> Sequel {
        if 0 <= i < self.definition.steps@.len() {
            Sequel::Stage(Stage::Script(i as usize))
        } else if self.exec_opts.push_enabled() {
            Sequel::Stage(Stage::Push)
        } else {
            Sequel::Abort("push"@)
        }
    }

    /// What follows `stage` when it let the pipeline continue.
    pub open spec fn sequel(&self, stage: Stage) -> Sequel {
        match stage {
            Stage::Init => Sequel::Stage(Stage::Clone),
            Stage::Clone => Sequel::Stage(Stage::PreFlight),
            Stage::PreFlight => self.from_script(0),
            Stage::Script(i) => self.from_script(i + 1),
            Stage::Push => if self.exec_opts.pr_enabled() {
                Sequel::Stage(Stage::Publish)
            } else {
                Sequel::Abort("pull-request"@)
            },
            Stage::Publish => Sequel::End,
        }
    }

    /// Begins the pipeline. A skipped target is over at once, under the name
    /// `skip`, before any step: no execution context is opened for it.
    pub fn start(&self) -> (out: Progress)
        ensures
            self.skip ==> (out matches Progress::Finished(status) && status.aborted_as("skip"@)),
            !self.skip ==> out == Progress::Perform(Stage::Init),
    {
        if self.skip {
            return Progress::Finished(
                MigrationStatus::EmptyResponse(MigrationStepResult::abort("skip")),
            );
        }
        Progress::Perform(Stage::Init)
    }

    /// The execution context of this target's pipeline, rooted at `dir`: it
    /// bears the target's name, runs its commands in `dir` to begin with, and
    /// injects the target's environment into every one of them.
    pub fn workspace(&self, dir: &str) -> (out: Workspace)
        ensures
            out.workspace_name@ == self.pretty_name@,
            out.root_dir@ == dir@,
            out.working_dir@ == Seq::<char>::empty(),
            out.env() == env_view(self.exec_opts.env@),
            self.exec_opts.wf() ==> out.wf(),
    {
        let mut out = Workspace::new(self.pretty_name.as_str(), dir);
        let mut env = copy_env(&self.exec_opts.env);
        out.set_env_vars(&mut env);
        out
    }

    /// Judges the opening of the execution context, the first step of the
    /// pipeline: a context that could not be opened fails the target.
    pub fn opened(&self, outcome: Result<(), String>) -> (out: MigrationStepResult<()>)
        ensures
            match outcome {
                Ok(_) => out.succeeded_as("init"@, ()),
                Err(cause) => out.failed_as("init"@, MigrationErrorView::IoError(cause@)),
            },
    {
        match outcome {
            Ok(_) => MigrationStepResult::success("init"),
            Err(cause) => MigrationStepResult::failure("init", MigrationError::IoError(cause)),
        }
    }

    /// Decides what follows `stage`, given its result. A result that stops
    /// the pipeline, and every result of the publishing step, is the outcome
    /// for the target. Otherwise the next step in the fixed order follows,
    /// unless the options hold it back: then the pipeline stops without
    /// error under the name of the step that was not taken.
    pub fn advance(&self, stage: Stage, status: MigrationStatus) -> (out: Progress)
        ensures
            status is PullRequest || status.terminal() ==> out == Progress::Finished(status),
            !(status is PullRequest) && !status.terminal() ==> match self.sequel(stage) {
                Sequel::Stage(next) => out == Progress::Perform(next),
                Sequel::Abort(name) => out matches Progress::Finished(end) && end.aborted_as(
                    name,
                ),
                Sequel::End => out == Progress::Finished(status),
            },
    {
        let stops = match &status {
            MigrationStatus::EmptyResponse(result) => result.terminal,
            MigrationStatus::PullRequest(_) => true,
        };
        if stops {
            return Progress::Finished(status);
        }
        match stage {
            Stage::Init => Progress::Perform(Stage::Clone),
            Stage::Clone => Progress::Perform(Stage::PreFlight),
            Stage::PreFlight => self.enter_script(0),
            Stage::Script(i) => {
                if i < self.definition.steps.len() {
                    self.enter_script(i + 1)
                } else {
                    self.enter_script(i)
                }
            },
            Stage::Push => {
                if self.exec_opts.is_pr_enabled() {
                    Progress::Perform(Stage::Publish)
                } else {
                    Progress::Finished(
                        MigrationStatus::EmptyResponse(MigrationStepResult::abort("pull-request")),
                    )
                }
            },
            Stage::Publish => Progress::Finished(status),
        }
    }

    fn enter_script(&self, i: usize) -> (out: Progress)
        ensures
            match self.from_script(i as int) {
                Sequel::Stage(next) => out == Progress::Perform(next),
                Sequel::Abort(name) => out matches Progress::Finished(end) && end.aborted_as(
                    name,
                ),
                Sequel::End => false,
            },
    {
        if i < self.definition.steps.len() {
            Progress::Perform(Stage::Script(i))
        } else if self.exec_opts.is_push_enabled() {
            Progress::Perform(Stage::Push)
        } else {
            Progress::Finished(MigrationStatus::EmptyResponse(MigrationStepResult::abort("push")))
        }
    }

    /// The clone step of this target.
    pub fn clone_step(&self) -> (out: CloneRepoStep<'_>)
        ensures
            out.branch_name@ == self.definition.checkout.branch_name@,
            *out.repo == self.repo,
    {
        CloneRepoStep::new(self.definition.checkout.branch_name.as_str(), &self.repo)
    }

    /// The pre-flight step of this target.
    pub fn pre_flight_step(&self) -> (out: PreFlightCheckStep<'_>)
        ensures
            out.command@ == self.definition.checkout.pre_flight@,
    {
        PreFlightCheckStep::new(self.definition.checkout.pre_flight.as_str())
    }

    /// The script step at position `i` of the recipe.
    pub fn script_step(&self, i: usize) -> (out: Option<MigrationScriptStep<'_>>)
        ensures
            i >= self.definition.steps@.len() ==> out is None,
            i < self.definition.steps@.len() ==> (out matches Some(step) && step.step_name@
                == self.definition.steps@[i as int].name@ && step.command@
                == self.definition.steps@[i as int].migration_script@),
    {
        if i < self.definition.steps.len() {
            let step = &self.definition.steps[i];
            Some(MigrationScriptStep::new(step.name.as_str(), step.migration_script.as_str()))
        } else {
            None
        }
    }

    /// The publishing step of this target: it carries the pull request of an
    /// earlier run, if the target remembers one.
    pub fn publish_step(&self) -> (out: UpdateGithubStep<'_>)
        ensures
            *out.repo == self.repo,
            out.existing_pr == self.pull_request,
            out.branch@ == self.definition.checkout.branch_name@,
            out.title@ == self.definition.pr.title@,
            out.body@ == self.definition.pr.description@,
    {
        UpdateGithubStep {
            repo: &self.repo,
            existing_pr: &self.pull_request,
            branch: self.definition.checkout.branch_name.as_str(),
            title: self.definition.pr.title.as_str(),
            body: self.definition.pr.description.as_str(),
        }
    }
}

/// The step at position `k` of the fixed order of a pipeline with `steps`
/// scripts: opening the context, clone, pre-flight, the scripts as the recipe
/// lists them, push, publish.
pub open spec fn stage_at(k: nat, steps: nat) -> Stage {
    if k == 0 {
        Stage::Init
    } else if k == 1 {
        Stage::Clone
    } else if k == 2 {
        Stage::PreFlight
    } else if k < 3 + steps {
        Stage::Script((k - 3) as usize)
    } else if k == 3 + steps {
        Stage::Push
    } else {
        Stage::Publish
    }
}

impl<'a> MigrationTask<'a> {
    /// Number of scripts in the recipe.
    pub open spec fn script_count(&self) -> nat {
        self.definition.steps@.len()
    }

    /// The steps that are run, beginning with `stage`, when `continues` tells
    /// of each step in turn whether its result let the pipeline continue.
    /// Past the end of `continues` nothing is run.
    pub open spec fn performed(&self, stage: Stage, continues: Seq<bool>) -> Seq<Stage>
        decreases continues.len(),
    {
        if continues.len() == 0 {
            Seq::empty()
        } else if !continues[0] {
            seq![stage]
        } else {
            match self.sequel(stage) {
                Sequel::Stage(next) => seq![stage] + self.performed(next, continues.drop_first()),
                _ => seq![stage],
            }
        }
    }

    /// The steps that are run for the target: none if it is skipped, else
    /// those from the opening of the execution context on.
    pub open spec fn steps_run(&self, continues: Seq<bool>) -> Seq<Stage> {
        if self.skip {
            Seq::empty()
        } else {
            self.performed(Stage::Init, continues)
        }
    }

    /// For a skipped target no step is run, whatever the steps would have come
    /// to: in particular no execution context is opened.
    pub proof fn skipped_target_runs_no_step(&self, continues: Seq<bool>)
        requires
            self.skip,
        ensures
            self.steps_run(continues).len() == 0,
            !self.steps_run(continues).contains(Stage::Init),
    {
    }

    /// A step that let the pipeline continue is followed by the step at the
    /// next position of the fixed order, or by no step at all.
    pub proof fn sequel_is_next_in_order(&self, k: nat)
        requires
            k <= 4 + self.script_count(),
        ensures
            match self.sequel(stage_at(k, self.script_count())) {
                Sequel::Stage(next) => next == stage_at(k + 1, self.script_count()) && k < 4
                    + self.script_count(),
                Sequel::Abort(name) => if k == 3 + self.script_count() {
                    !self.exec_opts.pr_enabled() && name == "pull-request"@
                } else {
                    k == 2 + self.script_count() && !self.exec_opts.push_enabled() && name
                        == "push"@
                },
                Sequel::End => k == 4 + self.script_count(),
            },
    {
        assert(self.definition.steps@.len() == self.definition.steps.len());
    }

    /// The steps of a pipeline run in the fixed order, and the first result
    /// that stops the pipeline is the last one: the `k`-th step that is run is
    /// the `k`-th of the order, and every step before it let the pipeline
    /// continue.
    pub proof fn pipeline_runs_in_order(&self, continues: Seq<bool>, k: int)
        requires
            0 <= k < self.steps_run(continues).len(),
        ensures
            self.steps_run(continues)[k] == stage_at(k as nat, self.script_count()),
            k < continues.len(),
            forall|j: int| 0 <= j < k ==> continues[j],
    {
        self.performed_from(0, continues, k);
    }

    proof fn performed_from(&self, m: nat, continues: Seq<bool>, k: int)
        requires
            m <= 4 + self.script_count(),
            0 <= k < self.performed(stage_at(m, self.script_count()), continues).len(),
        ensures
            self.performed(stage_at(m, self.script_count()), continues)[k] == stage_at(
                m + k as nat,
                self.script_count(),
            ),
            k < continues.len(),
            forall|j: int| 0 <= j < k ==> continues[j],
        decreases continues.len(),
    {
        let stage = stage_at(m, self.script_count());
        self.sequel_is_next_in_order(m);
        if k > 0 {
            let rest = continues.drop_first();
            match self.sequel(stage) {
                Sequel::Stage(next) => {
                    self.performed_from(m + 1, rest, k - 1);
                    assert forall|j: int| 0 <= j < k implies continues[j] by {
                        if j > 0 {
                            assert(rest[j - 1] == continues[j]);
                        }
                    }
                },
                _ => {},
            }
        }
    }
}

} // verus!
