//! The campaign as it is persisted: the shared recipe and the targets it is
//! applied to.
use crate::workspace::{env_view, keys_once};
use vstd::prelude::*;
use vstd::string::*;

verus! {

/// Branch and applicability gate of a campaign.
#[derive(Debug, Clone, PartialEq, Eq)]
pub struct RepoCheckout {
    /// The branch that is created in every target and pushed.
    pub branch_name: String,
    /// A command run in every target: exit code zero lets the migration
    /// continue, any other value leaves the target out.
    pub pre_flight: String,
}

/// One mutation script of the recipe.
#[derive(Debug, Clone, PartialEq, Eq)]
pub struct MigrationStep {
    /// Name of the step, used in reports.
    pub name: String,
    /// The command to run. It has to commit what it changes.
    pub migration_script: String,
}

/// Title and description of the pull requests of a campaign.
#[derive(Debug, Clone, PartialEq, Eq)]
pub struct PrCreationDetails {
    pub title: String,
    pub description: String,
}

/// The recipe shared by all targets of a campaign.
#[derive(Debug, Clone, PartialEq, Eq)]
pub struct MigrationDefinition {
    pub checkout: RepoCheckout,
    pub pr: PrCreationDetails,
    pub steps: Vec<MigrationStep>,
}

/// The pull request that a successful run published.
#[derive(Debug, PartialEq, Eq)]
pub struct CreatedPullRequest {
    pub pr_number: i64,
    pub url: String,
}

/// A published pull request with its URL as a sequence of characters.
pub struct CreatedPullRequestView {
    pub pr_number: i64,
    pub url: Seq<char>,
}

impl View for CreatedPullRequest {
    type V = CreatedPullRequestView;

    open spec fn view(&self) -> CreatedPullRequestView {
        CreatedPullRequestView { pr_number: self.pr_number, url: self.url@ }
    }
}

impl Clone for CreatedPullRequest {
    fn clone(&self) -> (out: Self)
        ensures
            out@ == self@,
    {
        CreatedPullRequest { pr_number: self.pr_number, url: self.url.clone() }
    }
}

impl CreatedPullRequest {
    /// Where the pull request can be visited.
    pub fn to_url(&self) -> (out: String)
        ensures
            out@ == self.url@,
    {
        self.url.clone()
    }
}

/// View of an optional pull request.
pub open spec fn pull_request_view(pr: Option<CreatedPullRequest>) -> Option<
    CreatedPullRequestView,
> {
    match pr {
        Some(p) => Some(p@),
        None => None,
    }
}

/// One repository under migration.
#[derive(Debug, Clone, PartialEq, Eq)]
pub struct TargetDescription {
    /// URL the repository is cloned from.
    pub repo: String,
    /// Environment overrides for this repository: each name once.
    pub env: Option<Vec<(String, String)>>,
    /// The pull request of an earlier run, if one was published.
    pub pull_request: Option<CreatedPullRequest>,
    /// Set by an operator to leave the target out without deleting it.
    pub skip: bool,
}

impl TargetDescription {
    /// The environment overrides, if there are any, set every name once.
    pub open spec fn wf(&self) -> bool {
        match self.env {
            Some(pairs) => keys_once(env_view(pairs@)),
            None => true,
        }
    }

    /// A target that was never migrated and is not skipped.
    pub fn new(repo: &str) -> (out: Self)
        ensures
            out.wf(),
            out.repo@ == repo@,
            out.env is None,
            out.pull_request is None,
            !out.skip,
    {
        Self { repo: repo.to_owned(), env: None, pull_request: None, skip: false }
    }
}

/// A target under its name.
#[derive(Debug, Clone, PartialEq, Eq)]
pub struct NamedTarget {
    pub name: String,
    pub target: TargetDescription,
}

/// The persisted state of a campaign: the targets by name, and the recipe.
#[derive(Debug, Clone, PartialEq, Eq)]
pub struct MigrationInput {
    pub targets: Vec<NamedTarget>,
    pub definition: MigrationDefinition,
}

/// The names of the targets, in order.
pub open spec fn names_of(targets: Seq<NamedTarget>) -> Seq<Seq<char>> {
    targets.map_values(|t: NamedTarget| t.name@)
}

impl MigrationInput {
    /// No two targets share a name.
    pub open spec fn wf(&self) -> bool {
        names_of(self.targets@).no_duplicates()
    }

    /// A campaign without targets.
    pub fn new(definition: MigrationDefinition) -> (out: Self)
        ensures
            out.wf(),
            out.targets@.len() == 0,
            out.definition == definition,
    {
        MigrationInput { targets: Vec::new(), definition }
    }

    /// Position of the target called `name`.
    pub fn position(&self, name: &str) -> (out: Option<usize>)
        ensures
            match out {
                Some(i) => i < self.targets@.len() && self.targets@[i as int].name@ == name@
                    && forall|j: int| 0 <= j < i ==> self.targets@[j].name@ != name@,
                None => !names_of(self.targets@).contains(name@),
            },
    {
        let wanted = name.to_owned();
        let mut i: usize = 0;
        while i < self.targets.len()
            invariant
                wanted@ == name@,
                i <= self.targets@.len(),
                forall|j: int| 0 <= j < i ==> self.targets@[j].name@ != name@,
            decreases self.targets@.len() - i,
        {
            if self.targets[i].name == wanted {
                return Some(i);
            }
            i += 1;
        }
        None
    }

    /// Puts `target` under `name`: in place of the target of that name if
    /// there is one, which is handed back, else behind all others.
    pub fn insert(&mut self, name: String, target: TargetDescription) -> (out: Option<
        TargetDescription,
    >)
        requires
            old(self).wf(),
        ensures
            final(self).wf(),
            final(self).definition == old(self).definition,
            names_of(old(self).targets@).contains(name@) ==> out is Some && names_of(
                final(self).targets@,
            ) == names_of(old(self).targets@),
            !names_of(old(self).targets@).contains(name@) ==> out is None && final(self).targets@
                == old(self).targets@.push(NamedTarget { name, target }),
            forall|i: int|
                0 <= i < old(self).targets@.len() ==> if old(self).targets@[i].name@ == name@ {
                    final(self).targets@[i].target == target && out == Some(
                        old(self).targets@[i].target,
                    )
                } else {
                    final(self).targets@[i] == old(self).targets@[i]
                },
    {
        match self.position(name.as_str()) {
            Some(i) => {
                let ghost before = self.targets@;
                let mut held = NamedTarget { name, target };
                let slot = &mut self.targets[i];
                std::mem::swap(slot, &mut held);
                let ghost after = self.targets@;
                assert(names_of(after) =~= names_of(before));
                assert(names_of(before)[i as int] == name@);
                assert forall|j: int| 0 <= j < before.len() && j != i implies before[j].name@
                    != name@ by {
                    assert(names_of(before)[j] == before[j].name@);
                }
                Some(held.target)
            },
            None => {
                let ghost before = self.targets@;
                self.targets.push(NamedTarget { name, target });
                assert(names_of(self.targets@) =~= names_of(before).push(name@));
                assert forall|i: int| 0 <= i < before.len() implies before[i].name@ != name@ by {
                    assert(names_of(before)[i] == before[i].name@);
                }
                None
            },
        }
    }
}

impl MigrationInput {
    /// A campaign to start from: one made-up target and a recipe with one
    /// step, every field filled in.
    pub fn sample() -> (out: Self)
        ensures
            out.wf(),
            out.targets@.len() == 1,
            out.targets@[0].name@ == "dummy-repo"@,
            out.targets@[0].target.repo@ == "git@github.com:ethankhall/dummy-repo.git"@,
            out.targets@[0].target.env is None,
            out.targets@[0].target.pull_request is None,
            !out.targets@[0].target.skip,
            out.definition.checkout.branch_name@ == "ethankhall/foo-example"@,
            out.definition.checkout.pre_flight@ == "/usr/bin/true"@,
            out.definition.pr.title@ == "Example Title"@,
            out.definition.pr.description@
                == "This is a TOML file\n\nSo you can add newlines between the PR's"@,
            out.definition.steps@.len() == 1,
            out.definition.steps@[0].name@ == "Example"@,
            out.definition.steps@[0].migration_script@ == "examples/example-migration.sh"@,
    {
        let definition = MigrationDefinition {
            checkout: RepoCheckout {
                branch_name: String::from_str("ethankhall/foo-example"),
                pre_flight: String::from_str("/usr/bin/true"),
            },
            pr: PrCreationDetails {
                title: String::from_str("Example Title"),
                description: String::from_str(
                    "This is a TOML file\n\nSo you can add newlines between the PR's",
                ),
            },
            steps: vec![
                MigrationStep {
                    name: String::from_str("Example"),
                    migration_script: String::from_str("examples/example-migration.sh"),
                },
            ],
        };
        let mut out = MigrationInput::new(definition);
        out.insert(
            String::from_str("dummy-repo"),
            TargetDescription::new("git@github.com:ethankhall/dummy-repo.git"),
        );
        out
    }
}

} // verus!
