//! The execution context of one pipeline run, as far as it decides anything:
//! where commands run, with which environment, what is written to the logs
//! ahead of a command, and when a command counts as failed.
use crate::text::{
    decimal, decimal_text, digits, digits_differ, digits_hold_no_slash, natural_text,
};
use vstd::prelude::*;
use vstd::string::*;

verus! {

/// A command that did not succeed.
#[derive(Debug, Clone, PartialEq, Eq)]
pub enum CommandError {
    /// The command ran and exited with a status other than zero.
    NonZeroExit { command: String, working_dir: String, code: i32 },
    /// The command could not be run, or its output could not be logged.
    IoError(String),
}

/// A command error with its texts as sequences of characters.
pub enum CommandErrorView {
    NonZeroExit { command: Seq<char>, working_dir: Seq<char>, code: i32 },
    IoError(Seq<char>),
}

impl View for CommandError {
    type V = CommandErrorView;

    open spec fn view(&self) -> CommandErrorView {
        match self {
            CommandError::NonZeroExit { command, working_dir, code } => {
                CommandErrorView::NonZeroExit {
                    command: command@,
                    working_dir: working_dir@,
                    code: *code,
                }
            },
            CommandError::IoError(text) => CommandErrorView::IoError(text@),
        }
    }
}

impl CommandErrorView {
    /// The text shown for the error.
    pub open spec fn message(self) -> Seq<char> {
        match self {
            CommandErrorView::NonZeroExit { command, working_dir, code } => command
                + " exited with "@ + decimal(code as int) + ". You can check "@ + working_dir
                + " for the output files"@,
            CommandErrorView::IoError(text) => text,
        }
    }
}

impl CommandError {
    /// The text shown for the error.
    pub fn message(&self) -> (out: String)
        ensures
            out@ == self@.message(),
    {
        match self {
            CommandError::NonZeroExit { command, working_dir, code } => {
                let number = decimal_text(*code as i64);
                command.clone().concat(" exited with ").concat(number.as_str()).concat(
                    ". You can check ",
                ).concat(working_dir.as_str()).concat(" for the output files")
            },
            CommandError::IoError(text) => text.clone(),
        }
    }
}

/// View of an environment: the pairs of name and value, in order.
pub open spec fn env_view(env: Seq<(String, String)>) -> Seq<(Seq<char>, Seq<char>)> {
    env.map_values(|p: (String, String)| (p.0@, p.1@))
}

/// The names that an environment sets, in order.
pub open spec fn keys_of(env: Seq<(Seq<char>, Seq<char>)>) -> Seq<Seq<char>> {
    env.map_values(|p: (Seq<char>, Seq<char>)| p.0)
}

/// Whether an environment sets every name once: what makes a list of pairs a
/// mapping from names to values.
pub open spec fn keys_once(env: Seq<(Seq<char>, Seq<char>)>) -> bool {
    keys_of(env).no_duplicates()
}

/// Copies an environment, pair by pair and in order. A copy of a mapping is a
/// mapping.
pub fn copy_env(env: &Vec<(String, String)>) -> (out: Vec<(String, String)>)
    ensures
        env_view(out@) == env_view(env@),
        keys_once(env_view(env@)) ==> keys_once(env_view(out@)),
{
    let mut out: Vec<(String, String)> = Vec::new();
    let mut i: usize = 0;
    while i < env.len()
        invariant
            i <= env@.len(),
            env_view(out@) == env_view(env@).take(i as int),
        decreases env@.len() - i,
    {
        let pair = (env[i].0.clone(), env[i].1.clone());
        out.push(pair);
        proof {
            assert(env_view(env@).take(i + 1) =~= env_view(env@).take(i as int).push(
                env_view(env@)[i as int],
            ));
        }
        i += 1;
    }
    proof {
        assert(env_view(env@).take(env@.len() as int) =~= env_view(env@));
    }
    out
}

/// The path of `name` directly below the directory `dir`.
pub open spec fn below(dir: Seq<char>, name: Seq<char>) -> Seq<char> {
    dir + "/"@ + name
}

/// The directory that the target at position `index` of a campaign is worked
/// on in: the one named by that position, directly below the campaign's root.
pub open spec fn work_dir_of(root: Seq<char>, index: nat) -> Seq<char> {
    below(root, digits(index))
}

/// Whether the path `inner` is the directory `outer` or lies somewhere in it.
pub open spec fn lies_inside(inner: Seq<char>, outer: Seq<char>) -> bool {
    inner == outer || (outer + "/"@).is_prefix_of(inner)
}

/// The targets of a campaign do not share a directory: the directories of two
/// different positions are different, and neither lies inside the other.
pub proof fn work_dirs_are_disjoint(root: Seq<char>, i: nat, j: nat)
    requires
        i != j,
    ensures
        work_dir_of(root, i) != work_dir_of(root, j),
        !lies_inside(work_dir_of(root, i), work_dir_of(root, j)),
        !lies_inside(work_dir_of(root, j), work_dir_of(root, i)),
{
    not_inside(root, i, j);
    not_inside(root, j, i);
}

proof fn not_inside(root: Seq<char>, i: nat, j: nat)
    requires
        i != j,
    ensures
        !lies_inside(work_dir_of(root, i), work_dir_of(root, j)),
{
    reveal_strlit("/");
    digits_differ(i, j);
    digits_hold_no_slash(i);
    let a = work_dir_of(root, i);
    let b = work_dir_of(root, j);
    let p = root.len() + 1;
    assert(a.subrange(p as int, a.len() as int) =~= digits(i));
    assert(b.subrange(p as int, b.len() as int) =~= digits(j));
    if (b + "/"@).is_prefix_of(a) {
        let cut = a.subrange(0, b.len() as int + 1);
        assert(cut[b.len() as int] == (b + "/"@)[b.len() as int]);
        assert(a[b.len() as int] == digits(i)[b.len() - p]);
    }
}

/// Writes the directory of the target at position `index`.
pub fn work_dir(root: &str, index: usize) -> (out: String)
    ensures
        out@ == work_dir_of(root@, index as nat),
{
    let name = natural_text(index as u64);
    String::from_str(root).concat("/").concat(name.as_str())
}

/// The plain data of an execution context. The log files themselves belong to
/// whoever runs the commands.
#[derive(Debug, Clone, PartialEq, Eq)]
pub struct Workspace {
    /// The environment injected into every command: each name once.
    pub env_vars: Vec<(String, String)>,
    /// Directory that the context owns.
    pub root_dir: String,
    /// Where commands run, relative to `root_dir`; empty for the root itself.
    pub working_dir: String,
    pub workspace_name: String,
}

impl Workspace {
    /// The environment, as pairs of name and value.
    pub open spec fn env(&self) -> Seq<(Seq<char>, Seq<char>)> {
        env_view(self.env_vars@)
    }

    /// The environment sets every name once.
    pub open spec fn wf(&self) -> bool {
        keys_once(self.env())
    }

    /// The directory in which commands run: the root, or the working
    /// directory below it.
    pub open spec fn location_spec(&self) -> Seq<char> {
        if self.working_dir@.len() == 0 {
            self.root_dir@
        } else {
            below(self.root_dir@, self.working_dir@)
        }
    }

    /// A context rooted at `workspace_dir`, with an empty environment, whose
    /// commands run in the root.
    pub fn new(workspace_name: &str, workspace_dir: &str) -> (out: Self)
        ensures
            out.wf(),
            out.workspace_name@ == workspace_name@,
            out.root_dir@ == workspace_dir@,
            out.working_dir@ == Seq::<char>::empty(),
            out.env() == Seq::<(Seq<char>, Seq<char>)>::empty(),
    {
        Workspace {
            workspace_name: workspace_name.to_owned(),
            env_vars: Vec::new(),
            root_dir: workspace_dir.to_owned(),
            working_dir: String::new(),
        }
    }

    /// Replaces the environment by the given one, which is left empty. An
    /// environment that sets every name once leaves the context well formed.
    pub fn set_env_vars(&mut self, envs: &mut Vec<(String, String)>)
        ensures
            final(self).env() == env_view(old(envs)@),
            keys_once(env_view(old(envs)@)) ==> final(self).wf(),
            final(envs)@.len() == 0,
            final(self).root_dir == old(self).root_dir,
            final(self).working_dir == old(self).working_dir,
            final(self).workspace_name == old(self).workspace_name,
    {
        self.env_vars.clear();
        self.env_vars.append(envs);
    }

    /// Makes commands run in `path` below the root.
    pub fn set_working_dir(&mut self, path: &str)
        ensures
            final(self).working_dir@ == path@,
            final(self).root_dir == old(self).root_dir,
            final(self).workspace_name == old(self).workspace_name,
            final(self).env() == old(self).env(),
            old(self).wf() ==> final(self).wf(),
    {
        self.working_dir = path.to_owned();
    }

    /// The directory in which the commands of this context run.
    pub fn location(&self) -> (out: String)
        ensures
            out@ == self.location_spec(),
    {
        if self.working_dir.as_str().is_empty() {
            self.root_dir.clone()
        } else {
            self.root_dir.clone().concat("/").concat(self.working_dir.as_str())
        }
    }

    /// The line written to both logs ahead of a command's output.
    pub fn banner(args: &str) -> (out: String)
        ensures
            out@ == ">> Running "@ + args@ + "\n"@,
    {
        String::from_str(">> Running ").concat(args).concat("\n")
    }

    /// Judges a command that was run in this context by its exit code: zero
    /// is success, anything else an error that names the command, the code
    /// and the directory the command ran in, whose logs hold the output.
    pub fn run_command_successfully(&self, args: &str, code: i32) -> (out: Result<
        (),
        CommandError,
    >)
        ensures
            code == 0 ==> out is Ok,
            code != 0 ==> (out matches Err(e) && e@ == (CommandErrorView::NonZeroExit {
                command: args@,
                working_dir: self.location_spec(),
                code,
            })),
    {
        if code != 0 {
            Err(
                CommandError::NonZeroExit {
                    code,
                    command: args.to_owned(),
                    working_dir: self.location(),
                },
            )
        } else {
            Ok(())
        }
    }
}

/// The commands of a context run in its own directory: where they run is the
/// root of the context or lies inside it.
pub proof fn commands_stay_in_their_directory(w: Workspace)
    ensures
        lies_inside(w.location_spec(), w.root_dir@),
{
    if w.working_dir@.len() > 0 {
        let prefix = w.root_dir@ + "/"@;
        assert(w.location_spec().subrange(0, prefix.len() as int) =~= prefix);
    }
}

/// What lies inside one of two directories, neither of which lies inside the
/// other, does not lie inside the second.
pub proof fn apart_directories_hold_apart_paths(path: Seq<char>, a: Seq<char>, b: Seq<char>)
    requires
        lies_inside(path, a),
        !lies_inside(a, b),
        !lies_inside(b, a),
    ensures
        !lies_inside(path, b),
{
    reveal_strlit("/");
    if lies_inside(path, b) && path != a && path != b {
        let pa = a + "/"@;
        let pb = b + "/"@;
        assert(forall|k: int| 0 <= k < pa.len() ==> pa[k] == path.subrange(0, pa.len() as int)[k]);
        assert(forall|k: int| 0 <= k < pb.len() ==> pb[k] == path.subrange(0, pb.len() as int)[k]);
        if a.len() == b.len() {
            assert forall|k: int| 0 <= k < a.len() implies a[k] == b[k] by {
                assert(a[k] == pa[k]);
                assert(b[k] == pb[k]);
            }
            assert(a =~= b);
        } else if a.len() < b.len() {
            assert forall|k: int| 0 <= k < pa.len() implies pa[k] == b[k] by {
                assert(b[k] == pb[k]);
            }
            assert(b.subrange(0, pa.len() as int) =~= pa);
        } else {
            assert forall|k: int| 0 <= k < pb.len() implies pb[k] == a[k] by {
                assert(a[k] == pa[k]);
            }
            assert(a.subrange(0, pb.len() as int) =~= pb);
        }
    }
}

/// The pipelines of two targets do not meet: no command of the context that
/// is rooted in the directory of one position runs in the directory of
/// another position, or anywhere inside it.
pub proof fn pipelines_do_not_meet(w: Workspace, root: Seq<char>, i: nat, j: nat)
    requires
        i != j,
        w.root_dir@ == work_dir_of(root, i),
    ensures
        !lies_inside(w.location_spec(), work_dir_of(root, j)),
{
    work_dirs_are_disjoint(root, i, j);
    commands_stay_in_their_directory(w);
    apart_directories_hold_apart_paths(w.location_spec(), work_dir_of(root, i), work_dir_of(root, j));
}

} // verus!
