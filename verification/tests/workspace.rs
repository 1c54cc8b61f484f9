use clu::workspace::{copy_env, work_dir, CommandError, Workspace};

#[test]
fn new_workspace_runs_in_its_root() {
    let w = Workspace::new("repo-a", "/work");
    assert_eq!(w.workspace_name, "repo-a");
    assert_eq!(w.root_dir, "/work");
    assert_eq!(w.working_dir, "");
    assert!(w.env_vars.is_empty());
}

#[test]
fn set_env_vars_replaces_and_drains() {
    let mut w = Workspace::new("repo-a", "/work");
    let mut first = vec![("A".to_owned(), "1".to_owned())];
    w.set_env_vars(&mut first);
    assert!(first.is_empty());
    let mut second = vec![("B".to_owned(), "2".to_owned()), ("C".to_owned(), "3".to_owned())];
    w.set_env_vars(&mut second);
    assert!(second.is_empty());
    assert_eq!(
        w.env_vars,
        vec![("B".to_owned(), "2".to_owned()), ("C".to_owned(), "3".to_owned())]
    );
    assert_eq!(w.root_dir, "/work");
}

#[test]
fn set_working_dir_is_relative_to_the_root() {
    let mut w = Workspace::new("repo-a", "/work");
    w.set_working_dir("repo");
    assert_eq!(w.working_dir, "repo");
    assert_eq!(w.root_dir, "/work");
}

#[test]
fn banner_names_the_command() {
    assert_eq!(Workspace::banner("git status"), ">> Running git status\n");
}

#[test]
fn exit_code_zero_is_success() {
    let w = Workspace::new("repo-a", "/work");
    assert_eq!(w.run_command_successfully("true", 0), Ok(()));
}

#[test]
fn other_exit_codes_are_errors() {
    let mut w = Workspace::new("repo-a", "/work");
    assert_eq!(
        w.run_command_successfully("false", 1),
        Err(CommandError::NonZeroExit {
            command: "false".to_owned(),
            working_dir: "/work".to_owned(),
            code: 1
        })
    );
    w.set_working_dir("repo");
    assert_eq!(
        w.run_command_successfully("false", 1),
        Err(CommandError::NonZeroExit {
            command: "false".to_owned(),
            working_dir: "/work/repo".to_owned(),
            code: 1
        })
    );
    assert!(w.run_command_successfully("x", -1).is_err());
}

#[test]
fn command_error_messages() {
    assert_eq!(
        CommandError::NonZeroExit {
            command: "make".to_owned(),
            working_dir: "/w".to_owned(),
            code: 2
        }
        .message(),
        "make exited with 2. You can check /w for the output files"
    );
    assert_eq!(
        CommandError::NonZeroExit {
            command: "make".to_owned(),
            working_dir: "/w".to_owned(),
            code: -15
        }
        .message(),
        "make exited with -15. You can check /w for the output files"
    );
    assert_eq!(CommandError::IoError("no such file".to_owned()).message(), "no such file");
}

#[test]
fn location_is_the_root_or_below_it() {
    let mut w = Workspace::new("repo-a", "/work/3");
    assert_eq!(w.location(), "/work/3");
    w.set_working_dir("repo");
    assert_eq!(w.location(), "/work/3/repo");
    w.set_working_dir("");
    assert_eq!(w.location(), "/work/3");
}

#[test]
fn work_dir_is_named_by_the_position() {
    assert_eq!(work_dir("work-dir", 0), "work-dir/0");
    assert_eq!(work_dir("work-dir", 7), "work-dir/7");
    assert_eq!(work_dir("/abs/root", 12), "/abs/root/12");
    assert_eq!(work_dir("", 1), "/1");
}

#[test]
fn work_dirs_of_different_positions_are_apart() {
    for i in 0..30usize {
        for j in 0..30usize {
            if i != j {
                let a = work_dir("root", i);
                let b = work_dir("root", j);
                assert_ne!(a, b);
                assert!(!a.starts_with(&format!("{}/", b)));
            }
        }
    }
}

#[test]
fn copy_env_keeps_pairs_and_order() {
    let env = vec![("B".to_owned(), "2".to_owned()), ("A".to_owned(), "1".to_owned())];
    assert_eq!(copy_env(&env), env);
    assert_eq!(copy_env(&Vec::new()), Vec::new());
}
