use clu::github::{GitHubError, GitHubRepo};
use clu::pull_request::{
    fetch_pull_state, mutation_output, pull_request_details, repository_details, BranchRef,
    GithubApiRepo, MergeableState, PullRequestCommit, PullRequestDetails, PullRequestOutput,
    PullRequestState, PullState, PullStatus, Reply, RepositoryDetails, StatusState,
};

fn details(
    merged: bool,
    mergeable: MergeableState,
    commits: Option<Vec<Option<PullRequestCommit>>>,
) -> PullRequestDetails {
    PullRequestDetails {
        id: "PR_1".to_owned(),
        permalink: "https://github.com/org/repo-a/pull/7".to_owned(),
        merged,
        mergeable,
        state: PullRequestState::Open,
        commits,
    }
}

fn rollup(state: StatusState) -> Option<Vec<Option<PullRequestCommit>>> {
    Some(vec![Some(PullRequestCommit { status_check_rollup: Some(state) })])
}

fn repo() -> GitHubRepo {
    GitHubRepo::new("org", "repo-a", "git@github.com:org/repo-a.git")
}

#[test]
fn merged_with_failing_rollup_is_merged() {
    let d = details(true, MergeableState::Conflicting, rollup(StatusState::Failure));
    assert_eq!(d.status(), PullStatus::Merged);
}

#[test]
fn merged_and_mergeable_is_merged() {
    let d = details(true, MergeableState::Mergeable, rollup(StatusState::Success));
    assert_eq!(d.status(), PullStatus::Merged);
}

#[test]
fn mergeable_flag_beats_failing_rollup() {
    let d = details(false, MergeableState::Mergeable, rollup(StatusState::Failure));
    assert_eq!(d.status(), PullStatus::Mergeable);
}

#[test]
fn rollup_success_without_flag_is_mergeable() {
    let d = details(false, MergeableState::Unknown, rollup(StatusState::Success));
    assert_eq!(d.status(), PullStatus::Mergeable);
}

#[test]
fn rollup_pending_without_flag_is_mergeable() {
    let d = details(false, MergeableState::Conflicting, rollup(StatusState::Pending));
    assert_eq!(d.status(), PullStatus::Mergeable);
}

#[test]
fn rollup_failure_or_error_is_checks_failed() {
    for state in [StatusState::Failure, StatusState::Error, StatusState::Expected, StatusState::Other] {
        let d = details(false, MergeableState::Unknown, rollup(state));
        assert_eq!(d.status(), PullStatus::ChecksFailed);
    }
}

#[test]
fn no_commits_is_checks_failed() {
    assert_eq!(details(false, MergeableState::Unknown, None).status(), PullStatus::ChecksFailed);
    assert_eq!(
        details(false, MergeableState::Unknown, Some(vec![])).status(),
        PullStatus::ChecksFailed
    );
    assert_eq!(
        details(false, MergeableState::Unknown, Some(vec![None])).status(),
        PullStatus::ChecksFailed
    );
}

#[test]
fn missing_rollup_is_checks_failed() {
    let commits = Some(vec![Some(PullRequestCommit { status_check_rollup: None })]);
    assert_eq!(details(false, MergeableState::Other, commits).status(), PullStatus::ChecksFailed);
}

#[test]
fn only_the_first_commit_counts() {
    let commits = Some(vec![
        Some(PullRequestCommit { status_check_rollup: Some(StatusState::Failure) }),
        Some(PullRequestCommit { status_check_rollup: Some(StatusState::Success) }),
    ]);
    let d = details(false, MergeableState::Unknown, commits);
    assert_eq!(d.latest_rollup(), Some(StatusState::Failure));
    assert_eq!(d.status(), PullStatus::ChecksFailed);
    let commits = Some(vec![
        None,
        Some(PullRequestCommit { status_check_rollup: Some(StatusState::Success) }),
    ]);
    assert_eq!(details(false, MergeableState::Unknown, commits).latest_rollup(), None);
}

#[test]
fn is_open_reads_the_state() {
    let mut d = details(false, MergeableState::Unknown, None);
    assert!(d.is_open());
    d.state = PullRequestState::Closed;
    assert!(!d.is_open());
    d.state = PullRequestState::Merged;
    assert!(!d.is_open());
}

#[test]
fn pull_state_keeps_the_permalink() {
    let d = details(false, MergeableState::Mergeable, None);
    assert_eq!(
        d.into_pull_state(),
        PullState {
            status: PullStatus::Mergeable,
            permalink: "https://github.com/org/repo-a/pull/7".to_owned()
        }
    );
}

#[test]
fn pull_request_answer_is_read_layer_by_layer() {
    let r = repo();
    assert_eq!(
        pull_request_details(&r, 7, Err("connection reset".to_owned())),
        Err(GitHubError::NetworkError("connection reset".to_owned()))
    );
    assert_eq!(
        pull_request_details(&r, 7, Ok(Reply { data: None, errors: "Some([..])".to_owned() })),
        Err(GitHubError::GraphQlError { error: "Some([..])".to_owned() })
    );
    assert_eq!(
        pull_request_details(&r, 7, Ok(Reply { data: Some(None), errors: "None".to_owned() })),
        Err(GitHubError::NoSuchRepository { owner: "org".to_owned(), repo: "repo-a".to_owned() })
    );
    assert_eq!(
        pull_request_details(&r, 7, Ok(Reply { data: Some(Some(None)), errors: "None".to_owned() })),
        Err(GitHubError::NoSuchPullRequest {
            owner: "org".to_owned(),
            repo: "repo-a".to_owned(),
            number: 7
        })
    );
    let d = details(false, MergeableState::Unknown, None);
    assert_eq!(
        pull_request_details(
            &r,
            7,
            Ok(Reply { data: Some(Some(Some(d.clone()))), errors: "None".to_owned() })
        ),
        Ok(d)
    );
}

#[test]
fn fetch_pull_state_classifies_the_answer() {
    let r = repo();
    let d = details(true, MergeableState::Unknown, rollup(StatusState::Failure));
    assert_eq!(
        fetch_pull_state(&r, 7, Ok(Reply { data: Some(Some(Some(d))), errors: String::new() })),
        Ok(PullState {
            status: PullStatus::Merged,
            permalink: "https://github.com/org/repo-a/pull/7".to_owned()
        })
    );
    assert_eq!(
        fetch_pull_state(&r, 9, Ok(Reply { data: Some(Some(None)), errors: String::new() })),
        Err(GitHubError::NoSuchPullRequest {
            owner: "org".to_owned(),
            repo: "repo-a".to_owned(),
            number: 9
        })
    );
}

#[test]
fn repository_answer_gives_the_target_branch() {
    let r = repo();
    let found = RepositoryDetails {
        id: "R_1".to_owned(),
        default_branch_ref: Some(BranchRef {
            name: "main".to_owned(),
            prefix: "refs/heads/".to_owned(),
        }),
    };
    assert_eq!(
        repository_details(&r, Ok(Reply { data: Some(Some(found)), errors: String::new() })),
        Ok(GithubApiRepo {
            id: "R_1".to_owned(),
            target_branch: "refs/heads/main".to_owned(),
            prefix: "refs/heads/".to_owned()
        })
    );
    let bare = RepositoryDetails { id: "R_1".to_owned(), default_branch_ref: None };
    assert_eq!(
        repository_details(&r, Ok(Reply { data: Some(Some(bare)), errors: String::new() })),
        Err(GitHubError::NoDefaultBranch { owner: "org".to_owned(), repo: "repo-a".to_owned() })
    );
    assert_eq!(
        repository_details(&r, Ok(Reply { data: Some(None), errors: String::new() })),
        Err(GitHubError::NoSuchRepository { owner: "org".to_owned(), repo: "repo-a".to_owned() })
    );
    assert_eq!(
        repository_details(&r, Ok(Reply { data: None, errors: "boom".to_owned() })),
        Err(GitHubError::GraphQlError { error: "boom".to_owned() })
    );
    assert_eq!(
        repository_details(&r, Err("timeout".to_owned())),
        Err(GitHubError::NetworkError("timeout".to_owned()))
    );
}

#[test]
fn mutation_answer_gives_the_pull_request() {
    let pr = PullRequestOutput { number: 12, permalink: "https://x/pull/12".to_owned() };
    assert_eq!(
        mutation_output(Ok(Reply { data: Some(Some(Some(pr.clone()))), errors: String::new() })),
        Ok(pr)
    );
    assert_eq!(
        mutation_output(Ok(Reply { data: Some(Some(None)), errors: String::new() })),
        Err(GitHubError::UnableToCreatePullRequest)
    );
    assert_eq!(
        mutation_output(Ok(Reply { data: Some(None), errors: String::new() })),
        Err(GitHubError::UnableToCreatePullRequest)
    );
    assert_eq!(
        mutation_output(Ok(Reply { data: None, errors: "denied".to_owned() })),
        Err(GitHubError::GraphQlError { error: "denied".to_owned() })
    );
    assert_eq!(
        mutation_output(Err("offline".to_owned())),
        Err(GitHubError::NetworkError("offline".to_owned()))
    );
}

#[test]
fn github_error_messages() {
    assert_eq!(
        GitHubError::UnableToDetermineRepo { path: "x".to_owned() }.message(),
        "Unable to determine GitHub owner/repo from x"
    );
    assert_eq!(
        GitHubError::GraphQlError { error: "e".to_owned() }.message(),
        "GraphQL responded with errors: e"
    );
    assert_eq!(
        GitHubError::NoSuchRepository { owner: "o".to_owned(), repo: "r".to_owned() }.message(),
        "Repository o/r does not exist"
    );
    assert_eq!(
        GitHubError::NoSuchPullRequest { owner: "o".to_owned(), repo: "r".to_owned(), number: 42 }
            .message(),
        "Pull Request o/r/42 does not exist"
    );
    assert_eq!(
        GitHubError::NoDefaultBranch { owner: "o".to_owned(), repo: "r".to_owned() }.message(),
        "Repository o/r has no default branch"
    );
    assert_eq!(GitHubError::UnableToCreatePullRequest.message(), "Unable to create Pull Request");
    assert_eq!(GitHubError::NetworkError("down".to_owned()).message(), "down");
}
