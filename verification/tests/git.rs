use prm::git::{
    load_git_history, load_git_release, load_project_remote_web_url, parse_github_pipeline_status,
    parse_gitlab_pipeline_status, probe_project_pipeline_status, probe_project_status,
    query_command, CommandError, GitHistory, GitPipelineStatus, GitProjectStatus, GitQuery,
    GitRelease, GitRemoteWebUrl, Probe,
};

type Last = Option<(GitQuery, Result<String, CommandError>)>;

/// Runs a probe to its answer, answering each command it asks for.
fn drive<T>(step: impl Fn(Last) -> Probe<T>, answer: impl Fn(&GitQuery) -> Result<String, CommandError>) -> T {
    let mut last: Last = None;
    for _ in 0..32 {
        match step(last.take()) {
            Probe::Done(t) => return t,
            Probe::Run(q) => {
                let reply = answer(&q);
                last = Some((q, reply));
            }
        }
    }
    panic!("probe did not finish");
}

fn fail(text: &str) -> Result<String, CommandError> {
    Err(CommandError::Failed(text.to_string()))
}

fn ok(text: &str) -> Result<String, CommandError> {
    Ok(text.to_string())
}

/// What git prints inside a repository with one commit, no upstream, no tags.
fn committed_repo(q: &GitQuery) -> Result<String, CommandError> {
    match q {
        GitQuery::InsideWorkTree => ok("true\n"),
        GitQuery::StatusPorcelain => ok(""),
        GitQuery::VerifyHead => ok("3f2a1b0\n"),
        GitQuery::HasUpstream => fail("fatal: no upstream configured for branch 'main'"),
        GitQuery::Log { .. } => ok("3f2a1b0 init\n"),
        GitQuery::DescribeTags => fail("fatal: No names found, cannot describe anything."),
        GitQuery::ListRemotes => ok(""),
        _ => fail("unexpected"),
    }
}

#[test]
fn non_git_repo_is_reported_as_not_git() {
    let outside = |_: &GitQuery| fail("fatal: not a git repository (or any of the parent directories): .git");
    assert_eq!(drive(probe_project_status, outside), GitProjectStatus::NotGit);
    assert_eq!(drive(|l| load_git_history(10, l), outside), GitHistory::NotGit);
    assert_eq!(drive(load_git_release, outside), GitRelease::NotGit);
}

#[test]
fn dirty_repo_is_reported_as_changed() {
    let dirty = |q: &GitQuery| match q {
        GitQuery::StatusPorcelain => ok(" M README.md\n"),
        other => committed_repo(other),
    };
    assert_eq!(drive(probe_project_status, dirty), GitProjectStatus::Changed);
}

#[test]
fn repo_with_no_upstream_is_committed() {
    assert_eq!(drive(probe_project_status, committed_repo), GitProjectStatus::Committed);
}

fn tracked_repo(ahead: &'static str, behind: &'static str) -> impl Fn(&GitQuery) -> Result<String, CommandError> {
    move |q: &GitQuery| match q {
        GitQuery::HasUpstream => ok("origin/main\n"),
        GitQuery::AheadCount => ok(ahead),
        GitQuery::BehindCount { .. } => ok(behind),
        GitQuery::Log { .. } => ok("9c1d2e3 next\n3f2a1b0 init\n"),
        other => committed_repo(other),
    }
}

#[test]
fn clean_synced_repo_is_up_to_date() {
    assert_eq!(drive(probe_project_status, tracked_repo("0\n", "0\n")), GitProjectStatus::UpToDate);
}

#[test]
fn ahead_repo_is_waiting_to_push() {
    assert_eq!(
        drive(probe_project_status, tracked_repo("1\n", "0\n")),
        GitProjectStatus::WaitingToPush
    );
    let history = drive(|l| load_git_history(5, l), tracked_repo("1\n", "0\n"));
    match history {
        GitHistory::Lines(lines) => {
            assert!(!lines.is_empty());
            assert!(lines[0].contains("next"));
        }
        other => panic!("expected history lines, got {other:?}"),
    }
}

#[test]
fn behind_and_diverged_repos_are_told_apart() {
    assert_eq!(drive(probe_project_status, tracked_repo("0\n", "2\n")), GitProjectStatus::Behind);
    assert_eq!(drive(probe_project_status, tracked_repo("1\n", "2\n")), GitProjectStatus::Diverged);
}

#[test]
fn repo_without_tags_reports_no_tags_release() {
    assert_eq!(drive(load_git_release, committed_repo), GitRelease::NoTags);
}

#[test]
fn tagged_repo_reports_release_tag_and_commit_distance() {
    let tagged = |q: &GitQuery| match q {
        GitQuery::DescribeTags => ok("v0.1.0\n"),
        GitQuery::CountSinceTag { tag } => {
            assert_eq!(tag, "v0.1.0");
            ok("1\n")
        }
        other => committed_repo(other),
    };
    assert_eq!(
        drive(load_git_release, tagged),
        GitRelease::Tagged {
            tag: "v0.1.0".to_string(),
            commits_ahead: 1,
        }
    );
}

fn with_origin(url: &'static str) -> impl Fn(&GitQuery) -> Result<String, CommandError> {
    move |q: &GitQuery| match q {
        GitQuery::ListRemotes => ok("origin\n"),
        GitQuery::RemoteUrl { name } => {
            assert_eq!(name, "origin");
            ok(url)
        }
        other => committed_repo(other),
    }
}

#[test]
fn remote_web_url_is_derived_from_ssh_origin_url() {
    assert_eq!(
        drive(load_project_remote_web_url, with_origin("git@github.com:octo/demo.git\n")),
        GitRemoteWebUrl::Url("https://github.com/octo/demo".to_string())
    );
}

#[test]
fn remote_web_url_is_derived_from_https_origin_url() {
    assert_eq!(
        drive(
            load_project_remote_web_url,
            with_origin("https://gitlab.com/group/sub/demo.git\n")
        ),
        GitRemoteWebUrl::Url("https://gitlab.com/group/sub/demo".to_string())
    );
}

#[test]
fn repo_without_remote_reports_no_remote_web_url() {
    assert_eq!(
        drive(load_project_remote_web_url, committed_repo),
        GitRemoteWebUrl::NoRemote
    );
}

#[test]
fn github_pipeline_parser_maps_states() {
    assert_eq!(
        parse_github_pipeline_status(
            r#"{"workflow_runs":[{"status":"completed","conclusion":"success"}]}"#
        ),
        GitPipelineStatus::Passing
    );
    assert_eq!(
        parse_github_pipeline_status(
            r#"{"workflow_runs":[{"status":"completed","conclusion":"failure"}]}"#
        ),
        GitPipelineStatus::Failing
    );
    assert_eq!(
        parse_github_pipeline_status(
            r#"{"workflow_runs":[{"status":"in_progress","conclusion":null}]}"#
        ),
        GitPipelineStatus::Running
    );
}

#[test]
fn gitlab_pipeline_parser_maps_states() {
    assert_eq!(
        parse_gitlab_pipeline_status(r#"[{"status":"success"}]"#),
        GitPipelineStatus::Passing
    );
    assert_eq!(
        parse_gitlab_pipeline_status(r#"[{"status":"failed"}]"#),
        GitPipelineStatus::Failing
    );
    assert_eq!(
        parse_gitlab_pipeline_status(r#"[{"status":"pending"}]"#),
        GitPipelineStatus::Running
    );
}

#[test]
fn pipeline_probe_asks_github_for_github_remotes() {
    let github = |q: &GitQuery| match q {
        GitQuery::GithubRuns { owner, repo } => {
            assert_eq!(owner, "octo");
            assert_eq!(repo, "demo");
            ok(r#"{"workflow_runs":[{"status":"completed","conclusion":"success"}]}"#)
        }
        other => with_origin("git@github.com:octo/demo.git\n")(other),
    };
    assert_eq!(drive(probe_project_pipeline_status, github), GitPipelineStatus::Passing);
}

#[test]
fn git_commands_run_in_the_project() {
    let (program, args) = query_command(&GitQuery::StatusPorcelain, "/work/demo");
    assert_eq!(program, "git");
    assert_eq!(args[0], "-C");
    assert_eq!(args[1], "/work/demo");
    assert!(args.contains(&"status".to_string()));
}

#[test]
fn status_labels_are_short() {
    assert_eq!(GitProjectStatus::Changed.short_label(), "CHG");
    assert_eq!(GitProjectStatus::UpToDate.short_label(), "OK");
    assert_eq!(GitProjectStatus::Loading.short_label(), "...");
}
