use notes_git::{is_git_repo, CommandOutput, GitStatus, StatusProbe, StatusQuery};

fn ran(success: bool, stdout: &str) -> Result<CommandOutput, String> {
    Ok(CommandOutput { success, stdout: stdout.to_string(), stderr: String::new() })
}

fn failed(stderr: &str) -> Result<CommandOutput, String> {
    Ok(CommandOutput { success: false, stdout: String::new(), stderr: stderr.to_string() })
}

fn assert_default(s: &GitStatus) {
    assert!(!s.is_repo);
    assert!(!s.has_remote);
    assert!(!s.has_upstream);
    assert_eq!(s.remote_url, None);
    assert_eq!(s.changed_count, 0);
    assert_eq!(s.ahead_count, -1);
    assert_eq!(s.behind_count, -1);
    assert_eq!(s.current_branch, None);
    assert_eq!(s.error, None);
}

#[test]
fn non_repository_gives_default_snapshot() {
    let probe = StatusProbe::start(false);
    assert_eq!(probe.next_query(), None);
    assert_default(&probe.finish());
}

#[test]
fn default_snapshot_has_no_upstream_sentinel() {
    assert_default(&GitStatus::default());
    assert_default(&GitStatus::not_a_repository());
}

#[test]
fn full_snapshot_with_upstream() {
    let p = StatusProbe::start(true);
    assert_eq!(p.next_query(), Some(StatusQuery::CurrentBranch));
    let p = p.record(ran(true, "main\n"));
    assert_eq!(p.next_query(), Some(StatusQuery::Remotes));
    let p = p.record(ran(true, "origin\n"));
    assert_eq!(p.next_query(), Some(StatusQuery::RemoteUrl));
    let p = p.record(ran(true, "git@github.com:u/notes.git\n"));
    assert_eq!(p.next_query(), Some(StatusQuery::Changes));
    let p = p.record(ran(true, " M a.md\n?? b.md\n\nD  c.md\n"));
    assert_eq!(p.next_query(), Some(StatusQuery::AheadBehind));
    let p = p.record(ran(true, "2\t5\n"));
    assert_eq!(p.next_query(), None);
    let s = p.finish();
    assert!(s.is_repo);
    assert!(s.has_remote);
    assert!(s.has_upstream);
    assert_eq!(s.current_branch.as_deref(), Some("main"));
    assert_eq!(s.remote_url.as_deref(), Some("git@github.com:u/notes.git"));
    assert_eq!(s.changed_count, 3);
    assert_eq!(s.behind_count, 2);
    assert_eq!(s.ahead_count, 5);
    assert_eq!(s.error, None);
}

#[test]
fn in_sync_counts_are_zero() {
    let p = StatusProbe::start(true)
        .record(ran(true, "main"))
        .record(ran(true, "origin"))
        .record(ran(true, "https://h/r"))
        .record(ran(true, ""))
        .record(ran(true, "0\t0\n"));
    let s = p.finish();
    assert!(s.has_upstream);
    assert_eq!((s.ahead_count, s.behind_count), (0, 0));
    assert_eq!(s.changed_count, 0);
}

#[test]
fn failed_ahead_behind_means_no_upstream() {
    let p = StatusProbe::start(true)
        .record(ran(true, "work\n"))
        .record(ran(true, "origin\n"))
        .record(ran(true, "https://h/r\n"))
        .record(ran(true, ""))
        .record(failed("fatal: no upstream configured for branch 'work'\n"));
    let s = p.finish();
    assert!(!s.has_upstream);
    assert_eq!(s.ahead_count, -1);
    assert_eq!(s.behind_count, -1);
}

#[test]
fn any_ahead_behind_failure_means_no_upstream() {
    let p = StatusProbe::start(true)
        .record(ran(true, "work\n"))
        .record(ran(true, "origin\n"))
        .record(ran(true, "https://h/r\n"))
        .record(ran(true, ""))
        .record(Err("interrupted".to_string()));
    let s = p.status().clone();
    assert!(!s.has_upstream);
    assert_eq!((s.ahead_count, s.behind_count), (-1, -1));
}

#[test]
fn no_remote_skips_url_and_counts() {
    let p = StatusProbe::start(true).record(ran(true, "main\n")).record(ran(true, "  \n"));
    assert_eq!(p.next_query(), Some(StatusQuery::Changes));
    let p = p.record(ran(true, "?? new.md\n"));
    assert_eq!(p.next_query(), None);
    let s = p.finish();
    assert!(s.is_repo);
    assert!(!s.has_remote);
    assert_eq!(s.remote_url, None);
    assert_eq!(s.changed_count, 1);
    assert_eq!((s.ahead_count, s.behind_count), (-1, -1));
}

#[test]
fn detached_head_skips_counts() {
    let p = StatusProbe::start(true)
        .record(ran(true, "\n"))
        .record(ran(true, "origin\n"))
        .record(failed("error: No such remote 'origin'"))
        .record(ran(true, ""));
    assert_eq!(p.next_query(), None);
    let s = p.finish();
    assert_eq!(s.current_branch, None);
    assert!(s.has_remote);
    assert_eq!(s.remote_url, None);
    assert!(!s.has_upstream);
}

#[test]
fn failed_queries_leave_defaults() {
    let p = StatusProbe::start(true)
        .record(Err("gone".to_string()))
        .record(failed("fatal"));
    assert_eq!(p.next_query(), Some(StatusQuery::Changes));
    let s = p.record(failed("fatal")).finish();
    assert!(s.is_repo);
    assert_eq!(s.current_branch, None);
    assert!(!s.has_remote);
    assert_eq!(s.changed_count, 0);
    assert_eq!(s.error, None);
}

#[test]
fn malformed_counts_read_as_zero() {
    let base = || {
        StatusProbe::start(true)
            .record(ran(true, "main\n"))
            .record(ran(true, "origin\n"))
            .record(ran(true, "https://h/r\n"))
            .record(ran(true, ""))
    };
    let s = base().record(ran(true, "3 4\n")).finish();
    assert!(s.has_upstream);
    assert_eq!((s.ahead_count, s.behind_count), (0, 0));
    let s = base().record(ran(true, "x\t7\n")).finish();
    assert_eq!((s.ahead_count, s.behind_count), (7, 0));
    let s = base().record(ran(true, "1\t99999999999\n")).finish();
    assert_eq!((s.ahead_count, s.behind_count), (0, 1));
}

#[test]
fn missing_directory_is_not_a_repository() {
    assert!(!is_git_repo(std::path::Path::new("/nonexistent/notes/dir/for/sure")));
}
