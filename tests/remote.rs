use notes_git::{add_remote_outcome, check_remote_url, is_valid_remote_url, remote_url_outcome, CommandOutput};

fn ran(success: bool, stdout: &str, stderr: &str) -> Result<CommandOutput, String> {
    Ok(CommandOutput { success, stdout: stdout.to_string(), stderr: stderr.to_string() })
}

const INVALID: &str = "Invalid remote URL format. URL must start with https://, http://, or git@";

#[test]
fn ftp_url_is_rejected_before_running() {
    let r = check_remote_url("ftp://x").expect("rejected");
    assert!(!r.success);
    assert_eq!(r.message, None);
    assert_eq!(r.error.as_deref(), Some(INVALID));
}

#[test]
fn accepted_url_forms() {
    assert!(is_valid_remote_url("https://github.com/u/notes.git"));
    assert!(is_valid_remote_url("http://host/notes.git"));
    assert!(is_valid_remote_url("git@github.com:u/notes.git"));
    assert!(is_valid_remote_url("  https://github.com/u/notes.git  "));
    assert!(check_remote_url("git@github.com:u/notes.git").is_none());
}

#[test]
fn rejected_url_forms() {
    assert!(!is_valid_remote_url(""));
    assert!(!is_valid_remote_url("github.com/u/notes"));
    assert!(!is_valid_remote_url("HTTPS://github.com"));
    assert!(!is_valid_remote_url("ssh://git@github.com/u/n"));
}

#[test]
fn add_remote_results() {
    let r = add_remote_outcome(ran(true, "", ""));
    assert!(r.success);
    assert_eq!(r.message.as_deref(), Some("Remote added successfully"));
    let r = add_remote_outcome(ran(false, "", "error: remote origin already exists.\n"));
    assert_eq!(r.error.as_deref(), Some("Remote 'origin' already exists"));
    let r = add_remote_outcome(ran(false, "", "fatal: not a git repository\n"));
    assert_eq!(r.error.as_deref(), Some("fatal: not a git repository\n"));
    let r = add_remote_outcome(Err("gone".to_string()));
    assert_eq!(r.error.as_deref(), Some("Failed to add remote: gone"));
}

#[test]
fn remote_url_round_trip() {
    let url = "https://github.com/u/notes.git";
    assert!(check_remote_url(url).is_none());
    let read_back = remote_url_outcome(ran(true, &format!("{}\n", url), ""));
    assert_eq!(read_back.as_deref(), Some(url));
}

#[test]
fn remote_url_absent_on_failure() {
    assert_eq!(remote_url_outcome(ran(false, "", "error: No such remote 'origin'\n")), None);
    assert_eq!(remote_url_outcome(Err("gone".to_string())), None);
}
