use notes_git::{edit_outcome, edit_prompt, extract_session_url, Assistant, CommandOutput};

const HOST: &str = "assistant.example/";

fn helper() -> Assistant {
    Assistant {
        program: "helper".to_string(),
        display_name: "Note Helper".to_string(),
        session_host: HOST.to_string(),
    }
}

fn ran(success: bool, stdout: &str, stderr: &str) -> Result<CommandOutput, String> {
    Ok(CommandOutput { success, stdout: stdout.to_string(), stderr: stderr.to_string() })
}

#[test]
fn session_url_is_cut_at_whitespace() {
    let text = "Working...\nView session: https://assistant.example/code/session_01abc (opens browser)\nDone";
    assert_eq!(extract_session_url(text, HOST).as_deref(), Some("https://assistant.example/code/session_01abc"));
}

#[test]
fn session_url_starts_at_first_scheme() {
    let text = "https://docs.example/help and https://assistant.example/session/7";
    assert_eq!(extract_session_url(text, HOST).as_deref(), Some("https://docs.example/help"));
}

#[test]
fn session_line_without_scheme_is_trimmed() {
    let text = "x\r\n  assistant.example/session/42  \r\nmore";
    assert_eq!(extract_session_url(text, HOST).as_deref(), Some("assistant.example/session/42"));
}

#[test]
fn first_session_line_wins() {
    let text = "https://assistant.example/session/1\nhttps://assistant.example/session/2\n";
    assert_eq!(extract_session_url(text, HOST).as_deref(), Some("https://assistant.example/session/1"));
}

#[test]
fn no_session_line() {
    assert_eq!(extract_session_url("assistant.example/ only\nsession only\n", HOST), None);
    assert_eq!(extract_session_url("", HOST), None);
}

#[test]
fn prompt_text() {
    assert_eq!(
        edit_prompt("/notes/a.md", "fix typos"),
        "Edit the file at /notes/a.md. Here is what the user wants: fix typos"
    );
}

#[test]
fn successful_edit() {
    let r = edit_outcome(&helper(), ran(true, "Edited the note.\n", "see https://assistant.example/session/9 now"));
    assert!(r.success);
    assert_eq!(r.output.as_deref(), Some("Edited the note.\n"));
    assert_eq!(r.error, None);
    assert_eq!(r.session_url.as_deref(), Some("https://assistant.example/session/9"));
}

#[test]
fn stdout_session_link_comes_first() {
    let r = edit_outcome(
        &helper(),
        ran(true, "https://assistant.example/session/out\n", "https://assistant.example/session/err"),
    );
    assert_eq!(r.session_url.as_deref(), Some("https://assistant.example/session/out"));
}

#[test]
fn failed_edit_with_empty_stderr() {
    let r = edit_outcome(&helper(), ran(false, "", ""));
    assert!(!r.success);
    assert_eq!(r.output, None);
    assert_eq!(r.error.as_deref(), Some("Note Helper exited with an error"));
    assert_eq!(r.session_url, None);
}

#[test]
fn failed_edit_keeps_stderr() {
    let r = edit_outcome(&helper(), ran(false, "partial", "boom\n"));
    assert_eq!(r.output.as_deref(), Some("partial"));
    assert_eq!(r.error.as_deref(), Some("boom\n"));
}

#[test]
fn edit_spawn_failure() {
    let r = edit_outcome(&helper(), Err("not found".to_string()));
    assert!(!r.success);
    assert_eq!(r.output, None);
    assert_eq!(r.error.as_deref(), Some("Failed to run helper: not found"));
    assert_eq!(r.session_url, None);
}
