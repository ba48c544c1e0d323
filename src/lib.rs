//! Version-control awareness for a note-taking application: a typed model of
//! repository status, assembled from independent git queries, and the mapping of
//! git's free-text failures onto a small set of user-facing messages.
//!
//! The library never starts a process itself. Callers run git (or the editing
//! assistant) and hand each result over as a [`CommandOutput`]; the library
//! decides what to ask next and what each answer means.

pub mod assistant;
pub mod classify;
pub mod outcome;
pub mod remote;
pub mod repo;
pub mod status;
pub mod sync;
pub mod text;

pub use assistant::{edit_outcome, edit_prompt, extract_session_url, Assistant, ClaudeResult};
pub use classify::{parse_pull_error, parse_push_error};
pub use outcome::{CommandOutput, GitResult};
pub use remote::{add_remote_outcome, check_remote_url, is_valid_remote_url, remote_url_outcome};
pub use repo::is_git_repo;
pub use status::{GitStatus, StatusProbe, StatusQuery};
pub use sync::{
    commit_outcome, fetch_outcome, init_outcome, pull_outcome, push_outcome,
    push_with_upstream_outcome, stage_outcome,
};
