//! What each mutating operation reports, given what its git process left behind.
//!
//! Every function here takes `Err(e)` for a process that could not be started,
//! `e` being the system's description of why, and `Ok(output)` for one that ran.
use vstd::prelude::*;
use crate::classify::{parse_pull_error, parse_push_error, pull_message, push_message};
use crate::outcome::{join2, CommandOutput, GitResult};
use crate::text::{contains, has_substring};

verus! {

pub const INIT_SPAWN_PREFIX: &'static str = "Failed to run git init: ";
pub const STAGE_SPAWN_PREFIX: &'static str = "Failed to run git add: ";
pub const STAGE_FAILED_PREFIX: &'static str = "Failed to stage changes: ";
pub const COMMIT_SPAWN_PREFIX: &'static str = "Failed to commit: ";
pub const PUSH_SPAWN_PREFIX: &'static str = "Failed to push: ";
pub const FETCH_SPAWN_PREFIX: &'static str = "Failed to fetch: ";
pub const PULL_SPAWN_PREFIX: &'static str = "Failed to pull: ";

pub const COMMITTED_MESSAGE: &'static str = "Changes committed";
pub const NOTHING_TO_COMMIT_MARKER: &'static str = "nothing to commit";
pub const NOTHING_TO_COMMIT_MESSAGE: &'static str = "Nothing to commit";
pub const PUSHED_MESSAGE: &'static str = "Pushed successfully";
pub const FETCHED_MESSAGE: &'static str = "Fetched successfully";
pub const UP_TO_DATE_MARKER: &'static str = "Already up to date";
pub const UP_TO_DATE_MESSAGE: &'static str = "Already up to date";
pub const PULLED_MESSAGE: &'static str = "Pulled latest changes";
pub const TRACKING_PREFIX: &'static str = "Pushed and tracking origin/";
pub const LINE_BREAK: &'static str = "\n";

/// The error text of a staging step that exited non-zero: its stderr, then its
/// stdout on a line of its own when there is any.
pub open spec fn stage_failure_text(o: CommandOutput) -> Seq<char> {
    STAGE_FAILED_PREFIX@ + o.stderr@ + if o.stdout@.len() == 0 {
        Seq::<char>::empty()
    } else {
        LINE_BREAK@ + o.stdout@
    }
}

/// A commit that exited non-zero only because nothing was staged.
pub open spec fn nothing_to_commit(o: CommandOutput) -> bool {
    has_substring(o.stdout@, NOTHING_TO_COMMIT_MARKER@) || has_substring(
        o.stderr@,
        NOTHING_TO_COMMIT_MARKER@,
    )
}

/// The outcome of `git init`.
pub fn init_outcome(run: Result<CommandOutput, String>) -> (r: Result<(), String>)
    ensures
        match run {
            Err(e) => r matches Err(m) && m@ == INIT_SPAWN_PREFIX@ + e@,
            Ok(o) => if o.success {
                r is Ok
            } else {
                r matches Err(m) && m@ == o.stderr@
            },
        },
{
    match run {
        Err(e) => Err(join2(INIT_SPAWN_PREFIX, e.as_str())),
        Ok(o) => if o.success {
            Ok(())
        } else {
            Err(o.stderr)
        },
    }
}

/// What follows the staging step of a commit: `None` when staging succeeded and
/// the commit step is to run, else the failure to report, the commit step not
/// being attempted.
pub fn stage_outcome(run: Result<CommandOutput, String>) -> (r: Option<GitResult>)
    ensures
        match run {
            Err(e) => r matches Some(g) && g.wf() && g.is_failure_with(STAGE_SPAWN_PREFIX@ + e@),
            Ok(o) => if o.success {
                r is None
            } else {
                r matches Some(g) && g.wf() && g.is_failure_with(stage_failure_text(o))
            },
        },
{
    match run {
        Err(e) => Some(GitResult::failed(join2(STAGE_SPAWN_PREFIX, e.as_str()))),
        Ok(o) => {
            if o.success {
                None
            } else {
                let mut text = join2(STAGE_FAILED_PREFIX, o.stderr.as_str());
                if !o.stdout.as_str().is_empty() {
                    text.append(LINE_BREAK);
                    text.append(o.stdout.as_str());
                }
                proof {
                    if o.stdout@.len() == 0 {
                        assert(text@ =~= stage_failure_text(o));
                    } else {
                        assert(text@ =~= stage_failure_text(o));
                    }
                }
                Some(GitResult::failed(text))
            }
        },
    }
}

/// The outcome of the commit step. A commit refused because nothing was staged
/// is a success: committing an unchanged tree is a no-op.
pub fn commit_outcome(run: Result<CommandOutput, String>) -> (r: GitResult)
    ensures
        r.wf(),
        match run {
            Err(e) => r.is_failure_with(COMMIT_SPAWN_PREFIX@ + e@),
            Ok(o) => if o.success {
                r.is_success_with(COMMITTED_MESSAGE@)
            } else if nothing_to_commit(o) {
                r.is_success_with(NOTHING_TO_COMMIT_MESSAGE@)
            } else {
                r.is_failure_with(o.stderr@)
            },
        },
{
    match run {
        Err(e) => GitResult::failed(join2(COMMIT_SPAWN_PREFIX, e.as_str())),
        Ok(o) => {
            if o.success {
                GitResult::succeeded(String::from_str(COMMITTED_MESSAGE))
            } else if contains(o.stdout.as_str(), NOTHING_TO_COMMIT_MARKER) || contains(
                o.stderr.as_str(),
                NOTHING_TO_COMMIT_MARKER,
            ) {
                GitResult::succeeded(String::from_str(NOTHING_TO_COMMIT_MESSAGE))
            } else {
                GitResult::failed(o.stderr)
            }
        },
    }
}

/// The outcome of `git push`.
pub fn push_outcome(run: Result<CommandOutput, String>) -> (r: GitResult)
    ensures
        r.wf(),
        match run {
            Err(e) => r.is_failure_with(PUSH_SPAWN_PREFIX@ + e@),
            Ok(o) => if o.success {
                r.is_success_with(PUSHED_MESSAGE@)
            } else {
                r.is_failure_with(push_message(o.stderr@))
            },
        },
{
    match run {
        Err(e) => GitResult::failed(join2(PUSH_SPAWN_PREFIX, e.as_str())),
        Ok(o) => if o.success {
            GitResult::succeeded(String::from_str(PUSHED_MESSAGE))
        } else {
            GitResult::failed(parse_push_error(o.stderr.as_str()))
        },
    }
}

/// The outcome of a quiet `git fetch`.
pub fn fetch_outcome(run: Result<CommandOutput, String>) -> (r: GitResult)
    ensures
        r.wf(),
        match run {
            Err(e) => r.is_failure_with(FETCH_SPAWN_PREFIX@ + e@),
            Ok(o) => if o.success {
                r.is_success_with(FETCHED_MESSAGE@)
            } else {
                r.is_failure_with(pull_message(o.stderr@))
            },
        },
{
    match run {
        Err(e) => GitResult::failed(join2(FETCH_SPAWN_PREFIX, e.as_str())),
        Ok(o) => if o.success {
            GitResult::succeeded(String::from_str(FETCHED_MESSAGE))
        } else {
            GitResult::failed(parse_pull_error(o.stderr.as_str()))
        },
    }
}

/// The outcome of `git pull`. A failure is classified on stdout and stderr
/// together, since git writes its diagnostics to either.
pub fn pull_outcome(run: Result<CommandOutput, String>) -> (r: GitResult)
    ensures
        r.wf(),
        match run {
            Err(e) => r.is_failure_with(PULL_SPAWN_PREFIX@ + e@),
            Ok(o) => if !o.success {
                r.is_failure_with(pull_message(o.stdout@ + o.stderr@))
            } else if has_substring(o.stdout@, UP_TO_DATE_MARKER@) {
                r.is_success_with(UP_TO_DATE_MESSAGE@)
            } else {
                r.is_success_with(PULLED_MESSAGE@)
            },
        },
{
    match run {
        Err(e) => GitResult::failed(join2(PULL_SPAWN_PREFIX, e.as_str())),
        Ok(o) => {
            if !o.success {
                let combined = join2(o.stdout.as_str(), o.stderr.as_str());
                GitResult::failed(parse_pull_error(combined.as_str()))
            } else if contains(o.stdout.as_str(), UP_TO_DATE_MARKER) {
                GitResult::succeeded(String::from_str(UP_TO_DATE_MESSAGE))
            } else {
                GitResult::succeeded(String::from_str(PULLED_MESSAGE))
            }
        },
    }
}

/// The outcome of pushing `branch` to `origin` and making it track
/// `origin/<branch>`.
pub fn push_with_upstream_outcome(branch: &str, run: Result<CommandOutput, String>) -> (r:
    GitResult)
    ensures
        r.wf(),
        match run {
            Err(e) => r.is_failure_with(PUSH_SPAWN_PREFIX@ + e@),
            Ok(o) => if o.success {
                r.is_success_with(TRACKING_PREFIX@ + branch@)
            } else {
                r.is_failure_with(push_message(o.stderr@))
            },
        },
{
    match run {
        Err(e) => GitResult::failed(join2(PUSH_SPAWN_PREFIX, e.as_str())),
        Ok(o) => if o.success {
            GitResult::succeeded(join2(TRACKING_PREFIX, branch))
        } else {
            GitResult::failed(parse_push_error(o.stderr.as_str()))
        },
    }
}

} // verus!
