//! The `origin` remote: checking a URL before it is added, what adding it
//! reports, and reading its URL back.
use vstd::prelude::*;
use crate::outcome::{join2, CommandOutput, GitResult};
use crate::text::{contains, has_prefix, has_substring, is_ws, starts_with, trim, trim_end, trim_start, trimmed};

verus! {

pub const SSH_PREFIX: &'static str = "git@";
pub const HTTPS_PREFIX: &'static str = "https://";
pub const HTTP_PREFIX: &'static str = "http://";

pub const INVALID_URL_MESSAGE: &'static str =
    "Invalid remote URL format. URL must start with https://, http://, or git@";
pub const ADD_REMOTE_SPAWN_PREFIX: &'static str = "Failed to add remote: ";
pub const REMOTE_ADDED_MESSAGE: &'static str = "Remote added successfully";
pub const ALREADY_EXISTS_MARKER: &'static str = "already exists";
pub const ALREADY_EXISTS_MESSAGE: &'static str = "Remote 'origin' already exists";

/// A URL that git can reach a remote by: once trimmed, it starts with `https://`,
/// `http://` or the SSH form `git@`.
pub open spec fn valid_remote_url(url: Seq<char>) -> bool {
    let t = trimmed(url);
    has_prefix(t, SSH_PREFIX@) || has_prefix(t, HTTPS_PREFIX@) || has_prefix(t, HTTP_PREFIX@)
}

/// The URL that a `git remote get-url` run reports, if it succeeded.
pub open spec fn remote_url_of(run: Result<CommandOutput, String>) -> Option<Seq<char>> {
    match run {
        Ok(o) => if o.success {
            Some(trimmed(o.stdout@))
        } else {
            None
        },
        Err(_) => None,
    }
}

/// Whether `url` may be added as a remote.
pub fn is_valid_remote_url(url: &str) -> (r: bool)
    ensures
        r == valid_remote_url(url@),
{
    let t = trim(url);
    starts_with(t.as_str(), SSH_PREFIX) || starts_with(t.as_str(), HTTPS_PREFIX) || starts_with(
        t.as_str(),
        HTTP_PREFIX,
    )
}

/// The check made before any process is started for adding `url` as `origin`:
/// `Some` failure for a URL that is not valid, in which case nothing is to be
/// run, and `None` when the remote may be added.
pub fn check_remote_url(url: &str) -> (r: Option<GitResult>)
    ensures
        r is None <==> valid_remote_url(url@),
        r matches Some(g) ==> g.wf() && g.is_failure_with(INVALID_URL_MESSAGE@),
{
    if is_valid_remote_url(url) {
        None
    } else {
        Some(GitResult::failed(String::from_str(INVALID_URL_MESSAGE)))
    }
}

/// The outcome of `git remote add origin <url>`.
pub fn add_remote_outcome(run: Result<CommandOutput, String>) -> (r: GitResult)
    ensures
        r.wf(),
        match run {
            Err(e) => r.is_failure_with(ADD_REMOTE_SPAWN_PREFIX@ + e@),
            Ok(o) => if o.success {
                r.is_success_with(REMOTE_ADDED_MESSAGE@)
            } else if has_substring(o.stderr@, ALREADY_EXISTS_MARKER@) {
                r.is_failure_with(ALREADY_EXISTS_MESSAGE@)
            } else {
                r.is_failure_with(o.stderr@)
            },
        },
{
    match run {
        Err(e) => GitResult::failed(join2(ADD_REMOTE_SPAWN_PREFIX, e.as_str())),
        Ok(o) => {
            if o.success {
                GitResult::succeeded(String::from_str(REMOTE_ADDED_MESSAGE))
            } else if contains(o.stderr.as_str(), ALREADY_EXISTS_MARKER) {
                GitResult::failed(String::from_str(ALREADY_EXISTS_MESSAGE))
            } else {
                GitResult::failed(o.stderr)
            }
        },
    }
}

/// The URL of `origin` as reported by `git remote get-url origin`: its trimmed
/// stdout when it succeeded, else none.
pub fn remote_url_outcome(run: Result<CommandOutput, String>) -> (r: Option<String>)
    ensures
        match r {
            Some(u) => remote_url_of(run) == Some(u@),
            None => remote_url_of(run) is None,
        },
{
    match run {
        Ok(o) => if o.success {
            Some(trim(o.stdout.as_str()))
        } else {
            None
        },
        Err(_) => None,
    }
}

/// A URL that the check accepts, written without surrounding whitespace, comes
/// back unchanged from the URL query once git has stored it: git prints the
/// stored URL on a line of its own.
pub proof fn lemma_remote_url_round_trip(url: Seq<char>, o: CommandOutput)
    requires
        valid_remote_url(url),
        trimmed(url) == url,
        o.success,
        o.stdout@ == url.push('\n'),
    ensures
        remote_url_of(Ok(o)) == Some(url),
{
    reveal_strlit("git@");
    reveal_strlit("https://");
    reveal_strlit("http://");
    let s = url.push('\n');
    assert(url.len() > 0 && !is_ws(url[0])) by {
        if has_prefix(url, SSH_PREFIX@) {
            assert(url.subrange(0, 4)[0] == url[0]);
        } else if has_prefix(url, HTTPS_PREFIX@) {
            assert(url.subrange(0, 8)[0] == url[0]);
        } else {
            assert(url.subrange(0, 7)[0] == url[0]);
        }
    }
    assert(s[0] == url[0]);
    assert(trim_start(s) == s);
    assert(trim_start(url) == url);
    assert(s.drop_last() =~= url);
    assert(trim_end(s) == trim_end(url));
}

} // verus!
