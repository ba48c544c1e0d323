//! Mapping of git's diagnostic text onto user-facing messages.
//!
//! Each mapping tests its markers against the text as it stands, in a fixed
//! order, and the first that matches decides; text that matches none comes back
//! trimmed and otherwise unchanged.
use vstd::prelude::*;
use crate::text::{contains, has_substring, trim, trimmed};

verus! {

pub const CONFLICT_MARKER: &'static str = "CONFLICT";
pub const MERGE_CONFLICT_MARKER: &'static str = "Merge conflict";
pub const PERMISSION_DENIED_MARKER: &'static str = "Permission denied";
pub const PUBLICKEY_MARKER: &'static str = "publickey";
pub const UNRESOLVED_HOST_MARKER: &'static str = "Could not resolve host";
pub const NO_FAST_FORWARD_MARKER: &'static str = "not possible to fast-forward";
pub const REPOSITORY_NOT_FOUND_MARKER: &'static str = "Repository not found";
pub const DOES_NOT_EXIST_MARKER: &'static str = "does not exist";

pub const CONFLICT_MESSAGE: &'static str = "Pull failed due to merge conflicts. Resolve conflicts manually.";
pub const AUTH_MESSAGE: &'static str = "Authentication failed. Check your SSH keys or credentials.";
pub const NETWORK_MESSAGE: &'static str = "Could not connect to remote. Check your internet connection.";
pub const DIVERGED_MESSAGE: &'static str =
    "Pull failed: local and remote have diverged. Try pulling with rebase or merging manually.";
pub const NOT_FOUND_MESSAGE: &'static str = "Remote repository not found. Check the URL.";

/// The text reports a merge conflict.
pub open spec fn mentions_conflict(t: Seq<char>) -> bool {
    has_substring(t, CONFLICT_MARKER@) || has_substring(t, MERGE_CONFLICT_MARKER@)
}

/// The text reports refused credentials.
pub open spec fn mentions_auth_failure(t: Seq<char>) -> bool {
    has_substring(t, PERMISSION_DENIED_MARKER@) || has_substring(t, PUBLICKEY_MARKER@)
}

/// The text reports a host name that could not be resolved.
pub open spec fn mentions_unresolved_host(t: Seq<char>) -> bool {
    has_substring(t, UNRESOLVED_HOST_MARKER@)
}

/// The text reports histories that cannot be fast-forwarded.
pub open spec fn mentions_divergence(t: Seq<char>) -> bool {
    has_substring(t, NO_FAST_FORWARD_MARKER@)
}

/// The text reports a remote repository that is not there.
pub open spec fn mentions_missing_repository(t: Seq<char>) -> bool {
    has_substring(t, REPOSITORY_NOT_FOUND_MARKER@) || has_substring(t, DOES_NOT_EXIST_MARKER@)
}

/// The message for a failed pull or fetch whose diagnostics read `t`.
pub open spec fn pull_message(t: Seq<char>) -> Seq<char> {
    if mentions_conflict(t) {
        CONFLICT_MESSAGE@
    } else if mentions_auth_failure(t) {
        AUTH_MESSAGE@
    } else if mentions_unresolved_host(t) {
        NETWORK_MESSAGE@
    } else if mentions_divergence(t) {
        DIVERGED_MESSAGE@
    } else {
        trimmed(t)
    }
}

/// The message for a failed push whose diagnostics read `t`.
pub open spec fn push_message(t: Seq<char>) -> Seq<char> {
    if mentions_auth_failure(t) {
        AUTH_MESSAGE@
    } else if mentions_missing_repository(t) {
        NOT_FOUND_MESSAGE@
    } else if mentions_unresolved_host(t) {
        NETWORK_MESSAGE@
    } else {
        trimmed(t)
    }
}

/// The user-facing message for the diagnostics of a failed pull or fetch.
pub fn parse_pull_error(stderr: &str) -> (r: String)
    ensures
        r@ == pull_message(stderr@),
{
    if contains(stderr, CONFLICT_MARKER) || contains(stderr, MERGE_CONFLICT_MARKER) {
        String::from_str(CONFLICT_MESSAGE)
    } else if contains(stderr, PERMISSION_DENIED_MARKER) || contains(stderr, PUBLICKEY_MARKER) {
        String::from_str(AUTH_MESSAGE)
    } else if contains(stderr, UNRESOLVED_HOST_MARKER) {
        String::from_str(NETWORK_MESSAGE)
    } else if contains(stderr, NO_FAST_FORWARD_MARKER) {
        String::from_str(DIVERGED_MESSAGE)
    } else {
        trim(stderr)
    }
}

/// The user-facing message for the diagnostics of a failed push.
pub fn parse_push_error(stderr: &str) -> (r: String)
    ensures
        r@ == push_message(stderr@),
{
    if contains(stderr, PERMISSION_DENIED_MARKER) || contains(stderr, PUBLICKEY_MARKER) {
        String::from_str(AUTH_MESSAGE)
    } else if contains(stderr, REPOSITORY_NOT_FOUND_MARKER) || contains(
        stderr,
        DOES_NOT_EXIST_MARKER,
    ) {
        String::from_str(NOT_FOUND_MESSAGE)
    } else if contains(stderr, UNRESOLVED_HOST_MARKER) {
        String::from_str(NETWORK_MESSAGE)
    } else {
        trim(stderr)
    }
}

/// A merge conflict outranks every other diagnosis of a pull: text that reports a
/// conflict and refused credentials at once is classified as a conflict.
pub proof fn lemma_pull_conflict_outranks_auth(t: Seq<char>)
    requires
        mentions_conflict(t),
        mentions_auth_failure(t),
    ensures
        pull_message(t) == CONFLICT_MESSAGE@,
{
}

/// Text that matches no marker is passed through, trimmed, by both mappings.
pub proof fn lemma_unmatched_text_passes_through(t: Seq<char>)
    requires
        !mentions_conflict(t),
        !mentions_auth_failure(t),
        !mentions_unresolved_host(t),
        !mentions_divergence(t),
        !mentions_missing_repository(t),
    ensures
        pull_message(t) == trimmed(t),
        push_message(t) == trimmed(t),
{
}

} // verus!
