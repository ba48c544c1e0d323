//! The values exchanged with callers: what a git process left behind, and the
//! outcome of one mutating operation.
use vstd::prelude::*;

verus! {

/// What a git process that ran to its end left behind: whether it exited with
/// status 0, and its two output streams decoded as text.
#[derive(Clone, Debug)]
pub struct CommandOutput {
    pub success: bool,
    pub stdout: String,
    pub stderr: String,
}

/// The outcome of one mutating operation: a success flag and exactly one
/// human-readable text, `message` on success and `error` on failure.
#[derive(Clone, Debug)]
pub struct GitResult {
    pub success: bool,
    pub message: Option<String>,
    pub error: Option<String>,
}

impl GitResult {
    /// A success that carries the message `m`.
    pub open spec fn is_success_with(&self, m: Seq<char>) -> bool {
        &&& self.success
        &&& self.message matches Some(x) && x@ == m
        &&& self.error is None
    }

    /// A failure that carries the error text `e`.
    pub open spec fn is_failure_with(&self, e: Seq<char>) -> bool {
        &&& !self.success
        &&& self.message is None
        &&& self.error matches Some(x) && x@ == e
    }

    /// Exactly one of `message` and `error` is set, as the flag says.
    pub open spec fn wf(&self) -> bool {
        if self.success {
            self.message is Some && self.error is None
        } else {
            self.message is None && self.error is Some
        }
    }

    /// A success carrying `message`.
    pub fn succeeded(message: String) -> (r: GitResult)
        ensures
            r.is_success_with(message@),
            r.wf(),
    {
        GitResult { success: true, message: Some(message), error: None }
    }

    /// A failure carrying `error`.
    pub fn failed(error: String) -> (r: GitResult)
        ensures
            r.is_failure_with(error@),
            r.wf(),
    {
        GitResult { success: false, message: None, error: Some(error) }
    }
}

/// The view of an optional string.
pub open spec fn opt_view(o: Option<String>) -> Option<Seq<char>> {
    match o {
        Some(s) => Some(s@),
        None => None,
    }
}

/// `a` followed by `b`, as a new string.
pub fn join2(a: &str, b: &str) -> (r: String)
    ensures
        r@ == a@ + b@,
{
    String::from_str(a).concat(b)
}

} // verus!
