//! The repository status snapshot, and the probe that fills it in from a fixed
//! sequence of independent git queries.
//!
//! A caller starts a [`StatusProbe`] with whether the path holds a repository,
//! then asks it for the next query, runs that query and records what came back,
//! until no query is left. Each query fills its own fields; a failed query leaves
//! them at their defaults and never disturbs the others.
use vstd::prelude::*;
use crate::outcome::{opt_view, CommandOutput};
use crate::remote::{remote_url_of, remote_url_outcome};
use crate::text::{count_nonempty_lines, nonempty_line_count, parse_count, count_value, split_char, split_on, trim, trimmed, views};

verus! {

/// The state of a working directory as seen by git.
///
/// When no upstream is tracked, both counts hold the sentinel -1, which is
/// distinct from 0 ("in sync").
#[derive(Clone, Debug)]
pub struct GitStatus {
    pub is_repo: bool,
    pub has_remote: bool,
    pub has_upstream: bool,
    pub remote_url: Option<String>,
    pub changed_count: usize,
    pub ahead_count: i32,
    pub behind_count: i32,
    pub current_branch: Option<String>,
    pub error: Option<String>,
}

impl GitStatus {
    /// The default snapshot, as a value.
    pub open spec fn default_spec() -> GitStatus {
        GitStatus {
            is_repo: false,
            has_remote: false,
            has_upstream: false,
            remote_url: None,
            changed_count: 0,
            ahead_count: -1i32,
            behind_count: -1i32,
            current_branch: None,
            error: None,
        }
    }

    /// The snapshot of a path that is not a repository: every field at its
    /// default, the counts at the no-upstream sentinel.
    pub open spec fn is_default_snapshot(&self) -> bool {
        &&& !self.is_repo
        &&& !self.has_remote
        &&& !self.has_upstream
        &&& self.remote_url is None
        &&& self.changed_count == 0
        &&& self.ahead_count == -1
        &&& self.behind_count == -1
        &&& self.current_branch is None
        &&& self.error is None
    }

    /// The consistency that every snapshot keeps.
    pub open spec fn wf(&self) -> bool {
        &&& !self.is_repo ==> self.is_default_snapshot()
        &&& !self.has_upstream ==> self.ahead_count == -1 && self.behind_count == -1
        &&& self.has_upstream ==> self.ahead_count >= 0 && self.behind_count >= 0
        &&& self.has_upstream ==> self.has_remote && self.current_branch is Some
        &&& !self.has_remote ==> self.remote_url is None
    }

    /// The snapshot of a path that is not a repository.
    pub fn not_a_repository() -> (r: GitStatus)
        ensures
            r == GitStatus::default_spec(),
            r.is_default_snapshot(),
            r.wf(),
    {
        GitStatus {
            is_repo: false,
            has_remote: false,
            has_upstream: false,
            remote_url: None,
            changed_count: 0,
            ahead_count: -1,
            behind_count: -1,
            current_branch: None,
            error: None,
        }
    }
}

impl Default for GitStatus {
    fn default() -> (r: GitStatus)
        ensures
            r.is_default_snapshot(),
    {
        GitStatus::not_a_repository()
    }
}

/// Without upstream tracking both counts hold the sentinel, and a count is a
/// real one (not negative) exactly when an upstream is tracked.
pub proof fn lemma_upstream_sentinel(s: GitStatus)
    requires
        s.wf(),
    ensures
        !s.has_upstream ==> s.ahead_count == -1 && s.behind_count == -1,
        s.ahead_count >= 0 <==> s.has_upstream,
        s.behind_count >= 0 <==> s.has_upstream,
{
}

/// A snapshot without a remote has no remote URL.
pub proof fn lemma_no_remote_no_url(s: GitStatus)
    requires
        s.wf(),
    ensures
        !s.has_remote ==> s.remote_url is None,
{
}

/// The queries that make up a status snapshot, in the order they are asked.
#[derive(Clone, Copy, Debug, PartialEq, Eq, Structural)]
pub enum StatusQuery {
    /// The name of the current branch.
    CurrentBranch,
    /// The list of remotes.
    Remotes,
    /// The URL of `origin`.
    RemoteUrl,
    /// The changed paths, one per line.
    Changes,
    /// Commits behind and ahead of the upstream, as "behind\tahead".
    AheadBehind,
}

/// The branch that a branch-name query reports: its trimmed output, unless that
/// is empty (a detached or unborn head) or the query failed.
pub open spec fn branch_of(run: Result<CommandOutput, String>) -> Option<Seq<char>> {
    match run {
        Ok(o) => if o.success && trimmed(o.stdout@).len() > 0 {
            Some(trimmed(o.stdout@))
        } else {
            None
        },
        Err(_) => None,
    }
}

/// Whether a remote-list query reports at least one remote.
pub open spec fn remotes_listed(run: Result<CommandOutput, String>) -> bool {
    match run {
        Ok(o) => o.success && trimmed(o.stdout@).len() > 0,
        Err(_) => false,
    }
}

/// The number of changed paths that a change query reports, if it succeeded.
pub open spec fn changes_of(run: Result<CommandOutput, String>) -> Option<nat> {
    match run {
        Ok(o) => if o.success {
            Some(nonempty_line_count(o.stdout@))
        } else {
            None
        },
        Err(_) => None,
    }
}

/// The (ahead, behind) counts written in "behind\tahead", each 0 where it is not
/// a count, both 0 where the text is not two tab-separated pieces.
pub open spec fn counts_of(t: Seq<char>) -> (int, int) {
    let parts = split_on(trimmed(t), '\t');
    if parts.len() == 2 {
        (count_value(parts[1]), count_value(parts[0]))
    } else {
        (0, 0)
    }
}

/// The (ahead, behind) counts that an ahead/behind query reports; none when it
/// failed for any reason, which is read as no upstream being tracked.
pub open spec fn tracking_of(run: Result<CommandOutput, String>) -> Option<(int, int)> {
    match run {
        Ok(o) => if o.success {
            Some(counts_of(o.stdout@))
        } else {
            None
        },
        Err(_) => None,
    }
}

/// How answering `q` with `run` turns the snapshot `old` into `new`: the
/// query's own fields take what it reports, every other field is kept.
pub open spec fn recorded(
    old: GitStatus,
    q: StatusQuery,
    run: Result<CommandOutput, String>,
    new: GitStatus,
) -> bool {
    match q {
        StatusQuery::CurrentBranch => {
            &&& new == (GitStatus { current_branch: new.current_branch, ..old })
            &&& opt_view(new.current_branch) == branch_of(run)
        },
        StatusQuery::Remotes => new == (GitStatus { has_remote: remotes_listed(run), ..old }),
        StatusQuery::RemoteUrl => {
            &&& new == (GitStatus { remote_url: new.remote_url, ..old })
            &&& opt_view(new.remote_url) == remote_url_of(run)
        },
        StatusQuery::Changes => {
            &&& new == (GitStatus { changed_count: new.changed_count, ..old })
            &&& new.changed_count == match changes_of(run) {
                Some(n) => n,
                None => old.changed_count as nat,
            }
        },
        StatusQuery::AheadBehind => match tracking_of(run) {
            Some((ahead, behind)) => new == (GitStatus {
                has_upstream: true,
                ahead_count: ahead as i32,
                behind_count: behind as i32,
                ..old
            }),
            None => new == (GitStatus {
                has_upstream: false,
                ahead_count: -1i32,
                behind_count: -1i32,
                ..old
            }),
        },
    }
}

/// The query that follows `q` once the snapshot reads `s`: the URL is asked
/// only when a remote is listed, the counts only when there is both a remote
/// and a current branch.
pub open spec fn query_after(q: StatusQuery, s: GitStatus) -> Option<StatusQuery> {
    match q {
        StatusQuery::CurrentBranch => Some(StatusQuery::Remotes),
        StatusQuery::Remotes => if s.has_remote {
            Some(StatusQuery::RemoteUrl)
        } else {
            Some(StatusQuery::Changes)
        },
        StatusQuery::RemoteUrl => Some(StatusQuery::Changes),
        StatusQuery::Changes => if s.has_remote && s.current_branch is Some {
            Some(StatusQuery::AheadBehind)
        } else {
            None
        },
        StatusQuery::AheadBehind => None,
    }
}

/// A status snapshot being filled in, with the query it waits for.
pub struct StatusProbe {
    status: GitStatus,
    pending: Option<StatusQuery>,
}

impl StatusProbe {
    #[verifier::type_invariant]
    spec fn inv(&self) -> bool {
        &&& self.status.wf()
        &&& self.pending is Some ==> self.status.is_repo && !self.status.has_upstream
        &&& (self.pending == Some(StatusQuery::CurrentBranch) || self.pending == Some(
            StatusQuery::Remotes,
        )) ==> self.status.remote_url is None
        &&& self.pending == Some(StatusQuery::RemoteUrl) ==> self.status.has_remote
        &&& self.pending == Some(StatusQuery::AheadBehind) ==> self.status.has_remote
            && self.status.current_branch is Some
    }

    /// The snapshot as filled in so far.
    pub closed spec fn snapshot(&self) -> GitStatus {
        self.status
    }

    /// The query the probe waits for; none once the snapshot is complete.
    pub closed spec fn pending(&self) -> Option<StatusQuery> {
        self.pending
    }

    /// A probe for a path that does (`is_repository`) or does not hold a
    /// repository. For a path that does not, the snapshot is complete at once,
    /// with every field at its default, and no query is asked.
    pub fn start(is_repository: bool) -> (r: StatusProbe)
        ensures
            r.snapshot().wf(),
            !is_repository ==> r.pending() is None && r.snapshot().is_default_snapshot(),
            is_repository ==> r.pending() == Some(StatusQuery::CurrentBranch) && r.snapshot()
                == (GitStatus { is_repo: true, ..GitStatus::default_spec() }),
    {
        if is_repository {
            let mut status = GitStatus::not_a_repository();
            status.is_repo = true;
            StatusProbe { status, pending: Some(StatusQuery::CurrentBranch) }
        } else {
            StatusProbe { status: GitStatus::not_a_repository(), pending: None }
        }
    }

    /// The query to run next, if any is left.
    pub fn next_query(&self) -> (r: Option<StatusQuery>)
        ensures
            r == self.pending(),
    {
        self.pending
    }

    /// The snapshot as filled in so far.
    pub fn status(&self) -> (r: &GitStatus)
        ensures
            *r == self.snapshot(),
            r.wf(),
    {
        proof {
            use_type_invariant(self);
        }
        &self.status
    }

    /// The completed snapshot.
    pub fn finish(self) -> (r: GitStatus)
        ensures
            r == self.snapshot(),
            r.wf(),
    {
        proof {
            use_type_invariant(&self);
        }
        self.status
    }

    /// Records what the pending query reported (`Err` for a query whose process
    /// could not be started), giving the probe that waits for the next query.
    pub fn record(self, run: Result<CommandOutput, String>) -> (r: StatusProbe)
        requires
            self.pending() is Some,
        ensures
            recorded(self.snapshot(), self.pending()->0, run, r.snapshot()),
            r.pending() == query_after(self.pending()->0, r.snapshot()),
            r.snapshot().wf(),
    {
        proof {
            use_type_invariant(&self);
        }
        let StatusProbe { status, pending } = self;
        let q = pending.unwrap();
        let mut status = status;
        match q {
            StatusQuery::CurrentBranch => {
                status.current_branch = branch_from(run);
            },
            StatusQuery::Remotes => {
                status.has_remote = remotes_from(run);
            },
            StatusQuery::RemoteUrl => {
                status.remote_url = remote_url_outcome(run);
            },
            StatusQuery::Changes => {
                match changes_from(run) {
                    Some(n) => {
                        status.changed_count = n;
                    },
                    None => {},
                }
            },
            StatusQuery::AheadBehind => {
                match tracking_from(run) {
                    Some((ahead, behind)) => {
                        status.has_upstream = true;
                        status.ahead_count = ahead;
                        status.behind_count = behind;
                    },
                    None => {
                        status.has_upstream = false;
                        status.ahead_count = -1;
                        status.behind_count = -1;
                    },
                }
            },
        }
        let next = match q {
            StatusQuery::CurrentBranch => Some(StatusQuery::Remotes),
            StatusQuery::Remotes => if status.has_remote {
                Some(StatusQuery::RemoteUrl)
            } else {
                Some(StatusQuery::Changes)
            },
            StatusQuery::RemoteUrl => Some(StatusQuery::Changes),
            StatusQuery::Changes => if status.has_remote && status.current_branch.is_some() {
                Some(StatusQuery::AheadBehind)
            } else {
                None
            },
            StatusQuery::AheadBehind => None,
        };
        StatusProbe { status, pending: next }
    }
}

/// The branch reported by a branch-name query.
fn branch_from(run: Result<CommandOutput, String>) -> (r: Option<String>)
    ensures
        opt_view(r) == branch_of(run),
{
    match run {
        Ok(o) => {
            if o.success {
                let t = trim(o.stdout.as_str());
                if t.as_str().is_empty() {
                    None
                } else {
                    Some(t)
                }
            } else {
                None
            }
        },
        Err(_) => None,
    }
}

/// Whether a remote-list query reports a remote.
fn remotes_from(run: Result<CommandOutput, String>) -> (r: bool)
    ensures
        r == remotes_listed(run),
{
    match run {
        Ok(o) => o.success && !trim(o.stdout.as_str()).as_str().is_empty(),
        Err(_) => false,
    }
}

/// The number of changed paths reported by a change query.
fn changes_from(run: Result<CommandOutput, String>) -> (r: Option<usize>)
    ensures
        match r {
            Some(n) => changes_of(run) == Some(n as nat),
            None => changes_of(run) is None,
        },
{
    match run {
        Ok(o) => if o.success {
            Some(count_nonempty_lines(o.stdout.as_str()))
        } else {
            None
        },
        Err(_) => None,
    }
}

/// The (ahead, behind) counts reported by an ahead/behind query.
fn tracking_from(run: Result<CommandOutput, String>) -> (r: Option<(i32, i32)>)
    ensures
        match r {
            Some((a, b)) => tracking_of(run) == Some((a as int, b as int)) && a >= 0 && b >= 0,
            None => tracking_of(run) is None,
        },
{
    match run {
        Ok(o) => {
            if o.success {
                let t = trim(o.stdout.as_str());
                let parts = split_char(t.as_str(), '\t');
                if parts.len() == 2 {
                    proof {
                        assert(views(parts@)[0] == parts@[0]@);
                        assert(views(parts@)[1] == parts@[1]@);
                    }
                    let behind = parse_count(parts[0].as_str());
                    let ahead = parse_count(parts[1].as_str());
                    Some((ahead, behind))
                } else {
                    Some((0, 0))
                }
            } else {
                None
            }
        },
        Err(_) => None,
    }
}

} // verus!
