//! The editing assistant's run: the prompt it is given, and what its output
//! reports, including the link to its session.
use vstd::prelude::*;
use crate::outcome::{join2, opt_view, CommandOutput};
use crate::text::{chars_of, find, has_substring, contains, is_whitespace, is_ws, lines, lines_of, occurs_at, trim, trimmed, views};

verus! {

pub const SESSION_MARKER: &'static str = "session";
pub const URL_SCHEME: &'static str = "https://";

pub const PROMPT_HEAD: &'static str = "Edit the file at ";
pub const PROMPT_MIDDLE: &'static str = ". Here is what the user wants: ";
pub const SPAWN_FAILED_HEAD: &'static str = "Failed to run ";
pub const SPAWN_FAILED_TAIL: &'static str = ": ";
pub const EXITED_WITH_ERROR_TAIL: &'static str = " exited with an error";

/// The editing assistant that the application runs: the program started, the
/// name shown to users, and the host whose links lead to its sessions.
#[derive(Clone, Debug)]
pub struct Assistant {
    pub program: String,
    pub display_name: String,
    pub session_host: String,
}

/// What one run of the assistant produced.
#[derive(Clone, Debug)]
pub struct ClaudeResult {
    pub success: bool,
    pub output: Option<String>,
    pub error: Option<String>,
    pub session_url: Option<String>,
}

/// `i` is where `p` first occurs in `s`.
pub open spec fn is_first_occurrence(s: Seq<char>, p: Seq<char>, i: int) -> bool {
    occurs_at(s, p, i) && forall|j: int| 0 <= j < i ==> !#[trigger] occurs_at(s, p, j)
}

/// Where `p` first occurs in `s` (meaningful when it occurs).
pub open spec fn first_occurrence(s: Seq<char>, p: Seq<char>) -> int {
    choose|i: int| is_first_occurrence(s, p, i)
}

/// `k` is the length of the leading run of non-whitespace characters of `s`.
pub open spec fn is_token_end(s: Seq<char>, k: int) -> bool {
    &&& 0 <= k <= s.len()
    &&& k == s.len() || is_ws(s[k])
    &&& forall|j: int| 0 <= j < k ==> !is_ws(#[trigger] s[j])
}

/// The length of the leading run of non-whitespace characters of `s`.
pub open spec fn token_end(s: Seq<char>) -> int {
    choose|k: int| is_token_end(s, k)
}

/// A line that links to an assistant session on `host`.
pub open spec fn is_session_line(l: Seq<char>, host: Seq<char>) -> bool {
    has_substring(l, host) && has_substring(l, SESSION_MARKER@)
}

/// The link on a session line: from its first `https://` to the whitespace that
/// follows, or the whole line trimmed when it holds no `https://`.
pub open spec fn url_of_line(l: Seq<char>) -> Seq<char> {
    if has_substring(l, URL_SCHEME@) {
        let rest = l.subrange(first_occurrence(l, URL_SCHEME@), l.len() as int);
        rest.subrange(0, token_end(rest))
    } else {
        trimmed(l)
    }
}

/// The first session line of `ls`.
pub open spec fn first_session_line(ls: Seq<Seq<char>>, host: Seq<char>) -> Option<Seq<char>>
    decreases ls.len(),
{
    if ls.len() == 0 {
        None
    } else if is_session_line(ls[0], host) {
        Some(ls[0])
    } else {
        first_session_line(ls.drop_first(), host)
    }
}

/// The session link in `text`: taken from its first session line.
pub open spec fn session_url_in(text: Seq<char>, host: Seq<char>) -> Option<Seq<char>> {
    match first_session_line(lines_of(text), host) {
        Some(l) => Some(url_of_line(l)),
        None => None,
    }
}

/// The prompt that asks the assistant to edit the note at `note_path`.
pub open spec fn prompt_text(note_path: Seq<char>, request: Seq<char>) -> Seq<char> {
    PROMPT_HEAD@ + note_path + PROMPT_MIDDLE@ + request
}

proof fn lemma_first_occurrence(s: Seq<char>, p: Seq<char>, i: int)
    requires
        is_first_occurrence(s, p, i),
    ensures
        first_occurrence(s, p) == i,
{
    let k = first_occurrence(s, p);
    assert(is_first_occurrence(s, p, k));
    if k < i {
        assert(!occurs_at(s, p, k));
    } else if i < k {
        assert(!occurs_at(s, p, i));
    }
}

proof fn lemma_token_end(s: Seq<char>, k: int)
    requires
        is_token_end(s, k),
    ensures
        token_end(s) == k,
{
    let m = token_end(s);
    assert(is_token_end(s, m));
    if m < k {
        assert(!is_ws(s[m]));
    } else if k < m {
        assert(!is_ws(s[k]));
    }
}

/// The link on the session line `line`.
fn url_from_line(line: &str) -> (r: String)
    ensures
        r@ == url_of_line(line@),
{
    match find(line, URL_SCHEME) {
        Some(start) => {
            proof {
                lemma_first_occurrence(line@, URL_SCHEME@, start as int);
            }
            let n = line.unicode_len();
            let rest = line.substring_char(start, n);
            let v = chars_of(rest);
            let mut k: usize = 0;
            while k < v.len() && !is_whitespace(v[k])
                invariant
                    0 <= k <= v@.len(),
                    v@ == rest@,
                    forall|j: int| 0 <= j < k ==> !is_ws(#[trigger] rest@[j]),
                decreases v@.len() - k,
            {
                k = k + 1;
            }
            proof {
                lemma_token_end(rest@, k as int);
            }
            rest.substring_char(0, k).to_owned()
        },
        None => trim(line),
    }
}

/// The link to an assistant session given in `text`, if any: taken from the
/// first line that mentions both the assistant's `host` and a session.
pub fn extract_session_url(text: &str, host: &str) -> (r: Option<String>)
    ensures
        opt_view(r) == session_url_in(text@, host@),
{
    let ls = lines(text);
    assert(views(ls@).subrange(0, ls@.len() as int) =~= views(ls@));
    let mut i: usize = 0;
    while i < ls.len()
        invariant
            0 <= i <= ls@.len(),
            views(ls@) == lines_of(text@),
            first_session_line(lines_of(text@), host@) == first_session_line(
                views(ls@).subrange(i as int, ls@.len() as int),
                host@,
            ),
        decreases ls@.len() - i,
    {
        let line = ls[i].as_str();
        let ghost tail = views(ls@).subrange(i as int, ls@.len() as int);
        assert(tail[0] == line@);
        if contains(line, host) && contains(line, SESSION_MARKER) {
            return Some(url_from_line(line));
        }
        assert(tail.drop_first() =~= views(ls@).subrange(i + 1, ls@.len() as int));
        i = i + 1;
    }
    None
}

/// The prompt that asks the assistant to edit the note at `note_path` as
/// `request` says.
pub fn edit_prompt(note_path: &str, request: &str) -> (r: String)
    ensures
        r@ == prompt_text(note_path@, request@),
{
    let mut p = join2(PROMPT_HEAD, note_path);
    p.append(PROMPT_MIDDLE);
    p.append(request);
    p
}

/// The session link of a run: from stdout, else from stderr.
pub open spec fn run_session_url(o: CommandOutput, host: Seq<char>) -> Option<Seq<char>> {
    match session_url_in(o.stdout@, host) {
        Some(u) => Some(u),
        None => session_url_in(o.stderr@, host),
    }
}

/// The error text of a run of `program` that could not be started for reason `e`.
pub open spec fn spawn_failure_text(program: Seq<char>, e: Seq<char>) -> Seq<char> {
    SPAWN_FAILED_HEAD@ + program + SPAWN_FAILED_TAIL@ + e
}

/// The error text of a run of `program` that could not be started for reason `e`.
fn spawn_failure(program: &str, e: &str) -> (r: String)
    ensures
        r@ == spawn_failure_text(program@, e@),
{
    let mut t = join2(SPAWN_FAILED_HEAD, program);
    t.append(SPAWN_FAILED_TAIL);
    t.append(e);
    t
}

/// What a run of `assistant` reports. Its stdout is the output when there is
/// any; a failed run's error is its stderr, or a fixed text naming the
/// assistant when that is empty.
pub fn edit_outcome(assistant: &Assistant, run: Result<CommandOutput, String>) -> (r:
    ClaudeResult)
    ensures
        match run {
            Err(e) => {
                &&& !r.success
                &&& r.output is None
                &&& opt_view(r.error) == Some(spawn_failure_text(assistant.program@, e@))
                &&& r.session_url is None
            },
            Ok(o) => {
                &&& r.success == o.success
                &&& opt_view(r.output) == if o.stdout@.len() == 0 {
                    None
                } else {
                    Some(o.stdout@)
                }
                &&& opt_view(r.error) == if o.success {
                    None
                } else if o.stderr@.len() == 0 {
                    Some(assistant.display_name@ + EXITED_WITH_ERROR_TAIL@)
                } else {
                    Some(o.stderr@)
                }
                &&& opt_view(r.session_url) == run_session_url(o, assistant.session_host@)
            },
        },
{
    match run {
        Err(e) => ClaudeResult {
            success: false,
            output: None,
            error: Some(spawn_failure(assistant.program.as_str(), e.as_str())),
            session_url: None,
        },
        Ok(o) => {
            let host = assistant.session_host.as_str();
            let session_url = match extract_session_url(o.stdout.as_str(), host) {
                Some(u) => Some(u),
                None => extract_session_url(o.stderr.as_str(), host),
            };
            let error = if o.success {
                None
            } else if o.stderr.as_str().is_empty() {
                Some(join2(assistant.display_name.as_str(), EXITED_WITH_ERROR_TAIL))
            } else {
                Some(o.stderr)
            };
            let output = if o.stdout.as_str().is_empty() {
                None
            } else {
                Some(o.stdout)
            };
            ClaudeResult { success: o.success, output, error, session_url }
        },
    }
}

} // verus!
