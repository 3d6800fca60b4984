//! The line-oriented protocol spoken by the provisioning process on its
//! standard output: `PROGRESS:<text>`, `ERROR:<text>`, anything else ignored.
use vstd::prelude::*;
use vstd::string::*;

verus! {

/// Tag that opens a progress line.
pub open spec fn progress_tag() -> Seq<char> {
    "PROGRESS:"@
}

/// Tag that opens an error line.
pub open spec fn error_tag() -> Seq<char> {
    "ERROR:"@
}

/// `p` is a prefix of `s`.
pub open spec fn starts_with(s: Seq<char>, p: Seq<char>) -> bool {
    p.len() <= s.len() && s.subrange(0, p.len() as int) == p
}

/// What one line of the child's output means.
pub enum LineKind {
    /// A progress report; the text after the tag.
    Progress(String),
    /// A failure report; the text after the tag.
    Error(String),
    /// A line that speaks neither tag.
    Ignored,
}

/// The meaning of a line: the progress tag is tried first, then the error tag.
pub open spec fn classified(line: Seq<char>, k: LineKind) -> bool {
    if starts_with(line, progress_tag()) {
        k matches LineKind::Progress(t) && t@ == line.skip(progress_tag().len() as int)
    } else if starts_with(line, error_tag()) {
        k matches LineKind::Error(t) && t@ == line.skip(error_tag().len() as int)
    } else {
        k matches LineKind::Ignored
    }
}

/// Whether `s` begins with `p`.
pub fn has_prefix(s: &str, p: &str) -> (r: bool)
    ensures
        r == starts_with(s@, p@),
{
    let n = s.unicode_len();
    let m = p.unicode_len();
    if m > n {
        return false;
    }
    let mut i: usize = 0;
    while i < m
        invariant
            n == s@.len(),
            m == p@.len(),
            m <= n,
            i <= m,
            forall|k: int| 0 <= k < i ==> s@[k] == p@[k],
        decreases m - i,
    {
        if s.get_char(i) != p.get_char(i) {
            return false;
        }
        i = i + 1;
    }
    assert(s@.subrange(0, m as int) =~= p@);
    true
}

/// The text of `s` after its first `n` characters.
fn after(s: &str, n: usize) -> (r: String)
    requires
        n <= s@.len(),
    ensures
        r@ == s@.skip(n as int),
{
    let len = s.unicode_len();
    let rest = s.substring_char(n, len);
    assert(rest@ =~= s@.skip(n as int));
    String::from_str(rest)
}

/// Classifies one line of the child's output.
pub fn classify(line: &str) -> (r: LineKind)
    ensures
        classified(line@, r),
{
    let progress = "PROGRESS:";
    let error = "ERROR:";
    proof {
        reveal_strlit("PROGRESS:");
        reveal_strlit("ERROR:");
    }
    if has_prefix(line, progress) {
        LineKind::Progress(after(line, progress.unicode_len()))
    } else if has_prefix(line, error) {
        LineKind::Error(after(line, error.unicode_len()))
    } else {
        LineKind::Ignored
    }
}

} // verus!
