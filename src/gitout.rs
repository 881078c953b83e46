use vstd::prelude::*;
use vstd::string::StringExecFns;

use crate::github::views;

verus! {

broadcast use vstd::string::group_string_axioms;

/// The lines of `s`, as `str::lines` splits them.
pub uninterp spec fn lines_of(s: Seq<char>) -> Seq<Seq<char>>;

/// `s` without leading and trailing white space, as `str::trim` leaves it.
pub uninterp spec fn trimmed(s: Seq<char>) -> Seq<char>;

/// `pat` occurs in `s`.
pub open spec fn has_infix(s: Seq<char>, pat: Seq<char>) -> bool {
    exists|i: int| 0 <= i && i + pat.len() <= s.len() && #[trigger] s.subrange(i, i + pat.len()) == pat
}

/// `s` without the prefix `p`, if it starts with it.
pub open spec fn strip_prefix_spec(s: Seq<char>, p: Seq<char>) -> Option<Seq<char>> {
    if p.len() <= s.len() && s.subrange(0, p.len() as int) == p {
        Some(s.subrange(p.len() as int, s.len() as int))
    } else {
        None
    }
}

/// Relies on `str::lines`: the lines of the text, each without its line end.
#[verifier::external_body]
fn split_lines(s: &str) -> (r: Vec<String>)
    ensures
        views(r@) == lines_of(s@),
{
    s.lines().map(|l| l.to_string()).collect()
}

/// Relies on `str::trim`: the text without surrounding white space, which
/// depends on the characters alone.
#[verifier::external_body]
fn trim(s: &str) -> (r: String)
    ensures
        r@ == trimmed(s@),
{
    s.trim().to_string()
}

/// Relies on `str::contains` with a `&str` pattern: whether `pat` occurs.
#[verifier::external_body]
pub(crate) fn contains(s: &str, pat: &str) -> (r: bool)
    ensures
        r == has_infix(s@, pat@),
{
    s.contains(pat)
}

/// Relies on `str::strip_prefix` with a `&str` pattern: the rest after the
/// prefix, if `s` starts with it.
#[verifier::external_body]
fn strip_prefix(s: &str, p: &str) -> (r: Option<String>)
    ensures
        match r {
            Some(t) => strip_prefix_spec(s@, p@) == Some(t@),
            None => strip_prefix_spec(s@, p@) is None,
        },
{
    s.strip_prefix(p).map(|t| t.to_string())
}

pub open spec fn head_word() -> Seq<char> {
    seq!['H', 'E', 'A', 'D']
}

pub open spec fn remote_prefix() -> Seq<char> {
    seq!['o', 'r', 'i', 'g', 'i', 'n', '/']
}

/// The branch named on one line of `git branch -r`: none for a symbolic
/// `HEAD` pointer, else the name after `origin/`.
pub open spec fn branch_of_line(l: Seq<char>) -> Option<Seq<char>> {
    if has_infix(trimmed(l), head_word()) {
        None
    } else {
        strip_prefix_spec(trimmed(l), remote_prefix())
    }
}

/// The tag named on one line of `git tag`: none for a blank line.
pub open spec fn tag_of_line(l: Seq<char>) -> Option<Seq<char>> {
    if trimmed(l).len() == 0 {
        None
    } else {
        Some(trimmed(l))
    }
}

pub open spec fn branches_of(ls: Seq<Seq<char>>) -> Seq<Seq<char>>
    decreases ls.len(),
{
    if ls.len() == 0 {
        Seq::empty()
    } else {
        match branch_of_line(ls.last()) {
            Some(b) => branches_of(ls.drop_last()).push(b),
            None => branches_of(ls.drop_last()),
        }
    }
}

pub open spec fn tags_of(ls: Seq<Seq<char>>) -> Seq<Seq<char>>
    decreases ls.len(),
{
    if ls.len() == 0 {
        Seq::empty()
    } else {
        match tag_of_line(ls.last()) {
            Some(t) => tags_of(ls.drop_last()).push(t),
            None => tags_of(ls.drop_last()),
        }
    }
}

/// The remote branch names listed by `git branch -r`, without the
/// `origin/` prefix and without symbolic `HEAD` pointers.
pub fn parse_branches(stdout: &str) -> (r: Vec<String>)
    ensures
        views(r@) == branches_of(lines_of(stdout@)),
{
    proof {
        reveal_strlit("HEAD");
        reveal_strlit("origin/");
        assert("HEAD"@ =~= head_word());
        assert("origin/"@ =~= remote_prefix());
    }
    let lines = split_lines(stdout);
    let mut out: Vec<String> = Vec::new();
    let mut i: usize = 0;
    while i < lines.len()
        invariant
            i <= lines@.len(),
            views(lines@) == lines_of(stdout@),
            "HEAD"@ == head_word(),
            "origin/"@ == remote_prefix(),
            views(out@) == branches_of(views(lines@).subrange(0, i as int)),
        decreases lines@.len() - i,
    {
        assert(views(lines@).subrange(0, i + 1).drop_last() =~= views(lines@).subrange(0, i as int));
        assert(views(lines@)[i as int] == lines@[i as int]@);
        let t = trim(lines[i].as_str());
        if !contains(t.as_str(), "HEAD") {
            match strip_prefix(t.as_str(), "origin/") {
                Some(b) => {
                    out.push(b);
                },
                None => {},
            }
        }
        assert(views(out@) =~= branches_of(views(lines@).subrange(0, i + 1)));
        i = i + 1;
    }
    assert(views(lines@).subrange(0, lines@.len() as int) =~= views(lines@));
    out
}

/// The tag names listed by `git tag`, blank lines left out.
pub fn parse_tags(stdout: &str) -> (r: Vec<String>)
    ensures
        views(r@) == tags_of(lines_of(stdout@)),
{
    let lines = split_lines(stdout);
    let mut out: Vec<String> = Vec::new();
    let mut i: usize = 0;
    while i < lines.len()
        invariant
            i <= lines@.len(),
            views(lines@) == lines_of(stdout@),
            views(out@) == tags_of(views(lines@).subrange(0, i as int)),
        decreases lines@.len() - i,
    {
        assert(views(lines@).subrange(0, i + 1).drop_last() =~= views(lines@).subrange(0, i as int));
        assert(views(lines@)[i as int] == lines@[i as int]@);
        let t = trim(lines[i].as_str());
        if t.unicode_len() > 0 {
            out.push(t);
        }
        assert(views(out@) =~= tags_of(views(lines@).subrange(0, i + 1)));
        i = i + 1;
    }
    assert(views(lines@).subrange(0, lines@.len() as int) =~= views(lines@));
    out
}

/// The commit printed by `git rev-parse HEAD`, if the command succeeded.
pub fn parse_commit(ok: bool, stdout: &str) -> (r: Option<String>)
    ensures
        match r {
            Some(c) => ok && c@ == trimmed(stdout@),
            None => !ok,
        },
{
    if ok {
        Some(trim(stdout))
    } else {
        None
    }
}

/// The branch printed by `git rev-parse --abbrev-ref HEAD`: none where the
/// command failed or the worktree is detached (it prints `HEAD`).
pub fn parse_current_branch(ok: bool, stdout: &str) -> (r: Option<String>)
    ensures
        match r {
            Some(b) => ok && b@ == trimmed(stdout@) && b@ != head_word(),
            None => !ok || trimmed(stdout@) == head_word(),
        },
{
    proof {
        reveal_strlit("HEAD");
        assert("HEAD"@ =~= head_word());
    }
    if ok {
        let b = trim(stdout);
        let head = String::from_str("HEAD");
        if b == head {
            None
        } else {
            Some(b)
        }
    } else {
        None
    }
}

} // verus!
