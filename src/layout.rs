use vstd::prelude::*;
use vstd::string::{StrSliceExecFns, StringExecFns};

verus! {

broadcast use vstd::string::group_string_axioms;

/// Characters that separate path components on some platform.
pub open spec fn is_separator(c: char) -> bool {
    c == '/' || c == '\\'
}

pub open spec fn sanitize_char(c: char) -> char {
    if is_separator(c) {
        '_'
    } else {
        c
    }
}

/// A version string with every path separator replaced by `_`.
pub open spec fn sanitized(v: Seq<char>) -> Seq<char> {
    Seq::new(v.len(), |i: int| sanitize_char(v[i]))
}

/// `dir/name`.
pub open spec fn join_path(dir: Seq<char>, name: Seq<char>) -> Seq<char> {
    dir + seq!['/'] + name
}

/// Where the bare mirror of repository `repo` lives under `bare_root`.
pub open spec fn bare_path_spec(bare_root: Seq<char>, repo: Seq<char>) -> Seq<char> {
    join_path(bare_root, repo + seq!['.', 'g', 'i', 't'])
}

/// The directory name of the worktree of `repo` at `version`.
pub open spec fn worktree_name(repo: Seq<char>, version: Seq<char>) -> Seq<char> {
    repo + seq!['_'] + sanitized(version)
}

/// Where the worktree of `repo` at `version` lives under `worktrees_root`.
pub open spec fn worktree_path_spec(
    worktrees_root: Seq<char>,
    repo: Seq<char>,
    version: Seq<char>,
) -> Seq<char> {
    join_path(worktrees_root, worktree_name(repo, version))
}

/// The URL that a bare mirror of `owner/repo` is cloned from.
pub open spec fn clone_url_spec(owner: Seq<char>, repo: Seq<char>) -> Seq<char> {
    seq!['h', 't', 't', 'p', 's', ':', '/', '/', 'g', 'i', 't', 'h', 'u', 'b', '.', 'c', 'o', 'm', '/']
        + owner + seq!['/'] + repo + seq!['.', 'g', 'i', 't']
}

/// Replaces every path separator of `version` by `_`, so that the result can
/// stand in a single directory name.
pub fn sanitize_version(version: &str) -> (r: String)
    ensures
        r@ == sanitized(version@),
{
    let n = version.unicode_len();
    let mut out = String::new();
    let mut i: usize = 0;
    while i < n
        invariant
            n == version@.len(),
            i <= n,
            out@ == sanitized(version@.subrange(0, i as int)),
        decreases n - i,
    {
        let c = version.get_char(i);
        if c == '/' || c == '\\' {
            proof {
                reveal_strlit("_");
            }
            out.append("_");
        } else {
            out.append(version.substring_char(i, i + 1));
        }
        assert(sanitized(version@.subrange(0, i + 1)) =~= sanitized(version@.subrange(0, i as int))
            + seq![sanitize_char(c)]);
        i = i + 1;
    }
    assert(version@.subrange(0, n as int) =~= version@);
    out
}

/// `dir/name`.
pub fn join(dir: &str, name: &str) -> (r: String)
    ensures
        r@ == join_path(dir@, name@),
{
    proof {
        reveal_strlit("/");
    }
    let s = String::from_str(dir);
    let s = s.concat("/");
    s.concat(name)
}

/// The bare mirror directory of `repo` under `bare_root`.
pub fn bare_path(bare_root: &str, repo: &str) -> (r: String)
    ensures
        r@ == bare_path_spec(bare_root@, repo@),
{
    let name = String::from_str(repo).concat(".git");
    proof {
        reveal_strlit(".git");
        assert(".git"@ =~= seq!['.', 'g', 'i', 't']);
    }
    join(bare_root, name.as_str())
}

/// The worktree directory of `repo` at `version` under `worktrees_root`.
pub fn worktree_path(worktrees_root: &str, repo: &str, version: &str) -> (r: String)
    ensures
        r@ == worktree_path_spec(worktrees_root@, repo@, version@),
{
    proof {
        reveal_strlit("_");
    }
    let safe = sanitize_version(version);
    let name = String::from_str(repo).concat("_").concat(safe.as_str());
    join(worktrees_root, name.as_str())
}

/// The https URL of the repository `owner/repo` on GitHub.
pub fn clone_url(owner: &str, repo: &str) -> (r: String)
    ensures
        r@ == clone_url_spec(owner@, repo@),
{
    let s = String::from_str("https://github.com/").concat(owner).concat("/").concat(repo).concat(
        ".git",
    );
    proof {
        reveal_strlit("https://github.com/");
        reveal_strlit("/");
        reveal_strlit(".git");
        assert("https://github.com/"@ =~= seq![
            'h', 't', 't', 'p', 's', ':', '/', '/', 'g', 'i', 't', 'h', 'u', 'b', '.', 'c', 'o', 'm', '/'
        ]);
        assert(".git"@ =~= seq!['.', 'g', 'i', 't']);
    }
    s
}

/// A sanitized version holds no path separator, so the part of a worktree's
/// directory name that comes from the version never opens a subdirectory;
/// where the repository name holds none either, neither does the whole name.
pub proof fn lemma_sanitized_has_no_separator(repo: Seq<char>, version: Seq<char>)
    ensures
        forall|i: int| 0 <= i < sanitized(version).len() ==> !is_separator(#[trigger] sanitized(version)[i]),
        sanitized(version).len() == version.len(),
        (forall|i: int| 0 <= i < repo.len() ==> !is_separator(#[trigger] repo[i]))
            ==> (forall|i: int| 0 <= i < worktree_name(repo, version).len()
                ==> !is_separator(#[trigger] worktree_name(repo, version)[i])),
{
    assert forall|i: int| 0 <= i < sanitized(version).len() implies !is_separator(
        #[trigger] sanitized(version)[i],
    ) by {}
    if forall|i: int| 0 <= i < repo.len() ==> !is_separator(#[trigger] repo[i]) {
        assert forall|i: int| 0 <= i < worktree_name(repo, version).len() implies !is_separator(
            #[trigger] worktree_name(repo, version)[i],
        ) by {
            let w = worktree_name(repo, version);
            if i < repo.len() {
                assert(w[i] == repo[i]);
            } else if i == repo.len() {
                assert(w[i] == '_');
            } else {
                assert(w[i] == sanitized(version)[i - repo.len() - 1]);
            }
        }
    }
}

/// Two versions that sanitize to the same string share one worktree
/// directory: a known collision (`feature/x` and `feature_x`), not a fault.
pub proof fn lemma_sanitize_collision(
    worktrees_root: Seq<char>,
    repo: Seq<char>,
    a: Seq<char>,
    b: Seq<char>,
)
    requires
        sanitized(a) == sanitized(b),
    ensures
        worktree_path_spec(worktrees_root, repo, a) == worktree_path_spec(worktrees_root, repo, b),
{
}

} // verus!
