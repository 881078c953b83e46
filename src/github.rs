use vstd::prelude::*;
use vstd::string::StringExecFns;

use crate::job::fallback_branch;

verus! {

broadcast use vstd::string::group_string_axioms;

/// A release as the GitHub API describes it.
pub struct GitHubRelease {
    pub tag_name: String,
    pub name: Option<String>,
    pub published_at: String,
    pub prerelease: bool,
    pub draft: bool,
}

/// The part of a repository's description that the cache reads.
pub struct GitHubRepo {
    pub default_branch: String,
}

/// The character views of a sequence of strings.
pub open spec fn views(v: Seq<String>) -> Seq<Seq<char>> {
    Seq::new(v.len(), |i: int| v[i]@)
}

pub open spec fn is_success(status: Option<u16>) -> bool {
    status matches Some(s) && 200 <= s <= 299
}

/// The tags of the releases that are not drafts, in order.
pub open spec fn non_draft_tags(rs: Seq<GitHubRelease>) -> Seq<Seq<char>>
    decreases rs.len(),
{
    if rs.len() == 0 {
        Seq::empty()
    } else {
        let rest = non_draft_tags(rs.drop_last());
        if rs.last().draft {
            rest
        } else {
            rest.push(rs.last().tag_name@)
        }
    }
}

/// The latest release's tag from the answer of the latest-release endpoint:
/// `status` is `None` where the request failed, `body` is `None` where the
/// answer could not be read. A missing release, an error status or a failed
/// request all give `None`.
pub fn latest_release_tag(status: Option<u16>, body: Option<GitHubRelease>) -> (r: Option<String>)
    ensures
        match r {
            Some(t) => is_success(status) && body is Some && t@ == body->0.tag_name@,
            None => !is_success(status) || body is None,
        },
{
    match (status, body) {
        (Some(s), Some(rel)) => {
            if 200 <= s && s <= 299 {
                Some(rel.tag_name)
            } else {
                None
            }
        },
        _ => None,
    }
}

/// The tags of the non-draft releases from the answer of the releases
/// endpoint; empty on any failure.
pub fn release_tags(status: Option<u16>, body: Option<Vec<GitHubRelease>>) -> (r: Vec<String>)
    ensures
        views(r@) == if is_success(status) && body is Some {
            non_draft_tags(body->0@)
        } else {
            Seq::empty()
        },
{
    let mut out: Vec<String> = Vec::new();
    match (status, body) {
        (Some(s), Some(rs)) => {
            if 200 <= s && s <= 299 {
                let mut i: usize = 0;
                while i < rs.len()
                    invariant
                        i <= rs@.len(),
                        views(out@) == non_draft_tags(rs@.subrange(0, i as int)),
                    decreases rs@.len() - i,
                {
                    assert(rs@.subrange(0, i + 1).drop_last() =~= rs@.subrange(0, i as int));
                    if !rs[i].draft {
                        out.push(rs[i].tag_name.clone());
                    }
                    assert(views(out@) =~= non_draft_tags(rs@.subrange(0, i + 1)));
                    i = i + 1;
                }
                assert(rs@.subrange(0, rs@.len() as int) =~= rs@);
            }
        },
        _ => {},
    }
    proof {
        if !(is_success(status) && body is Some) {
            assert(views(out@) =~= Seq::<Seq<char>>::empty());
        }
    }
    out
}

/// The default branch from the answer of the repository endpoint; `main`
/// on any failure.
pub fn default_branch_name(status: Option<u16>, body: Option<GitHubRepo>) -> (r: String)
    ensures
        r@ == if is_success(status) && body is Some {
            body->0.default_branch@
        } else {
            fallback_branch()
        },
{
    proof {
        reveal_strlit("main");
        assert("main"@ =~= fallback_branch());
    }
    match (status, body) {
        (Some(s), Some(repo)) => {
            if 200 <= s && s <= 299 {
                repo.default_branch
            } else {
                String::from_str("main")
            }
        },
        _ => String::from_str("main"),
    }
}

} // verus!
