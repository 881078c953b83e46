use vstd::prelude::*;
use vstd::string::StringExecFns;

use crate::github::views;
use crate::gitout::{
    branches_of, head_word, lines_of, parse_branches, parse_commit, parse_current_branch,
    parse_tags, tags_of, trimmed,
};
use crate::job::{CacheError, ErrorView, Job, JobView, Outcome, Stage};
use crate::layout::{bare_path, bare_path_spec, join, join_path, worktree_path, worktree_path_spec};

verus! {

broadcast use vstd::string::group_string_axioms;

/// One registry entry: a named slot bound to a repository at a version.
pub struct RepoInfo {
    pub slot: String,
    pub owner: String,
    pub name: String,
    pub current_version: String,
    pub worktree_path: String,
}

/// What the registry records of a slot.
pub struct SlotView {
    pub owner: Seq<char>,
    pub name: Seq<char>,
    pub version: Seq<char>,
    pub path: Seq<char>,
}

impl View for RepoInfo {
    type V = SlotView;

    open spec fn view(&self) -> SlotView {
        SlotView {
            owner: self.owner@,
            name: self.name@,
            version: self.current_version@,
            path: self.worktree_path@,
        }
    }
}

/// What is known of a slot's versions, gathered on demand.
pub struct VersionInfo {
    pub repo: String,
    pub current_version: String,
    pub current_branch: Option<String>,
    pub current_commit: Option<String>,
    pub branches: Vec<String>,
    pub tags: Vec<String>,
    pub releases: Vec<String>,
}

/// Where the version listing of a slot looks.
pub struct VersionQuery {
    pub owner: String,
    pub repo: String,
    pub bare_dir: String,
    pub worktree: String,
}

/// The outcomes of the git commands behind a version listing, with their
/// standard output as text: `git branch -r` and `git tag` in the bare
/// mirror, `git rev-parse HEAD` and `git rev-parse --abbrev-ref HEAD` in
/// the worktree.
pub struct GitReport {
    pub branches: Outcome,
    pub tags: Outcome,
    pub commit: Outcome,
    pub head: Outcome,
}

/// The branch list of a version listing.
pub open spec fn listed_branches(o: Outcome) -> Seq<Seq<char>> {
    if o.ok {
        branches_of(lines_of(o.text@))
    } else {
        Seq::empty()
    }
}

/// The tag list of a version listing.
pub open spec fn listed_tags(o: Outcome) -> Seq<Seq<char>> {
    if o.ok {
        tags_of(lines_of(o.text@))
    } else {
        Seq::empty()
    }
}

/// The current commit of a version listing.
pub open spec fn listed_commit(o: Outcome) -> Option<Seq<char>> {
    if o.ok {
        Some(trimmed(o.text@))
    } else {
        None
    }
}

/// The current branch of a version listing: none where detached.
pub open spec fn listed_head(o: Outcome) -> Option<Seq<char>> {
    if o.ok && trimmed(o.text@) != head_word() {
        Some(trimmed(o.text@))
    } else {
        None
    }
}

/// The registry held by a sequence of entries; a later entry wins.
pub open spec fn registry(s: Seq<RepoInfo>) -> Map<Seq<char>, SlotView>
    decreases s.len(),
{
    if s.len() == 0 {
        Map::empty()
    } else {
        registry(s.drop_last()).insert(s.last().slot@, s.last()@)
    }
}

pub open spec fn unique_slots(s: Seq<RepoInfo>) -> bool {
    forall|i: int, j: int| 0 <= i < j < s.len() ==> s[i].slot@ != s[j].slot@
}

proof fn lemma_registry_absent(s: Seq<RepoInfo>, k: Seq<char>)
    requires
        forall|i: int| 0 <= i < s.len() ==> s[i].slot@ != k,
    ensures
        !registry(s).contains_key(k),
    decreases s.len(),
{
    if s.len() > 0 {
        lemma_registry_absent(s.drop_last(), k);
    }
}

proof fn lemma_registry_at(s: Seq<RepoInfo>, i: int)
    requires
        unique_slots(s),
        0 <= i < s.len(),
    ensures
        registry(s).contains_key(s[i].slot@),
        registry(s)[s[i].slot@] == s[i]@,
    decreases s.len(),
{
    if i < s.len() - 1 {
        lemma_registry_at(s.drop_last(), i);
        assert(s.drop_last()[i] == s[i]);
    }
}

proof fn lemma_registry_update(s: Seq<RepoInfo>, i: int, v: RepoInfo)
    requires
        unique_slots(s),
        0 <= i < s.len(),
        v.slot@ == s[i].slot@,
    ensures
        registry(s.update(i, v)) == registry(s).insert(v.slot@, v@),
        unique_slots(s.update(i, v)),
    decreases s.len(),
{
    let t = s.update(i, v);
    if i == s.len() - 1 {
        assert(t.drop_last() =~= s.drop_last());
        assert(registry(t) =~= registry(s).insert(v.slot@, v@));
    } else {
        assert(t.drop_last() =~= s.drop_last().update(i, v));
        lemma_registry_update(s.drop_last(), i, v);
        assert(registry(t) =~= registry(s).insert(v.slot@, v@));
    }
}

proof fn lemma_registry_push(s: Seq<RepoInfo>, v: RepoInfo)
    requires
        unique_slots(s),
        !registry(s).contains_key(v.slot@),
    ensures
        registry(s.push(v)) == registry(s).insert(v.slot@, v@),
        unique_slots(s.push(v)),
{
    assert(s.push(v).drop_last() =~= s);
    assert forall|i: int| 0 <= i < s.len() implies s[i].slot@ != v.slot@ by {
        lemma_registry_at(s, i);
    }
}

proof fn lemma_refresh_cover(s: Seq<RepoInfo>, d: Seq<(String, String)>)
    requires
        unique_slots(s),
        d.len() == s.len(),
        forall|i: int| 0 <= i < s.len() ==> (#[trigger] d[i]).0@ == s[i].slot@,
    ensures
        forall|k: Seq<char>| #[trigger]
            registry(s).contains_key(k) ==> exists|i: int| 0 <= i < d.len() && (#[trigger] d[i]).0@ == k,
        forall|i: int|
            0 <= i < d.len() ==> registry(s).contains_key((#[trigger] d[i]).0@) && registry(s)[d[i].0@]
                == s[i]@,
{
    assert forall|k: Seq<char>| #[trigger] registry(s).contains_key(k) implies exists|i: int|
        0 <= i < d.len() && (#[trigger] d[i]).0@ == k by {
        if forall|i: int| 0 <= i < s.len() ==> s[i].slot@ != k {
            lemma_registry_absent(s, k);
        }
        let i = choose|i: int| 0 <= i < s.len() && s[i].slot@ == k;
        assert(d[i].0@ == k);
    }
    assert forall|i: int| 0 <= i < d.len() implies registry(s).contains_key((#[trigger] d[i]).0@)
        && registry(s)[d[i].0@] == s[i]@ by {
        lemma_registry_at(s, i);
    }
}

/// The registry after a finished job is taken in: a successful job binds its
/// slot, a failed one changes nothing.
pub open spec fn commit(reg: Map<Seq<char>, SlotView>, j: JobView) -> Map<Seq<char>, SlotView> {
    match j.result {
        Some(Ok(p)) => reg.insert(
            j.slot,
            SlotView { owner: j.owner, name: j.repo, version: j.version, path: p },
        ),
        _ => reg,
    }
}

/// The cache of repositories: where mirrors and worktrees live, and the
/// registry of slots.
pub struct RepoManager {
    cache_base: String,
    bare_repos: String,
    worktrees: String,
    local_root: String,
    repos: Vec<RepoInfo>,
}

impl View for RepoManager {
    type V = Map<Seq<char>, SlotView>;

    closed spec fn view(&self) -> Map<Seq<char>, SlotView> {
        registry(self.repos@)
    }
}

impl RepoManager {
    /// The directory that holds the bare mirrors.
    pub closed spec fn bare_root(&self) -> Seq<char> {
        self.bare_repos@
    }

    /// The directory that holds the worktrees.
    pub closed spec fn worktrees_root(&self) -> Seq<char> {
        self.worktrees@
    }

    /// The directory that holds local checkouts used in place of the cache.
    pub closed spec fn local_root(&self) -> Seq<char> {
        self.local_root@
    }

    pub closed spec fn wf(&self) -> bool {
        unique_slots(self.repos@)
    }

    /// A manager with an empty registry, keeping its mirrors under
    /// `cache_base/bare` and its worktrees under `cache_base/worktrees`.
    /// A local override of repository `r` is looked for at `local_root/r`.
    pub fn new(cache_base: &str, local_root: &str) -> (m: RepoManager)
        ensures
            m.wf(),
            m@ == Map::<Seq<char>, SlotView>::empty(),
            m.bare_root() == join_path(cache_base@, seq!['b', 'a', 'r', 'e']),
            m.worktrees_root() == join_path(
                cache_base@,
                seq!['w', 'o', 'r', 'k', 't', 'r', 'e', 'e', 's'],
            ),
            m.local_root() == local_root@,
    {
        proof {
            reveal_strlit("bare");
            reveal_strlit("worktrees");
            assert("bare"@ =~= seq!['b', 'a', 'r', 'e']);
            assert("worktrees"@ =~= seq!['w', 'o', 'r', 'k', 't', 'r', 'e', 'e', 's']);
        }
        let m = RepoManager {
            cache_base: String::from_str(cache_base),
            bare_repos: join(cache_base, "bare"),
            worktrees: join(cache_base, "worktrees"),
            local_root: String::from_str(local_root),
            repos: Vec::new(),
        };
        assert(m.repos@ =~= Seq::<RepoInfo>::empty());
        assert(m@ =~= Map::<Seq<char>, SlotView>::empty());
        m
    }

    /// The directory that holds the bare mirrors.
    pub fn bare_dir(&self) -> (r: String)
        ensures
            r@ == self.bare_root(),
    {
        self.bare_repos.clone()
    }

    /// The directory that holds the worktrees.
    pub fn worktrees_dir(&self) -> (r: String)
        ensures
            r@ == self.worktrees_root(),
    {
        self.worktrees.clone()
    }

    /// The index of the entry of slot `name`.
    fn find(&self, name: &str) -> (r: Option<usize>)
        requires
            self.wf(),
        ensures
            match r {
                Some(i) => i < self.repos@.len() && self.repos@[i as int].slot@ == name@
                    && self@.contains_key(name@) && self@[name@] == self.repos@[i as int]@,
                None => !self@.contains_key(name@),
            },
    {
        let key = String::from_str(name);
        let mut i: usize = 0;
        while i < self.repos.len()
            invariant
                i <= self.repos@.len(),
                unique_slots(self.repos@),
                key@ == name@,
                forall|k: int| 0 <= k < i ==> self.repos@[k].slot@ != name@,
            decreases self.repos@.len() - i,
        {
            if self.repos[i].slot == key {
                proof {
                    lemma_registry_at(self.repos@, i as int);
                }
                return Some(i);
            }
            i = i + 1;
        }
        proof {
            lemma_registry_absent(self.repos@, name@);
        }
        None
    }

    /// Binds slot `info.slot` to `info`, in place of any earlier binding.
    fn bind(&mut self, info: RepoInfo)
        requires
            old(self).wf(),
        ensures
            final(self).wf(),
            final(self)@ == old(self)@.insert(info.slot@, info@),
            final(self).bare_root() == old(self).bare_root(),
            final(self).worktrees_root() == old(self).worktrees_root(),
            final(self).local_root() == old(self).local_root(),
    {
        match self.find(info.slot.as_str()) {
            Some(i) => {
                proof {
                    lemma_registry_update(self.repos@, i as int, info);
                }
                self.repos.set(i, info);
            },
            None => {
                proof {
                    lemma_registry_push(self.repos@, info);
                }
                self.repos.push(info);
            },
        }
    }

    /// The current worktree path of slot `name`, if it was set up.
    pub fn get_path(&self, name: &str) -> (r: Option<String>)
        requires
            self.wf(),
        ensures
            match r {
                Some(p) => self@.contains_key(name@) && p@ == self@[name@].path,
                None => !self@.contains_key(name@),
            },
    {
        match self.find(name) {
            Some(i) => Some(self.repos[i].worktree_path.clone()),
            None => None,
        }
    }
    /// The job that sets up slot `name` on `owner/repo`: at `version` where
    /// one is given, else at the latest release, else at the default branch.
    /// With `use_local`, an existing directory `local_root/repo` is bound
    /// as it is. The registry changes only when the finished job is handed
    /// to [`RepoManager::complete`].
    pub fn setup_repo(
        &self,
        name: &str,
        owner: &str,
        repo: &str,
        version: Option<&str>,
        use_local: bool,
    ) -> (j: Job)
        ensures
            j@ == (JobView {
                slot: name@,
                owner: owner@,
                repo: repo@,
                explicit: match version {
                    Some(v) => Some(v@),
                    None => None,
                },
                local_path: join_path(self.local_root(), repo@),
                bare_dir: bare_path_spec(self.bare_root(), repo@),
                worktrees_root: self.worktrees_root(),
                version: Seq::empty(),
                path: Seq::empty(),
                stage: if use_local {
                    Stage::LocalProbe
                } else {
                    Stage::BareProbe
                },
                result: None,
            }),
            j@.wf(),
    {
        let explicit = match version {
            Some(v) => Some(String::from_str(v)),
            None => None,
        };
        Job {
            slot: String::from_str(name),
            owner: String::from_str(owner),
            repo: String::from_str(repo),
            explicit,
            local_path: join(self.local_root.as_str(), repo),
            bare_dir: bare_path(self.bare_repos.as_str(), repo),
            worktrees_root: self.worktrees.clone(),
            version: String::new(),
            path: String::new(),
            stage: if use_local {
                Stage::LocalProbe
            } else {
                Stage::BareProbe
            },
            result: None,
        }
    }

    /// The job that moves slot `name` to `version`, against the bare mirror
    /// of the repository it is bound to, without fetching. Fails with
    /// `SlotNotConfigured` when the slot was never set up.
    pub fn switch_version(&self, name: &str, version: &str) -> (r: Result<Job, CacheError>)
        requires
            self.wf(),
        ensures
            match r {
                Ok(j) => self@.contains_key(name@) && j@ == (JobView {
                    slot: name@,
                    owner: self@[name@].owner,
                    repo: self@[name@].name,
                    explicit: Some(version@),
                    local_path: Seq::empty(),
                    bare_dir: bare_path_spec(self.bare_root(), self@[name@].name),
                    worktrees_root: self.worktrees_root(),
                    version: version@,
                    path: worktree_path_spec(self.worktrees_root(), self@[name@].name, version@),
                    stage: Stage::WorktreeProbe,
                    result: None,
                }) && j@.wf(),
                Err(e) => !self@.contains_key(name@) && e@ == ErrorView::SlotNotConfigured(name@),
            },
    {
        match self.find(name) {
            Some(i) => {
                let info = &self.repos[i];
                Ok(
                    Job {
                        slot: String::from_str(name),
                        owner: info.owner.clone(),
                        repo: info.name.clone(),
                        explicit: Some(String::from_str(version)),
                        local_path: String::new(),
                        bare_dir: bare_path(self.bare_repos.as_str(), info.name.as_str()),
                        worktrees_root: self.worktrees.clone(),
                        version: String::from_str(version),
                        path: worktree_path(
                            self.worktrees.as_str(),
                            info.name.as_str(),
                            version,
                        ),
                        stage: Stage::WorktreeProbe,
                        result: None,
                    },
                )
            },
            None => Err(CacheError::SlotNotConfigured(String::from_str(name))),
        }
    }

    /// Takes in a finished setup or switch: on success the slot is bound to
    /// the job's repository, version and path, and the path is returned; on
    /// failure the registry is left as it was and the job's error returned.
    pub fn complete(&mut self, job: &Job) -> (r: Result<String, CacheError>)
        requires
            old(self).wf(),
            job@.wf(),
            job.stage == Stage::Done,
        ensures
            final(self).wf(),
            final(self)@ == commit(old(self)@, job@),
            final(self).bare_root() == old(self).bare_root(),
            final(self).worktrees_root() == old(self).worktrees_root(),
            final(self).local_root() == old(self).local_root(),
            match r {
                Ok(p) => job@.result == Some(Ok::<Seq<char>, ErrorView>(p@)),
                Err(e) => job@.result == Some(Err::<Seq<char>, ErrorView>(e@)),
            },
    {
        match &job.result {
            Some(Ok(p)) => {
                let info = RepoInfo {
                    slot: job.slot.clone(),
                    owner: job.owner.clone(),
                    name: job.repo.clone(),
                    current_version: job.version.clone(),
                    worktree_path: p.clone(),
                };
                self.bind(info);
                Ok(p.clone())
            },
            Some(Err(e)) => Err(copy_error(e)),
            None => Err(CacheError::WorktreeCreationFailed(String::new())),
        }
    }

    /// What to fetch into: each slot's name with the bare mirror directory
    /// of its repository, one entry for each slot.
    pub fn refresh(&self) -> (r: Vec<(String, String)>)
        requires
            self.wf(),
        ensures
            forall|k: Seq<char>| #[trigger]
                self@.contains_key(k) ==> exists|i: int| 0 <= i < r@.len() && (#[trigger] r@[i]).0@ == k,
            forall|i: int|
                0 <= i < r@.len() ==> self@.contains_key((#[trigger] r@[i]).0@) && r@[i].1@
                    == bare_path_spec(self.bare_root(), self@[r@[i].0@].name),
    {
        let mut out: Vec<(String, String)> = Vec::new();
        let mut i: usize = 0;
        while i < self.repos.len()
            invariant
                i <= self.repos@.len(),
                unique_slots(self.repos@),
                out@.len() == i,
                forall|k: int|
                    0 <= k < i ==> (#[trigger] out@[k]).0@ == self.repos@[k].slot@ && out@[k].1@
                        == bare_path_spec(self.bare_repos@, self.repos@[k].name@),
            decreases self.repos@.len() - i,
        {
            let info = &self.repos[i];
            out.push((info.slot.clone(), bare_path(self.bare_repos.as_str(), info.name.as_str())));
            i = i + 1;
        }
        proof {
            lemma_refresh_cover(self.repos@, out@);
        }
        out
    }

    /// Where the version listing of slot `name` looks: its repository and
    /// owner, its bare mirror and its current worktree.
    pub fn version_query(&self, name: &str) -> (r: Result<VersionQuery, CacheError>)
        requires
            self.wf(),
        ensures
            match r {
                Ok(q) => self@.contains_key(name@) && q.owner@ == self@[name@].owner && q.repo@
                    == self@[name@].name && q.bare_dir@ == bare_path_spec(
                    self.bare_root(),
                    self@[name@].name,
                ) && q.worktree@ == self@[name@].path,
                Err(e) => !self@.contains_key(name@) && e@ == ErrorView::SlotNotConfigured(name@),
            },
    {
        match self.find(name) {
            Some(i) => {
                let info = &self.repos[i];
                Ok(
                    VersionQuery {
                        owner: info.owner.clone(),
                        repo: info.name.clone(),
                        bare_dir: bare_path(self.bare_repos.as_str(), info.name.as_str()),
                        worktree: info.worktree_path.clone(),
                    },
                )
            },
            None => Err(CacheError::SlotNotConfigured(String::from_str(name))),
        }
    }

    /// The versions of slot `name`: the remote branches and the tags of its
    /// mirror, the `releases` of its repository, and the commit and branch
    /// of its worktree, read from the git outcomes in `git`. Changes nothing.
    pub fn list_versions(&self, name: &str, git: &GitReport, releases: Vec<String>) -> (r: Result<
        VersionInfo,
        CacheError,
    >)
        requires
            self.wf(),
        ensures
            match r {
                Ok(info) => {
                    &&& self@.contains_key(name@)
                    &&& info.repo@ == name@
                    &&& info.current_version@ == self@[name@].version
                    &&& views(info.branches@) == listed_branches(git.branches)
                    &&& views(info.tags@) == listed_tags(git.tags)
                    &&& info.releases@ == releases@
                    &&& crate::job::opt_view(info.current_commit) == listed_commit(git.commit)
                    &&& crate::job::opt_view(info.current_branch) == listed_head(git.head)
                },
                Err(e) => !self@.contains_key(name@) && e@ == ErrorView::SlotNotConfigured(name@),
            },
    {
        match self.find(name) {
            Some(i) => {
                let branches = if git.branches.ok {
                    parse_branches(git.branches.text.as_str())
                } else {
                    Vec::new()
                };
                let tags = if git.tags.ok {
                    parse_tags(git.tags.text.as_str())
                } else {
                    Vec::new()
                };
                proof {
                    if !git.branches.ok {
                        assert(views(branches@) =~= Seq::<Seq<char>>::empty());
                    }
                    if !git.tags.ok {
                        assert(views(tags@) =~= Seq::<Seq<char>>::empty());
                    }
                }
                Ok(
                    VersionInfo {
                        repo: String::from_str(name),
                        current_version: self.repos[i].current_version.clone(),
                        current_branch: parse_current_branch(git.head.ok, git.head.text.as_str()),
                        current_commit: parse_commit(git.commit.ok, git.commit.text.as_str()),
                        branches,
                        tags,
                        releases,
                    },
                )
            },
            None => Err(CacheError::SlotNotConfigured(String::from_str(name))),
        }
    }

    /// Worktrees are kept for the life of the cache: nothing is evicted,
    /// whatever `_keep_recent` asks, and the registry is unchanged.
    pub fn cleanup_old_worktrees(&mut self, _keep_recent: usize) -> (r: Result<(), CacheError>)
        ensures
            r is Ok,
            final(self)@ == old(self)@,
            final(self).wf() == old(self).wf(),
    {
        Ok(())
    }
}

fn copy_error(e: &CacheError) -> (r: CacheError)
    ensures
        r@ == e@,
{
    match e {
        CacheError::SlotNotConfigured(s) => CacheError::SlotNotConfigured(s.clone()),
        CacheError::MirrorCloneFailed(s) => CacheError::MirrorCloneFailed(s.clone()),
        CacheError::WorktreeCreationFailed(s) => CacheError::WorktreeCreationFailed(s.clone()),
    }
}

/// A failed setup or switch leaves the registry as it was: every slot keeps
/// its version and path.
pub proof fn lemma_failure_keeps_registry(reg: Map<Seq<char>, SlotView>, j: JobView, name: Seq<char>)
    requires
        j.result matches Some(Err(_)),
    ensures
        commit(reg, j) == reg,
        reg.contains_key(name) ==> commit(reg, j).contains_key(name) && commit(reg, j)[name]
            == reg[name],
{
}

} // verus!
