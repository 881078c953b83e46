use vstd::prelude::*;
use vstd::string::StringExecFns;

use crate::layout::{clone_url, worktree_path, worktree_path_spec};

verus! {

broadcast use vstd::string::group_string_axioms;

/// Why a cache operation failed.
pub enum CacheError {
    /// The slot of this name was never set up.
    SlotNotConfigured(String),
    /// Cloning the bare mirror failed; carries git's diagnostic text.
    MirrorCloneFailed(String),
    /// The worktree could be neither reused nor created; carries the
    /// diagnostic text of the step that failed.
    WorktreeCreationFailed(String),
}

/// The mathematical value of a [`CacheError`].
pub enum ErrorView {
    SlotNotConfigured(Seq<char>),
    MirrorCloneFailed(Seq<char>),
    WorktreeCreationFailed(Seq<char>),
}

impl View for CacheError {
    type V = ErrorView;

    open spec fn view(&self) -> ErrorView {
        match self {
            CacheError::SlotNotConfigured(s) => ErrorView::SlotNotConfigured(s@),
            CacheError::MirrorCloneFailed(s) => ErrorView::MirrorCloneFailed(s@),
            CacheError::WorktreeCreationFailed(s) => ErrorView::WorktreeCreationFailed(s@),
        }
    }
}

/// The text that describes an error: its kind, then the diagnostic.
pub open spec fn message_of(e: ErrorView) -> Seq<char> {
    match e {
        ErrorView::SlotNotConfigured(s) => "repository slot not set up: "@ + s,
        ErrorView::MirrorCloneFailed(s) => "failed to clone repository: "@ + s,
        ErrorView::WorktreeCreationFailed(s) => "failed to create worktree: "@ + s,
    }
}

impl CacheError {
    /// A human-readable description of the error.
    pub fn message(&self) -> (r: String)
        ensures
            r@ == message_of(self@),
    {
        match self {
            CacheError::SlotNotConfigured(s) => String::from_str(
                "repository slot not set up: ",
            ).concat(s.as_str()),
            CacheError::MirrorCloneFailed(s) => String::from_str(
                "failed to clone repository: ",
            ).concat(s.as_str()),
            CacheError::WorktreeCreationFailed(s) => String::from_str(
                "failed to create worktree: ",
            ).concat(s.as_str()),
        }
    }
}

/// Where a job stands: each stage but `Done` waits for the outcome of one
/// action.
#[derive(PartialEq, Eq, Structural, Clone, Copy)]
pub enum Stage {
    /// Does the local override directory exist?
    LocalProbe,
    /// Does the bare mirror exist?
    BareProbe,
    /// Cloning the bare mirror.
    Cloning,
    /// Fetching updates into the bare mirror.
    Fetching,
    /// Asking for the latest release.
    Releasing,
    /// Asking for the default branch.
    Branching,
    /// Does the worktree directory exist?
    WorktreeProbe,
    /// Checking the version out in an existing worktree.
    CheckingOut,
    /// Removing a worktree whose checkout failed.
    Removing,
    /// Adding a fresh worktree to the bare mirror.
    Adding,
    /// Finished; the result is known.
    Done,
}

/// What the driver of a job must do next.
pub enum Action {
    /// Report whether `path` exists.
    PathExists { path: String },
    /// `git clone --bare <url> <dest>`.
    CloneBare { url: String, dest: String },
    /// `git fetch origin --tags` in `dir`.
    Fetch { dir: String },
    /// Ask for the tag of the latest release of `owner/repo`; report it as a
    /// success with the tag, or as a failure.
    LatestRelease { owner: String, repo: String },
    /// Ask for the default branch of `owner/repo`; report it as a success
    /// with the name, or as a failure.
    DefaultBranch { owner: String, repo: String },
    /// `git checkout <version>` in `dir`.
    Checkout { dir: String, version: String },
    /// Remove the directory tree `dir`.
    RemoveDir { dir: String },
    /// `git worktree add <dest> <version>` in `bare_dir`.
    AddWorktree { bare_dir: String, dest: String, version: String },
    /// Nothing: the job is done.
    Finished,
}

/// What came of an action: whether it succeeded, and its text (a tag, a
/// branch name or a diagnostic).
pub struct Outcome {
    pub ok: bool,
    pub text: String,
}

/// One setup or switch of a slot, as a state machine.
pub struct Job {
    pub slot: String,
    pub owner: String,
    pub repo: String,
    pub explicit: Option<String>,
    pub local_path: String,
    pub bare_dir: String,
    pub worktrees_root: String,
    pub version: String,
    pub path: String,
    pub stage: Stage,
    pub result: Option<Result<String, CacheError>>,
}

pub struct JobView {
    pub slot: Seq<char>,
    pub owner: Seq<char>,
    pub repo: Seq<char>,
    pub explicit: Option<Seq<char>>,
    pub local_path: Seq<char>,
    pub bare_dir: Seq<char>,
    pub worktrees_root: Seq<char>,
    pub version: Seq<char>,
    pub path: Seq<char>,
    pub stage: Stage,
    pub result: Option<Result<Seq<char>, ErrorView>>,
}

pub open spec fn opt_view(o: Option<String>) -> Option<Seq<char>> {
    match o {
        Some(s) => Some(s@),
        None => None,
    }
}

pub open spec fn result_view(r: Option<Result<String, CacheError>>) -> Option<
    Result<Seq<char>, ErrorView>,
> {
    match r {
        Some(Ok(p)) => Some(Ok(p@)),
        Some(Err(e)) => Some(Err(e@)),
        None => None,
    }
}

impl View for Job {
    type V = JobView;

    open spec fn view(&self) -> JobView {
        JobView {
            slot: self.slot@,
            owner: self.owner@,
            repo: self.repo@,
            explicit: opt_view(self.explicit),
            local_path: self.local_path@,
            bare_dir: self.bare_dir@,
            worktrees_root: self.worktrees_root@,
            version: self.version@,
            path: self.path@,
            stage: self.stage,
            result: result_view(self.result),
        }
    }
}

/// The version marker of a slot bound to a local directory.
pub open spec fn local_marker() -> Seq<char> {
    seq!['l', 'o', 'c', 'a', 'l']
}

/// The branch used when no default branch can be learnt.
pub open spec fn fallback_branch() -> Seq<char> {
    seq!['m', 'a', 'i', 'n']
}

/// The version to materialize: the explicit one, else the latest release,
/// else the default branch, else `main`.
pub open spec fn resolve_version_spec(
    explicit: Option<Seq<char>>,
    latest_release: Option<Seq<char>>,
    default_branch: Option<Seq<char>>,
) -> Seq<char> {
    match explicit {
        Some(v) => v,
        None => match latest_release {
            Some(t) => t,
            None => match default_branch {
                Some(b) => b,
                None => fallback_branch(),
            },
        },
    }
}

pub open spec fn is_worktree_stage(s: Stage) -> bool {
    s == Stage::WorktreeProbe || s == Stage::CheckingOut || s == Stage::Removing || s
        == Stage::Adding
}

impl JobView {
    /// The job with its version decided, about to probe for the worktree.
    pub open spec fn with_version(self, v: Seq<char>) -> JobView {
        JobView {
            version: v,
            path: worktree_path_spec(self.worktrees_root, self.repo, v),
            stage: Stage::WorktreeProbe,
            ..self
        }
    }

    pub open spec fn finished(self, r: Result<Seq<char>, ErrorView>) -> JobView {
        JobView { stage: Stage::Done, result: Some(r), ..self }
    }

    pub open spec fn at(self, s: Stage) -> JobView {
        JobView { stage: s, ..self }
    }

    /// The state after the pending action came out as `ok` with `text`.
    pub open spec fn next(self, ok: bool, text: Seq<char>) -> JobView {
        match self.stage {
            Stage::LocalProbe => if ok {
                JobView {
                    version: local_marker(),
                    path: self.local_path,
                    ..self
                }.finished(Ok(self.local_path))
            } else {
                self.at(Stage::BareProbe)
            },
            Stage::BareProbe => if ok {
                self.at(Stage::Fetching)
            } else {
                self.at(Stage::Cloning)
            },
            Stage::Cloning => if ok {
                self.at(Stage::Fetching)
            } else {
                self.finished(Err(ErrorView::MirrorCloneFailed(text)))
            },
            Stage::Fetching => match self.explicit {
                Some(v) => self.with_version(v),
                None => self.at(Stage::Releasing),
            },
            Stage::Releasing => if ok {
                self.with_version(text)
            } else {
                self.at(Stage::Branching)
            },
            Stage::Branching => if ok {
                self.with_version(text)
            } else {
                self.with_version(fallback_branch())
            },
            Stage::WorktreeProbe => if ok {
                self.at(Stage::CheckingOut)
            } else {
                self.at(Stage::Adding)
            },
            Stage::CheckingOut => if ok {
                self.finished(Ok(self.path))
            } else {
                self.at(Stage::Removing)
            },
            Stage::Removing => if ok {
                self.at(Stage::Adding)
            } else {
                self.finished(Err(ErrorView::WorktreeCreationFailed(text)))
            },
            Stage::Adding => if ok {
                self.finished(Ok(self.path))
            } else {
                self.finished(Err(ErrorView::WorktreeCreationFailed(text)))
            },
            Stage::Done => self,
        }
    }

    /// The job's own invariant: a result exactly when done, and a worktree
    /// path that follows from the repository and version.
    pub open spec fn wf(self) -> bool {
        &&& (self.stage == Stage::Done) == (self.result is Some)
        &&& is_worktree_stage(self.stage) ==> self.path == worktree_path_spec(
            self.worktrees_root,
            self.repo,
            self.version,
        )
        &&& self.result matches Some(Ok(p)) ==> {
            &&& p == self.path
            &&& (p == worktree_path_spec(self.worktrees_root, self.repo, self.version) || (
            self.version == local_marker() && p == self.local_path))
        }
    }

    /// `a` is the action that this state waits on.
    pub open spec fn pending(self, a: Action) -> bool {
        match self.stage {
            Stage::LocalProbe => a matches Action::PathExists { path } && path@ == self.local_path,
            Stage::BareProbe => a matches Action::PathExists { path } && path@ == self.bare_dir,
            Stage::Cloning => a matches Action::CloneBare { url, dest } && url@
                == crate::layout::clone_url_spec(self.owner, self.repo) && dest@ == self.bare_dir,
            Stage::Fetching => a matches Action::Fetch { dir } && dir@ == self.bare_dir,
            Stage::Releasing => a matches Action::LatestRelease { owner, repo } && owner@
                == self.owner && repo@ == self.repo,
            Stage::Branching => a matches Action::DefaultBranch { owner, repo } && owner@
                == self.owner && repo@ == self.repo,
            Stage::WorktreeProbe => a matches Action::PathExists { path } && path@ == self.path,
            Stage::CheckingOut => a matches Action::Checkout { dir, version } && dir@ == self.path
                && version@ == self.version,
            Stage::Removing => a matches Action::RemoveDir { dir } && dir@ == self.path,
            Stage::Adding => a matches Action::AddWorktree { bare_dir, dest, version } && bare_dir@
                == self.bare_dir && dest@ == self.path && version@ == self.version,
            Stage::Done => a is Finished,
        }
    }
}

impl Job {
    /// The action that this job waits on.
    pub fn action(&self) -> (a: Action)
        ensures
            self@.pending(a),
    {
        match self.stage {
            Stage::LocalProbe => Action::PathExists { path: self.local_path.clone() },
            Stage::BareProbe => Action::PathExists { path: self.bare_dir.clone() },
            Stage::Cloning => Action::CloneBare {
                url: clone_url(self.owner.as_str(), self.repo.as_str()),
                dest: self.bare_dir.clone(),
            },
            Stage::Fetching => Action::Fetch { dir: self.bare_dir.clone() },
            Stage::Releasing => Action::LatestRelease {
                owner: self.owner.clone(),
                repo: self.repo.clone(),
            },
            Stage::Branching => Action::DefaultBranch {
                owner: self.owner.clone(),
                repo: self.repo.clone(),
            },
            Stage::WorktreeProbe => Action::PathExists { path: self.path.clone() },
            Stage::CheckingOut => Action::Checkout {
                dir: self.path.clone(),
                version: self.version.clone(),
            },
            Stage::Removing => Action::RemoveDir { dir: self.path.clone() },
            Stage::Adding => Action::AddWorktree {
                bare_dir: self.bare_dir.clone(),
                dest: self.path.clone(),
                version: self.version.clone(),
            },
            Stage::Done => Action::Finished,
        }
    }

    /// Whether the job has finished.
    pub fn is_done(&self) -> (r: bool)
        ensures
            r == (self.stage == Stage::Done),
    {
        self.stage == Stage::Done
    }

    /// Decides the version and the worktree path from here on.
    fn choose_version(&mut self, v: String)
        ensures
            final(self)@ == old(self)@.with_version(v@),
    {
        self.path = worktree_path(self.worktrees_root.as_str(), self.repo.as_str(), v.as_str());
        self.version = v;
        self.stage = Stage::WorktreeProbe;
    }

    fn finish(&mut self, r: Result<String, CacheError>)
        ensures
            final(self)@ == old(self)@.finished(
                match r {
                    Ok(p) => Ok(p@),
                    Err(e) => Err(e@),
                },
            ),
    {
        self.stage = Stage::Done;
        self.result = Some(r);
    }

    /// Takes in the outcome of the pending action and moves on.
    pub fn advance(&mut self, outcome: Outcome)
        requires
            old(self)@.wf(),
            old(self).stage != Stage::Done,
        ensures
            final(self)@ == old(self)@.next(outcome.ok, outcome.text@),
            final(self)@.wf(),
    {
        let ok = outcome.ok;
        let text = outcome.text;
        match self.stage {
            Stage::LocalProbe => {
                if ok {
                    proof {
                        reveal_strlit("local");
                        assert("local"@ =~= local_marker());
                    }
                    self.version = String::from_str("local");
                    self.path = self.local_path.clone();
                    let p = self.local_path.clone();
                    self.finish(Ok(p));
                } else {
                    self.stage = Stage::BareProbe;
                }
            },
            Stage::BareProbe => {
                self.stage = if ok {
                    Stage::Fetching
                } else {
                    Stage::Cloning
                };
            },
            Stage::Cloning => {
                if ok {
                    self.stage = Stage::Fetching;
                } else {
                    self.finish(Err(CacheError::MirrorCloneFailed(text)));
                }
            },
            Stage::Fetching => {
                match &self.explicit {
                    Some(v) => {
                        let v = v.clone();
                        self.choose_version(v);
                    },
                    None => {
                        self.stage = Stage::Releasing;
                    },
                }
            },
            Stage::Releasing => {
                if ok {
                    self.choose_version(text);
                } else {
                    self.stage = Stage::Branching;
                }
            },
            Stage::Branching => {
                if ok {
                    self.choose_version(text);
                } else {
                    proof {
                        reveal_strlit("main");
                        assert("main"@ =~= fallback_branch());
                    }
                    self.choose_version(String::from_str("main"));
                }
            },
            Stage::WorktreeProbe => {
                self.stage = if ok {
                    Stage::CheckingOut
                } else {
                    Stage::Adding
                };
            },
            Stage::CheckingOut => {
                if ok {
                    let p = self.path.clone();
                    self.finish(Ok(p));
                } else {
                    self.stage = Stage::Removing;
                }
            },
            Stage::Removing => {
                if ok {
                    self.stage = Stage::Adding;
                } else {
                    self.finish(Err(CacheError::WorktreeCreationFailed(text)));
                }
            },
            Stage::Adding => {
                if ok {
                    let p = self.path.clone();
                    self.finish(Ok(p));
                } else {
                    self.finish(Err(CacheError::WorktreeCreationFailed(text)));
                }
            },
            Stage::Done => {},
        }
    }
}

/// The version to materialize: `explicit` where given, else the latest
/// release, else the default branch, else `main`.
pub fn resolve_version(
    explicit: Option<&str>,
    latest_release: Option<String>,
    default_branch: Option<String>,
) -> (r: String)
    ensures
        r@ == resolve_version_spec(
            match explicit {
                Some(v) => Some(v@),
                None => None,
            },
            opt_view(latest_release),
            opt_view(default_branch),
        ),
{
    match explicit {
        Some(v) => String::from_str(v),
        None => match latest_release {
            Some(t) => t,
            None => match default_branch {
                Some(b) => b,
                None => {
                    proof {
                        reveal_strlit("main");
                        assert("main"@ =~= fallback_branch());
                    }
                    String::from_str("main")
                },
            },
        },
    }
}

/// A job waiting on a metadata lookup takes in its answer (`None` where the
/// lookup failed); any other job is left as it is.
pub open spec fn feed_lookup(j: JobView, answer: Option<Seq<char>>) -> JobView {
    if j.stage == Stage::Releasing || j.stage == Stage::Branching {
        match answer {
            Some(t) => j.next(true, t),
            None => j.next(false, Seq::empty()),
        }
    } else {
        j
    }
}

/// Once the mirror is fetched, a job settles on the explicit version where
/// one was given, else on the latest release, else on the default branch,
/// else on `main`, whatever the fetch gave; and it then looks for the
/// worktree of that version.
pub proof fn lemma_fallback_chain(
    j: JobView,
    fetch_ok: bool,
    fetch_text: Seq<char>,
    release: Option<Seq<char>>,
    branch: Option<Seq<char>>,
)
    requires
        j.stage == Stage::Fetching,
    ensures
        ({
            let r = feed_lookup(feed_lookup(j.next(fetch_ok, fetch_text), release), branch);
            &&& r.stage == Stage::WorktreeProbe
            &&& r.version == resolve_version_spec(j.explicit, release, branch)
            &&& r.path == worktree_path_spec(j.worktrees_root, j.repo, r.version)
        }),
{
}

/// Two setups of one repository at one explicit version settle on the same
/// worktree path.
pub proof fn lemma_same_version_same_path(
    j1: JobView,
    j2: JobView,
    ok1: bool,
    text1: Seq<char>,
    ok2: bool,
    text2: Seq<char>,
)
    requires
        j1.stage == Stage::Fetching,
        j2.stage == Stage::Fetching,
        j1.explicit is Some,
        j1.explicit == j2.explicit,
        j1.repo == j2.repo,
        j1.worktrees_root == j2.worktrees_root,
    ensures
        j1.next(ok1, text1).path == j2.next(ok2, text2).path,
        j1.next(ok1, text1).path == worktree_path_spec(
            j1.worktrees_root,
            j1.repo,
            j1.explicit->0,
        ),
{
}

/// A worktree that exists and checks out is reused: the job finishes with
/// its path after the checkout, and neither removes nor adds a worktree.
pub proof fn lemma_existing_worktree_reused(j: JobView, probe_text: Seq<char>, checkout_text: Seq<char>)
    requires
        j.stage == Stage::WorktreeProbe,
    ensures
        j.next(true, probe_text).stage == Stage::CheckingOut,
        j.next(true, probe_text).next(true, checkout_text) == j.at(Stage::CheckingOut).finished(
            Ok(j.path),
        ),
{
}

/// A worktree that exists but does not check out is removed and added
/// anew at the same path: when both steps succeed, the job finishes with
/// that path.
pub proof fn lemma_self_healing(
    j: JobView,
    probe_text: Seq<char>,
    checkout_error: Seq<char>,
    remove_text: Seq<char>,
    add_text: Seq<char>,
)
    requires
        j.stage == Stage::WorktreeProbe,
    ensures
        ({
            let checking = j.next(true, probe_text);
            let removing = checking.next(false, checkout_error);
            let adding = removing.next(true, remove_text);
            let done = adding.next(true, add_text);
            &&& checking.stage == Stage::CheckingOut
            &&& removing.stage == Stage::Removing
            &&& removing.path == j.path
            &&& adding.stage == Stage::Adding
            &&& adding.path == j.path
            &&& adding.version == j.version
            &&& done.stage == Stage::Done
            &&& done.result == Some(Ok::<Seq<char>, ErrorView>(j.path))
        }),
{
}

} // verus!
