use repo_cache::github::{default_branch_name, latest_release_tag, release_tags, GitHubRelease, GitHubRepo};
use repo_cache::gitout::{parse_branches, parse_commit, parse_current_branch, parse_tags};
use repo_cache::job::{resolve_version, Action, CacheError, Job, Outcome, Stage};
use repo_cache::layout::{bare_path, clone_url, sanitize_version, worktree_path};
use repo_cache::manager::{GitReport, RepoManager};

fn outcome(ok: bool, text: &str) -> Outcome {
    Outcome { ok, text: text.to_string() }
}

/// A short description of an action, for comparing runs.
fn describe(a: &Action) -> String {
    match a {
        Action::PathExists { path } => format!("exists {}", path),
        Action::CloneBare { url, dest } => format!("clone {} {}", url, dest),
        Action::Fetch { dir } => format!("fetch {}", dir),
        Action::LatestRelease { owner, repo } => format!("release {}/{}", owner, repo),
        Action::DefaultBranch { owner, repo } => format!("branch {}/{}", owner, repo),
        Action::Checkout { dir, version } => format!("checkout {} {}", dir, version),
        Action::RemoveDir { dir } => format!("remove {}", dir),
        Action::AddWorktree { bare_dir, dest, version } => {
            format!("add {} {} {}", bare_dir, dest, version)
        }
        Action::Finished => "finished".to_string(),
    }
}

/// Runs `job` to its end, answering its actions in turn with `answers`;
/// returns what it asked for.
fn drive(job: &mut Job, answers: &[(bool, &str)]) -> Vec<String> {
    let mut asked = Vec::new();
    let mut k = 0;
    while !job.is_done() {
        asked.push(describe(&job.action()));
        let (ok, text) = answers[k];
        k += 1;
        job.advance(outcome(ok, text));
    }
    assert_eq!(k, answers.len());
    asked
}

fn manager() -> RepoManager {
    RepoManager::new("/c", "/home/u/repo")
}

fn report(commit: &str) -> GitReport {
    GitReport {
        branches: outcome(true, "  origin/HEAD -> origin/main\n  origin/main\n  origin/feature/x\n"),
        tags: outcome(true, "v2.2.0\nv2.3.0\n"),
        commit: outcome(true, commit),
        head: outcome(true, "HEAD\n"),
    }
}

fn err_kind(e: &CacheError) -> &'static str {
    match e {
        CacheError::SlotNotConfigured(_) => "slot",
        CacheError::MirrorCloneFailed(_) => "clone",
        CacheError::WorktreeCreationFailed(_) => "worktree",
    }
}

#[test]
fn setup_at_latest_release_then_list_versions() {
    let mut m = manager();
    let mut job = m.setup_repo("docs", "octo", "widget", None, false);
    let asked = drive(
        &mut job,
        &[(false, ""), (true, ""), (true, ""), (true, "v2.3.0"), (false, ""), (true, "")],
    );
    assert_eq!(
        asked,
        vec![
            "exists /c/bare/widget.git",
            "clone https://github.com/octo/widget.git /c/bare/widget.git",
            "fetch /c/bare/widget.git",
            "release octo/widget",
            "exists /c/worktrees/widget_v2.3.0",
            "add /c/bare/widget.git /c/worktrees/widget_v2.3.0 v2.3.0",
        ]
    );
    let path = m.complete(&job).ok().unwrap();
    assert_eq!(path, "/c/worktrees/widget_v2.3.0");
    assert_eq!(m.get_path("docs"), Some(path.clone()));

    let q = m.version_query("docs").ok().unwrap();
    assert_eq!(q.owner, "octo");
    assert_eq!(q.repo, "widget");
    assert_eq!(q.bare_dir, "/c/bare/widget.git");
    assert_eq!(q.worktree, path);
    let releases = vec!["v2.3.0".to_string(), "v2.2.0".to_string()];
    let info = m.list_versions("docs", &report("abc123\n"), releases).ok().unwrap();
    assert_eq!(info.repo, "docs");
    assert_eq!(info.current_version, "v2.3.0");
    assert!(info.releases.contains(&"v2.3.0".to_string()));
    assert_eq!(info.current_commit, Some("abc123".to_string()));
    assert_eq!(info.current_branch, None);
    assert_eq!(info.branches, vec!["main".to_string(), "feature/x".to_string()]);
    assert_eq!(info.tags, vec!["v2.2.0".to_string(), "v2.3.0".to_string()]);
}

#[test]
fn switch_to_main_adds_new_worktree() {
    let mut m = manager();
    let mut job = m.setup_repo("docs", "octo", "widget", Some("v2.3.0"), false);
    drive(&mut job, &[(true, ""), (true, ""), (false, ""), (true, "")]);
    let old = m.complete(&job).ok().unwrap();
    assert_eq!(old, "/c/worktrees/widget_v2.3.0");

    let mut sw = m.switch_version("docs", "main").ok().unwrap();
    let asked = drive(&mut sw, &[(false, ""), (true, "")]);
    assert_eq!(
        asked,
        vec![
            "exists /c/worktrees/widget_main",
            "add /c/bare/widget.git /c/worktrees/widget_main main",
        ]
    );
    assert!(!asked.iter().any(|a| a.contains("widget_v2.3.0")));
    let p = m.complete(&sw).ok().unwrap();
    assert_eq!(p, "/c/worktrees/widget_main");
    assert_eq!(m.get_path("docs"), Some(p));
    let info = m.list_versions("docs", &report("def\n"), Vec::new()).ok().unwrap();
    assert_eq!(info.current_version, "main");
}

#[test]
fn setup_twice_reuses_worktree() {
    let mut m = manager();
    let mut first = m.setup_repo("docs", "octo", "widget", Some("v1"), false);
    drive(&mut first, &[(true, ""), (true, ""), (false, ""), (true, "")]);
    let p1 = m.complete(&first).ok().unwrap();
    let mut second = m.setup_repo("docs", "octo", "widget", Some("v1"), false);
    let asked = drive(&mut second, &[(true, ""), (true, ""), (true, ""), (true, "")]);
    let p2 = m.complete(&second).ok().unwrap();
    assert_eq!(p1, p2);
    assert_eq!(asked.last().unwrap(), "checkout /c/worktrees/widget_v1 v1");
    assert!(!asked.iter().any(|a| a.starts_with("add") || a.starts_with("remove")));
}

#[test]
fn fallback_chain_resolves_in_order() {
    assert_eq!(resolve_version(Some("v9"), Some("v1".to_string()), Some("dev".to_string())), "v9");
    assert_eq!(resolve_version(None, Some("v1".to_string()), Some("dev".to_string())), "v1");
    assert_eq!(resolve_version(None, None, Some("dev".to_string())), "dev");
    assert_eq!(resolve_version(None, None, None), "main");
}

#[test]
fn fallback_chain_in_setup_job() {
    let m = manager();
    let mut job = m.setup_repo("docs", "octo", "widget", None, false);
    let asked = drive(
        &mut job,
        &[(true, ""), (false, "offline"), (false, ""), (true, "trunk"), (false, ""), (true, "")],
    );
    assert_eq!(asked[1], "fetch /c/bare/widget.git");
    assert_eq!(asked[2], "release octo/widget");
    assert_eq!(asked[3], "branch octo/widget");
    assert_eq!(job.version, "trunk");

    let mut job = m.setup_repo("docs", "octo", "widget", None, false);
    drive(&mut job, &[(true, ""), (true, ""), (false, ""), (false, ""), (false, ""), (true, "")]);
    assert_eq!(job.version, "main");
    assert_eq!(job.path, "/c/worktrees/widget_main");

    let mut job = m.setup_repo("docs", "octo", "widget", Some("feature/y"), false);
    let asked = drive(&mut job, &[(true, ""), (true, ""), (false, ""), (true, "")]);
    assert!(!asked.iter().any(|a| a.starts_with("release") || a.starts_with("branch")));
    assert_eq!(job.path, "/c/worktrees/widget_feature_y");
}

#[test]
fn corrupted_worktree_is_recreated() {
    let mut m = manager();
    let mut job = m.setup_repo("docs", "octo", "widget", Some("v1"), false);
    let asked = drive(
        &mut job,
        &[(true, ""), (true, ""), (true, ""), (false, "bad ref"), (true, ""), (true, "")],
    );
    assert_eq!(
        asked[3..].to_vec(),
        vec![
            "checkout /c/worktrees/widget_v1 v1",
            "remove /c/worktrees/widget_v1",
            "add /c/bare/widget.git /c/worktrees/widget_v1 v1",
        ]
    );
    assert_eq!(m.complete(&job).ok().unwrap(), "/c/worktrees/widget_v1");
}

#[test]
fn failed_switch_keeps_last_good_path() {
    let mut m = manager();
    let mut job = m.setup_repo("docs", "octo", "widget", Some("v1"), false);
    drive(&mut job, &[(true, ""), (true, ""), (true, ""), (true, "")]);
    let good = m.complete(&job).ok().unwrap();
    let mut sw = m.switch_version("docs", "nope").ok().unwrap();
    drive(&mut sw, &[(false, ""), (false, "invalid reference: nope")]);
    let e = m.complete(&sw).err().unwrap();
    assert_eq!(err_kind(&e), "worktree");
    assert!(e.message().contains("invalid reference: nope"));
    assert_eq!(m.get_path("docs"), Some(good));
    let info = m.list_versions("docs", &report("x"), Vec::new()).ok().unwrap();
    assert_eq!(info.current_version, "v1");
}

#[test]
fn failed_removal_is_a_worktree_error() {
    let mut m = manager();
    let mut job = m.setup_repo("docs", "octo", "widget", Some("v1"), false);
    drive(&mut job, &[(true, ""), (true, ""), (true, ""), (false, ""), (false, "busy")]);
    assert_eq!(err_kind(&m.complete(&job).err().unwrap()), "worktree");
    assert_eq!(m.get_path("docs"), None);
}

#[test]
fn clone_failure_is_fatal() {
    let mut m = manager();
    let mut job = m.setup_repo("docs", "octo", "widget", None, false);
    let asked = drive(&mut job, &[(false, ""), (false, "not found")]);
    assert_eq!(asked.len(), 2);
    let e = m.complete(&job).err().unwrap();
    assert_eq!(err_kind(&e), "clone");
    assert!(e.message().contains("not found"));
    assert_eq!(m.get_path("docs"), None);
}

#[test]
fn unknown_slot_is_rejected() {
    let m = manager();
    assert_eq!(err_kind(&m.switch_version("nope", "main").err().unwrap()), "slot");
    assert_eq!(err_kind(&m.version_query("nope").err().unwrap()), "slot");
    assert_eq!(err_kind(&m.list_versions("nope", &report("x"), Vec::new()).err().unwrap()), "slot");
    assert_eq!(m.get_path("nope"), None);
}

#[test]
fn local_override_binds_directory() {
    let mut m = manager();
    let mut job = m.setup_repo("dot", "me", "dots", None, true);
    let asked = drive(&mut job, &[(true, "")]);
    assert_eq!(asked, vec!["exists /home/u/repo/dots"]);
    assert_eq!(m.complete(&job).ok().unwrap(), "/home/u/repo/dots");
    let info = m.list_versions("dot", &report("x"), Vec::new()).ok().unwrap();
    assert_eq!(info.current_version, "local");

    let mut job = m.setup_repo("other", "me", "gone", Some("v1"), true);
    let asked = drive(&mut job, &[(false, ""), (true, ""), (true, ""), (false, ""), (true, "")]);
    assert_eq!(asked[1], "exists /c/bare/gone.git");
}

#[test]
fn refresh_lists_each_mirror() {
    let mut m = manager();
    for (slot, repo) in [("a", "one"), ("b", "two"), ("a", "one")] {
        let mut job = m.setup_repo(slot, "o", repo, Some("v1"), false);
        drive(&mut job, &[(true, ""), (true, ""), (true, ""), (true, "")]);
        m.complete(&job).ok().unwrap();
    }
    let mut dirs = m.refresh();
    dirs.sort();
    assert_eq!(
        dirs,
        vec![
            ("a".to_string(), "/c/bare/one.git".to_string()),
            ("b".to_string(), "/c/bare/two.git".to_string()),
        ]
    );
    assert!(m.cleanup_old_worktrees(1).is_ok());
    assert_eq!(m.refresh().len(), 2);
}

#[test]
fn sanitized_versions_share_a_directory() {
    assert_eq!(sanitize_version("feature/foo"), "feature_foo");
    assert_eq!(sanitize_version("a\\b/c"), "a_b_c");
    assert_eq!(sanitize_version(""), "");
    let p1 = worktree_path("/w", "r", "feature/foo");
    let p2 = worktree_path("/w", "r", "feature_foo");
    assert_eq!(p1, p2);
    assert!(!p1["/w/".len()..].contains('/'));
}

#[test]
fn layout_paths() {
    assert_eq!(bare_path("/c/bare", "widget"), "/c/bare/widget.git");
    assert_eq!(clone_url("octo", "widget"), "https://github.com/octo/widget.git");
    let m = manager();
    assert_eq!(m.bare_dir(), "/c/bare");
    assert_eq!(m.worktrees_dir(), "/c/worktrees");
}

fn release(tag: &str, draft: bool) -> GitHubRelease {
    GitHubRelease {
        tag_name: tag.to_string(),
        name: None,
        published_at: "2024-01-01T00:00:00Z".to_string(),
        prerelease: false,
        draft,
    }
}

#[test]
fn release_answers() {
    assert_eq!(latest_release_tag(Some(200), Some(release("v1", false))), Some("v1".to_string()));
    assert_eq!(latest_release_tag(Some(404), None), None);
    assert_eq!(latest_release_tag(Some(500), Some(release("v1", false))), None);
    assert_eq!(latest_release_tag(None, None), None);
    let all = vec![release("v3", true), release("v2", false), release("v1", false)];
    assert_eq!(release_tags(Some(200), Some(all)), vec!["v2".to_string(), "v1".to_string()]);
    assert!(release_tags(Some(403), Some(vec![release("v1", false)])).is_empty());
    assert!(release_tags(None, None).is_empty());
}

#[test]
fn default_branch_answers() {
    let repo = GitHubRepo { default_branch: "trunk".to_string() };
    assert_eq!(default_branch_name(Some(200), Some(repo)), "trunk");
    let repo = GitHubRepo { default_branch: "trunk".to_string() };
    assert_eq!(default_branch_name(Some(404), Some(repo)), "main");
    assert_eq!(default_branch_name(None, None), "main");
}

#[test]
fn git_output_parsing() {
    assert_eq!(
        parse_branches("  origin/HEAD -> origin/main\n  origin/dev\n  upstream/x\n\n"),
        vec!["dev".to_string()]
    );
    assert_eq!(parse_tags("  v1 \n\n v2\r\n"), vec!["v1".to_string(), "v2".to_string()]);
    assert!(parse_tags("").is_empty());
    assert_eq!(parse_commit(true, " abc\n"), Some("abc".to_string()));
    assert_eq!(parse_commit(false, "abc"), None);
    assert_eq!(parse_current_branch(true, "main\n"), Some("main".to_string()));
    assert_eq!(parse_current_branch(true, "HEAD\n"), None);
    assert_eq!(parse_current_branch(false, "main"), None);
}

#[test]
fn job_starts_at_probe() {
    let m = manager();
    let job = m.setup_repo("s", "o", "r", None, false);
    assert!(job.stage == Stage::BareProbe);
    assert!(!job.is_done());
}
