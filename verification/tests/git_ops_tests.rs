use gh_cherry::git::{
    after_local_lookup, after_tracking, check_resolved, classify_replay, completion_message,
    conclude_apply, conflicts_outcome, decode_conflicts, head_ref_name, is_permitted,
    lookup_result, path_of_conflict, BranchLookup, ConflictSides, LocalStep,
    remote_branch_name, revision_range, tracking_merge_key, tracking_remote_key, wrong_state,
    BranchResolution, GitError, GitErrorKind, GitOperation, GitOperations, ReplayCondition,
    ReplayOutcome, ReplayVerdict, RepoState,
};
use git2::{Oid, Repository, Signature};

fn signature() -> Signature<'static> {
    Signature::now("Tester", "tester@example.com").expect("signature")
}

fn new_repo() -> (tempfile::TempDir, Repository) {
    let dir = tempfile::tempdir().expect("tempdir");
    let repo = Repository::init(dir.path()).expect("init repo");
    {
        let mut config = repo.config().expect("config");
        config.set_str("user.name", "Tester").expect("user.name");
        config.set_str("user.email", "tester@example.com").expect("user.email");
    }
    (dir, repo)
}

fn path_of(dir: &tempfile::TempDir) -> String {
    dir.path().to_str().expect("utf-8 path").to_string()
}

/// Commits `files` on top of `parent` (or as a root commit) and points
/// `reference` at the result.
fn commit_files(
    repo: &Repository,
    reference: &str,
    parent: Option<Oid>,
    files: &[(&str, &str)],
    message: &str,
) -> Oid {
    let parent_commit = parent.map(|id| repo.find_commit(id).expect("parent"));
    let parent_tree = parent_commit.as_ref().map(|c| c.tree().expect("tree"));
    let mut builder = repo.treebuilder(parent_tree.as_ref()).expect("treebuilder");
    for (name, content) in files {
        let blob = repo.blob(content.as_bytes()).expect("blob");
        builder.insert(name, blob, 0o100644).expect("insert");
    }
    let tree = repo.find_tree(builder.write().expect("write tree")).expect("find tree");
    let sig = signature();
    let parents: Vec<&git2::Commit> = parent_commit.iter().collect();
    repo.commit(Some(reference), &sig, &sig, message, &tree, &parents)
        .expect("commit")
}

fn sync_worktree(repo: &Repository) {
    let mut options = git2::build::CheckoutBuilder::new();
    options.force();
    repo.checkout_head(Some(&mut options)).expect("checkout head");
}

fn head_tree(repo: &Repository) -> Oid {
    repo.head()
        .expect("head")
        .peel_to_commit()
        .expect("commit")
        .tree_id()
}

fn head_branch(repo: &Repository) -> String {
    repo.head()
        .expect("head")
        .shorthand()
        .expect("shorthand")
        .to_string()
}

struct Fixture {
    dir: tempfile::TempDir,
    repo: Repository,
    main: String,
    clean: Oid,
    conflicting: Oid,
    later: Oid,
}

/// A repository whose main branch changed `f.txt`, and a branch `feature`
/// with three commits: one that adds `g.txt`, one that changes `f.txt` in
/// another way, and one that adds `h.txt`.
fn fixture() -> Fixture {
    let (dir, repo) = new_repo();
    let base = commit_files(&repo, "HEAD", None, &[("f.txt", "base\n")], "base");
    let main = head_branch(&repo);
    let clean = commit_files(
        &repo,
        "refs/heads/feature",
        Some(base),
        &[("g.txt", "one\n")],
        "add g",
    );
    let conflicting = commit_files(
        &repo,
        "refs/heads/feature",
        Some(clean),
        &[("f.txt", "feature\n")],
        "change f on feature",
    );
    let later = commit_files(
        &repo,
        "refs/heads/feature",
        Some(conflicting),
        &[("h.txt", "three\n")],
        "add h",
    );
    commit_files(&repo, "HEAD", Some(base), &[("f.txt", "main\n")], "change f on main");
    sync_worktree(&repo);
    Fixture { dir, repo, main, clean, conflicting, later }
}

#[test]
fn repo_clean_status_changes_with_untracked_file() {
    let temp = tempfile::tempdir().expect("tempdir");
    let dir = temp.path();

    // init repo
    let repo = git2::Repository::init(dir).expect("init repo");

    // verify GitOperations can open
    let ops = GitOperations::new(dir.to_str().expect("utf-8 path")).expect("git ops open");
    assert!(ops.is_clean().expect("clean status initial"));

    // create an untracked file: write it through a checkout, then drop it
    // from the index
    let blob = repo.blob(b"hello").expect("blob");
    let mut builder = repo.treebuilder(None).expect("treebuilder");
    builder.insert("foo.txt", blob, 0o100644).expect("insert");
    let tree = repo.find_tree(builder.write().expect("write tree")).expect("tree");
    let mut force = git2::build::CheckoutBuilder::new();
    force.force();
    repo.checkout_tree(tree.as_object(), Some(&mut force)).expect("write file");
    let mut index = repo.index().expect("index");
    index.remove_path(std::path::Path::new("foo.txt")).expect("untrack");
    index.write().expect("write index");
    assert!(dir.join("foo.txt").exists());

    // now repo should not be clean
    assert!(!ops.is_clean().expect("clean status after create"));

    // remove file to get back to clean
    let mut sweep = git2::build::CheckoutBuilder::new();
    sweep.force().remove_untracked(true);
    repo.checkout_index(None, Some(&mut sweep)).expect("remove file");
    assert!(!dir.join("foo.txt").exists());
    assert!(ops.is_clean().expect("clean status after remove"));

    // Ensure the .git directory exists so test doesn't get optimized away
    assert!(std::path::Path::new(&dir.join(".git")).exists());
}

#[test]
fn staged_entry_makes_the_repository_unclean() {
    let (dir, repo) = new_repo();
    let ops = GitOperations::new(&path_of(&dir)).expect("git ops open");
    assert!(ops.is_clean().expect("clean status initial"));

    let blob = repo.blob(b"hello").expect("blob");
    let mut index = repo.index().expect("index");
    let entry = git2::IndexEntry {
        ctime: git2::IndexTime::new(0, 0),
        mtime: git2::IndexTime::new(0, 0),
        dev: 0,
        ino: 0,
        mode: 0o100644,
        uid: 0,
        gid: 0,
        file_size: 5,
        id: blob,
        flags: 0,
        flags_extended: 0,
        path: b"foo.txt".to_vec(),
    };
    index.add(&entry).expect("add entry");
    index.write().expect("write index");
    assert!(!ops.is_clean().expect("clean status after staging"));

    index.remove_path(std::path::Path::new("foo.txt")).expect("remove");
    index.write().expect("write index");
    assert!(ops.is_clean().expect("clean status after removal"));
}

#[test]
fn opening_a_missing_repository_fails() {
    let dir = tempfile::tempdir().expect("tempdir");
    let missing = dir.path().join("nothing-here");
    match GitOperations::new(missing.to_str().expect("path")) {
        Ok(_) => panic!("opened a repository that does not exist"),
        Err(error) => assert_eq!(error.kind, GitErrorKind::OpenRepository),
    }
}

#[test]
fn handle_starts_clean_and_names_the_branch() {
    let fx = fixture();
    let ops = GitOperations::new(&path_of(&fx.dir)).expect("open");
    assert_eq!(ops.state(), RepoState::Clean);
    assert_eq!(ops.current_branch().expect("branch"), fx.main);
    assert!(ops.is_clean().expect("status"));
}

#[test]
fn checkout_finds_a_local_branch() {
    let fx = fixture();
    let mut ops = GitOperations::new(&path_of(&fx.dir)).expect("open");
    assert_eq!(ops.checkout_branch("feature"), Ok(BranchResolution::FoundLocal));
    assert_eq!(ops.current_branch().expect("branch"), "feature");
    assert_eq!(ops.state(), RepoState::Clean);
    assert_eq!(head_tree(&fx.repo), fx.repo.find_commit(fx.later).unwrap().tree_id());
}

#[test]
fn checkout_creates_a_tracking_branch_from_the_remote() {
    let fx = fixture();
    let tip = fx.repo.find_commit(fx.clean).unwrap();
    fx.repo
        .reference("refs/remotes/origin/release", tip.id(), true, "test")
        .expect("remote ref");
    let mut ops = GitOperations::new(&path_of(&fx.dir)).expect("open");
    assert_eq!(ops.checkout_branch("release"), Ok(BranchResolution::CreatedTracking));
    assert_eq!(ops.current_branch().expect("branch"), "release");
    let config = fx.repo.config().unwrap().snapshot().unwrap();
    assert_eq!(config.get_str("branch.release.remote").unwrap(), "origin");
    assert_eq!(config.get_str("branch.release.merge").unwrap(), "refs/heads/release");
}

#[test]
fn checkout_of_an_unknown_branch_fails() {
    let fx = fixture();
    let mut ops = GitOperations::new(&path_of(&fx.dir)).expect("open");
    match ops.checkout_branch("no-such-branch") {
        Ok(_) => panic!("checked out a branch that does not exist"),
        Err(error) => assert_eq!(error.kind, GitErrorKind::BranchNotFound),
    }
    assert_eq!(ops.current_branch().expect("branch"), fx.main);
}

#[test]
fn clean_cherry_pick_creates_a_commit_with_the_same_message() {
    let fx = fixture();
    let mut ops = GitOperations::new(&path_of(&fx.dir)).expect("open");
    let before = fx.repo.head().unwrap().peel_to_commit().unwrap().id();
    let result = ops.cherry_pick(&fx.clean.to_string()).expect("cherry-pick");
    assert!(result.success);
    assert!(result.conflicts.is_empty());
    let new_id = result.commit_sha.expect("new commit id");
    assert_eq!(ops.state(), RepoState::Clean);

    // the identifier resolves to the tip of the current branch
    let created = fx
        .repo
        .find_commit(Oid::from_str(&new_id).expect("hex id"))
        .expect("commit exists");
    let head = fx.repo.head().unwrap().peel_to_commit().unwrap();
    assert_eq!(head.id(), created.id());
    assert_eq!(created.message().unwrap(), "add g");
    assert_eq!(created.parent_id(0).unwrap(), before);
    assert_eq!(created.author().name().expect("author name"), "Tester");
    assert!(created.tree().unwrap().get_name("g.txt").is_some());
    assert_eq!(fx.repo.state(), git2::RepositoryState::Clean);
    assert!(ops.is_clean().expect("status"));
}

#[test]
fn conflicting_cherry_pick_reports_paths_and_creates_no_commit() {
    let fx = fixture();
    let mut ops = GitOperations::new(&path_of(&fx.dir)).expect("open");
    let before = fx.repo.head().unwrap().peel_to_commit().unwrap().id();
    let result = ops.cherry_pick(&fx.conflicting.to_string()).expect("cherry-pick");
    assert!(!result.success);
    assert_eq!(result.conflicts, vec!["f.txt".to_string()]);
    assert_eq!(result.commit_sha, None);
    assert_eq!(ops.state(), RepoState::Conflicted);
    assert_eq!(fx.repo.head().unwrap().peel_to_commit().unwrap().id(), before);
}

#[test]
fn operations_are_refused_in_the_wrong_state() {
    let fx = fixture();
    let mut ops = GitOperations::new(&path_of(&fx.dir)).expect("open");

    // nothing to continue or abort while clean
    assert_eq!(
        ops.continue_cherry_pick(None).unwrap_err().kind,
        GitErrorKind::WrongState
    );
    assert_eq!(ops.abort_cherry_pick().unwrap_err().kind, GitErrorKind::WrongState);
    assert_eq!(ops.state(), RepoState::Clean);

    ops.cherry_pick(&fx.conflicting.to_string()).expect("cherry-pick");
    assert_eq!(ops.state(), RepoState::Conflicted);

    // no apply and no checkout while conflicted
    let refused = ops.cherry_pick(&fx.clean.to_string()).unwrap_err();
    assert_eq!(refused.kind, GitErrorKind::WrongState);
    assert_eq!(
        refused.detail,
        "cherry-pick is not valid while the repository is conflicted"
    );
    assert_eq!(
        ops.checkout_branch("feature").unwrap_err().kind,
        GitErrorKind::WrongState
    );
    assert_eq!(ops.state(), RepoState::Conflicted);
}

#[test]
fn abort_restores_clean_state_and_tree() {
    let fx = fixture();
    let mut ops = GitOperations::new(&path_of(&fx.dir)).expect("open");
    let head_before = fx.repo.head().unwrap().peel_to_commit().unwrap().id();
    let tree_before = head_tree(&fx.repo);

    ops.cherry_pick(&fx.conflicting.to_string()).expect("cherry-pick");
    assert_eq!(ops.state(), RepoState::Conflicted);
    assert!(!ops.is_clean().expect("status"));

    ops.abort_cherry_pick().expect("abort");
    assert_eq!(ops.state(), RepoState::Clean);
    assert_eq!(fx.repo.state(), git2::RepositoryState::Clean);
    assert_eq!(fx.repo.head().unwrap().peel_to_commit().unwrap().id(), head_before);
    assert!(ops.is_clean().expect("status"));

    // the index, and with it the working copy, holds the tree of before
    let fresh = Repository::open(fx.dir.path()).expect("reopen");
    let mut index = fresh.index().expect("index");
    assert!(!index.has_conflicts());
    assert_eq!(index.write_tree().expect("write tree"), tree_before);

    // and the machine takes the next commit
    let result = ops.cherry_pick(&fx.clean.to_string()).expect("cherry-pick");
    assert!(result.success);
}

#[test]
fn continue_is_refused_while_conflicts_remain() {
    let fx = fixture();
    let mut ops = GitOperations::new(&path_of(&fx.dir)).expect("open");
    ops.cherry_pick(&fx.conflicting.to_string()).expect("cherry-pick");
    let refused = ops.continue_cherry_pick(None).unwrap_err();
    assert_eq!(refused.kind, GitErrorKind::UnresolvedConflicts);
    assert_eq!(ops.state(), RepoState::Conflicted);
}

#[test]
fn continue_after_resolution_commits_and_returns_to_clean() {
    let fx = fixture();
    let mut ops = GitOperations::new(&path_of(&fx.dir)).expect("open");
    let before = fx.repo.head().unwrap().peel_to_commit().unwrap().id();
    ops.cherry_pick(&fx.conflicting.to_string()).expect("cherry-pick");

    // resolve by hand: take the working copy as it is and stage it
    let operator = Repository::open(fx.dir.path()).expect("reopen");
    let mut index = operator.index().expect("index");
    index
        .add_all(["*"].iter(), git2::IndexAddOption::DEFAULT, None)
        .expect("stage");
    index.write().expect("write index");
    assert!(!index.has_conflicts());

    let id = ops
        .continue_cherry_pick(Some("resolved by hand"))
        .expect("continue");
    assert_eq!(ops.state(), RepoState::Clean);
    let created = fx.repo.find_commit(Oid::from_str(&id).unwrap()).expect("commit");
    assert_eq!(created.message().unwrap(), "resolved by hand");
    assert_eq!(created.parent_id(0).unwrap(), before);
    assert_eq!(fx.repo.head().unwrap().peel_to_commit().unwrap().id(), created.id());
    assert_eq!(fx.repo.state(), git2::RepositoryState::Clean);
}

#[test]
fn continue_uses_the_default_message() {
    let fx = fixture();
    let mut ops = GitOperations::new(&path_of(&fx.dir)).expect("open");
    ops.cherry_pick(&fx.conflicting.to_string()).expect("cherry-pick");
    let operator = Repository::open(fx.dir.path()).expect("reopen");
    let mut index = operator.index().expect("index");
    index
        .add_all(["*"].iter(), git2::IndexAddOption::DEFAULT, None)
        .expect("stage");
    index.write().expect("write index");
    let id = ops.continue_cherry_pick(None).expect("continue");
    let created = fx.repo.find_commit(Oid::from_str(&id).unwrap()).expect("commit");
    assert_eq!(created.message().unwrap(), "Cherry-pick (resolved conflicts)");
}

#[test]
fn invalid_and_unknown_commit_ids_leave_the_machine_clean() {
    let fx = fixture();
    let mut ops = GitOperations::new(&path_of(&fx.dir)).expect("open");
    for text in ["", "not-hex", "g123", "0123456789012345678901234567890123456789a"] {
        let error = ops.cherry_pick(text).unwrap_err();
        assert_eq!(error.kind, GitErrorKind::InvalidCommitId, "for {:?}", text);
        assert_eq!(ops.state(), RepoState::Clean);
    }
    let unknown = ops
        .cherry_pick("0123456789abcdef0123456789abcdef01234567")
        .unwrap_err();
    assert_eq!(unknown.kind, GitErrorKind::CommitNotFound);
    assert_eq!(ops.state(), RepoState::Clean);
    let upper = ops.cherry_pick("ABCDEF").unwrap_err();
    assert_eq!(upper.kind, GitErrorKind::CommitNotFound);
}

#[test]
fn commits_between_lists_the_branch_newest_first() {
    let fx = fixture();
    let ops = GitOperations::new(&path_of(&fx.dir)).expect("open");
    let commits = ops
        .get_commits_between(&fx.main, "feature")
        .expect("commits between");
    let ids: Vec<Oid> = commits.iter().map(|c| c.id()).collect();
    assert_eq!(ids, vec![fx.later, fx.conflicting, fx.clean]);
    let missing = ops.get_commits_between("no-such-ref", "feature");
    match missing {
        Ok(_) => panic!("walked from a reference that does not exist"),
        Err(error) => assert_eq!(error.kind, GitErrorKind::Revision),
    };
}

#[test]
fn fetch_without_a_remote_fails() {
    let fx = fixture();
    let ops = GitOperations::new(&path_of(&fx.dir)).expect("open");
    assert_eq!(ops.fetch().unwrap_err().kind, GitErrorKind::Remote);
}

#[test]
fn names_are_built_from_the_branch() {
    assert_eq!(remote_branch_name("release"), "origin/release");
    assert_eq!(head_ref_name("release"), "refs/heads/release");
    assert_eq!(tracking_remote_key("release"), "branch.release.remote");
    assert_eq!(tracking_merge_key("release"), "branch.release.merge");
    assert_eq!(revision_range("main", "feature"), "main..feature");
    assert_eq!(completion_message(Some("done")), "done");
    assert_eq!(completion_message(None), "Cherry-pick (resolved conflicts)");
}

#[test]
fn state_machine_permits_what_the_states_allow() {
    let table = [
        (RepoState::Clean, GitOperation::Checkout, true),
        (RepoState::Clean, GitOperation::Apply, true),
        (RepoState::Clean, GitOperation::Continue, false),
        (RepoState::Clean, GitOperation::Abort, false),
        (RepoState::Conflicted, GitOperation::Checkout, false),
        (RepoState::Conflicted, GitOperation::Apply, false),
        (RepoState::Conflicted, GitOperation::Continue, true),
        (RepoState::Conflicted, GitOperation::Abort, true),
        (RepoState::ApplyInProgress, GitOperation::Checkout, false),
        (RepoState::ApplyInProgress, GitOperation::Apply, false),
        (RepoState::ApplyInProgress, GitOperation::Continue, false),
        (RepoState::ApplyInProgress, GitOperation::Abort, true),
    ];
    for (state, operation, allowed) in table {
        assert_eq!(is_permitted(state, operation), allowed, "{:?} {:?}", state, operation);
    }
    let error = wrong_state(GitOperation::Abort, RepoState::Clean);
    assert_eq!(error.kind, GitErrorKind::WrongState);
    assert_eq!(error.detail, "abort is not valid while the repository is clean");
}

#[test]
fn replay_outcomes_are_concluded() {
    let (state, result) = conclude_apply(ReplayOutcome::Applied("abc123".to_string()));
    assert_eq!(state, RepoState::Clean);
    let result = result.expect("applied");
    assert!(result.success);
    assert!(result.conflicts.is_empty());
    assert_eq!(result.commit_sha, Some("abc123".to_string()));

    let (state, result) = conclude_apply(ReplayOutcome::Conflicts(vec!["a".into(), "b".into()]));
    assert_eq!(state, RepoState::Conflicted);
    let result = result.expect("conflict is no error");
    assert!(!result.success);
    assert_eq!(result.conflicts, vec!["a".to_string(), "b".to_string()]);
    assert_eq!(result.commit_sha, None);

    let early = GitError { kind: GitErrorKind::CommitNotFound, detail: "gone".into() };
    let (state, result) = conclude_apply(ReplayOutcome::NotStarted(early.clone()));
    assert_eq!(state, RepoState::Clean);
    assert_eq!(result, Err(early));

    let late = GitError { kind: GitErrorKind::Commit, detail: "disk".into() };
    let (state, result) = conclude_apply(ReplayOutcome::Broken(late.clone()));
    assert_eq!(state, RepoState::ApplyInProgress);
    assert_eq!(result, Err(late));
}

#[test]
fn replay_is_classified_by_condition_and_conflicts() {
    assert_eq!(classify_replay(ReplayCondition::Quiet, false), ReplayVerdict::Commit);
    assert_eq!(classify_replay(ReplayCondition::CherryPick, false), ReplayVerdict::Commit);
    assert_eq!(classify_replay(ReplayCondition::Quiet, true), ReplayVerdict::ReportConflicts);
    assert_eq!(
        classify_replay(ReplayCondition::CherryPick, true),
        ReplayVerdict::ReportConflicts
    );
    assert_eq!(classify_replay(ReplayCondition::Other, false), ReplayVerdict::GiveUp);
    assert_eq!(classify_replay(ReplayCondition::Other, true), ReplayVerdict::GiveUp);
}

#[test]
fn error_messages_name_the_step_and_the_detail() {
    let plain = GitError { kind: GitErrorKind::Status, detail: String::new() };
    assert_eq!(plain.message(), "Failed to check repository status");
    let detailed = GitError { kind: GitErrorKind::Fetch, detail: "timed out".to_string() };
    assert_eq!(detailed.message(), "Failed to fetch from remote: timed out");
    assert_eq!(
        wrong_state(GitOperation::Apply, RepoState::ApplyInProgress).message(),
        "Operation not valid in this state: cherry-pick is not valid while the repository is cherry-pick in progress"
    );
}

fn sides(ancestor: Option<&[u8]>, ours: Option<&[u8]>, theirs: Option<&[u8]>) -> ConflictSides {
    ConflictSides {
        ancestor: ancestor.map(|bytes| bytes.to_vec()),
        ours: ours.map(|bytes| bytes.to_vec()),
        theirs: theirs.map(|bytes| bytes.to_vec()),
    }
}

#[test]
fn every_conflict_is_reported_under_one_path() {
    let conflicts = vec![
        sides(Some(b"src/a.rs"), Some(b"src/a.rs"), Some(b"src/a.rs")),
        sides(Some(b"gone.txt"), None, Some(b"theirs.txt")),
        sides(Some(b"base.txt"), None, None),
        sides(None, Some("d\u{e9}j\u{e0}.txt".as_bytes()), Some(b"other")),
        sides(None, Some(&[b'x', 0xff, b'y']), None),
        sides(None, None, None),
    ];
    assert_eq!(
        decode_conflicts(&conflicts),
        vec![
            "src/a.rs".to_string(),
            "theirs.txt".to_string(),
            "base.txt".to_string(),
            "d\u{e9}j\u{e0}.txt".to_string(),
            "x\u{fffd}y".to_string(),
        ]
    );
    assert_eq!(decode_conflicts(&Vec::new()), Vec::<String>::new());
    assert_eq!(
        path_of_conflict(&sides(Some(b"a"), Some(b"o"), Some(b"t"))),
        Some(&b"o".to_vec())
    );
    assert_eq!(path_of_conflict(&sides(Some(b"a"), None, Some(b"t"))), Some(&b"t".to_vec()));
    assert_eq!(path_of_conflict(&sides(Some(b"a"), None, None)), Some(&b"a".to_vec()));
    assert_eq!(path_of_conflict(&sides(None, None, None)), None);
}

#[test]
fn conflicts_without_a_path_are_a_failure() {
    match conflicts_outcome(vec!["a".to_string(), "b".to_string()]) {
        ReplayOutcome::Conflicts(paths) => {
            assert_eq!(paths, vec!["a".to_string(), "b".to_string()])
        }
        _ => panic!("paths were not reported"),
    }
    match conflicts_outcome(Vec::new()) {
        ReplayOutcome::Broken(error) => assert_eq!(error.kind, GitErrorKind::Conflicts),
        _ => panic!("an empty list was reported as a conflict"),
    }
}

#[test]
fn continuation_is_refused_exactly_while_conflicts_remain() {
    assert_eq!(check_resolved(false), Ok(()));
    let refused = check_resolved(true).unwrap_err();
    assert_eq!(refused.kind, GitErrorKind::UnresolvedConflicts);
    assert_eq!(
        refused.detail,
        "There are still unresolved conflicts. Please resolve them first."
    );
}

#[test]
fn branch_lookup_takes_the_local_branch_then_the_tracking_branch() {
    assert!(matches!(after_local_lookup(Ok::<u8, git2::Error>(7)), LocalStep::Found(7)));
    assert!(matches!(
        after_local_lookup(Err::<u8, git2::Error>(git2::Error::from_str("no branch"))),
        LocalStep::TryRemote
    ));
    assert!(matches!(
        after_tracking(Ok::<u8, git2::Error>(9)),
        BranchLookup::CreatedTracking(9)
    ));
    match after_tracking(Err::<u8, git2::Error>(git2::Error::from_str("no remote branch"))) {
        BranchLookup::NotFound(error) => {
            assert_eq!(error.kind, GitErrorKind::BranchNotFound);
            assert_eq!(error.detail, "no remote branch");
        }
        _ => panic!("a failure was taken for a branch"),
    }
    assert_eq!(
        lookup_result(BranchLookup::FoundLocal(1u8)),
        Ok((1u8, BranchResolution::FoundLocal))
    );
    assert_eq!(
        lookup_result(BranchLookup::CreatedTracking(2u8)),
        Ok((2u8, BranchResolution::CreatedTracking))
    );
    let missing = GitError { kind: GitErrorKind::BranchNotFound, detail: "x".to_string() };
    assert_eq!(lookup_result::<u8>(BranchLookup::NotFound(missing.clone())), Err(missing));
}

#[test]
fn conflict_on_a_path_deleted_on_our_side_is_reported() {
    let (dir, repo) = new_repo();
    let base = commit_files(
        &repo,
        "HEAD",
        None,
        &[("f.txt", "base\n"), ("keep.txt", "keep\n")],
        "base",
    );
    let changed = commit_files(
        &repo,
        "refs/heads/feature",
        Some(base),
        &[("f.txt", "feature\n")],
        "change f",
    );
    // our side deletes the file that the commit changes
    let base_commit = repo.find_commit(base).expect("base");
    let mut builder = repo.treebuilder(Some(&base_commit.tree().unwrap())).expect("builder");
    builder.remove("f.txt").expect("remove");
    let tree = repo.find_tree(builder.write().expect("write")).expect("tree");
    let sig = signature();
    repo.commit(Some("HEAD"), &sig, &sig, "delete f", &tree, &[&base_commit])
        .expect("commit");
    sync_worktree(&repo);

    let mut ops = GitOperations::new(&path_of(&dir)).expect("open");
    let result = ops.cherry_pick(&changed.to_string()).expect("cherry-pick");
    assert!(!result.success);
    assert_eq!(result.conflicts, vec!["f.txt".to_string()]);
    assert_eq!(result.commit_sha, None);
    assert_eq!(ops.state(), RepoState::Conflicted);
    ops.abort_cherry_pick().expect("abort");
    assert_eq!(ops.state(), RepoState::Clean);
}

#[test]
fn applied_commit_keeps_a_message_that_is_not_valid_text() {
    let (dir, repo) = new_repo();
    let base = commit_files(&repo, "HEAD", None, &[("f.txt", "base\n")], "base");
    sync_worktree(&repo);
    let base_commit = repo.find_commit(base).expect("base");
    let blob = repo.blob(b"one\n").expect("blob");
    let mut builder = repo.treebuilder(Some(&base_commit.tree().unwrap())).expect("builder");
    builder.insert("g.txt", blob, 0o100644).expect("insert");
    let tree = builder.write().expect("write");
    // a commit whose message holds a byte that is no valid UTF-8
    let mut raw = Vec::new();
    raw.extend_from_slice(format!("tree {}\nparent {}\n", tree, base).as_bytes());
    raw.extend_from_slice(b"author Tester <tester@example.com> 0 +0000\n");
    raw.extend_from_slice(b"committer Tester <tester@example.com> 0 +0000\n\n");
    raw.extend_from_slice(&[b'f', b'i', b'x', b' ', 0xff, b'\n']);
    let odb = repo.odb().expect("odb");
    let odd = odb.write(git2::ObjectType::Commit, &raw).expect("write commit");

    let mut ops = GitOperations::new(&path_of(&dir)).expect("open");
    let result = ops.cherry_pick(&odd.to_string()).expect("cherry-pick");
    assert!(result.success);
    let created = repo
        .find_commit(Oid::from_str(&result.commit_sha.expect("id")).unwrap())
        .expect("commit");
    assert_eq!(created.message().unwrap(), "fix \u{fffd}\n");
}

#[test]
fn new_commit_ids_are_forty_hex_digits() {
    let fx = fixture();
    let mut ops = GitOperations::new(&path_of(&fx.dir)).expect("open");
    let id = ops
        .cherry_pick(&fx.clean.to_string())
        .expect("cherry-pick")
        .commit_sha
        .expect("new commit id");
    assert_eq!(id.len(), 40);
    assert!(id.chars().all(|c| c.is_ascii_hexdigit()));
    // the identifier is accepted where one is asked for
    let again = ops.cherry_pick(&id);
    assert!(!matches!(&again, Err(error) if error.kind == GitErrorKind::InvalidCommitId));
}
