use gh_cherry::config::Config;
use gh_cherry::git::{GitErrorKind, GitOperations, RepoState};
use gh_cherry::github::{CommitInfo, PrInfo, Timestamp};
use gh_cherry::orchestrator::{cherry_pick_pr, ApplyAction, ApplyFailure, ApplyPhase};
use git2::{Oid, Repository, Signature};

fn commit_on(
    repo: &Repository,
    reference: &str,
    parent: Option<Oid>,
    files: &[(&str, &str)],
    message: &str,
) -> Oid {
    let parent_commit = parent.map(|id| repo.find_commit(id).expect("parent"));
    let parent_tree = parent_commit.as_ref().map(|c| c.tree().expect("tree"));
    let mut builder = repo.treebuilder(parent_tree.as_ref()).expect("treebuilder");
    for (name, content) in files {
        let blob = repo.blob(content.as_bytes()).expect("blob");
        builder.insert(name, blob, 0o100644).expect("insert");
    }
    let tree = repo.find_tree(builder.write().expect("write tree")).expect("find tree");
    let sig = Signature::now("Tester", "tester@example.com").expect("signature");
    let parents: Vec<&git2::Commit> = parent_commit.iter().collect();
    repo.commit(Some(reference), &sig, &sig, message, &tree, &parents)
        .expect("commit")
}

struct World {
    dir: tempfile::TempDir,
    repo: Repository,
    c1: Oid,
    c2: Oid,
    c3: Oid,
}

/// A repository with a branch `release` whose `f.txt` differs from the one
/// that the second of three feature commits changes.
fn world() -> World {
    let dir = tempfile::tempdir().expect("tempdir");
    let repo = Repository::init(dir.path()).expect("init");
    {
        let mut config = repo.config().expect("config");
        config.set_str("user.name", "Tester").expect("name");
        config.set_str("user.email", "tester@example.com").expect("email");
    }
    let base = commit_on(&repo, "HEAD", None, &[("f.txt", "base\n")], "base");
    let c1 = commit_on(&repo, "refs/heads/feature", Some(base), &[("g.txt", "one\n")], "first");
    let c2 = commit_on(&repo, "refs/heads/feature", Some(c1), &[("f.txt", "feature\n")], "second");
    let c3 = commit_on(&repo, "refs/heads/feature", Some(c2), &[("h.txt", "three\n")], "third");
    commit_on(&repo, "refs/heads/release", Some(base), &[("f.txt", "release\n")], "release work");
    let mut options = git2::build::CheckoutBuilder::new();
    options.force();
    repo.checkout_head(Some(&mut options)).expect("checkout");
    World { dir, repo, c1, c2, c3 }
}

fn change_request(number: u64, commits: &[Oid]) -> PrInfo {
    let zero = Timestamp { secs: 0, nanos: 0 };
    PrInfo {
        number,
        title: "Feature".to_string(),
        author: "alice".to_string(),
        created_at: zero,
        updated_at: zero,
        labels: Vec::new(),
        commits: commits
            .iter()
            .map(|id| CommitInfo {
                sha: id.to_string(),
                message: "m".to_string(),
                author: "alice".to_string(),
                date: zero,
            })
            .collect(),
        head_sha: String::new(),
        base_ref: "main".to_string(),
        head_ref: "feature".to_string(),
    }
}

fn branch_tip<'a>(repo: &'a Repository, branch: &str) -> git2::Commit<'a> {
    repo.find_branch(branch, git2::BranchType::Local)
        .expect("branch")
        .get()
        .peel_to_commit()
        .expect("tip")
}

#[test]
fn second_of_three_commits_conflicts_and_the_third_is_never_attempted() {
    let w = world();
    let release_before = branch_tip(&w.repo, "release").id();
    let mut git = GitOperations::new(w.dir.path().to_str().unwrap()).expect("open");
    let pr = change_request(9, &[w.c1, w.c2, w.c3]);
    let tags = Config::default().tags;

    let (run, action) = cherry_pick_pr(&mut git, &pr, "release", &tags);

    assert_eq!(action, ApplyAction::Finish);
    assert_eq!(run.phase(), ApplyPhase::Done);
    assert!(!run.succeeded());
    assert_eq!(git.state(), RepoState::Conflicted);
    assert_eq!(git.current_branch().expect("branch"), "release");

    // the first commit is reported as applied and is the tip of the branch
    assert_eq!(run.applied_commit_ids().len(), 1);
    let tip = branch_tip(&w.repo, "release");
    assert_eq!(run.applied_commit_ids()[0], tip.id().to_string());
    assert_eq!(tip.message().unwrap(), "first");
    assert_eq!(tip.parent_id(0).unwrap(), release_before);

    // the second is reported with its conflicting path
    assert_eq!(
        run.failure(),
        &Some(ApplyFailure::Conflict {
            commit_sha: w.c2.to_string(),
            paths: vec!["f.txt".to_string()],
        })
    );
    // nothing of the third has reached the branch
    assert!(tip.tree().unwrap().get_name("g.txt").is_some());
    assert!(tip.tree().unwrap().get_name("h.txt").is_none());
    assert!(!run.labels_updated());
    assert!(!run.comment_posted());
}

#[test]
fn all_commits_apply_and_the_run_turns_to_the_labels() {
    let w = world();
    let mut git = GitOperations::new(w.dir.path().to_str().unwrap()).expect("open");
    let pr = change_request(4, &[w.c1, w.c3]);
    let tags = Config::default().tags;

    let (run, action) = cherry_pick_pr(&mut git, &pr, "release", &tags);

    assert_eq!(action, ApplyAction::FetchLabels(4));
    assert_eq!(run.phase(), ApplyPhase::FetchingLabels);
    assert_eq!(run.failure(), &None);
    assert_eq!(git.state(), RepoState::Clean);
    let tip = branch_tip(&w.repo, "release");
    assert_eq!(run.applied_commit_ids().len(), 2);
    assert_eq!(run.applied_commit_ids()[1], tip.id().to_string());
    assert_eq!(tip.message().unwrap(), "third");
    assert_eq!(tip.parent(0).unwrap().message().unwrap(), "first");
    assert_eq!(run.applied_commit_ids()[0], tip.parent_id(0).unwrap().to_string());
    let tree = tip.tree().unwrap();
    assert!(tree.get_name("g.txt").is_some());
    assert!(tree.get_name("h.txt").is_some());
    assert!(git.is_clean().expect("status"));
}

#[test]
fn missing_target_branch_ends_the_run_at_the_checkout() {
    let w = world();
    let mut git = GitOperations::new(w.dir.path().to_str().unwrap()).expect("open");
    let pr = change_request(4, &[w.c1]);
    let (run, action) = cherry_pick_pr(&mut git, &pr, "no-such-branch", &Config::default().tags);
    assert_eq!(action, ApplyAction::Finish);
    assert!(run.applied_commit_ids().is_empty());
    match run.failure() {
        Some(ApplyFailure::Checkout(error)) => {
            assert_eq!(error.kind, GitErrorKind::BranchNotFound)
        }
        other => panic!("unexpected failure {:?}", other),
    }
    assert_eq!(git.state(), RepoState::Clean);
}

#[test]
fn a_run_is_refused_while_an_application_is_unresolved() {
    let w = world();
    let mut git = GitOperations::new(w.dir.path().to_str().unwrap()).expect("open");
    let tags = Config::default().tags;
    cherry_pick_pr(&mut git, &change_request(1, &[w.c2]), "release", &tags);
    assert_eq!(git.state(), RepoState::Conflicted);
    let (run, action) = cherry_pick_pr(&mut git, &change_request(2, &[w.c1]), "release", &tags);
    assert_eq!(action, ApplyAction::Finish);
    match run.failure() {
        Some(ApplyFailure::Checkout(error)) => assert_eq!(error.kind, GitErrorKind::WrongState),
        other => panic!("unexpected failure {:?}", other),
    }
    assert_eq!(git.state(), RepoState::Conflicted);
    git.abort_cherry_pick().expect("abort");
    let (run, action) = cherry_pick_pr(&mut git, &change_request(2, &[w.c1]), "release", &tags);
    assert_eq!(action, ApplyAction::FetchLabels(2));
    assert_eq!(run.applied_commit_ids().len(), 1);
}
