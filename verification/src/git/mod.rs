//! The repository state machine: checkout of a branch, application of one
//! commit onto the current branch, and continuation or abort of an
//! application that met conflicts.
//!
//! The working copy is changed through `git2`; what the engine itself keeps is
//! the state of the machine ([`RepoState`]) and the decisions between the
//! repository calls. A handle starts in `Clean`: the working copy is expected
//! to be quiescent when the handle is made, which is not checked here.

pub mod backend;

use crate::git::backend::{
    branch_commit, checkout_tree, cherrypick, cleanup_state, commit_message_bytes,
    config_get_string, config_set_str, create_branch, create_commit, discover_repository,
    error_message, find_branch, find_commit, find_remote, find_tree, index_add_all,
    index_conflicts, index_has_conflicts, index_read, index_write, index_write_tree,
    is_full_object_id, is_object_id, lossy_text, new_revwalk, object_id_text, open_repository,
    parse_object_id, reference_commit, reference_shorthand, remote_fetch, repository_head,
    repository_index, repository_state, repository_statuses, reset, revwalk_next,
    revwalk_push_range, set_head, signature_now, statuses_is_empty, utf8_lossy,
};
use vstd::prelude::*;
use vstd::string::StringExecFns;

verus! {

/// The states of the machine.
#[derive(Debug, Clone, Copy, PartialEq, Eq)]
pub enum RepoState {
    /// No application is under way.
    Clean,
    /// An application was started and broke off before it resolved.
    ApplyInProgress,
    /// An application met conflicts that wait for manual resolution.
    Conflicted,
}

/// The operations of the machine.
#[derive(Debug, Clone, Copy, PartialEq, Eq)]
pub enum GitOperation {
    Checkout,
    Apply,
    Continue,
    Abort,
}

/// What went wrong, by the step at which it did.
#[derive(Debug, Clone, Copy, PartialEq, Eq)]
pub enum GitErrorKind {
    /// The operation is not valid in the state the machine is in.
    WrongState,
    /// Conflicts are still unresolved.
    UnresolvedConflicts,
    /// Neither a local branch nor a remote branch of that name exists.
    BranchNotFound,
    /// The text is no commit identifier.
    InvalidCommitId,
    /// No commit has that identifier.
    CommitNotFound,
    /// The repository was in a condition that no application leaves behind.
    UnexpectedState,
    OpenRepository,
    Status,
    Head,
    BranchName,
    BranchCommit,
    CheckoutTree,
    UpdateHead,
    CherryPick,
    Conflicts,
    CleanupState,
    Reset,
    UserName,
    UserEmail,
    Signature,
    Index,
    Tree,
    Commit,
    Remote,
    Fetch,
    Revision,
    Walk,
}

/// An error of the machine: its kind, and the repository's own words where it
/// has any.
#[derive(Debug, PartialEq, Eq)]
pub struct GitError {
    pub kind: GitErrorKind,
    pub detail: String,
}

/// Mathematical value of a [`GitError`].
pub struct GitErrorView {
    pub kind: GitErrorKind,
    pub detail: Seq<char>,
}

impl DeepView for GitError {
    type V = GitErrorView;

    open spec fn deep_view(&self) -> GitErrorView {
        GitErrorView { kind: self.kind, detail: self.detail@ }
    }
}

impl Clone for GitError {
    fn clone(&self) -> (copy: Self)
        ensures
            copy.deep_view() == self.deep_view(),
    {
        GitError { kind: self.kind, detail: self.detail.clone() }
    }
}

/// What the front end says of a kind of error.
pub open spec fn kind_text(kind: GitErrorKind) -> Seq<char> {
    match kind {
        GitErrorKind::WrongState => "Operation not valid in this state"@,
        GitErrorKind::UnresolvedConflicts => "Unresolved conflicts"@,
        GitErrorKind::BranchNotFound => "Branch not found"@,
        GitErrorKind::InvalidCommitId => "Invalid commit SHA"@,
        GitErrorKind::CommitNotFound => "Commit not found"@,
        GitErrorKind::UnexpectedState => "Unexpected repository state after cherry-pick"@,
        GitErrorKind::OpenRepository => "Failed to open Git repository. Are you in a Git repository?"@,
        GitErrorKind::Status => "Failed to check repository status"@,
        GitErrorKind::Head => "Failed to get HEAD reference"@,
        GitErrorKind::BranchName => "Failed to get branch name"@,
        GitErrorKind::BranchCommit => "Failed to get commit for branch"@,
        GitErrorKind::CheckoutTree => "Failed to checkout tree"@,
        GitErrorKind::UpdateHead => "Failed to update HEAD"@,
        GitErrorKind::CherryPick => "Failed to cherry-pick commit"@,
        GitErrorKind::Conflicts => "Failed to get conflicts iterator"@,
        GitErrorKind::CleanupState => "Failed to cleanup cherry-pick state"@,
        GitErrorKind::Reset => "Failed to reset to HEAD"@,
        GitErrorKind::UserName => "Git user.name not configured"@,
        GitErrorKind::UserEmail => "Git user.email not configured"@,
        GitErrorKind::Signature => "Failed to create git signature"@,
        GitErrorKind::Index => "Failed to access the index"@,
        GitErrorKind::Tree => "Failed to write the tree"@,
        GitErrorKind::Commit => "Failed to create the commit"@,
        GitErrorKind::Remote => "Failed to find 'origin' remote"@,
        GitErrorKind::Fetch => "Failed to fetch from remote"@,
        GitErrorKind::Revision => "Failed to resolve the revision range"@,
        GitErrorKind::Walk => "Failed to walk the history"@,
    }
}

/// The message of an error: what its kind says, then the detail where there
/// is one.
pub open spec fn error_text(error: GitErrorView) -> Seq<char> {
    if error.detail.len() == 0 {
        kind_text(error.kind)
    } else {
        kind_text(error.kind) + ": "@ + error.detail
    }
}

/// What the front end says of a kind of error.
pub fn describe(kind: GitErrorKind) -> (text: &'static str)
    ensures
        text@ == kind_text(kind),
{
    match kind {
        GitErrorKind::WrongState => "Operation not valid in this state",
        GitErrorKind::UnresolvedConflicts => "Unresolved conflicts",
        GitErrorKind::BranchNotFound => "Branch not found",
        GitErrorKind::InvalidCommitId => "Invalid commit SHA",
        GitErrorKind::CommitNotFound => "Commit not found",
        GitErrorKind::UnexpectedState => "Unexpected repository state after cherry-pick",
        GitErrorKind::OpenRepository => "Failed to open Git repository. Are you in a Git repository?",
        GitErrorKind::Status => "Failed to check repository status",
        GitErrorKind::Head => "Failed to get HEAD reference",
        GitErrorKind::BranchName => "Failed to get branch name",
        GitErrorKind::BranchCommit => "Failed to get commit for branch",
        GitErrorKind::CheckoutTree => "Failed to checkout tree",
        GitErrorKind::UpdateHead => "Failed to update HEAD",
        GitErrorKind::CherryPick => "Failed to cherry-pick commit",
        GitErrorKind::Conflicts => "Failed to get conflicts iterator",
        GitErrorKind::CleanupState => "Failed to cleanup cherry-pick state",
        GitErrorKind::Reset => "Failed to reset to HEAD",
        GitErrorKind::UserName => "Git user.name not configured",
        GitErrorKind::UserEmail => "Git user.email not configured",
        GitErrorKind::Signature => "Failed to create git signature",
        GitErrorKind::Index => "Failed to access the index",
        GitErrorKind::Tree => "Failed to write the tree",
        GitErrorKind::Commit => "Failed to create the commit",
        GitErrorKind::Remote => "Failed to find 'origin' remote",
        GitErrorKind::Fetch => "Failed to fetch from remote",
        GitErrorKind::Revision => "Failed to resolve the revision range",
        GitErrorKind::Walk => "Failed to walk the history",
    }
}

impl GitError {
    /// The message of this error.
    pub fn message(&self) -> (text: String)
        ensures
            text@ == error_text(self.deep_view()),
    {
        let mut text = String::from_str(describe(self.kind));
        if !self.detail.as_str().is_empty() {
            text.append(": ");
            text.append(self.detail.as_str());
        }
        text
    }
}

/// Outcome of applying one commit.
#[derive(Debug, PartialEq, Eq)]
pub struct CherrypickResult {
    /// Whether the commit was applied without conflicts.
    pub success: bool,
    /// The paths in conflict; empty on success.
    pub conflicts: Vec<String>,
    /// Identifier of the commit that was created; absent on conflict.
    pub commit_sha: Option<String>,
}

/// Mathematical value of a [`CherrypickResult`].
pub struct CherrypickResultView {
    pub success: bool,
    pub conflicts: Seq<Seq<char>>,
    pub commit_sha: Option<Seq<char>>,
}

impl DeepView for CherrypickResult {
    type V = CherrypickResultView;

    open spec fn deep_view(&self) -> CherrypickResultView {
        CherrypickResultView {
            success: self.success,
            conflicts: self.conflicts.deep_view(),
            commit_sha: self.commit_sha.deep_view(),
        }
    }
}

impl CherrypickResultView {
    /// A result is either a success with a new commit and no conflicts, or a
    /// conflict that names at least one path and has no new commit.
    pub open spec fn wf(self) -> bool {
        if self.success {
            self.conflicts.len() == 0 && self.commit_sha is Some
        } else {
            self.conflicts.len() > 0 && self.commit_sha is None
        }
    }
}

/// How a checkout found its branch.
#[derive(Debug, Clone, Copy, PartialEq, Eq)]
pub enum BranchResolution {
    /// A local branch of that name existed.
    FoundLocal,
    /// A local branch was created to track the remote branch of that name.
    CreatedTracking,
}

/// Whether `operation` is valid in `state`: checkout and apply need `Clean`,
/// continuation needs `Conflicted`, and abort needs an application under way.
pub open spec fn permits(state: RepoState, operation: GitOperation) -> bool {
    match operation {
        GitOperation::Checkout => state == RepoState::Clean,
        GitOperation::Apply => state == RepoState::Clean,
        GitOperation::Continue => state == RepoState::Conflicted,
        GitOperation::Abort => state == RepoState::Conflicted || state
            == RepoState::ApplyInProgress,
    }
}

/// Tests whether `operation` is valid in `state`.
pub fn is_permitted(state: RepoState, operation: GitOperation) -> (allowed: bool)
    ensures
        allowed == permits(state, operation),
{
    match operation {
        GitOperation::Checkout => matches!(state, RepoState::Clean),
        GitOperation::Apply => matches!(state, RepoState::Clean),
        GitOperation::Continue => matches!(state, RepoState::Conflicted),
        GitOperation::Abort => matches!(state, RepoState::Conflicted | RepoState::ApplyInProgress),
    }
}

/// How far an application got.
pub enum ReplayOutcome {
    /// The commit was replayed without conflicts and committed under this
    /// identifier.
    Applied(String),
    /// The replay left these paths in conflict.
    Conflicts(Vec<String>),
    /// The application failed before the replay began.
    NotStarted(GitError),
    /// The application failed after the replay began.
    Broken(GitError),
}

/// The state in which an application leaves the machine.
pub open spec fn state_after_apply(outcome: ReplayOutcome) -> RepoState {
    match outcome {
        ReplayOutcome::Applied(_) => RepoState::Clean,
        ReplayOutcome::Conflicts(_) => RepoState::Conflicted,
        ReplayOutcome::NotStarted(_) => RepoState::Clean,
        ReplayOutcome::Broken(_) => RepoState::ApplyInProgress,
    }
}

/// The state in which a continuation leaves the machine: `Clean` where the
/// completion commit was made, `Conflicted` as before where it was not.
pub open spec fn state_after_continue(completed: bool) -> RepoState {
    if completed {
        RepoState::Clean
    } else {
        RepoState::Conflicted
    }
}

/// The state in which an abort leaves the machine: `Clean` where the working
/// copy was reset, the state as before where it was not.
pub open spec fn state_after_abort(state: RepoState, reset: bool) -> RepoState {
    if reset {
        RepoState::Clean
    } else {
        state
    }
}

/// Turns the outcome of an application into the state of the machine and the
/// result handed to the caller.
pub fn conclude_apply(outcome: ReplayOutcome) -> (concluded: (
    RepoState,
    Result<CherrypickResult, GitError>,
))
    ensures
        concluded.0 == state_after_apply(outcome),
        match outcome {
            ReplayOutcome::Applied(id) => concluded.1 matches Ok(result) && result.deep_view()
                == (CherrypickResultView {
                success: true,
                conflicts: Seq::empty(),
                commit_sha: Some(id@),
            }),
            ReplayOutcome::Conflicts(paths) => concluded.1 matches Ok(result)
                && result.deep_view() == (CherrypickResultView {
                success: false,
                conflicts: paths.deep_view(),
                commit_sha: None,
            }),
            ReplayOutcome::NotStarted(error) => concluded.1 == Err::<CherrypickResult, GitError>(
                error,
            ),
            ReplayOutcome::Broken(error) => concluded.1 == Err::<CherrypickResult, GitError>(
                error,
            ),
        },
{
    match outcome {
        ReplayOutcome::Applied(id) => {
            let result = CherrypickResult {
                success: true,
                conflicts: Vec::new(),
                commit_sha: Some(id),
            };
            assert(result.conflicts.deep_view() =~= Seq::<Seq<char>>::empty());
            (RepoState::Clean, Ok(result))
        },
        ReplayOutcome::Conflicts(paths) => {
            let result = CherrypickResult { success: false, conflicts: paths, commit_sha: None };
            (RepoState::Conflicted, Ok(result))
        },
        ReplayOutcome::NotStarted(error) => (RepoState::Clean, Err(error)),
        ReplayOutcome::Broken(error) => (RepoState::ApplyInProgress, Err(error)),
    }
}

/// The condition in which a replay left the repository, as far as the
/// decision needs it.
#[derive(Debug, Clone, Copy, PartialEq, Eq)]
pub enum ReplayCondition {
    /// No operation is recorded as under way.
    Quiet,
    /// A cherry-pick is recorded as under way.
    CherryPick,
    /// Some other operation is recorded as under way.
    Other,
}

/// What to do after a replay.
#[derive(Debug, Clone, Copy, PartialEq, Eq)]
pub enum ReplayVerdict {
    /// Commit the replayed changes.
    Commit,
    /// Report the conflicts.
    ReportConflicts,
    /// Give up: the repository is in a condition that no replay leaves behind.
    GiveUp,
}

/// The decision after a replay: a repository that records another operation
/// is given up on; otherwise conflicts in the index are reported, and a
/// replay without conflicts is committed.
pub open spec fn replay_verdict(condition: ReplayCondition, has_conflicts: bool) -> ReplayVerdict {
    if condition == ReplayCondition::Other {
        ReplayVerdict::GiveUp
    } else if has_conflicts {
        ReplayVerdict::ReportConflicts
    } else {
        ReplayVerdict::Commit
    }
}

/// Decides what to do after a replay.
pub fn classify_replay(condition: ReplayCondition, has_conflicts: bool) -> (verdict: ReplayVerdict)
    ensures
        verdict == replay_verdict(condition, has_conflicts),
{
    match condition {
        ReplayCondition::Other => ReplayVerdict::GiveUp,
        _ => if has_conflicts {
            ReplayVerdict::ReportConflicts
        } else {
            ReplayVerdict::Commit
        },
    }
}

/// An identifier that an application returns is one that an application
/// accepts: what is written as forty hexadecimal digits is a commit
/// identifier.
pub proof fn lemma_returned_id_is_accepted(id: Seq<char>)
    requires
        is_full_object_id(id),
    ensures
        is_object_id(id),
{
}

/// Abort restores `Clean`: from `Conflicted`, and from an application that
/// broke off, a completed abort leaves the machine in `Clean`, where checkout
/// and apply are valid again.
pub proof fn lemma_abort_restores_clean(state: RepoState)
    requires
        state == RepoState::Conflicted || state == RepoState::ApplyInProgress,
    ensures
        permits(state, GitOperation::Abort),
        state_after_abort(state, true) == RepoState::Clean,
        permits(state_after_abort(state, true), GitOperation::Apply),
        permits(state_after_abort(state, true), GitOperation::Checkout),
{
}

/// An application is valid only in `Clean` and leaves the machine in `Clean`
/// exactly where it applied the commit or never began; after conflicts only
/// continuation and abort are valid.
pub proof fn lemma_apply_transitions(outcome: ReplayOutcome)
    ensures
        state_after_apply(outcome) == RepoState::Clean <==> (outcome is Applied
            || outcome is NotStarted),
        outcome is Conflicts ==> {
            &&& !permits(state_after_apply(outcome), GitOperation::Apply)
            &&& permits(state_after_apply(outcome), GitOperation::Continue)
            &&& permits(state_after_apply(outcome), GitOperation::Abort)
        },
        outcome is Broken ==> {
            &&& !permits(state_after_apply(outcome), GitOperation::Apply)
            &&& !permits(state_after_apply(outcome), GitOperation::Continue)
            &&& permits(state_after_apply(outcome), GitOperation::Abort)
        },
{
}

/// Name of the remote that tracking branches are made from.
pub open spec fn remote_name() -> Seq<char> {
    "origin"@
}

/// Name of the remote branch that a tracking branch `name` is made from.
pub open spec fn remote_branch_name_spec(name: Seq<char>) -> Seq<char> {
    "origin/"@ + name
}

/// Full name of the reference of the local branch `name`.
pub open spec fn head_ref_name_spec(name: Seq<char>) -> Seq<char> {
    "refs/heads/"@ + name
}

/// Configuration key that names the remote of branch `name`.
pub open spec fn tracking_remote_key_spec(name: Seq<char>) -> Seq<char> {
    "branch."@ + name + ".remote"@
}

/// Configuration key that names the upstream reference of branch `name`.
pub open spec fn tracking_merge_key_spec(name: Seq<char>) -> Seq<char> {
    "branch."@ + name + ".merge"@
}

/// The revision range that holds what `to` reaches and `from` does not.
pub open spec fn revision_range_spec(from: Seq<char>, to: Seq<char>) -> Seq<char> {
    from + ".."@ + to
}

/// The message of a completion commit: the one given, or a default.
pub open spec fn completion_message_spec(given: Option<Seq<char>>) -> Seq<char> {
    match given {
        Some(message) => message,
        None => "Cherry-pick (resolved conflicts)"@,
    }
}

/// Builds the name of the remote branch behind a tracking branch.
pub fn remote_branch_name(name: &str) -> (full: String)
    ensures
        full@ == remote_branch_name_spec(name@),
{
    String::from_str("origin/").concat(name)
}

/// Builds the full reference name of a local branch.
pub fn head_ref_name(name: &str) -> (full: String)
    ensures
        full@ == head_ref_name_spec(name@),
{
    String::from_str("refs/heads/").concat(name)
}

/// Builds the configuration key for the remote of a branch.
pub fn tracking_remote_key(name: &str) -> (key: String)
    ensures
        key@ == tracking_remote_key_spec(name@),
{
    String::from_str("branch.").concat(name).concat(".remote")
}

/// Builds the configuration key for the upstream reference of a branch.
pub fn tracking_merge_key(name: &str) -> (key: String)
    ensures
        key@ == tracking_merge_key_spec(name@),
{
    String::from_str("branch.").concat(name).concat(".merge")
}

/// Builds the revision range from `from` (left out) to `to` (included).
pub fn revision_range(from: &str, to: &str) -> (range: String)
    ensures
        range@ == revision_range_spec(from@, to@),
{
    String::from_str(from).concat("..").concat(to)
}

/// Chooses the message of a completion commit.
pub fn completion_message(given: Option<&str>) -> (message: String)
    ensures
        message@ == completion_message_spec(
            match given {
                Some(text) => Some(text@),
                None => None,
            },
        ),
{
    match given {
        Some(text) => String::from_str(text),
        None => String::from_str("Cherry-pick (resolved conflicts)"),
    }
}

/// What the front end calls an operation.
pub open spec fn operation_text(operation: GitOperation) -> Seq<char> {
    match operation {
        GitOperation::Checkout => "checkout"@,
        GitOperation::Apply => "cherry-pick"@,
        GitOperation::Continue => "continue"@,
        GitOperation::Abort => "abort"@,
    }
}

/// What the front end calls a state.
pub open spec fn state_text(state: RepoState) -> Seq<char> {
    match state {
        RepoState::Clean => "clean"@,
        RepoState::ApplyInProgress => "cherry-pick in progress"@,
        RepoState::Conflicted => "conflicted"@,
    }
}

/// The words that report an operation refused for the state.
pub open spec fn wrong_state_detail(operation: GitOperation, state: RepoState) -> Seq<char> {
    operation_text(operation) + " is not valid while the repository is "@ + state_text(state)
}

/// The error for an operation that is not valid in the state.
pub fn wrong_state(operation: GitOperation, state: RepoState) -> (error: GitError)
    ensures
        error.kind == GitErrorKind::WrongState,
        error.detail@ == wrong_state_detail(operation, state),
{
    let operation_name = match operation {
        GitOperation::Checkout => "checkout",
        GitOperation::Apply => "cherry-pick",
        GitOperation::Continue => "continue",
        GitOperation::Abort => "abort",
    };
    let state_name = match state {
        RepoState::Clean => "clean",
        RepoState::ApplyInProgress => "cherry-pick in progress",
        RepoState::Conflicted => "conflicted",
    };
    let detail = String::from_str(operation_name).concat(
        " is not valid while the repository is ",
    ).concat(state_name);
    GitError { kind: GitErrorKind::WrongState, detail }
}

/// The error for a repository call that failed at the step `kind`.
fn failure(kind: GitErrorKind, error: &git2::Error) -> (failed: GitError)
    ensures
        failed.kind == kind,
{
    GitError { kind, detail: error_message(error) }
}

/// The condition that a repository state stands for in the decision after a
/// replay.
pub open spec fn replay_condition_spec(state: git2::RepositoryState) -> ReplayCondition {
    match state {
        git2::RepositoryState::Clean => ReplayCondition::Quiet,
        git2::RepositoryState::CherryPick => ReplayCondition::CherryPick,
        git2::RepositoryState::CherryPickSequence => ReplayCondition::CherryPick,
        _ => ReplayCondition::Other,
    }
}

/// Reads a repository state for the decision after a replay.
pub fn replay_condition(state: git2::RepositoryState) -> (condition: ReplayCondition)
    ensures
        condition == replay_condition_spec(state),
{
    match state {
        git2::RepositoryState::Clean => ReplayCondition::Quiet,
        git2::RepositoryState::CherryPick => ReplayCondition::CherryPick,
        git2::RepositoryState::CherryPickSequence => ReplayCondition::CherryPick,
        _ => ReplayCondition::Other,
    }
}

/// Turns the answer of a repository call into a result of the machine: a
/// value is handed on as it is, a failure becomes an error of the kind of the
/// step that made the call.
fn lift<T>(answer: Result<T, git2::Error>, kind: GitErrorKind) -> (lifted: Result<T, GitError>)
    ensures
        match answer {
            Ok(value) => lifted == Ok::<T, GitError>(value),
            Err(_) => lifted is Err && lifted->Err_0.kind == kind,
        },
{
    match answer {
        Ok(value) => Ok(value),
        Err(error) => Err(failure(kind, &error)),
    }
}

/// The paths of the three entries of one conflict in the index, as bytes. A
/// side that has no entry for the path is `None`.
#[derive(Debug, Clone, PartialEq, Eq)]
pub struct ConflictSides {
    pub ancestor: Option<Vec<u8>>,
    pub ours: Option<Vec<u8>>,
    pub theirs: Option<Vec<u8>>,
}

/// Mathematical value of a [`ConflictSides`].
pub struct ConflictSidesView {
    pub ancestor: Option<Seq<u8>>,
    pub ours: Option<Seq<u8>>,
    pub theirs: Option<Seq<u8>>,
}

/// The bytes of an optional path.
pub open spec fn path_bytes(path: Option<Vec<u8>>) -> Option<Seq<u8>> {
    match path {
        Some(bytes) => Some(bytes@),
        None => None,
    }
}

impl DeepView for ConflictSides {
    type V = ConflictSidesView;

    open spec fn deep_view(&self) -> ConflictSidesView {
        ConflictSidesView {
            ancestor: path_bytes(self.ancestor),
            ours: path_bytes(self.ours),
            theirs: path_bytes(self.theirs),
        }
    }
}

/// The path that a conflict is reported under: that of our side, else that of
/// their side, else that of the common ancestor.
pub open spec fn conflict_path(sides: ConflictSidesView) -> Option<Seq<u8>> {
    match sides.ours {
        Some(path) => Some(path),
        None => match sides.theirs {
            Some(path) => Some(path),
            None => sides.ancestor,
        },
    }
}

/// The conflicting paths that the conflicts of an index stand for: one for
/// each conflict, in the order of the conflicts, decoded as
/// `String::from_utf8_lossy` decodes it.
pub open spec fn conflict_paths(conflicts: Seq<ConflictSidesView>) -> Seq<Seq<char>>
    decreases conflicts.len(),
{
    if conflicts.len() == 0 {
        Seq::empty()
    } else {
        match conflict_path(conflicts.last()) {
            Some(path) => conflict_paths(conflicts.drop_last()).push(lossy_text(path)),
            None => conflict_paths(conflicts.drop_last()),
        }
    }
}

/// A conflict with an entry on some side adds one path, so conflicts of which
/// each has an entry give as many paths as there are conflicts.
pub proof fn lemma_one_path_per_conflict(conflicts: Seq<ConflictSidesView>)
    ensures
        conflict_paths(conflicts).len() <= conflicts.len(),
        (forall|i: int| 0 <= i < conflicts.len() ==> conflict_path(#[trigger] conflicts[i]) is Some)
            ==> conflict_paths(conflicts).len() == conflicts.len(),
    decreases conflicts.len(),
{
    if conflicts.len() > 0 {
        let front = conflicts.drop_last();
        lemma_one_path_per_conflict(front);
        if forall|i: int| 0 <= i < conflicts.len() ==> conflict_path(#[trigger] conflicts[i]) is Some {
            assert(conflict_path(conflicts[conflicts.len() - 1]) is Some);
            assert forall|i: int| 0 <= i < front.len() implies conflict_path(
                #[trigger] front[i],
            ) is Some by {
                assert(front[i] == conflicts[i]);
            }
        }
    }
}

/// Chooses the path under which a conflict is reported.
pub fn path_of_conflict(sides: &ConflictSides) -> (path: Option<&Vec<u8>>)
    ensures
        match path {
            Some(bytes) => conflict_path(sides.deep_view()) == Some(bytes@),
            None => conflict_path(sides.deep_view()) is None,
        },
{
    match &sides.ours {
        Some(path) => Some(path),
        None => match &sides.theirs {
            Some(path) => Some(path),
            None => match &sides.ancestor {
                Some(path) => Some(path),
                None => None,
            },
        },
    }
}

/// Decodes the conflicting paths of the conflicts read from an index.
pub fn decode_conflicts(conflicts: &Vec<ConflictSides>) -> (paths: Vec<String>)
    ensures
        paths.deep_view() == conflict_paths(conflicts.deep_view()),
{
    let ghost all = conflicts.deep_view();
    let mut paths: Vec<String> = Vec::new();
    let mut i: usize = 0;
    assert(all.take(0) =~= Seq::<ConflictSidesView>::empty());
    assert(paths.deep_view() =~= Seq::<Seq<char>>::empty());
    while i < conflicts.len()
        invariant
            i <= conflicts.len(),
            all == conflicts.deep_view(),
            paths.deep_view() == conflict_paths(all.take(i as int)),
        decreases conflicts.len() - i,
    {
        let ghost before = paths.deep_view();
        assert(all.take(i as int + 1).drop_last() =~= all.take(i as int));
        assert(all.take(i as int + 1).last() == all[i as int]);
        assert(all[i as int] == conflicts@[i as int].deep_view());
        match path_of_conflict(&conflicts[i]) {
            Some(path) => {
                let text = utf8_lossy(path);
                paths.push(text);
                assert(paths.deep_view() =~= before.push(lossy_text(path@)));
            },
            None => {},
        }
        i = i + 1;
    }
    assert(all.take(conflicts.len() as int) =~= all);
    paths
}

/// Decides whether a continuation may go on: it may not while the index
/// still holds conflicts.
pub fn check_resolved(has_conflicts: bool) -> (checked: Result<(), GitError>)
    ensures
        checked is Err <==> has_conflicts,
        checked matches Err(error) ==> error.kind == GitErrorKind::UnresolvedConflicts,
{
    if has_conflicts {
        Err(
            GitError {
                kind: GitErrorKind::UnresolvedConflicts,
                detail: String::from_str(
                    "There are still unresolved conflicts. Please resolve them first.",
                ),
            },
        )
    } else {
        Ok(())
    }
}

/// Decides what the conflicts read after a replay come to: the paths to
/// report, or a failure where the index reports conflicts and names no path.
pub fn conflicts_outcome(paths: Vec<String>) -> (outcome: ReplayOutcome)
    ensures
        paths@.len() > 0 ==> outcome == ReplayOutcome::Conflicts(paths),
        paths@.len() == 0 ==> {
            &&& outcome matches ReplayOutcome::Broken(error)
            &&& error.kind == GitErrorKind::Conflicts
        },
{
    if paths.len() > 0 {
        ReplayOutcome::Conflicts(paths)
    } else {
        ReplayOutcome::Broken(
            GitError {
                kind: GitErrorKind::Conflicts,
                detail: String::from_str("the index reports conflicts and names no path"),
            },
        )
    }
}

/// What the lookup of a local branch came to.
pub enum LocalStep<B> {
    /// The local branch exists.
    Found(B),
    /// There is no such local branch: try the remote branch of that name.
    TryRemote,
}

/// What the lookup of a branch came to after both steps.
pub enum BranchLookup<B> {
    /// A local branch of that name existed.
    FoundLocal(B),
    /// A local branch was created to track the remote branch of that name.
    CreatedTracking(B),
    /// Neither exists, or the tracking branch could not be made.
    NotFound(GitError),
}

/// First step of the lookup: a local branch that was found is taken, and any
/// failure to find one leads on to the remote branch.
pub fn after_local_lookup<B>(answer: Result<B, git2::Error>) -> (step: LocalStep<B>)
    ensures
        match answer {
            Ok(branch) => step == LocalStep::Found(branch),
            Err(_) => step is TryRemote,
        },
{
    match answer {
        Ok(branch) => LocalStep::Found(branch),
        Err(_) => LocalStep::TryRemote,
    }
}

/// Second step of the lookup: a tracking branch that was made is taken, and
/// any failure to make one means that the branch is not found.
pub fn after_tracking<B>(answer: Result<B, git2::Error>) -> (lookup: BranchLookup<B>)
    ensures
        match answer {
            Ok(branch) => lookup == BranchLookup::CreatedTracking(branch),
            Err(_) => lookup matches BranchLookup::NotFound(error) && error.kind
                == GitErrorKind::BranchNotFound,
        },
{
    match answer {
        Ok(branch) => BranchLookup::CreatedTracking(branch),
        Err(error) => BranchLookup::NotFound(failure(GitErrorKind::BranchNotFound, &error)),
    }
}

/// The branch that a lookup found with the way it was found, or the error of
/// a lookup that found none.
pub fn lookup_result<B>(lookup: BranchLookup<B>) -> (found: Result<(B, BranchResolution), GitError>)
    ensures
        match lookup {
            BranchLookup::FoundLocal(branch) => found == Ok::<(B, BranchResolution), GitError>(
                (branch, BranchResolution::FoundLocal),
            ),
            BranchLookup::CreatedTracking(branch) => found == Ok::<
                (B, BranchResolution),
                GitError,
            >((branch, BranchResolution::CreatedTracking)),
            BranchLookup::NotFound(error) => found == Err::<(B, BranchResolution), GitError>(
                error,
            ),
        },
{
    match lookup {
        BranchLookup::FoundLocal(branch) => Ok((branch, BranchResolution::FoundLocal)),
        BranchLookup::CreatedTracking(branch) => Ok((branch, BranchResolution::CreatedTracking)),
        BranchLookup::NotFound(error) => Err(error),
    }
}

/// A checkout or an application that was asked of a handle, with what came
/// of it.
pub enum GitCall {
    Checkout { branch: Seq<char>, switched: Result<BranchResolution, GitErrorView> },
    Apply { commit: Seq<char>, applied: Result<CherrypickResultView, GitErrorView> },
}

/// What came of a checkout, as a mathematical value.
pub open spec fn checkout_view(switched: Result<BranchResolution, GitError>) -> Result<
    BranchResolution,
    GitErrorView,
> {
    match switched {
        Ok(resolution) => Ok(resolution),
        Err(error) => Err(error.deep_view()),
    }
}

/// What came of an application, as a mathematical value.
pub open spec fn apply_view(applied: Result<CherrypickResult, GitError>) -> Result<
    CherrypickResultView,
    GitErrorView,
> {
    match applied {
        Ok(result) => Ok(result.deep_view()),
        Err(error) => Err(error.deep_view()),
    }
}

/// Exclusive handle on one working copy, with the state of the machine.
pub struct GitOperations {
    repo: git2::Repository,
    state: RepoState,
    log: Ghost<Seq<GitCall>>,
}

impl GitOperations {
    /// The state of the machine.
    pub closed spec fn machine_state(&self) -> RepoState {
        self.state
    }

    /// The checkouts and applications asked of this handle so far, oldest
    /// first, each with what came of it.
    pub closed spec fn journal(&self) -> Seq<GitCall> {
        self.log@
    }

    /// Makes the handle on a repository that was opened, or reports why none
    /// was: the handle owns the repository, and its machine starts in `Clean`.
    fn opened(answer: Result<git2::Repository, git2::Error>) -> (handle: Result<Self, GitError>)
        ensures
            match answer {
                Ok(repo) => handle matches Ok(made) && made.repo == repo && made.state
                    == RepoState::Clean && made.log@ == Seq::<GitCall>::empty(),
                Err(_) => handle matches Err(error) && error.kind
                    == GitErrorKind::OpenRepository,
            },
    {
        match lift(answer, GitErrorKind::OpenRepository) {
            Ok(repo) => Ok(
                GitOperations { repo, state: RepoState::Clean, log: Ghost(Seq::empty()) },
            ),
            Err(error) => Err(error),
        }
    }

    /// Opens the repository at `repo_path`. The machine starts in `Clean`.
    pub fn new(repo_path: &str) -> (opened: Result<Self, GitError>)
        ensures
            match opened {
                Ok(handle) => handle.machine_state() == RepoState::Clean
                    && handle.journal().len() == 0,
                Err(error) => error.kind == GitErrorKind::OpenRepository,
            },
    {
        Self::opened(open_repository(repo_path))
    }

    /// Finds the repository that holds the current directory. The machine
    /// starts in `Clean`.
    pub fn discover() -> (found: Result<Self, GitError>)
        ensures
            match found {
                Ok(handle) => handle.machine_state() == RepoState::Clean
                    && handle.journal().len() == 0,
                Err(error) => error.kind == GitErrorKind::OpenRepository,
            },
    {
        Self::opened(discover_repository("."))
    }

    /// The state of the machine.
    pub fn state(&self) -> (state: RepoState)
        ensures
            state == self.machine_state(),
    {
        self.state
    }

    /// Whether the working copy has no change of any kind.
    pub fn is_clean(&self) -> (clean: Result<bool, GitError>)
        ensures
            clean matches Err(error) ==> error.kind == GitErrorKind::Status,
    {
        let statuses = lift(repository_statuses(&self.repo), GitErrorKind::Status)?;
        Ok(statuses_is_empty(&statuses))
    }

    /// The short name of the branch that `HEAD` points to.
    pub fn current_branch(&self) -> (name: Result<String, GitError>)
        ensures
            name matches Err(error) ==> error.kind == GitErrorKind::Head || error.kind
                == GitErrorKind::BranchName,
    {
        let head = lift(repository_head(&self.repo), GitErrorKind::Head)?;
        lift(reference_shorthand(&head), GitErrorKind::BranchName)
    }

    /// Makes a local branch `branch_name` from the remote branch of that name
    /// and records the remote as its upstream.
    fn create_tracking_branch<'repo>(repo: &'repo git2::Repository, branch_name: &str) -> (created:
        Result<git2::Branch<'repo>, git2::Error>) {
        let remote = remote_branch_name(branch_name);
        let remote_branch = find_branch(repo, remote.as_str(), git2::BranchType::Remote)?;
        let remote_commit = branch_commit(&remote_branch)?;
        let local_branch = create_branch(repo, branch_name, &remote_commit)?;
        config_set_str(repo, tracking_remote_key(branch_name).as_str(), "origin")?;
        config_set_str(
            repo,
            tracking_merge_key(branch_name).as_str(),
            head_ref_name(branch_name).as_str(),
        )?;
        Ok(local_branch)
    }

    /// Finds the branch to switch to and switches to it.
    fn switch_to(&self, branch_name: &str) -> (switched: Result<BranchResolution, GitError>)
        ensures
            !permits(self.machine_state(), GitOperation::Checkout) ==> {
                &&& switched matches Err(error)
                &&& error.kind == GitErrorKind::WrongState
                &&& error.detail@ == wrong_state_detail(
                    GitOperation::Checkout,
                    self.machine_state(),
                )
            },
            permits(self.machine_state(), GitOperation::Checkout) ==> (switched matches Err(error)
                ==> {
                ||| error.kind == GitErrorKind::BranchNotFound
                ||| error.kind == GitErrorKind::BranchCommit
                ||| error.kind == GitErrorKind::CheckoutTree
                ||| error.kind == GitErrorKind::UpdateHead
            }),
    {
        if !is_permitted(self.state, GitOperation::Checkout) {
            return Err(wrong_state(GitOperation::Checkout, self.state));
        }
        let lookup = match after_local_lookup(
            find_branch(&self.repo, branch_name, git2::BranchType::Local),
        ) {
            LocalStep::Found(branch) => BranchLookup::FoundLocal(branch),
            LocalStep::TryRemote => after_tracking(
                Self::create_tracking_branch(&self.repo, branch_name),
            ),
        };
        let (branch, resolution) = lookup_result(lookup)?;
        let commit = lift(branch_commit(&branch), GitErrorKind::BranchCommit)?;
        lift(checkout_tree(&self.repo, &commit), GitErrorKind::CheckoutTree)?;
        lift(
            set_head(&self.repo, head_ref_name(branch_name).as_str()),
            GitErrorKind::UpdateHead,
        )?;
        Ok(resolution)
    }

    /// Switches the working copy to the branch `branch_name`: the local branch
    /// of that name, or else a new local branch that tracks the remote branch
    /// of that name. Valid in `Clean` only, and leaves the state as it is. The
    /// call is entered in the journal with what came of it.
    pub fn checkout_branch(&mut self, branch_name: &str) -> (switched: Result<
        BranchResolution,
        GitError,
    >)
        ensures
            !permits(old(self).machine_state(), GitOperation::Checkout) ==> {
                &&& switched matches Err(error)
                &&& error.kind == GitErrorKind::WrongState
                &&& error.detail@ == wrong_state_detail(
                    GitOperation::Checkout,
                    old(self).machine_state(),
                )
            },
            permits(old(self).machine_state(), GitOperation::Checkout) ==> (switched matches Err(
                error,
            ) ==> {
                ||| error.kind == GitErrorKind::BranchNotFound
                ||| error.kind == GitErrorKind::BranchCommit
                ||| error.kind == GitErrorKind::CheckoutTree
                ||| error.kind == GitErrorKind::UpdateHead
            }),
            final(self).machine_state() == old(self).machine_state(),
            final(self).journal() == old(self).journal().push(
                GitCall::Checkout { branch: branch_name@, switched: checkout_view(switched) },
            ),
    {
        let switched = self.switch_to(branch_name);
        self.log = Ghost(
            self.log@.push(
                GitCall::Checkout { branch: branch_name@, switched: checkout_view(switched) },
            ),
        );
        switched
    }

    /// The signature of the local identity, stamped with the current time.
    fn get_signature(repo: &git2::Repository) -> (signature: Result<
        git2::Signature<'static>,
        GitError,
    >)
        ensures
            signature matches Err(error) ==> {
                ||| error.kind == GitErrorKind::UserName
                ||| error.kind == GitErrorKind::UserEmail
                ||| error.kind == GitErrorKind::Signature
            },
    {
        let name = lift(config_get_string(repo, "user.name"), GitErrorKind::UserName)?;
        let email = lift(config_get_string(repo, "user.email"), GitErrorKind::UserEmail)?;
        lift(signature_now(name.as_str(), email.as_str()), GitErrorKind::Signature)
    }

    /// Commits what `index` holds on top of the current branch, under the
    /// local identity, and clears the record of the operation under way.
    /// Returns the identifier of the commit, written as forty hexadecimal
    /// digits; a failure names the step that failed.
    fn commit_index(repo: &git2::Repository, index: &mut git2::Index, message: &str) -> (id: Result<
        String,
        GitError,
    >)
        ensures
            match id {
                Ok(text) => is_full_object_id(text@),
                Err(error) => {
                    ||| error.kind == GitErrorKind::UserName
                    ||| error.kind == GitErrorKind::UserEmail
                    ||| error.kind == GitErrorKind::Signature
                    ||| error.kind == GitErrorKind::Tree
                    ||| error.kind == GitErrorKind::Head
                    ||| error.kind == GitErrorKind::Commit
                    ||| error.kind == GitErrorKind::CleanupState
                },
            },
    {
        let signature = Self::get_signature(repo)?;
        let tree_id = lift(index_write_tree(index), GitErrorKind::Tree)?;
        let tree = lift(find_tree(repo, tree_id), GitErrorKind::Tree)?;
        let head = lift(repository_head(repo), GitErrorKind::Head)?;
        let parent = lift(reference_commit(&head), GitErrorKind::Head)?;
        let id = lift(
            create_commit(repo, "HEAD", &signature, message, &tree, &parent),
            GitErrorKind::Commit,
        )?;
        lift(cleanup_state(repo), GitErrorKind::CleanupState)?;
        Ok(object_id_text(id))
    }

    /// The conflicting paths that the index holds: the decoding of its
    /// conflicts, and none where it holds none.
    fn get_conflicts(index: &git2::Index) -> (paths: Result<Vec<String>, GitError>)
        ensures
            match paths {
                Ok(list) => exists|conflicts: Seq<ConflictSidesView>|
                    list.deep_view() == #[trigger] conflict_paths(conflicts),
                Err(error) => error.kind == GitErrorKind::Conflicts,
            },
    {
        if index_has_conflicts(index) {
            let conflicts = lift(index_conflicts(index), GitErrorKind::Conflicts)?;
            let paths = decode_conflicts(&conflicts);
            assert(paths.deep_view() == conflict_paths(conflicts.deep_view()));
            Ok(paths)
        } else {
            let paths: Vec<String> = Vec::new();
            assert(paths.deep_view() =~= conflict_paths(Seq::<ConflictSidesView>::empty()));
            Ok(paths)
        }
    }

    /// Replays one commit onto the current branch and says how far it got.
    fn replay(repo: &git2::Repository, commit_sha: &str) -> (outcome: ReplayOutcome)
        ensures
            !is_object_id(commit_sha@) ==> {
                &&& outcome matches ReplayOutcome::NotStarted(error)
                &&& error.kind == GitErrorKind::InvalidCommitId
            },
            outcome matches ReplayOutcome::NotStarted(error) ==> (if is_object_id(commit_sha@) {
                error.kind == GitErrorKind::CommitNotFound
            } else {
                error.kind == GitErrorKind::InvalidCommitId
            }),
            outcome matches ReplayOutcome::Broken(error) ==> error.kind
                != GitErrorKind::WrongState && error.kind != GitErrorKind::InvalidCommitId
                && error.kind != GitErrorKind::CommitNotFound,
            outcome matches ReplayOutcome::Applied(new_id) ==> is_full_object_id(new_id@),
            outcome matches ReplayOutcome::Conflicts(paths) ==> paths@.len() > 0 && exists|
                conflicts: Seq<ConflictSidesView>,
            |
                paths.deep_view() == #[trigger] conflict_paths(conflicts),
    {
        let id = match parse_object_id(commit_sha) {
            Ok(id) => id,
            Err(error) => {
                return ReplayOutcome::NotStarted(failure(GitErrorKind::InvalidCommitId, &error));
            },
        };
        let commit = match find_commit(repo, id) {
            Ok(commit) => commit,
            Err(error) => {
                return ReplayOutcome::NotStarted(failure(GitErrorKind::CommitNotFound, &error));
            },
        };
        if let Err(error) = cherrypick(repo, &commit) {
            return ReplayOutcome::Broken(failure(GitErrorKind::CherryPick, &error));
        }
        let condition = replay_condition(repository_state(repo));
        let mut index = match repository_index(repo) {
            Ok(index) => index,
            Err(error) => {
                return ReplayOutcome::Broken(failure(GitErrorKind::Index, &error));
            },
        };
        match classify_replay(condition, index_has_conflicts(&index)) {
            ReplayVerdict::GiveUp => ReplayOutcome::Broken(
                GitError {
                    kind: GitErrorKind::UnexpectedState,
                    detail: String::from_str("another operation is recorded as under way"),
                },
            ),
            ReplayVerdict::ReportConflicts => match Self::get_conflicts(&index) {
                Ok(paths) => conflicts_outcome(paths),
                Err(error) => ReplayOutcome::Broken(error),
            },
            ReplayVerdict::Commit => {
                let message = utf8_lossy(&commit_message_bytes(&commit));
                match Self::commit_index(repo, &mut index, message.as_str()) {
                    Ok(new_id) => ReplayOutcome::Applied(new_id),
                    Err(error) => ReplayOutcome::Broken(error),
                }
            },
        }
    }

    /// Applies one commit and moves the machine.
    fn apply(&mut self, commit_sha: &str) -> (applied: Result<CherrypickResult, GitError>)
        ensures
            final(self).journal() == old(self).journal(),
            !permits(old(self).machine_state(), GitOperation::Apply) ==> {
                &&& applied matches Err(error)
                &&& error.kind == GitErrorKind::WrongState
                &&& error.detail@ == wrong_state_detail(
                    GitOperation::Apply,
                    old(self).machine_state(),
                )
                &&& final(self).machine_state() == old(self).machine_state()
            },
            permits(old(self).machine_state(), GitOperation::Apply) ==> match applied {
                Ok(result) => {
                    &&& result.deep_view().wf()
                    &&& final(self).machine_state() == if result.success {
                        RepoState::Clean
                    } else {
                        RepoState::Conflicted
                    }
                    &&& is_object_id(commit_sha@)
                    &&& result.success ==> is_full_object_id(result.deep_view().commit_sha->0)
                    &&& !result.success ==> exists|conflicts: Seq<ConflictSidesView>|
                        result.deep_view().conflicts == #[trigger] conflict_paths(conflicts)
                },
                Err(error) => {
                    &&& error.kind != GitErrorKind::WrongState
                    &&& error.kind == GitErrorKind::InvalidCommitId <==> !is_object_id(commit_sha@)
                    &&& final(self).machine_state() == if error.kind
                        == GitErrorKind::InvalidCommitId || error.kind
                        == GitErrorKind::CommitNotFound {
                        RepoState::Clean
                    } else {
                        RepoState::ApplyInProgress
                    }
                },
            },
    {
        if !is_permitted(self.state, GitOperation::Apply) {
            return Err(wrong_state(GitOperation::Apply, self.state));
        }
        let outcome = Self::replay(&self.repo, commit_sha);
        let (state, applied) = conclude_apply(outcome);
        self.state = state;
        applied
    }

    /// Applies the commit `commit_sha` onto the tip of the current branch.
    ///
    /// Valid in `Clean` only. A replay without conflicts is committed with the
    /// message of that commit under the local identity and leaves the machine in
    /// `Clean`; a replay with conflicts creates no commit, reports the
    /// conflicting paths and leaves the machine in `Conflicted`. An identifier
    /// that cannot be a commit's, or that no commit has, is refused before
    /// anything is changed. Any other failure leaves the machine in
    /// `ApplyInProgress`. The call is entered in the journal with what came of
    /// it.
    pub fn cherry_pick(&mut self, commit_sha: &str) -> (applied: Result<CherrypickResult, GitError>)
        ensures
            final(self).journal() == old(self).journal().push(
                GitCall::Apply { commit: commit_sha@, applied: apply_view(applied) },
            ),
            !permits(old(self).machine_state(), GitOperation::Apply) ==> {
                &&& applied matches Err(error)
                &&& error.kind == GitErrorKind::WrongState
                &&& error.detail@ == wrong_state_detail(
                    GitOperation::Apply,
                    old(self).machine_state(),
                )
                &&& final(self).machine_state() == old(self).machine_state()
            },
            permits(old(self).machine_state(), GitOperation::Apply) ==> match applied {
                Ok(result) => {
                    &&& result.deep_view().wf()
                    &&& final(self).machine_state() == if result.success {
                        RepoState::Clean
                    } else {
                        RepoState::Conflicted
                    }
                    &&& is_object_id(commit_sha@)
                    &&& result.success ==> is_full_object_id(result.deep_view().commit_sha->0)
                    &&& !result.success ==> exists|conflicts: Seq<ConflictSidesView>|
                        result.deep_view().conflicts == #[trigger] conflict_paths(conflicts)
                },
                Err(error) => {
                    &&& error.kind != GitErrorKind::WrongState
                    &&& error.kind == GitErrorKind::InvalidCommitId <==> !is_object_id(commit_sha@)
                    &&& final(self).machine_state() == if error.kind
                        == GitErrorKind::InvalidCommitId || error.kind
                        == GitErrorKind::CommitNotFound {
                        RepoState::Clean
                    } else {
                        RepoState::ApplyInProgress
                    }
                },
            },
    {
        let applied = self.apply(commit_sha);
        self.log = Ghost(
            self.log@.push(GitCall::Apply { commit: commit_sha@, applied: apply_view(applied) }),
        );
        applied
    }

    /// Completes an application after its conflicts were resolved by hand:
    /// stages everything, commits with `commit_message` or a default message,
    /// and returns the identifier of the commit.
    ///
    /// Valid in `Conflicted` only, and refused while the index still holds
    /// conflicts. On success the machine is in `Clean`; on failure it stays in
    /// `Conflicted`.
    pub fn continue_cherry_pick(&mut self, commit_message: Option<&str>) -> (completed: Result<
        String,
        GitError,
    >)
        ensures
            !permits(old(self).machine_state(), GitOperation::Continue) ==> {
                &&& completed matches Err(error)
                &&& error.kind == GitErrorKind::WrongState
                &&& error.detail@ == wrong_state_detail(
                    GitOperation::Continue,
                    old(self).machine_state(),
                )
            },
            permits(old(self).machine_state(), GitOperation::Continue) ==> (completed matches Err(
                error,
            ) ==> {
                ||| error.kind == GitErrorKind::UnresolvedConflicts
                ||| error.kind == GitErrorKind::Index
                ||| error.kind == GitErrorKind::UserName
                ||| error.kind == GitErrorKind::UserEmail
                ||| error.kind == GitErrorKind::Signature
                ||| error.kind == GitErrorKind::Tree
                ||| error.kind == GitErrorKind::Head
                ||| error.kind == GitErrorKind::Commit
                ||| error.kind == GitErrorKind::CleanupState
            }),
            completed matches Ok(new_id) ==> is_full_object_id(new_id@),
            final(self).journal() == old(self).journal(),
            final(self).machine_state() == if completed is Ok {
                state_after_continue(true)
            } else {
                old(self).machine_state()
            },
    {
        if !is_permitted(self.state, GitOperation::Continue) {
            return Err(wrong_state(GitOperation::Continue, self.state));
        }
        let mut index = lift(repository_index(&self.repo), GitErrorKind::Index)?;
        lift(index_read(&mut index), GitErrorKind::Index)?;
        check_resolved(index_has_conflicts(&index))?;
        lift(index_add_all(&mut index, "*"), GitErrorKind::Index)?;
        lift(index_write(&mut index), GitErrorKind::Index)?;
        let message = completion_message(commit_message);
        let id = Self::commit_index(&self.repo, &mut index, message.as_str())?;
        self.state = RepoState::Clean;
        Ok(id)
    }

    /// Gives up the application under way: clears its record and resets the
    /// working copy to the tip of the current branch.
    ///
    /// Valid in `Conflicted` and in `ApplyInProgress`. On success the machine
    /// is in `Clean`; on failure the state is as before.
    pub fn abort_cherry_pick(&mut self) -> (aborted: Result<(), GitError>)
        ensures
            !permits(old(self).machine_state(), GitOperation::Abort) ==> {
                &&& aborted matches Err(error)
                &&& error.kind == GitErrorKind::WrongState
                &&& error.detail@ == wrong_state_detail(
                    GitOperation::Abort,
                    old(self).machine_state(),
                )
            },
            permits(old(self).machine_state(), GitOperation::Abort) ==> (aborted matches Err(error)
                ==> {
                ||| error.kind == GitErrorKind::CleanupState
                ||| error.kind == GitErrorKind::Head
                ||| error.kind == GitErrorKind::Reset
            }),
            final(self).machine_state() == state_after_abort(
                old(self).machine_state(),
                aborted is Ok,
            ),
            final(self).journal() == old(self).journal(),
    {
        if !is_permitted(self.state, GitOperation::Abort) {
            return Err(wrong_state(GitOperation::Abort, self.state));
        }
        if let Err(error) = cleanup_state(&self.repo) {
            return Err(failure(GitErrorKind::CleanupState, &error));
        }
        let head = match repository_head(&self.repo) {
            Ok(head) => head,
            Err(error) => {
                return Err(failure(GitErrorKind::Head, &error));
            },
        };
        let tip = match reference_commit(&head) {
            Ok(tip) => tip,
            Err(error) => {
                return Err(failure(GitErrorKind::Head, &error));
            },
        };
        if let Err(error) = reset(&self.repo, &tip, git2::ResetType::Hard) {
            return Err(failure(GitErrorKind::Reset, &error));
        }
        self.state = RepoState::Clean;
        Ok(())
    }

    /// Fetches from the remote `origin`.
    pub fn fetch(&self) -> (fetched: Result<(), GitError>)
        ensures
            fetched matches Err(error) ==> error.kind == GitErrorKind::Remote || error.kind
                == GitErrorKind::Fetch,
    {
        let mut remote = lift(find_remote(&self.repo, "origin"), GitErrorKind::Remote)?;
        lift(remote_fetch(&mut remote), GitErrorKind::Fetch)
    }

    /// The commits that `to` reaches and `from` does not, in the order of the
    /// walk.
    pub fn get_commits_between<'repo>(&'repo self, from: &str, to: &str) -> (commits: Result<
        Vec<git2::Commit<'repo>>,
        GitError,
    >)
        ensures
            commits matches Err(error) ==> {
                ||| error.kind == GitErrorKind::Walk
                ||| error.kind == GitErrorKind::Revision
                ||| error.kind == GitErrorKind::CommitNotFound
            },
    {
        let mut walk = lift(new_revwalk(&self.repo), GitErrorKind::Walk)?;
        lift(
            revwalk_push_range(&mut walk, revision_range(from, to).as_str()),
            GitErrorKind::Revision,
        )?;
        let mut commits: Vec<git2::Commit<'repo>> = Vec::new();
        let mut count: usize = 0;
        while count < usize::MAX
            invariant
                commits@.len() == count,
            decreases usize::MAX - count,
        {
            let id = match revwalk_next(&mut walk) {
                Some(step) => lift(step, GitErrorKind::Walk)?,
                None => {
                    return Ok(commits);
                },
            };
            let commit = lift(find_commit(&self.repo, id), GitErrorKind::CommitNotFound)?;
            commits.push(commit);
            count = count + 1;
        }
        Ok(commits)
    }
}

} // verus!
