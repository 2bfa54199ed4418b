//! Application of one change request onto the target branch.
//!
//! [`ApplyRun`] holds the decisions of a run: check out the target branch,
//! apply the commits strictly in order, stop at the first commit that
//! conflicts or fails, and after the last commit update the labels and post
//! the summary comment, both on a best-effort basis. The run is driven by
//! events; [`cherry_pick_pr`] performs the steps that touch the repository,
//! the caller performs the requests to the remote system.

use crate::config::{TagConfig, TagConfigView};
use crate::git::{
    apply_view, checkout_view, permits, wrong_state_detail, BranchResolution, CherrypickResult,
    CherrypickResultView, GitCall, GitError, GitErrorKind, GitErrorView, GitOperation,
    GitOperations, RepoState,
};
use crate::github::{
    cherry_pick_comment, clone_texts, comment_body, labels_after_success, updated_labels,
    CommitInfoView, PrInfo,
};
use vstd::prelude::*;

verus! {

/// Why a run did not apply every commit.
#[derive(Debug, PartialEq, Eq)]
pub enum ApplyFailure {
    /// The target branch could not be checked out.
    Checkout(GitError),
    /// The commit met conflicts on these paths.
    Conflict { commit_sha: String, paths: Vec<String> },
    /// The commit could not be applied for another reason.
    Commit { commit_sha: String, error: GitError },
}

/// Mathematical value of an [`ApplyFailure`].
pub enum ApplyFailureView {
    Checkout(GitErrorView),
    Conflict { commit_sha: Seq<char>, paths: Seq<Seq<char>> },
    Commit { commit_sha: Seq<char>, error: GitErrorView },
}

impl DeepView for ApplyFailure {
    type V = ApplyFailureView;

    open spec fn deep_view(&self) -> ApplyFailureView {
        match self {
            ApplyFailure::Checkout(error) => ApplyFailureView::Checkout(error.deep_view()),
            ApplyFailure::Conflict { commit_sha, paths } => ApplyFailureView::Conflict {
                commit_sha: commit_sha@,
                paths: paths.deep_view(),
            },
            ApplyFailure::Commit { commit_sha, error } => ApplyFailureView::Commit {
                commit_sha: commit_sha@,
                error: error.deep_view(),
            },
        }
    }
}

impl Clone for ApplyFailure {
    fn clone(&self) -> (copy: Self)
        ensures
            copy.deep_view() == self.deep_view(),
    {
        match self {
            ApplyFailure::Checkout(error) => ApplyFailure::Checkout(error.clone()),
            ApplyFailure::Conflict { commit_sha, paths } => ApplyFailure::Conflict {
                commit_sha: commit_sha.clone(),
                paths: clone_texts(paths),
            },
            ApplyFailure::Commit { commit_sha, error } => ApplyFailure::Commit {
                commit_sha: commit_sha.clone(),
                error: error.clone(),
            },
        }
    }
}

/// What happened since the last action.
#[derive(Debug, PartialEq, Eq)]
pub enum ApplyEvent {
    /// The checkout of the target branch ended so.
    CheckedOut(Result<BranchResolution, GitError>),
    /// The application of the commit asked for ended so.
    Applied(Result<CherrypickResult, GitError>),
    /// The labels of the change request were fetched, or could not be.
    LabelsFetched(Result<Vec<String>, String>),
    /// The new labels were stored, or could not be.
    LabelsStored(Result<(), String>),
    /// The comment was posted, or could not be.
    CommentPosted(Result<(), String>),
}

/// Mathematical value of an [`ApplyEvent`]. Of a remote failure only the fact
/// is kept.
pub enum ApplyEventView {
    CheckedOut(Result<BranchResolution, GitErrorView>),
    Applied(Result<CherrypickResultView, GitErrorView>),
    LabelsFetched(Option<Seq<Seq<char>>>),
    LabelsStored(bool),
    CommentPosted(bool),
}

impl DeepView for ApplyEvent {
    type V = ApplyEventView;

    open spec fn deep_view(&self) -> ApplyEventView {
        match self {
            ApplyEvent::CheckedOut(Ok(how)) => ApplyEventView::CheckedOut(Ok(*how)),
            ApplyEvent::CheckedOut(Err(error)) => ApplyEventView::CheckedOut(
                Err(error.deep_view()),
            ),
            ApplyEvent::Applied(Ok(result)) => ApplyEventView::Applied(Ok(result.deep_view())),
            ApplyEvent::Applied(Err(error)) => ApplyEventView::Applied(Err(error.deep_view())),
            ApplyEvent::LabelsFetched(Ok(labels)) => ApplyEventView::LabelsFetched(
                Some(labels.deep_view()),
            ),
            ApplyEvent::LabelsFetched(Err(_)) => ApplyEventView::LabelsFetched(None),
            ApplyEvent::LabelsStored(outcome) => ApplyEventView::LabelsStored(outcome is Ok),
            ApplyEvent::CommentPosted(outcome) => ApplyEventView::CommentPosted(outcome is Ok),
        }
    }
}

/// What is to be done next.
#[derive(Debug, PartialEq, Eq)]
pub enum ApplyAction {
    /// Check out this branch.
    Checkout(String),
    /// Apply the commit with this identifier.
    Apply(String),
    /// Fetch the labels of the change request with this number.
    FetchLabels(u64),
    /// Store these labels on the change request with this number.
    StoreLabels { number: u64, labels: Vec<String> },
    /// Post this comment on the change request with this number.
    PostComment { number: u64, body: String },
    /// The run is over.
    Finish,
}

/// Mathematical value of an [`ApplyAction`].
pub enum ApplyActionView {
    Checkout(Seq<char>),
    Apply(Seq<char>),
    FetchLabels(u64),
    StoreLabels { number: u64, labels: Seq<Seq<char>> },
    PostComment { number: u64, body: Seq<char> },
    Finish,
}

impl DeepView for ApplyAction {
    type V = ApplyActionView;

    open spec fn deep_view(&self) -> ApplyActionView {
        match self {
            ApplyAction::Checkout(branch) => ApplyActionView::Checkout(branch@),
            ApplyAction::Apply(sha) => ApplyActionView::Apply(sha@),
            ApplyAction::FetchLabels(number) => ApplyActionView::FetchLabels(*number),
            ApplyAction::StoreLabels { number, labels } => ApplyActionView::StoreLabels {
                number: *number,
                labels: labels.deep_view(),
            },
            ApplyAction::PostComment { number, body } => ApplyActionView::PostComment {
                number: *number,
                body: body@,
            },
            ApplyAction::Finish => ApplyActionView::Finish,
        }
    }
}

/// Where a run stands.
#[derive(Debug, Clone, Copy, PartialEq, Eq)]
pub enum ApplyPhase {
    /// The checkout of the target branch is outstanding.
    CheckingOut,
    /// The application of the commit at `position` is outstanding.
    Applying,
    /// Every commit is applied; the labels are being fetched.
    FetchingLabels,
    /// The new labels are being stored.
    StoringLabels,
    /// The comment is being posted.
    Commenting,
    /// The run is over.
    Done,
}

/// Mathematical value of an [`ApplyRun`].
pub struct ApplyRunView {
    pub number: u64,
    pub commits: Seq<Seq<char>>,
    pub target_branch: Seq<char>,
    pub pending_tag: Seq<char>,
    pub completed_tag: Seq<char>,
    pub phase: ApplyPhase,
    /// Index of the commit whose application is outstanding, or was refused.
    pub position: int,
    /// Identifiers of the commits created so far, in order.
    pub applied: Seq<Seq<char>>,
    pub failure: Option<ApplyFailureView>,
    /// The labels to store, once the current ones are fetched.
    pub new_labels: Seq<Seq<char>>,
    pub labels_updated: bool,
    pub comment_posted: bool,
}

impl ApplyRunView {
    /// The action that is outstanding in this state.
    pub open spec fn pending(self) -> ApplyActionView {
        match self.phase {
            ApplyPhase::CheckingOut => ApplyActionView::Checkout(self.target_branch),
            ApplyPhase::Applying => ApplyActionView::Apply(self.commits[self.position]),
            ApplyPhase::FetchingLabels => ApplyActionView::FetchLabels(self.number),
            ApplyPhase::StoringLabels => ApplyActionView::StoreLabels {
                number: self.number,
                labels: self.new_labels,
            },
            ApplyPhase::Commenting => ApplyActionView::PostComment {
                number: self.number,
                body: comment_body(self.target_branch, self.applied),
            },
            ApplyPhase::Done => ApplyActionView::Finish,
        }
    }

    /// Whether the run ended with every commit applied. The label update and
    /// the comment do not count.
    pub open spec fn succeeded(self) -> bool {
        self.phase == ApplyPhase::Done && self.failure is None
    }

    /// Turns to the commit at `position`, or to the label update after the last.
    pub open spec fn proceed(self) -> ApplyRunView {
        if self.position < self.commits.len() {
            ApplyRunView { phase: ApplyPhase::Applying, ..self }
        } else {
            ApplyRunView { phase: ApplyPhase::FetchingLabels, ..self }
        }
    }

    /// Ends the run with a failure.
    pub open spec fn stop(self, failure: ApplyFailureView) -> ApplyRunView {
        ApplyRunView { phase: ApplyPhase::Done, failure: Some(failure), ..self }
    }

    /// The state after `event`. An event that does not answer the outstanding
    /// action changes nothing.
    pub open spec fn next(self, event: ApplyEventView) -> ApplyRunView {
        match (self.phase, event) {
            (ApplyPhase::CheckingOut, ApplyEventView::CheckedOut(Ok(_))) => self.proceed(),
            (ApplyPhase::CheckingOut, ApplyEventView::CheckedOut(Err(error))) => self.stop(
                ApplyFailureView::Checkout(error),
            ),
            (ApplyPhase::Applying, ApplyEventView::Applied(Ok(result))) => {
                if result.success {
                    ApplyRunView {
                        position: self.position + 1,
                        applied: match result.commit_sha {
                            Some(id) => self.applied.push(id),
                            None => self.applied,
                        },
                        ..self
                    }.proceed()
                } else {
                    self.stop(
                        ApplyFailureView::Conflict {
                            commit_sha: self.commits[self.position],
                            paths: result.conflicts,
                        },
                    )
                }
            },
            (ApplyPhase::Applying, ApplyEventView::Applied(Err(error))) => self.stop(
                ApplyFailureView::Commit { commit_sha: self.commits[self.position], error: error },
            ),
            (ApplyPhase::FetchingLabels, ApplyEventView::LabelsFetched(Some(labels))) => {
                ApplyRunView {
                    phase: ApplyPhase::StoringLabels,
                    new_labels: labels_after_success(labels, self.pending_tag, self.completed_tag),
                    ..self
                }
            },
            (ApplyPhase::FetchingLabels, ApplyEventView::LabelsFetched(None)) => ApplyRunView {
                phase: ApplyPhase::Commenting,
                ..self
            },
            (ApplyPhase::StoringLabels, ApplyEventView::LabelsStored(stored)) => ApplyRunView {
                phase: ApplyPhase::Commenting,
                labels_updated: stored,
                ..self
            },
            (ApplyPhase::Commenting, ApplyEventView::CommentPosted(posted)) => ApplyRunView {
                phase: ApplyPhase::Done,
                comment_posted: posted,
                ..self
            },
            _ => self,
        }
    }

    /// The invariant of a run.
    pub open spec fn wf(self) -> bool {
        &&& 0 <= self.position <= self.commits.len()
        &&& self.applied.len() <= self.position
        &&& match self.phase {
            ApplyPhase::CheckingOut => self.position == 0 && self.failure is None,
            ApplyPhase::Applying => self.position < self.commits.len() && self.failure is None,
            ApplyPhase::FetchingLabels | ApplyPhase::StoringLabels | ApplyPhase::Commenting => {
                self.position == self.commits.len() && self.failure is None
            },
            ApplyPhase::Done => match self.failure {
                None => self.position == self.commits.len(),
                Some(ApplyFailureView::Checkout(_)) => self.position == 0,
                Some(ApplyFailureView::Conflict { commit_sha, .. }) => self.position
                    < self.commits.len() && commit_sha == self.commits[self.position],
                Some(ApplyFailureView::Commit { commit_sha, .. }) => self.position < self.commits.len()
                    && commit_sha == self.commits[self.position],
            },
        }
    }

    /// The state after a run of events, taken in order.
    pub open spec fn feed(self, events: Seq<ApplyEventView>) -> ApplyRunView
        decreases events.len(),
    {
        if events.len() == 0 {
            self
        } else {
            self.feed(events.drop_last()).next(events.last())
        }
    }

    /// How many steps that touch the repository may still follow.
    pub open spec fn local_steps_left(self) -> int {
        match self.phase {
            ApplyPhase::CheckingOut => self.commits.len() as int + 1,
            ApplyPhase::Applying => self.commits.len() - self.position,
            _ => 0,
        }
    }
}

/// The state in which a run starts: the checkout of the target branch is
/// outstanding and nothing is applied.
pub open spec fn initial_run(
    number: u64,
    commits: Seq<Seq<char>>,
    target_branch: Seq<char>,
    tags: TagConfigView,
) -> ApplyRunView {
    ApplyRunView {
        number: number,
        commits: commits,
        target_branch: target_branch,
        pending_tag: tags.pending_tag,
        completed_tag: tags.completed_tag,
        phase: ApplyPhase::CheckingOut,
        position: 0,
        applied: Seq::empty(),
        failure: None,
        new_labels: Seq::empty(),
        labels_updated: false,
        comment_posted: false,
    }
}

/// Every event keeps the invariant, never takes back what was applied, and
/// never turns back to an earlier commit.
pub proof fn lemma_next_wf(s: ApplyRunView, event: ApplyEventView)
    requires
        s.wf(),
    ensures
        s.next(event).wf(),
        s.next(event).commits == s.commits,
        s.next(event).position >= s.position,
        s.applied.is_prefix_of(s.next(event).applied),
{
}

/// Every run of events keeps the invariant.
pub proof fn lemma_feed_wf(s: ApplyRunView, events: Seq<ApplyEventView>)
    requires
        s.wf(),
    ensures
        s.feed(events).wf(),
        s.feed(events).commits == s.commits,
    decreases events.len(),
{
    if events.len() > 0 {
        lemma_feed_wf(s, events.drop_last());
        lemma_next_wf(s.feed(events.drop_last()), events.last());
    }
}

/// A run that is over stays as it is: whatever happens, nothing further is
/// asked for. After a conflict, no later commit is ever attempted.
pub proof fn lemma_done_is_final(s: ApplyRunView, events: Seq<ApplyEventView>)
    requires
        s.phase == ApplyPhase::Done,
    ensures
        s.feed(events) == s,
        s.pending() == ApplyActionView::Finish,
    decreases events.len(),
{
    if events.len() > 0 {
        lemma_done_is_final(s, events.drop_last());
    }
}

/// The events of `ids.len()` applications that succeeded, each with the
/// identifier of the commit it created.
pub open spec fn successes(ids: Seq<Seq<char>>) -> Seq<ApplyEventView> {
    Seq::new(
        ids.len(),
        |i: int|
            ApplyEventView::Applied(
                Ok(
                    CherrypickResultView {
                        success: true,
                        conflicts: Seq::empty(),
                        commit_sha: Some(ids[i]),
                    },
                ),
            ),
    )
}

/// After the checkout and `ids.len()` applications that succeeded, the run
/// has applied exactly the first `ids.len()` commits and reports their new
/// identifiers in order; the application outstanding is that of the next
/// commit, or the label update where none is left.
pub proof fn lemma_applies_in_order(s: ApplyRunView, ids: Seq<Seq<char>>)
    requires
        s.wf(),
        s.phase == ApplyPhase::Applying,
        s.position + ids.len() <= s.commits.len(),
    ensures
        s.feed(successes(ids)).wf(),
        s.feed(successes(ids)).position == s.position + ids.len(),
        s.feed(successes(ids)).applied == s.applied + ids,
        s.feed(successes(ids)).failure is None,
        s.feed(successes(ids)).commits == s.commits,
        s.feed(successes(ids)).phase == if s.position + ids.len() < s.commits.len() {
            ApplyPhase::Applying
        } else {
            ApplyPhase::FetchingLabels
        },
        s.feed(successes(ids)).number == s.number,
        s.feed(successes(ids)).target_branch == s.target_branch,
        s.feed(successes(ids)).labels_updated == s.labels_updated,
        s.feed(successes(ids)).comment_posted == s.comment_posted,
    decreases ids.len(),
{
    if ids.len() == 0 {
        assert(s.applied + ids =~= s.applied);
    } else {
        let front = ids.drop_last();
        lemma_applies_in_order(s, front);
        assert(successes(ids).drop_last() =~= successes(front));
        assert(successes(ids).last() == ApplyEventView::Applied(
            Ok(
                CherrypickResultView {
                    success: true,
                    conflicts: Seq::empty(),
                    commit_sha: Some(ids.last()),
                },
            ),
        ));
        assert((s.applied + front).push(ids.last()) =~= s.applied + ids);
    }
}

/// Sequential application. Where the first `ids.len()` commits apply and the
/// next one conflicts, the run ends there: it reports the commits created for
/// the first ones, names the commit that conflicted with its paths, and asks
/// for nothing further, whatever happens afterwards. No later commit is
/// attempted, and neither labels nor comment are touched.
pub proof fn lemma_stops_at_first_conflict(
    s: ApplyRunView,
    ids: Seq<Seq<char>>,
    paths: Seq<Seq<char>>,
    later: Seq<ApplyEventView>,
)
    requires
        s.wf(),
        s.phase == ApplyPhase::Applying,
        s.position + ids.len() < s.commits.len(),
    ensures
        ({
            let conflict = ApplyEventView::Applied(
                Ok(CherrypickResultView { success: false, conflicts: paths, commit_sha: None }),
            );
            let end = s.feed(successes(ids)).next(conflict);
            &&& end.phase == ApplyPhase::Done
            &&& !end.succeeded()
            &&& end.applied == s.applied + ids
            &&& end.failure == Some(
                ApplyFailureView::Conflict {
                    commit_sha: s.commits[s.position + ids.len()],
                    paths: paths,
                },
            )
            &&& end.pending() == ApplyActionView::Finish
            &&& end.feed(later) == end
            &&& end.labels_updated == s.labels_updated
            &&& end.comment_posted == s.comment_posted
        }),
{
    lemma_applies_in_order(s, ids);
    let conflict = ApplyEventView::Applied(
        Ok(CherrypickResultView { success: false, conflicts: paths, commit_sha: None }),
    );
    let end = s.feed(successes(ids)).next(conflict);
    lemma_done_is_final(end, later);
}

/// Success does not hang on the remote system: once every commit is applied,
/// the run ends as a success whether or not the labels could be fetched or
/// stored and whether or not the comment could be posted.
pub proof fn lemma_remote_failures_keep_success(
    s: ApplyRunView,
    fetched: Option<Seq<Seq<char>>>,
    stored: bool,
    posted: bool,
)
    requires
        s.wf(),
        s.phase == ApplyPhase::FetchingLabels,
    ensures
        ({
            let after_fetch = s.next(ApplyEventView::LabelsFetched(fetched));
            let after_store = if fetched is Some {
                after_fetch.next(ApplyEventView::LabelsStored(stored))
            } else {
                after_fetch
            };
            let end = after_store.next(ApplyEventView::CommentPosted(posted));
            &&& end.succeeded()
            &&& end.applied == s.applied
            &&& after_store.pending() == ApplyActionView::PostComment {
                number: s.number,
                body: comment_body(s.target_branch, s.applied),
            }
            &&& fetched matches Some(labels) ==> after_fetch.pending()
                == ApplyActionView::StoreLabels {
                number: s.number,
                labels: labels_after_success(labels, s.pending_tag, s.completed_tag),
            }
        }),
{
}

/// The identifiers of a list of commits, in order.
pub open spec fn shas_of(commits: Seq<CommitInfoView>) -> Seq<Seq<char>> {
    Seq::new(commits.len(), |i: int| commits[i].sha)
}

/// A step that touches the repository brings the run nearer to its end.
pub proof fn lemma_local_step_decreases(s: ApplyRunView, event: ApplyEventView)
    requires
        s.wf(),
        s.phase == ApplyPhase::CheckingOut && event is CheckedOut || s.phase
            == ApplyPhase::Applying && event is Applied,
    ensures
        0 <= s.next(event).local_steps_left() < s.local_steps_left(),
{
}

/// The run of one change request.
pub struct ApplyRun {
    number: u64,
    commits: Vec<String>,
    target_branch: String,
    tags: TagConfig,
    phase: ApplyPhase,
    position: usize,
    applied: Vec<String>,
    failure: Option<ApplyFailure>,
    new_labels: Vec<String>,
    labels_updated: bool,
    comment_posted: bool,
}

impl DeepView for ApplyRun {
    type V = ApplyRunView;

    closed spec fn deep_view(&self) -> ApplyRunView {
        ApplyRunView {
            number: self.number,
            commits: self.commits.deep_view(),
            target_branch: self.target_branch@,
            pending_tag: self.tags.pending_tag@,
            completed_tag: self.tags.completed_tag@,
            phase: self.phase,
            position: self.position as int,
            applied: self.applied.deep_view(),
            failure: self.failure.deep_view(),
            new_labels: self.new_labels.deep_view(),
            labels_updated: self.labels_updated,
            comment_posted: self.comment_posted,
        }
    }
}

impl ApplyRun {
    /// Starts the run that applies the commits of `pr` onto `target_branch`.
    /// Returns it with the first action, the checkout of the target branch.
    pub fn start(pr: &PrInfo, target_branch: &str, tags: &TagConfig) -> (started: (
        ApplyRun,
        ApplyAction,
    ))
        ensures
            started.0.deep_view() == initial_run(
                pr.number,
                shas_of(pr.deep_view().commits),
                target_branch@,
                tags.deep_view(),
            ),
            started.0.deep_view().wf(),
            started.1.deep_view() == started.0.deep_view().pending(),
    {
        let mut commits: Vec<String> = Vec::new();
        let mut i: usize = 0;
        while i < pr.commits.len()
            invariant
                i <= pr.commits.len(),
                commits@.len() == i,
                forall|j: int| 0 <= j < i ==> commits@[j]@ == pr.commits@[j].sha@,
            decreases pr.commits.len() - i,
        {
            commits.push(pr.commits[i].sha.clone());
            i = i + 1;
        }
        assert(commits.deep_view() =~= shas_of(pr.deep_view().commits));
        let run = ApplyRun {
            number: pr.number,
            commits,
            target_branch: target_branch.to_owned(),
            tags: tags.clone(),
            phase: ApplyPhase::CheckingOut,
            position: 0,
            applied: Vec::new(),
            failure: None,
            new_labels: Vec::new(),
            labels_updated: false,
            comment_posted: false,
        };
        assert(run.applied.deep_view() =~= Seq::<Seq<char>>::empty());
        assert(run.new_labels.deep_view() =~= Seq::<Seq<char>>::empty());
        let action = ApplyAction::Checkout(target_branch.to_owned());
        (run, action)
    }

    /// Where the run stands.
    pub fn phase(&self) -> (phase: ApplyPhase)
        ensures
            phase == self.deep_view().phase,
    {
        self.phase
    }

    /// Whether the run ended with every commit applied.
    pub fn succeeded(&self) -> (success: bool)
        ensures
            success == self.deep_view().succeeded(),
    {
        matches!(self.phase, ApplyPhase::Done) && self.failure.is_none()
    }

    /// Identifiers of the commits created so far, in order.
    pub fn applied_commit_ids(&self) -> (ids: &Vec<String>)
        ensures
            ids.deep_view() == self.deep_view().applied,
    {
        &self.applied
    }

    /// Why the run did not apply every commit, if it did not.
    pub fn failure(&self) -> (failure: &Option<ApplyFailure>)
        ensures
            failure.deep_view() == self.deep_view().failure,
    {
        &self.failure
    }

    /// Whether the new labels were stored.
    pub fn labels_updated(&self) -> (updated: bool)
        ensures
            updated == self.deep_view().labels_updated,
    {
        self.labels_updated
    }

    /// Whether the comment was posted.
    pub fn comment_posted(&self) -> (posted: bool)
        ensures
            posted == self.deep_view().comment_posted,
    {
        self.comment_posted
    }

    /// The action that is outstanding.
    pub fn pending(&self) -> (action: ApplyAction)
        requires
            self.deep_view().wf(),
        ensures
            action.deep_view() == self.deep_view().pending(),
    {
        match self.phase {
            ApplyPhase::CheckingOut => ApplyAction::Checkout(self.target_branch.clone()),
            ApplyPhase::Applying => {
                assert(self.commits.deep_view()[self.position as int]
                    == self.commits@[self.position as int]@);
                ApplyAction::Apply(self.commits[self.position].clone())
            },
            ApplyPhase::FetchingLabels => ApplyAction::FetchLabels(self.number),
            ApplyPhase::StoringLabels => ApplyAction::StoreLabels {
                number: self.number,
                labels: clone_texts(&self.new_labels),
            },
            ApplyPhase::Commenting => ApplyAction::PostComment {
                number: self.number,
                body: cherry_pick_comment(self.target_branch.as_str(), &self.applied),
            },
            ApplyPhase::Done => ApplyAction::Finish,
        }
    }

    fn proceed(&mut self)
        ensures
            final(self).deep_view() == old(self).deep_view().proceed(),
    {
        if self.position < self.commits.len() {
            self.phase = ApplyPhase::Applying;
        } else {
            self.phase = ApplyPhase::FetchingLabels;
        }
    }

    /// Takes in what happened since the last action and returns the next
    /// action. The new state is the model's [`ApplyRunView::next`].
    pub fn step(&mut self, event: ApplyEvent) -> (action: ApplyAction)
        requires
            old(self).deep_view().wf(),
        ensures
            final(self).deep_view() == old(self).deep_view().next(event.deep_view()),
            final(self).deep_view().wf(),
            action.deep_view() == final(self).deep_view().pending(),
    {
        proof {
            lemma_next_wf(self.deep_view(), event.deep_view());
        }
        match self.phase {
            ApplyPhase::CheckingOut => match event {
                ApplyEvent::CheckedOut(Ok(_)) => {
                    self.proceed();
                },
                ApplyEvent::CheckedOut(Err(error)) => {
                    self.failure = Some(ApplyFailure::Checkout(error));
                    self.phase = ApplyPhase::Done;
                },
                _ => {},
            },
            ApplyPhase::Applying => {
                let length = self.commits.len();
                assert(self.position < length);
                assert(self.commits.deep_view()[self.position as int]
                    == self.commits@[self.position as int]@);
                match event {
                    ApplyEvent::Applied(Ok(result)) => {
                        if result.success {
                            let ghost before = self.applied.deep_view();
                            match result.commit_sha {
                                Some(id) => {
                                    self.applied.push(id);
                                    assert(self.applied.deep_view() =~= before.push(id@));
                                },
                                None => {},
                            }
                            self.position = self.position + 1;
                            self.proceed();
                        } else {
                            self.failure = Some(
                                ApplyFailure::Conflict {
                                    commit_sha: self.commits[self.position].clone(),
                                    paths: result.conflicts,
                                },
                            );
                            self.phase = ApplyPhase::Done;
                        }
                    },
                    ApplyEvent::Applied(Err(error)) => {
                        self.failure = Some(
                            ApplyFailure::Commit {
                                commit_sha: self.commits[self.position].clone(),
                                error,
                            },
                        );
                        self.phase = ApplyPhase::Done;
                    },
                    _ => {},
                }
            },
            ApplyPhase::FetchingLabels => match event {
                ApplyEvent::LabelsFetched(Ok(labels)) => {
                    self.new_labels = updated_labels(&labels, &self.tags);
                    self.phase = ApplyPhase::StoringLabels;
                },
                ApplyEvent::LabelsFetched(Err(_)) => {
                    self.phase = ApplyPhase::Commenting;
                },
                _ => {},
            },
            ApplyPhase::StoringLabels => match event {
                ApplyEvent::LabelsStored(outcome) => {
                    self.labels_updated = outcome.is_ok();
                    self.phase = ApplyPhase::Commenting;
                },
                _ => {},
            },
            ApplyPhase::Commenting => match event {
                ApplyEvent::CommentPosted(outcome) => {
                    self.comment_posted = outcome.is_ok();
                    self.phase = ApplyPhase::Done;
                },
                _ => {},
            },
            ApplyPhase::Done => {},
        }
        self.pending()
    }
}

/// The event that a call on the repository gives to a run: what came of it.
pub open spec fn event_of(call: GitCall) -> ApplyEventView {
    match call {
        GitCall::Checkout { switched, .. } => ApplyEventView::CheckedOut(switched),
        GitCall::Apply { applied, .. } => ApplyEventView::Applied(applied),
    }
}

/// The action that a call on the repository carries out.
pub open spec fn request_of(call: GitCall) -> ApplyActionView {
    match call {
        GitCall::Checkout { branch, .. } => ApplyActionView::Checkout(branch),
        GitCall::Apply { commit, .. } => ApplyActionView::Apply(commit),
    }
}

/// The events that a run of calls on the repository gives, in order.
pub open spec fn events_of(calls: Seq<GitCall>) -> Seq<ApplyEventView> {
    Seq::new(calls.len(), |i: int| event_of(calls[i]))
}

/// Every call is the one that the run asked for at that point: the action
/// outstanding after the events of the calls before it.
pub open spec fn driven_by(start: ApplyRunView, calls: Seq<GitCall>) -> bool {
    forall|k: int|
        0 <= k < calls.len() ==> request_of(#[trigger] calls[k]) == start.feed(
            events_of(calls.take(k)),
        ).pending()
}

/// The calls that a journal holds beyond an earlier state of it.
pub open spec fn calls_since(before: Seq<GitCall>, after: Seq<GitCall>) -> Seq<GitCall> {
    after.skip(before.len() as int)
}

/// One more call that the run asked for, answered to the run, keeps the run
/// bound to the calls.
proof fn lemma_one_more_call(start: ApplyRunView, calls: Seq<GitCall>, call: GitCall)
    requires
        driven_by(start, calls),
        request_of(call) == start.feed(events_of(calls)).pending(),
    ensures
        driven_by(start, calls.push(call)),
        start.feed(events_of(calls.push(call))) == start.feed(events_of(calls)).next(
            event_of(call),
        ),
{
    let more = calls.push(call);
    assert(events_of(more).drop_last() =~= events_of(calls));
    assert(events_of(more).last() == event_of(call));
    assert forall|k: int| 0 <= k < more.len() implies request_of(#[trigger] more[k])
        == start.feed(events_of(more.take(k))).pending() by {
        if k < calls.len() {
            assert(more.take(k) =~= calls.take(k));
            assert(more[k] == calls[k]);
        } else {
            assert(more.take(k) =~= calls);
        }
    }
}

/// Applies the commits of `pr` onto `target_branch` in the repository behind
/// `git`: checks out the branch, then applies commit after commit and stops at
/// the first one that conflicts or fails.
///
/// Returns the run once no step on the repository is left, with the action
/// that is then outstanding: the fetch of the labels where every commit was
/// applied, and the end of the run where one was not. The journal of `git`
/// binds the run to the repository: the calls entered since are exactly those
/// that the run asked for, one after the other, and the run is the model's
/// state after what came of them.
pub fn cherry_pick_pr(
    git: &mut GitOperations,
    pr: &PrInfo,
    target_branch: &str,
    tags: &TagConfig,
) -> (started: (ApplyRun, ApplyAction))
    ensures
        started.0.deep_view().wf(),
        started.1.deep_view() == started.0.deep_view().pending(),
        started.0.deep_view().phase == ApplyPhase::FetchingLabels || started.0.deep_view().phase
            == ApplyPhase::Done,
        old(git).journal().is_prefix_of(final(git).journal()),
        driven_by(
            initial_run(
                pr.number,
                shas_of(pr.deep_view().commits),
                target_branch@,
                tags.deep_view(),
            ),
            calls_since(old(git).journal(), final(git).journal()),
        ),
        started.0.deep_view() == initial_run(
            pr.number,
            shas_of(pr.deep_view().commits),
            target_branch@,
            tags.deep_view(),
        ).feed(events_of(calls_since(old(git).journal(), final(git).journal()))),
        !permits(old(git).machine_state(), GitOperation::Checkout) ==> {
            &&& started.0.deep_view().failure == Some(
                ApplyFailureView::Checkout(
                    GitErrorView {
                        kind: GitErrorKind::WrongState,
                        detail: wrong_state_detail(
                            GitOperation::Checkout,
                            old(git).machine_state(),
                        ),
                    },
                ),
            )
            &&& final(git).machine_state() == old(git).machine_state()
        },
        permits(old(git).machine_state(), GitOperation::Checkout) ==> {
            &&& !(started.0.deep_view().failure matches Some(ApplyFailureView::Checkout(error))
                && error.kind == GitErrorKind::WrongState)
            &&& started.0.deep_view().failure is None ==> final(git).machine_state()
                == RepoState::Clean
            &&& (started.0.deep_view().failure matches Some(failure) && failure is Conflict)
                ==> final(git).machine_state() == RepoState::Conflicted
            &&& (started.0.deep_view().failure matches Some(failure) && failure is Checkout)
                ==> final(git).machine_state() == RepoState::Clean
        },
{
    let ghost start = initial_run(
        pr.number,
        shas_of(pr.deep_view().commits),
        target_branch@,
        tags.deep_view(),
    );
    let ghost before = git.journal();
    let ghost mut calls: Seq<GitCall> = Seq::empty();
    let (mut run, mut action) = ApplyRun::start(pr, target_branch, tags);
    assert(before + calls =~= before);
    loop
        invariant
            run.deep_view().wf(),
            action.deep_view() == run.deep_view().pending(),
            before == old(git).journal(),
            git.journal() == before + calls,
            run.deep_view() == start.feed(events_of(calls)),
            driven_by(start, calls),
            run.deep_view().phase != ApplyPhase::StoringLabels,
            run.deep_view().phase != ApplyPhase::Commenting,
            start == initial_run(
                pr.number,
                shas_of(pr.deep_view().commits),
                target_branch@,
                tags.deep_view(),
            ),
            run.deep_view().phase == ApplyPhase::CheckingOut ==> git.machine_state() == old(
                git,
            ).machine_state() && run.deep_view().failure is None,
            !permits(old(git).machine_state(), GitOperation::Checkout) ==> {
                &&& git.machine_state() == old(git).machine_state()
                &&& run.deep_view().phase == ApplyPhase::CheckingOut || (run.deep_view().phase
                    == ApplyPhase::Done && run.deep_view().failure == Some(
                    ApplyFailureView::Checkout(
                        GitErrorView {
                            kind: GitErrorKind::WrongState,
                            detail: wrong_state_detail(
                                GitOperation::Checkout,
                                old(git).machine_state(),
                            ),
                        },
                    ),
                ))
            },
            permits(old(git).machine_state(), GitOperation::Checkout) ==> {
                &&& !(run.deep_view().failure matches Some(ApplyFailureView::Checkout(error))
                    && error.kind == GitErrorKind::WrongState)
                &&& run.deep_view().failure is None ==> git.machine_state() == RepoState::Clean
                &&& (run.deep_view().failure matches Some(failure) && failure is Conflict)
                    ==> git.machine_state() == RepoState::Conflicted
                &&& (run.deep_view().failure matches Some(failure) && failure is Checkout)
                    ==> git.machine_state() == RepoState::Clean
            },
        decreases run.deep_view().local_steps_left(),
    {
        let event = match action {
            ApplyAction::Checkout(branch) => ApplyEvent::CheckedOut(
                git.checkout_branch(branch.as_str()),
            ),
            ApplyAction::Apply(sha) => ApplyEvent::Applied(git.cherry_pick(sha.as_str())),
            other => {
                proof {
                    assert((before + calls).skip(before.len() as int) =~= calls);
                }
                return (run, other);
            },
        };
        proof {
            let call = git.journal().last();
            assert(git.journal() =~= before + calls.push(call));
            assert(event.deep_view() == event_of(call));
            assert(request_of(call) == run.deep_view().pending());
            lemma_one_more_call(start, calls, call);
            lemma_local_step_decreases(run.deep_view(), event.deep_view());
            calls = calls.push(call);
        }
        action = run.step(event);
    }
}

} // verus!
