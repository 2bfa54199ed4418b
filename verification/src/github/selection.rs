//! Selection of qualifying change requests from a paged listing.
//!
//! The listing arrives newest first, page by page. [`Selection`] decides, from
//! each answer of the remote system, what to ask next: it evaluates items in
//! the order given, stops for good at the first item older than the lookback
//! cutoff, and collects the items whose labels qualify. The caller performs the
//! requests; the decisions are here.

use crate::config::{Config, TagConfig, TagConfigView};
use crate::github::{
    check_sprint_pattern, clone_texts, labels_qualify, labels_qualify_spec, pattern_compiles,
    qualifies, CommitInfo, CommitInfoView, PrInfo, PrInfoView, SelectError, Timestamp,
};
use crate::text::{decimal, push_decimal, text_or};
use vstd::prelude::*;
use vstd::string::StringExecFns;

verus! {

/// What a listing reports of one change request. Fields that the remote
/// system may leave out are optional.
#[derive(Debug, PartialEq, Eq)]
pub struct PrSummary {
    pub number: u64,
    pub title: Option<String>,
    pub author: Option<String>,
    pub created_at: Option<Timestamp>,
    pub updated_at: Option<Timestamp>,
    pub head_sha: String,
    pub base_ref: String,
    pub head_ref: String,
}

/// Mathematical value of a [`PrSummary`].
pub struct PrSummaryView {
    pub number: u64,
    pub title: Option<Seq<char>>,
    pub author: Option<Seq<char>>,
    pub created_at: Option<Timestamp>,
    pub updated_at: Option<Timestamp>,
    pub head_sha: Seq<char>,
    pub base_ref: Seq<char>,
    pub head_ref: Seq<char>,
}

impl DeepView for PrSummary {
    type V = PrSummaryView;

    open spec fn deep_view(&self) -> PrSummaryView {
        PrSummaryView {
            number: self.number,
            title: self.title.deep_view(),
            author: self.author.deep_view(),
            created_at: self.created_at,
            updated_at: self.updated_at,
            head_sha: self.head_sha@,
            base_ref: self.base_ref@,
            head_ref: self.head_ref@,
        }
    }
}

/// A copy of an optional text.
pub fn clone_optional_text(text: &Option<String>) -> (copy: Option<String>)
    ensures
        copy.deep_view() == text.deep_view(),
{
    match text {
        Some(text) => Some(text.clone()),
        None => None,
    }
}

impl Clone for PrSummary {
    fn clone(&self) -> (copy: Self)
        ensures
            copy.deep_view() == self.deep_view(),
    {
        PrSummary {
            number: self.number,
            title: clone_optional_text(&self.title),
            author: clone_optional_text(&self.author),
            created_at: self.created_at,
            updated_at: self.updated_at,
            head_sha: self.head_sha.clone(),
            base_ref: self.base_ref.clone(),
            head_ref: self.head_ref.clone(),
        }
    }
}

/// `given` where it is present, else `fallback`.
pub open spec fn instant_or(given: Option<Timestamp>, fallback: Timestamp) -> Timestamp {
    match given {
        Some(instant) => instant,
        None => fallback,
    }
}

/// The instant by which an item is held against the lookback cutoff: its
/// update time, else its creation time, else the time of the run.
pub open spec fn effective_update_time(item: PrSummaryView, now: Timestamp) -> Timestamp {
    instant_or(item.updated_at, instant_or(item.created_at, now))
}

/// The change request that is reported for `item` once its labels qualified.
pub open spec fn pr_info_of(
    item: PrSummaryView,
    labels: Seq<Seq<char>>,
    commits: Seq<CommitInfoView>,
    now: Timestamp,
) -> PrInfoView {
    PrInfoView {
        number: item.number,
        title: text_or(item.title, Seq::empty()),
        author: text_or(item.author, Seq::empty()),
        created_at: instant_or(item.created_at, now),
        updated_at: effective_update_time(item, now),
        labels: labels,
        commits: commits,
        head_sha: item.head_sha,
        base_ref: item.base_ref,
        head_ref: item.head_ref,
    }
}

/// The single commit that stands for a change request when only its head is
/// applied: the head identifier, with the title as message (or `PR #` and the
/// number), the author's login (or `Unknown`) and the creation time.
pub open spec fn head_commit_of(detail: PrSummaryView, now: Timestamp) -> CommitInfoView {
    CommitInfoView {
        sha: detail.head_sha,
        message: text_or(detail.title, "PR #"@ + decimal(detail.number as nat)),
        author: text_or(detail.author, "Unknown"@),
        date: instant_or(detail.created_at, now),
    }
}

impl PrSummary {
    /// The instant by which this item is held against the lookback cutoff.
    pub fn effective_update_time(&self, now: Timestamp) -> (instant: Timestamp)
        ensures
            instant == effective_update_time(self.deep_view(), now),
    {
        match self.updated_at {
            Some(instant) => instant,
            None => match self.created_at {
                Some(instant) => instant,
                None => now,
            },
        }
    }

    /// The head commit of this change request as the one commit to apply.
    pub fn head_commit(&self, now: Timestamp) -> (commit: CommitInfo)
        ensures
            commit.deep_view() == head_commit_of(self.deep_view(), now),
    {
        let message = match &self.title {
            Some(title) => title.clone(),
            None => {
                let mut message = String::from_str("PR #");
                push_decimal(&mut message, self.number);
                message
            },
        };
        let author = match &self.author {
            Some(author) => author.clone(),
            None => String::from_str("Unknown"),
        };
        let date = match self.created_at {
            Some(instant) => instant,
            None => now,
        };
        CommitInfo { sha: self.head_sha.clone(), message, author, date }
    }

    /// Builds the change request reported for this item.
    pub fn to_pr_info(&self, labels: Vec<String>, commits: Vec<CommitInfo>, now: Timestamp) -> (info:
        PrInfo)
        ensures
            info.deep_view() == pr_info_of(
                self.deep_view(),
                labels.deep_view(),
                commits.deep_view(),
                now,
            ),
    {
        let title = match &self.title {
            Some(title) => title.clone(),
            None => String::new(),
        };
        let author = match &self.author {
            Some(author) => author.clone(),
            None => String::new(),
        };
        let created_at = match self.created_at {
            Some(instant) => instant,
            None => now,
        };
        PrInfo {
            number: self.number,
            title,
            author,
            created_at,
            updated_at: self.effective_update_time(now),
            labels,
            commits,
            head_sha: self.head_sha.clone(),
            base_ref: self.base_ref.clone(),
            head_ref: self.head_ref.clone(),
        }
    }
}

/// What the remote system answered to the last request.
#[derive(Debug, PartialEq, Eq)]
pub enum SelectionEvent {
    /// A page of the listing, and whether another page follows it.
    Page { items: Vec<PrSummary>, has_next: bool },
    /// The labels of the item asked about.
    Labels(Vec<String>),
    /// The commits of the item asked about.
    Commits(Vec<CommitInfo>),
    /// The request failed; the text is the underlying cause.
    RemoteError(String),
}

/// Mathematical value of a [`SelectionEvent`].
pub enum SelectionEventView {
    Page { items: Seq<PrSummaryView>, has_next: bool },
    Labels(Seq<Seq<char>>),
    Commits(Seq<CommitInfoView>),
    RemoteError(Seq<char>),
}

impl DeepView for SelectionEvent {
    type V = SelectionEventView;

    open spec fn deep_view(&self) -> SelectionEventView {
        match self {
            SelectionEvent::Page { items, has_next } => SelectionEventView::Page {
                items: items.deep_view(),
                has_next: *has_next,
            },
            SelectionEvent::Labels(labels) => SelectionEventView::Labels(labels.deep_view()),
            SelectionEvent::Commits(commits) => SelectionEventView::Commits(commits.deep_view()),
            SelectionEvent::RemoteError(cause) => SelectionEventView::RemoteError(cause@),
        }
    }
}

/// What the caller is to do next.
#[derive(Debug, Clone, Copy, PartialEq, Eq)]
pub enum SelectionAction {
    /// Fetch the first page of the listing, newest update first.
    FetchFirstPage,
    /// Fetch the page after the last one.
    FetchNextPage,
    /// Fetch the labels of the change request with this number.
    FetchLabels(u64),
    /// Fetch the commits of the change request with this number.
    FetchCommits(u64),
    /// The selection is complete.
    Done,
    /// The selection failed.
    Abort,
}

/// Where a selection stands.
#[derive(Debug, Clone, Copy, PartialEq, Eq)]
pub enum SelectionPhase {
    AwaitingFirstPage,
    AwaitingNextPage,
    AwaitingLabels,
    AwaitingCommits,
    Finished,
    Failed,
}

/// Mathematical value of a [`SelectError`]: its kind, and the cause where the
/// remote system gave one.
pub enum SelectErrorView {
    InvalidPattern,
    Remote(Seq<char>),
}

impl DeepView for SelectError {
    type V = SelectErrorView;

    open spec fn deep_view(&self) -> SelectErrorView {
        match self {
            SelectError::InvalidPattern(_) => SelectErrorView::InvalidPattern,
            SelectError::Remote(cause) => SelectErrorView::Remote(cause@),
        }
    }
}

/// One item of the listing whose evaluation is complete: the item, the labels
/// that were fetched for it, and the commits that were fetched where the
/// labels qualified.
pub struct Evaluated {
    pub item: PrSummaryView,
    pub labels: Seq<Seq<char>>,
    pub commits: Option<Seq<CommitInfoView>>,
}

/// The change requests collected from a run of evaluated items: one for each
/// item with commits, in the order of the listing.
pub open spec fn selected(evaluated: Seq<Evaluated>, now: Timestamp) -> Seq<PrInfoView>
    decreases evaluated.len(),
{
    if evaluated.len() == 0 {
        Seq::empty()
    } else {
        let earlier = selected(evaluated.drop_last(), now);
        let last = evaluated.last();
        match last.commits {
            Some(commits) => earlier.push(pr_info_of(last.item, last.labels, commits, now)),
            None => earlier,
        }
    }
}

/// Mathematical value of a [`Selection`]: what it holds, and the history of
/// what it received and evaluated.
pub struct SelectionView {
    pub tags: TagConfigView,
    pub now: Timestamp,
    pub cutoff: Timestamp,
    pub phase: SelectionPhase,
    /// The page under evaluation.
    pub page: Seq<PrSummaryView>,
    /// Index in `page` of the item under evaluation, or of the next one.
    pub index: int,
    /// Whether a page follows `page`.
    pub more_pages: bool,
    /// Labels of the item under evaluation, once they qualified.
    pub labels: Seq<Seq<char>>,
    /// The change requests collected so far.
    pub matching: Seq<PrInfoView>,
    pub error: Option<SelectErrorView>,
    /// Every item received so far, in the order of the listing.
    pub received: Seq<PrSummaryView>,
    /// The items whose evaluation is complete: a prefix of `received`.
    pub evaluated: Seq<Evaluated>,
}

impl SelectionView {
    /// The item under evaluation.
    pub open spec fn current(self) -> PrSummaryView {
        self.page[self.index]
    }

    /// The request that is outstanding in this state.
    pub open spec fn pending(self) -> SelectionAction {
        match self.phase {
            SelectionPhase::AwaitingFirstPage => SelectionAction::FetchFirstPage,
            SelectionPhase::AwaitingNextPage => SelectionAction::FetchNextPage,
            SelectionPhase::AwaitingLabels => SelectionAction::FetchLabels(self.current().number),
            SelectionPhase::AwaitingCommits => SelectionAction::FetchCommits(
                self.current().number,
            ),
            SelectionPhase::Finished => SelectionAction::Done,
            SelectionPhase::Failed => SelectionAction::Abort,
        }
    }

    /// Whether a request is outstanding.
    pub open spec fn awaiting(self) -> bool {
        self.phase != SelectionPhase::Finished && self.phase != SelectionPhase::Failed
    }

    /// Turns to the item at `index`: an item older than the cutoff ends the
    /// whole selection, any other item has its labels fetched; past the end of
    /// the page the next page is fetched, if there is one.
    pub open spec fn advance(self) -> SelectionView {
        if self.index < self.page.len() {
            if effective_update_time(self.current(), self.now).precedes(self.cutoff) {
                SelectionView { phase: SelectionPhase::Finished, ..self }
            } else {
                SelectionView { phase: SelectionPhase::AwaitingLabels, ..self }
            }
        } else if self.more_pages {
            SelectionView { phase: SelectionPhase::AwaitingNextPage, ..self }
        } else {
            SelectionView { phase: SelectionPhase::Finished, ..self }
        }
    }

    /// The state after a failure.
    pub open spec fn fail(self, error: SelectErrorView) -> SelectionView {
        SelectionView { phase: SelectionPhase::Failed, error: Some(error), ..self }
    }

    /// The state after `event`. An event that does not answer the outstanding
    /// request changes nothing.
    pub open spec fn next(self, event: SelectionEventView) -> SelectionView {
        if !self.awaiting() {
            self
        } else {
            match event {
                SelectionEventView::RemoteError(cause) => self.fail(SelectErrorView::Remote(cause)),
                SelectionEventView::Page { items, has_next } => {
                    if self.phase == SelectionPhase::AwaitingFirstPage || self.phase
                        == SelectionPhase::AwaitingNextPage {
                        SelectionView {
                            page: items,
                            index: 0,
                            more_pages: has_next,
                            received: self.received + items,
                            ..self
                        }.advance()
                    } else {
                        self
                    }
                },
                SelectionEventView::Labels(labels) => {
                    if self.phase == SelectionPhase::AwaitingLabels {
                        match labels_qualify_spec(labels, self.tags) {
                            None => self.fail(SelectErrorView::InvalidPattern),
                            Some(false) => SelectionView {
                                index: self.index + 1,
                                evaluated: self.evaluated.push(
                                    Evaluated { item: self.current(), labels: labels, commits: None },
                                ),
                                ..self
                            }.advance(),
                            Some(true) => SelectionView {
                                phase: SelectionPhase::AwaitingCommits,
                                labels: labels,
                                ..self
                            },
                        }
                    } else {
                        self
                    }
                },
                SelectionEventView::Commits(commits) => {
                    if self.phase == SelectionPhase::AwaitingCommits {
                        SelectionView {
                            index: self.index + 1,
                            matching: self.matching.push(
                                pr_info_of(self.current(), self.labels, commits, self.now),
                            ),
                            evaluated: self.evaluated.push(
                                Evaluated {
                                    item: self.current(),
                                    labels: self.labels,
                                    commits: Some(commits),
                                },
                            ),
                            ..self
                        }.advance()
                    } else {
                        self
                    }
                },
            }
        }
    }

    /// The invariant of a selection.
    pub open spec fn wf(self) -> bool {
        &&& 0 <= self.index <= self.page.len() <= self.received.len()
        &&& self.received.skip(self.received.len() - self.page.len()) == self.page
        &&& self.evaluated.len() == self.received.len() - self.page.len() + self.index
        &&& forall|i: int|
            0 <= i < self.evaluated.len() ==> {
                &&& (#[trigger] self.evaluated[i]).item == self.received[i]
                &&& !effective_update_time(self.received[i], self.now).precedes(self.cutoff)
                &&& (self.evaluated[i].commits is Some <==> qualifies(
                    self.evaluated[i].labels,
                    self.tags,
                ))
            }
        &&& self.matching == selected(self.evaluated, self.now)
        &&& match self.phase {
            SelectionPhase::AwaitingFirstPage => self.received.len() == 0,
            SelectionPhase::AwaitingNextPage => self.index == self.page.len(),
            SelectionPhase::AwaitingLabels => {
                &&& self.index < self.page.len()
                &&& !effective_update_time(self.current(), self.now).precedes(self.cutoff)
            },
            SelectionPhase::AwaitingCommits => {
                &&& self.index < self.page.len()
                &&& !effective_update_time(self.current(), self.now).precedes(self.cutoff)
                &&& qualifies(self.labels, self.tags)
            },
            SelectionPhase::Finished => {
                ||| self.index < self.page.len() && effective_update_time(
                    self.current(),
                    self.now,
                ).precedes(self.cutoff)
                ||| self.index == self.page.len() && !self.more_pages
            },
            SelectionPhase::Failed => self.error is Some,
        }
    }
}

/// The state in which a selection starts: it awaits the first page, unless the
/// sprint-tag pattern does not compile, which fails it before any request.
pub open spec fn initial(tags: TagConfigView, now: Timestamp, days_back: u32) -> SelectionView {
    SelectionView {
        tags: tags,
        now: now,
        cutoff: now.days_earlier(days_back),
        phase: if pattern_compiles(tags.sprint_pattern) {
            SelectionPhase::AwaitingFirstPage
        } else {
            SelectionPhase::Failed
        },
        page: Seq::empty(),
        index: 0,
        more_pages: false,
        labels: Seq::empty(),
        matching: Seq::empty(),
        error: if pattern_compiles(tags.sprint_pattern) {
            None
        } else {
            Some(SelectErrorView::InvalidPattern)
        },
        received: Seq::empty(),
        evaluated: Seq::empty(),
    }
}

/// A selection starts in a state that meets the invariant.
pub proof fn lemma_initial_wf(tags: TagConfigView, now: Timestamp, days_back: u32)
    ensures
        initial(tags, now, days_back).wf(),
{
    let s = initial(tags, now, days_back);
    assert(s.received.skip(0) =~= s.page);
}

/// Turning to the next item keeps the invariant, given everything but the
/// clause on the phase.
proof fn lemma_advance_wf(s: SelectionView)
    requires
        0 <= s.index <= s.page.len() <= s.received.len(),
        s.received.skip(s.received.len() - s.page.len()) == s.page,
        s.evaluated.len() == s.received.len() - s.page.len() + s.index,
        forall|i: int|
            0 <= i < s.evaluated.len() ==> {
                &&& (#[trigger] s.evaluated[i]).item == s.received[i]
                &&& !effective_update_time(s.received[i], s.now).precedes(s.cutoff)
                &&& (s.evaluated[i].commits is Some <==> qualifies(s.evaluated[i].labels, s.tags))
            },
        s.matching == selected(s.evaluated, s.now),
    ensures
        s.advance().wf(),
{
}

/// Every event keeps the invariant.
pub proof fn lemma_next_wf(s: SelectionView, event: SelectionEventView)
    requires
        s.wf(),
    ensures
        s.next(event).wf(),
{
    if s.awaiting() {
        let base = s.received.len() - s.page.len();
        match event {
            SelectionEventView::RemoteError(cause) => {},
            SelectionEventView::Page { items, has_next } => {
                if s.phase == SelectionPhase::AwaitingFirstPage || s.phase
                    == SelectionPhase::AwaitingNextPage {
                    let t = SelectionView {
                        page: items,
                        index: 0,
                        more_pages: has_next,
                        received: s.received + items,
                        ..s
                    };
                    assert(t.received.skip(t.received.len() - t.page.len()) =~= t.page);
                    assert forall|i: int| 0 <= i < t.evaluated.len() implies {
                        &&& (#[trigger] t.evaluated[i]).item == t.received[i]
                        &&& !effective_update_time(t.received[i], t.now).precedes(t.cutoff)
                        &&& (t.evaluated[i].commits is Some <==> qualifies(
                            t.evaluated[i].labels,
                            t.tags,
                        ))
                    } by {
                        assert(t.received[i] == s.received[i]);
                    }
                    lemma_advance_wf(t);
                }
            },
            SelectionEventView::Labels(labels) => {
                if s.phase == SelectionPhase::AwaitingLabels {
                    match labels_qualify_spec(labels, s.tags) {
                        None => {},
                        Some(false) => {
                            let record = Evaluated {
                                item: s.current(),
                                labels: labels,
                                commits: None,
                            };
                            let t = SelectionView {
                                index: s.index + 1,
                                evaluated: s.evaluated.push(record),
                                ..s
                            };
                            assert(s.page[s.index] == s.received[base + s.index]);
                            assert(t.evaluated.drop_last() =~= s.evaluated);
                            lemma_advance_wf(t);
                        },
                        Some(true) => {},
                    }
                }
            },
            SelectionEventView::Commits(commits) => {
                if s.phase == SelectionPhase::AwaitingCommits {
                    let record = Evaluated {
                        item: s.current(),
                        labels: s.labels,
                        commits: Some(commits),
                    };
                    let t = SelectionView {
                        index: s.index + 1,
                        matching: s.matching.push(
                            pr_info_of(s.current(), s.labels, commits, s.now),
                        ),
                        evaluated: s.evaluated.push(record),
                        ..s
                    };
                    assert(s.page[s.index] == s.received[base + s.index]);
                    assert(t.evaluated.drop_last() =~= s.evaluated);
                    lemma_advance_wf(t);
                }
            },
        }
    }
}

/// The change request reported for an evaluated item whose labels qualified.
pub open spec fn reported(record: Evaluated, now: Timestamp) -> PrInfoView {
    pr_info_of(record.item, record.labels, record.commits->0, now)
}

/// `info` is the change request reported for one of the evaluated items.
pub open spec fn comes_from(info: PrInfoView, evaluated: Seq<Evaluated>, now: Timestamp) -> bool {
    exists|i: int|
        0 <= i < evaluated.len() && (#[trigger] evaluated[i]).commits is Some && info == reported(
            evaluated[i],
            now,
        )
}

/// What was collected holds the change request of every evaluated item with
/// commits, and nothing else: none is passed over and none is made up.
pub proof fn lemma_selected_members(evaluated: Seq<Evaluated>, now: Timestamp)
    ensures
        selected(evaluated, now).len() <= evaluated.len(),
        forall|i: int|
            0 <= i < evaluated.len() && (#[trigger] evaluated[i]).commits is Some ==> selected(
                evaluated,
                now,
            ).contains(reported(evaluated[i], now)),
        forall|k: int|
            0 <= k < selected(evaluated, now).len() ==> comes_from(
                #[trigger] selected(evaluated, now)[k],
                evaluated,
                now,
            ),
    decreases evaluated.len(),
{
    if evaluated.len() > 0 {
        let front = evaluated.drop_last();
        let last = evaluated.last();
        let all = selected(evaluated, now);
        let earlier = selected(front, now);
        lemma_selected_members(front, now);
        assert forall|i: int|
            0 <= i < evaluated.len() && (#[trigger] evaluated[i]).commits is Some implies all.contains(
            reported(evaluated[i], now),
        ) by {
            if i < front.len() {
                assert(front[i] == evaluated[i]);
                assert(earlier.contains(reported(front[i], now)));
                let k = choose|k: int|
                    0 <= k < earlier.len() && earlier[k] == reported(front[i], now);
                assert(all[k] == reported(evaluated[i], now));
            } else {
                assert(all[all.len() - 1] == reported(last, now));
            }
        }
        assert forall|k: int| 0 <= k < all.len() implies comes_from(
            #[trigger] all[k],
            evaluated,
            now,
        ) by {
            if k < earlier.len() {
                assert(all[k] == earlier[k]);
                assert(comes_from(earlier[k], front, now));
                let i = choose|i: int|
                    0 <= i < front.len() && (#[trigger] front[i]).commits is Some && earlier[k]
                        == reported(front[i], now);
                assert(evaluated[i] == front[i]);
            } else {
                assert(evaluated[evaluated.len() - 1] == last);
            }
        }
    }
}

/// The items of a listing come in the order of their update times, newest
/// first: no item is newer than one before it.
pub open spec fn newest_first(items: Seq<PrSummaryView>, now: Timestamp) -> bool {
    forall|i: int, j: int|
        0 <= i < j < items.len() ==> !effective_update_time(items[i], now).precedes(
            effective_update_time(items[j], now),
        )
}

/// Early stop. On a listing that comes newest first, a finished selection has
/// evaluated exactly the received items that are not older than the cutoff: no
/// older item was evaluated, and no item within the lookback window was
/// passed over. What it collected is, in order, every evaluated item whose
/// labels qualify.
pub proof fn lemma_finished_selection(s: SelectionView)
    requires
        s.wf(),
        s.phase == SelectionPhase::Finished,
        newest_first(s.received, s.now),
    ensures
        forall|i: int|
            0 <= i < s.received.len() ==> (i < s.evaluated.len() <==> !effective_update_time(
                #[trigger] s.received[i],
                s.now,
            ).precedes(s.cutoff)),
        s.matching == selected(s.evaluated, s.now),
        forall|i: int|
            0 <= i < s.evaluated.len() ==> ((#[trigger] s.evaluated[i]).commits is Some
                <==> qualifies(s.evaluated[i].labels, s.tags)),
        forall|i: int|
            0 <= i < s.evaluated.len() && qualifies((#[trigger] s.evaluated[i]).labels, s.tags)
                ==> s.matching.contains(reported(s.evaluated[i], s.now)),
{
    lemma_selected_members(s.evaluated, s.now);
    let base = s.received.len() - s.page.len();
    let stop = s.evaluated.len() as int;
    assert forall|i: int| 0 <= i < s.received.len() implies (i < stop
        <==> !effective_update_time(#[trigger] s.received[i], s.now).precedes(s.cutoff)) by {
        if i < stop {
            assert(s.evaluated[i].item == s.received[i]);
        } else {
            assert(stop < s.received.len());
            assert(s.index < s.page.len());
            assert(s.page[s.index] == s.received[base + s.index]);
            assert(effective_update_time(s.received[stop], s.now).precedes(s.cutoff));
            if i > stop {
                assert(!effective_update_time(s.received[stop], s.now).precedes(
                    effective_update_time(s.received[i], s.now),
                ));
            }
        }
    }
}

/// The early stop ends the whole scan, not only the page: a selection that
/// is finished or failed stays as it is and asks for nothing further,
/// whatever arrives.
pub proof fn lemma_ended_selection_is_final(s: SelectionView, event: SelectionEventView)
    requires
        !s.awaiting(),
    ensures
        s.next(event) == s,
        s.pending() == SelectionAction::Done || s.pending() == SelectionAction::Abort,
{
}

/// At every moment, every item evaluated so far is within the lookback
/// window, and so is the item whose labels or commits are being fetched.
pub proof fn lemma_never_evaluates_older(s: SelectionView)
    requires
        s.wf(),
    ensures
        forall|i: int|
            0 <= i < s.evaluated.len() ==> !effective_update_time(
                (#[trigger] s.evaluated[i]).item,
                s.now,
            ).precedes(s.cutoff),
        s.pending() is FetchLabels || s.pending() is FetchCommits ==> !effective_update_time(
            s.current(),
            s.now,
        ).precedes(s.cutoff),
{
}

/// A selection in progress.
pub struct Selection {
    tags: TagConfig,
    now: Timestamp,
    cutoff: Timestamp,
    phase: SelectionPhase,
    page: Vec<PrSummary>,
    index: usize,
    more_pages: bool,
    labels: Vec<String>,
    matching: Vec<PrInfo>,
    error: Option<SelectError>,
    received: Ghost<Seq<PrSummaryView>>,
    evaluated: Ghost<Seq<Evaluated>>,
}

impl DeepView for Selection {
    type V = SelectionView;

    closed spec fn deep_view(&self) -> SelectionView {
        SelectionView {
            tags: self.tags.deep_view(),
            now: self.now,
            cutoff: self.cutoff,
            phase: self.phase,
            page: self.page.deep_view(),
            index: self.index as int,
            more_pages: self.more_pages,
            labels: self.labels.deep_view(),
            matching: self.matching.deep_view(),
            error: self.error.deep_view(),
            received: self.received@,
            evaluated: self.evaluated@,
        }
    }
}

impl Selection {
    /// Starts a selection over the change requests updated within the last
    /// `config.ui.days_back` days before `now`. Returns it with the first
    /// request to make; a sprint-tag pattern that does not compile fails the
    /// selection here, before any request.
    pub fn start(config: &Config, now: Timestamp) -> (started: (Selection, SelectionAction))
        ensures
            started.0.deep_view() == initial(config.tags.deep_view(), now, config.ui.days_back),
            started.0.deep_view().wf(),
            started.1 == started.0.deep_view().pending(),
    {
        let checked = check_sprint_pattern(config.tags.sprint_pattern.as_str());
        let (phase, error, action) = match checked {
            Ok(()) => (SelectionPhase::AwaitingFirstPage, None, SelectionAction::FetchFirstPage),
            Err(error) => (SelectionPhase::Failed, Some(error), SelectionAction::Abort),
        };
        let selection = Selection {
            tags: config.tags.clone(),
            now,
            cutoff: now.minus_days(config.ui.days_back),
            phase,
            page: Vec::new(),
            index: 0,
            more_pages: false,
            labels: Vec::new(),
            matching: Vec::new(),
            error,
            received: Ghost(Seq::empty()),
            evaluated: Ghost(Seq::empty()),
        };
        proof {
            lemma_initial_wf(config.tags.deep_view(), now, config.ui.days_back);
            assert(selection.page.deep_view() =~= Seq::<PrSummaryView>::empty());
            assert(selection.labels.deep_view() =~= Seq::<Seq<char>>::empty());
            assert(selection.matching.deep_view() =~= Seq::<PrInfoView>::empty());
        }
        (selection, action)
    }

    /// Where the selection stands.
    pub fn phase(&self) -> (phase: SelectionPhase)
        ensures
            phase == self.deep_view().phase,
    {
        self.phase
    }

    /// The request that is outstanding.
    pub fn pending(&self) -> (action: SelectionAction)
        requires
            self.deep_view().wf(),
        ensures
            action == self.deep_view().pending(),
    {
        match self.phase {
            SelectionPhase::AwaitingFirstPage => SelectionAction::FetchFirstPage,
            SelectionPhase::AwaitingNextPage => SelectionAction::FetchNextPage,
            SelectionPhase::AwaitingLabels => SelectionAction::FetchLabels(
                self.page[self.index].number,
            ),
            SelectionPhase::AwaitingCommits => SelectionAction::FetchCommits(
                self.page[self.index].number,
            ),
            SelectionPhase::Finished => SelectionAction::Done,
            SelectionPhase::Failed => SelectionAction::Abort,
        }
    }

    fn advance(&mut self)
        requires
            old(self).index <= old(self).page@.len(),
        ensures
            final(self).deep_view() == old(self).deep_view().advance(),
    {
        if self.index < self.page.len() {
            let instant = self.page[self.index].effective_update_time(self.now);
            if instant.is_before(&self.cutoff) {
                self.phase = SelectionPhase::Finished;
            } else {
                self.phase = SelectionPhase::AwaitingLabels;
            }
        } else if self.more_pages {
            self.phase = SelectionPhase::AwaitingNextPage;
        } else {
            self.phase = SelectionPhase::Finished;
        }
    }

    /// Takes in the answer to the outstanding request and returns the next
    /// request. The new state is the model's [`SelectionView::next`]; an
    /// answer to a request that is not outstanding changes nothing.
    pub fn step(&mut self, event: SelectionEvent) -> (action: SelectionAction)
        requires
            old(self).deep_view().wf(),
        ensures
            final(self).deep_view() == old(self).deep_view().next(event.deep_view()),
            final(self).deep_view().wf(),
            action == final(self).deep_view().pending(),
    {
        proof {
            lemma_next_wf(self.deep_view(), event.deep_view());
        }
        let awaiting = match self.phase {
            SelectionPhase::Finished => false,
            SelectionPhase::Failed => false,
            _ => true,
        };
        if awaiting {
            match event {
                SelectionEvent::RemoteError(cause) => {
                    self.phase = SelectionPhase::Failed;
                    self.error = Some(SelectError::Remote(cause));
                },
                SelectionEvent::Page { items, has_next } => {
                    let expected = match self.phase {
                        SelectionPhase::AwaitingFirstPage => true,
                        SelectionPhase::AwaitingNextPage => true,
                        _ => false,
                    };
                    if expected {
                        self.received = Ghost(self.received@ + items.deep_view());
                        self.page = items;
                        self.index = 0;
                        self.more_pages = has_next;
                        self.advance();
                    }
                },
                SelectionEvent::Labels(labels) => {
                    let expected = match self.phase {
                        SelectionPhase::AwaitingLabels => true,
                        _ => false,
                    };
                    if expected {
                        let length = self.page.len();
                        assert(self.index < length) by {
                            assert(self.deep_view().index < self.deep_view().page.len());
                        }
                        match labels_qualify(&self.tags, &labels) {
                            Err(error) => {
                                self.phase = SelectionPhase::Failed;
                                self.error = Some(error);
                            },
                            Ok(false) => {
                                self.evaluated = Ghost(
                                    self.evaluated@.push(
                                        Evaluated {
                                            item: self.page[self.index as int].deep_view(),
                                            labels: labels.deep_view(),
                                            commits: None,
                                        },
                                    ),
                                );
                                self.index = self.index + 1;
                                self.advance();
                            },
                            Ok(true) => {
                                self.phase = SelectionPhase::AwaitingCommits;
                                self.labels = labels;
                            },
                        }
                    }
                },
                SelectionEvent::Commits(commits) => {
                    let expected = match self.phase {
                        SelectionPhase::AwaitingCommits => true,
                        _ => false,
                    };
                    if expected {
                        let length = self.page.len();
                        assert(self.index < length) by {
                            assert(self.deep_view().index < self.deep_view().page.len());
                        }
                        let ghost before = self.matching.deep_view();
                        let labels = clone_texts(&self.labels);
                        self.evaluated = Ghost(
                            self.evaluated@.push(
                                Evaluated {
                                    item: self.page[self.index as int].deep_view(),
                                    labels: self.labels.deep_view(),
                                    commits: Some(commits.deep_view()),
                                },
                            ),
                        );
                        let info = self.page[self.index].to_pr_info(labels, commits, self.now);
                        self.matching.push(info);
                        assert(self.matching.deep_view() =~= before.push(info.deep_view()));
                        self.index = self.index + 1;
                        self.advance();
                    }
                },
            }
        }
        self.pending()
    }

    /// Ends the selection. A finished selection yields the change requests it
    /// collected; a failed one yields its error, and what it had collected is
    /// dropped. While a request is outstanding there is no outcome yet.
    pub fn outcome(self) -> (outcome: Option<Result<Vec<PrInfo>, SelectError>>)
        requires
            self.deep_view().wf(),
        ensures
            match outcome {
                Some(Ok(list)) => self.deep_view().phase == SelectionPhase::Finished
                    && list.deep_view() == self.deep_view().matching,
                Some(Err(error)) => self.deep_view().phase == SelectionPhase::Failed && Some(
                    error.deep_view(),
                ) == self.deep_view().error,
                None => self.deep_view().awaiting(),
            },
    {
        match self.phase {
            SelectionPhase::Finished => Some(Ok(self.matching)),
            SelectionPhase::Failed => match self.error {
                Some(error) => Some(Err(error)),
                None => None,
            },
            _ => None,
        }
    }
}

} // verus!
