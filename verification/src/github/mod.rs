//! Change requests as the engine sees them: the value types taken in from the
//! remote system, the rule that decides which of them qualify, and the label
//! and comment updates that follow a successful application.

pub mod commit;
pub mod selection;

pub use crate::github::commit::{CommitInfo, CommitInfoView};

use crate::config::{Config, TagConfig, TagConfigView};
use crate::text::text_or;
use crate::util::{short_sha, short_sha_spec};
use vstd::prelude::*;
use vstd::string::StringExecFns;

verus! {

/// An instant on the UTC time line: seconds since the Unix epoch and the
/// nanoseconds within that second. Instants are ordered by the pair.
#[derive(Debug, Clone, Copy, PartialEq, Eq)]
pub struct Timestamp {
    pub secs: i64,
    pub nanos: u32,
}

/// Seconds in a day.
pub const SECONDS_PER_DAY: i64 = 86_400;

impl Timestamp {
    /// `self` is strictly earlier than `other`.
    pub open spec fn precedes(self, other: Timestamp) -> bool {
        self.secs < other.secs || (self.secs == other.secs && self.nanos < other.nanos)
    }

    /// The instant `days` days before `self`, held at the earliest
    /// representable second where the subtraction would pass it.
    pub open spec fn days_earlier(self, days: u32) -> Timestamp {
        let secs = self.secs - days * 86_400;
        Timestamp {
            secs: if secs < i64::MIN {
                i64::MIN
            } else {
                secs as i64
            },
            nanos: self.nanos,
        }
    }

    /// Tests whether `self` is strictly earlier than `other`.
    pub fn is_before(&self, other: &Timestamp) -> (earlier: bool)
        ensures
            earlier == self.precedes(*other),
    {
        self.secs < other.secs || (self.secs == other.secs && self.nanos < other.nanos)
    }

    /// The instant `days` days before this one.
    pub fn minus_days(&self, days: u32) -> (earlier: Timestamp)
        ensures
            earlier == self.days_earlier(days),
    {
        let span: i64 = (days as i64) * SECONDS_PER_DAY;
        let secs = match self.secs.checked_sub(span) {
            Some(secs) => secs,
            None => i64::MIN,
        };
        Timestamp { secs, nanos: self.nanos }
    }
}

/// Instants are strictly ordered: none precedes itself, the order is
/// transitive, and of two different instants one precedes the other.
pub proof fn lemma_instants_are_ordered(a: Timestamp, b: Timestamp, c: Timestamp)
    ensures
        !a.precedes(a),
        a.precedes(b) && b.precedes(c) ==> a.precedes(c),
        a.precedes(b) ==> !b.precedes(a),
        a != b ==> a.precedes(b) || b.precedes(a),
        !a.precedes(b) && !b.precedes(c) ==> !a.precedes(c),
{
}

/// Looking back further never yields a later instant, and looking back no
/// day yields the instant itself.
pub proof fn lemma_days_earlier(now: Timestamp, days: u32, more: u32)
    requires
        days <= more,
    ensures
        now.days_earlier(0) == now,
        !now.precedes(now.days_earlier(days)),
        !now.days_earlier(days).precedes(now.days_earlier(more)),
{
}

/// A change request that qualified, with its labels and commits.
#[derive(Debug, PartialEq, Eq)]
pub struct PrInfo {
    pub number: u64,
    pub title: String,
    pub author: String,
    pub created_at: Timestamp,
    pub updated_at: Timestamp,
    pub labels: Vec<String>,
    pub commits: Vec<CommitInfo>,
    pub head_sha: String,
    pub base_ref: String,
    pub head_ref: String,
}

/// An organization that the authenticated user belongs to.
#[derive(Debug, PartialEq, Eq)]
pub struct OrganizationInfo {
    pub login: String,
    pub name: String,
    pub description: String,
}

/// A repository that the authenticated user can reach.
#[derive(Debug, PartialEq, Eq)]
pub struct RepositoryInfo {
    pub name: String,
    pub full_name: String,
    pub owner: String,
    pub description: String,
    pub default_branch: String,
    pub private: bool,
    pub fork: bool,
    pub stargazers_count: u32,
    pub forks_count: u32,
    pub language: Option<String>,
}

/// The authenticated user.
#[derive(Debug, PartialEq, Eq)]
pub struct UserInfo {
    pub login: String,
    pub name: String,
    pub email: String,
}

/// Mathematical value of a [`PrInfo`].
pub struct PrInfoView {
    pub number: u64,
    pub title: Seq<char>,
    pub author: Seq<char>,
    pub created_at: Timestamp,
    pub updated_at: Timestamp,
    pub labels: Seq<Seq<char>>,
    pub commits: Seq<CommitInfoView>,
    pub head_sha: Seq<char>,
    pub base_ref: Seq<char>,
    pub head_ref: Seq<char>,
}

/// Mathematical value of an [`OrganizationInfo`].
pub struct OrganizationInfoView {
    pub login: Seq<char>,
    pub name: Seq<char>,
    pub description: Seq<char>,
}

/// Mathematical value of a [`RepositoryInfo`].
pub struct RepositoryInfoView {
    pub name: Seq<char>,
    pub full_name: Seq<char>,
    pub owner: Seq<char>,
    pub description: Seq<char>,
    pub default_branch: Seq<char>,
    pub private: bool,
    pub fork: bool,
    pub stargazers_count: u32,
    pub forks_count: u32,
    pub language: Option<Seq<char>>,
}

/// Mathematical value of a [`UserInfo`].
pub struct UserInfoView {
    pub login: Seq<char>,
    pub name: Seq<char>,
    pub email: Seq<char>,
}

impl DeepView for PrInfo {
    type V = PrInfoView;

    open spec fn deep_view(&self) -> PrInfoView {
        PrInfoView {
            number: self.number,
            title: self.title@,
            author: self.author@,
            created_at: self.created_at,
            updated_at: self.updated_at,
            labels: self.labels.deep_view(),
            commits: self.commits.deep_view(),
            head_sha: self.head_sha@,
            base_ref: self.base_ref@,
            head_ref: self.head_ref@,
        }
    }
}

impl DeepView for OrganizationInfo {
    type V = OrganizationInfoView;

    open spec fn deep_view(&self) -> OrganizationInfoView {
        OrganizationInfoView {
            login: self.login@,
            name: self.name@,
            description: self.description@,
        }
    }
}

impl DeepView for RepositoryInfo {
    type V = RepositoryInfoView;

    open spec fn deep_view(&self) -> RepositoryInfoView {
        RepositoryInfoView {
            name: self.name@,
            full_name: self.full_name@,
            owner: self.owner@,
            description: self.description@,
            default_branch: self.default_branch@,
            private: self.private,
            fork: self.fork,
            stargazers_count: self.stargazers_count,
            forks_count: self.forks_count,
            language: self.language.deep_view(),
        }
    }
}

impl DeepView for UserInfo {
    type V = UserInfoView;

    open spec fn deep_view(&self) -> UserInfoView {
        UserInfoView { login: self.login@, name: self.name@, email: self.email@ }
    }
}

/// A copy of a list of texts.
pub fn clone_texts(texts: &Vec<String>) -> (copy: Vec<String>)
    ensures
        copy.deep_view() == texts.deep_view(),
{
    let mut copy: Vec<String> = Vec::new();
    let mut i: usize = 0;
    while i < texts.len()
        invariant
            i <= texts.len(),
            copy@.len() == i,
            forall|j: int| 0 <= j < i ==> copy@[j].deep_view() == texts@[j].deep_view(),
        decreases texts.len() - i,
    {
        copy.push(texts[i].clone());
        i = i + 1;
    }
    assert(copy.deep_view() =~= texts.deep_view());
    copy
}

/// A copy of a list of commits.
pub fn clone_commits(commits: &Vec<CommitInfo>) -> (copy: Vec<CommitInfo>)
    ensures
        copy.deep_view() == commits.deep_view(),
{
    let mut copy: Vec<CommitInfo> = Vec::new();
    let mut i: usize = 0;
    while i < commits.len()
        invariant
            i <= commits.len(),
            copy@.len() == i,
            forall|j: int| 0 <= j < i ==> copy@[j].deep_view() == commits@[j].deep_view(),
        decreases commits.len() - i,
    {
        copy.push(commits[i].clone());
        i = i + 1;
    }
    assert(copy.deep_view() =~= commits.deep_view());
    copy
}

impl Clone for PrInfo {
    fn clone(&self) -> (copy: Self)
        ensures
            copy.deep_view() == self.deep_view(),
    {
        PrInfo {
            number: self.number,
            title: self.title.clone(),
            author: self.author.clone(),
            created_at: self.created_at,
            updated_at: self.updated_at,
            labels: clone_texts(&self.labels),
            commits: clone_commits(&self.commits),
            head_sha: self.head_sha.clone(),
            base_ref: self.base_ref.clone(),
            head_ref: self.head_ref.clone(),
        }
    }
}

impl Clone for OrganizationInfo {
    fn clone(&self) -> (copy: Self)
        ensures
            copy.deep_view() == self.deep_view(),
    {
        OrganizationInfo {
            login: self.login.clone(),
            name: self.name.clone(),
            description: self.description.clone(),
        }
    }
}

impl Clone for RepositoryInfo {
    fn clone(&self) -> (copy: Self)
        ensures
            copy.deep_view() == self.deep_view(),
    {
        RepositoryInfo {
            name: self.name.clone(),
            full_name: self.full_name.clone(),
            owner: self.owner.clone(),
            description: self.description.clone(),
            default_branch: self.default_branch.clone(),
            private: self.private,
            fork: self.fork,
            stargazers_count: self.stargazers_count,
            forks_count: self.forks_count,
            language: match &self.language {
                Some(language) => Some(language.clone()),
                None => None,
            },
        }
    }
}

impl Clone for UserInfo {
    fn clone(&self) -> (copy: Self)
        ensures
            copy.deep_view() == self.deep_view(),
    {
        UserInfo {
            login: self.login.clone(),
            name: self.name.clone(),
            email: self.email.clone(),
        }
    }
}

/// The text that stands for an optional one: the text itself, or the empty
/// text where there is none.
pub fn text_or_empty(given: Option<String>) -> (text: String)
    ensures
        text@ == text_or(given.deep_view(), Seq::empty()),
{
    match given {
        Some(text) => text,
        None => String::new(),
    }
}

impl OrganizationInfo {
    /// An organization as the remote system reports it: the name and the
    /// description are empty where it gives none.
    pub fn from_parts(login: String, name: Option<String>, description: Option<String>) -> (info:
        Self)
        ensures
            info.deep_view() == (OrganizationInfoView {
                login: login@,
                name: text_or(name.deep_view(), Seq::empty()),
                description: text_or(description.deep_view(), Seq::empty()),
            }),
    {
        OrganizationInfo {
            login,
            name: text_or_empty(name),
            description: text_or_empty(description),
        }
    }
}

impl UserInfo {
    /// A user as the remote system reports it: the name and the address are
    /// empty where it gives none.
    pub fn from_parts(login: String, name: Option<String>, email: Option<String>) -> (info: Self)
        ensures
            info.deep_view() == (UserInfoView {
                login: login@,
                name: text_or(name.deep_view(), Seq::empty()),
                email: text_or(email.deep_view(), Seq::empty()),
            }),
    {
        UserInfo { login, name: text_or_empty(name), email: text_or_empty(email) }
    }
}

/// What the remote system reports of a repository; everything but the name
/// may be missing.
pub struct RepositoryParts {
    pub name: String,
    pub full_name: Option<String>,
    pub owner: Option<String>,
    pub description: Option<String>,
    pub default_branch: Option<String>,
    pub private: Option<bool>,
    pub fork: Option<bool>,
    pub stargazers_count: Option<u32>,
    pub forks_count: Option<u32>,
    pub language: Option<String>,
}

/// The repository that a report stands for: a missing text is empty, a
/// missing default branch is `main`, a missing flag is unset and a missing
/// count is zero.
pub open spec fn repository_of(parts: RepositoryParts) -> RepositoryInfoView {
    RepositoryInfoView {
        name: parts.name@,
        full_name: text_or(parts.full_name.deep_view(), Seq::empty()),
        owner: text_or(parts.owner.deep_view(), Seq::empty()),
        description: text_or(parts.description.deep_view(), Seq::empty()),
        default_branch: text_or(parts.default_branch.deep_view(), "main"@),
        private: parts.private == Some(true),
        fork: parts.fork == Some(true),
        stargazers_count: match parts.stargazers_count {
            Some(count) => count,
            None => 0,
        },
        forks_count: match parts.forks_count {
            Some(count) => count,
            None => 0,
        },
        language: parts.language.deep_view(),
    }
}

impl RepositoryInfo {
    /// A repository as the remote system reports it.
    pub fn from_parts(parts: RepositoryParts) -> (info: Self)
        ensures
            info.deep_view() == repository_of(parts),
    {
        RepositoryInfo {
            name: parts.name,
            full_name: text_or_empty(parts.full_name),
            owner: text_or_empty(parts.owner),
            description: text_or_empty(parts.description),
            default_branch: match parts.default_branch {
                Some(branch) => branch,
                None => String::from_str("main"),
            },
            private: match parts.private {
                Some(flag) => flag,
                None => false,
            },
            fork: match parts.fork {
                Some(flag) => flag,
                None => false,
            },
            stargazers_count: match parts.stargazers_count {
                Some(count) => count,
                None => 0,
            },
            forks_count: match parts.forks_count {
                Some(count) => count,
                None => 0,
            },
            language: parts.language,
        }
    }
}

/// What the front end says of a selection that failed.
pub open spec fn select_error_text(kind_is_pattern: bool, detail: Seq<char>) -> Seq<char> {
    if kind_is_pattern {
        "Invalid sprint pattern regex: "@ + detail
    } else {
        detail
    }
}

/// Why a selection ended without a list.
#[derive(Debug, PartialEq, Eq)]
pub enum SelectError {
    /// The sprint-tag pattern is no valid regular expression; the text is the
    /// parser's message.
    InvalidPattern(String),
    /// The remote system failed; the text is the underlying cause.
    Remote(String),
}

impl SelectError {
    /// The message of this error.
    pub fn message(&self) -> (text: String)
        ensures
            text@ == match self {
                SelectError::InvalidPattern(detail) => select_error_text(true, detail@),
                SelectError::Remote(cause) => select_error_text(false, cause@),
            },
    {
        match self {
            SelectError::InvalidPattern(detail) => String::from_str(
                "Invalid sprint pattern regex: ",
            ).concat(detail.as_str()),
            SelectError::Remote(cause) => cause.clone(),
        }
    }
}

#[verifier::external_type_specification]
#[verifier::external_body]
pub struct ExRegexError(regex::Error);

/// Whether `regex::Regex::new` accepts `pattern`.
pub uninterp spec fn pattern_compiles(pattern: Seq<char>) -> bool;

/// Whether the regular expression that `regex::Regex::new` builds from
/// `pattern` finds a match somewhere in `text` (`regex::Regex::is_match`).
pub uninterp spec fn pattern_matches(pattern: Seq<char>, text: Seq<char>) -> bool;

/// Compiles `pattern` with `regex::Regex::new` and searches `text` with
/// `regex::Regex::is_match`. Fails exactly where the pattern does not compile;
/// both outcomes depend on the two texts alone and are named by
/// [`pattern_compiles`] and [`pattern_matches`].
#[verifier::external_body]
fn regex_is_match(pattern: &str, text: &str) -> (found: Result<bool, regex::Error>)
    ensures
        found is Ok <==> pattern_compiles(pattern@),
        found matches Ok(hit) ==> hit == pattern_matches(pattern@, text@),
{
    Ok(regex::Regex::new(pattern)?.is_match(text))
}

/// The message of a `regex::Error`, as its `Display` impl words it.
#[verifier::external_body]
fn regex_error_text(error: &regex::Error) -> (message: String) {
    error.to_string()
}

/// Some label matches the sprint-tag pattern.
pub open spec fn has_sprint_label(labels: Seq<Seq<char>>, pattern: Seq<char>) -> bool {
    exists|i: int| 0 <= i < labels.len() && pattern_matches(pattern, #[trigger] labels[i])
}

/// The qualification rule: the label set holds a label that matches the
/// sprint-tag pattern, the environment label, and the pending label.
pub open spec fn qualifies(labels: Seq<Seq<char>>, tags: TagConfigView) -> bool {
    &&& has_sprint_label(labels, tags.sprint_pattern)
    &&& labels.contains(tags.environment)
    &&& labels.contains(tags.pending_tag)
}

/// Tests whether `label` is one of `labels`.
pub fn contains_label(labels: &Vec<String>, label: &str) -> (found: bool)
    ensures
        found == labels.deep_view().contains(label@),
{
    let mut i: usize = 0;
    while i < labels.len()
        invariant
            i <= labels.len(),
            forall|j: int| 0 <= j < i ==> labels.deep_view()[j] != label@,
        decreases labels.len() - i,
    {
        if *labels[i].as_str() == *label {
            assert(labels.deep_view()[i as int] == label@);
            return true;
        }
        i = i + 1;
    }
    false
}

/// Checks that the sprint-tag pattern is a valid regular expression.
pub fn check_sprint_pattern(pattern: &str) -> (outcome: Result<(), SelectError>)
    ensures
        outcome is Ok <==> pattern_compiles(pattern@),
        outcome is Err ==> outcome->Err_0 is InvalidPattern,
{
    match regex_is_match(pattern, "") {
        Ok(_) => Ok(()),
        Err(error) => Err(SelectError::InvalidPattern(regex_error_text(&error))),
    }
}

/// Tests whether some label matches the sprint-tag pattern. Fails where a
/// label is there to be tested and the pattern does not compile.
pub fn has_sprint_tag(labels: &Vec<String>, pattern: &str) -> (verdict: Result<bool, SelectError>)
    ensures
        verdict is Err <==> !pattern_compiles(pattern@) && labels@.len() > 0,
        verdict matches Ok(hit) ==> hit == has_sprint_label(labels.deep_view(), pattern@),
        verdict is Err ==> verdict->Err_0 is InvalidPattern,
{
    let mut i: usize = 0;
    while i < labels.len()
        invariant
            i <= labels.len(),
            i > 0 ==> pattern_compiles(pattern@),
            forall|j: int| 0 <= j < i ==> !pattern_matches(pattern@, labels.deep_view()[j]),
        decreases labels.len() - i,
    {
        match regex_is_match(pattern, labels[i].as_str()) {
            Ok(hit) => {
                if hit {
                    assert(pattern_matches(pattern@, labels.deep_view()[i as int]));
                    return Ok(true);
                }
            },
            Err(error) => {
                return Err(SelectError::InvalidPattern(regex_error_text(&error)));
            },
        }
        i = i + 1;
    }
    Ok(false)
}

/// What the qualification rule yields where it can be decided, and `None`
/// where the decision hangs on a sprint-tag pattern that does not compile.
pub open spec fn labels_qualify_spec(labels: Seq<Seq<char>>, tags: TagConfigView) -> Option<bool> {
    if !pattern_compiles(tags.sprint_pattern) && labels.contains(tags.environment)
        && labels.contains(tags.pending_tag) {
        None
    } else {
        Some(qualifies(labels, tags))
    }
}

/// Applies the qualification rule to a label set.
pub fn labels_qualify(tags: &TagConfig, labels: &Vec<String>) -> (verdict: Result<
    bool,
    SelectError,
>)
    ensures
        match verdict {
            Ok(hit) => labels_qualify_spec(labels.deep_view(), tags.deep_view()) == Some(hit),
            Err(error) => labels_qualify_spec(labels.deep_view(), tags.deep_view()) is None
                && error is InvalidPattern,
        },
{
    if !contains_label(labels, tags.environment.as_str()) {
        return Ok(false);
    }
    if !contains_label(labels, tags.pending_tag.as_str()) {
        return Ok(false);
    }
    has_sprint_tag(labels, tags.sprint_pattern.as_str())
}

/// Decides whether a change request with these labels qualifies: it must carry
/// a label that matches the sprint-tag pattern, the environment label and the
/// pending label. Fails only where the decision hangs on a sprint-tag pattern
/// that does not compile.
pub fn pr_matches_criteria(config: &Config, labels: &Vec<String>) -> (verdict: Result<
    bool,
    SelectError,
>)
    ensures
        verdict is Err <==> {
            &&& !pattern_compiles(config.tags.sprint_pattern@)
            &&& labels.deep_view().contains(config.tags.environment@)
            &&& labels.deep_view().contains(config.tags.pending_tag@)
        },
        verdict matches Ok(hit) ==> hit == qualifies(labels.deep_view(), config.tags.deep_view()),
        verdict is Err ==> verdict->Err_0 is InvalidPattern,
{
    labels_qualify(&config.tags, labels)
}

/// The predicate that holds of every label but `label`.
pub open spec fn differs_from(label: Seq<char>) -> spec_fn(Seq<char>) -> bool {
    |other: Seq<char>| other != label
}

/// The label set after a successful application: every copy of `pending` is
/// gone, and `completed` is added at the end unless it is already there.
pub open spec fn labels_after_success(
    labels: Seq<Seq<char>>,
    pending: Seq<char>,
    completed: Seq<char>,
) -> Seq<Seq<char>> {
    let kept = labels.filter(differs_from(pending));
    if kept.contains(completed) {
        kept
    } else {
        kept.push(completed)
    }
}

/// Computes the labels to store after a successful application: the pending
/// label removed, the completed label present.
pub fn updated_labels(labels: &Vec<String>, tags: &TagConfig) -> (updated: Vec<String>)
    ensures
        updated.deep_view() == labels_after_success(
            labels.deep_view(),
            tags.pending_tag@,
            tags.completed_tag@,
        ),
{
    let ghost all = labels.deep_view();
    let ghost keep = differs_from(tags.pending_tag@);
    let mut updated: Vec<String> = Vec::new();
    let mut i: usize = 0;
    assert(all.take(0).filter(keep) =~= Seq::<Seq<char>>::empty());
    while i < labels.len()
        invariant
            i <= labels.len(),
            all == labels.deep_view(),
            keep == differs_from(tags.pending_tag@),
            updated.deep_view() =~= all.take(i as int).filter(keep),
        decreases labels.len() - i,
    {
        let ghost before = updated.deep_view();
        proof {
            assert(all.take(i as int + 1) =~= all.take(i as int).push(all[i as int]));
            all.take(i as int).lemma_filter_push(all[i as int], keep);
        }
        if *labels[i].as_str() != *tags.pending_tag.as_str() {
            updated.push(labels[i].clone());
            assert(updated.deep_view() =~= before.push(all[i as int]));
        }
        i = i + 1;
    }
    assert(all.take(labels.len() as int) =~= all);
    if !contains_label(&updated, tags.completed_tag.as_str()) {
        let ghost before = updated.deep_view();
        updated.push(tags.completed_tag.clone());
        assert(updated.deep_view() =~= before.push(tags.completed_tag@));
    }
    updated
}

/// Filtering out a label leaves no copy of it, keeps every other label, and
/// keeps a list free of duplicates so.
pub proof fn lemma_without_label(labels: Seq<Seq<char>>, label: Seq<char>)
    ensures
        !labels.filter(differs_from(label)).contains(label),
        forall|other: Seq<char>|
            other != label ==> (labels.filter(differs_from(label)).contains(other)
                <==> labels.contains(other)),
        labels.no_duplicates() ==> labels.filter(differs_from(label)).no_duplicates(),
        !labels.contains(label) ==> labels.filter(differs_from(label)) == labels,
    decreases labels.len(),
{
    let keep = differs_from(label);
    let kept = labels.filter(keep);
    if labels.len() > 0 {
        let front = labels.drop_last();
        let last = labels.last();
        let front_kept = front.filter(keep);
        lemma_without_label(front, label);
        assert(labels =~= front.push(last));
        assert(keep(last) == (last != label));
        assert(kept == if keep(last) {
            front_kept.push(last)
        } else {
            front_kept
        }) by {
            reveal_with_fuel(Seq::filter, 2);
        }
        assert(kept == if last != label {
            front_kept.push(last)
        } else {
            front_kept
        });
        assert forall|other: Seq<char>| labels.contains(other) <==> (front.contains(other)
            || other == last) by {
            if labels.contains(other) {
                let k = choose|k: int| 0 <= k < labels.len() && labels[k] == other;
                if k < front.len() {
                    assert(front[k] == other);
                }
            }
            if front.contains(other) {
                let k = choose|k: int| 0 <= k < front.len() && front[k] == other;
                assert(labels[k] == other);
            }
            if other == last {
                assert(labels[labels.len() - 1] == other);
            }
        }
        if last != label {
            assert forall|other: Seq<char>| kept.contains(other) <==> (front_kept.contains(other)
                || other == last) by {
                if kept.contains(other) {
                    let k = choose|k: int| 0 <= k < kept.len() && kept[k] == other;
                    if k < front_kept.len() {
                        assert(front_kept[k] == other);
                    }
                }
                if front_kept.contains(other) {
                    let k = choose|k: int| 0 <= k < front_kept.len() && front_kept[k] == other;
                    assert(kept[k] == other);
                }
                if other == last {
                    assert(kept[kept.len() - 1] == other);
                }
            }
            if labels.no_duplicates() {
                assert(!front.contains(last)) by {
                    if front.contains(last) {
                        let k = choose|k: int| 0 <= k < front.len() && front[k] == last;
                        assert(labels[k] == labels[labels.len() - 1]);
                    }
                }
                assert forall|a: int, b: int|
                    0 <= a < kept.len() && 0 <= b < kept.len() && a != b implies kept[a]
                    != kept[b] by {
                    if a < front_kept.len() && b < front_kept.len() {
                        assert(kept[a] == front_kept[a] && kept[b] == front_kept[b]);
                    } else if a < front_kept.len() {
                        assert(front_kept.contains(front_kept[a]));
                    } else {
                        assert(front_kept.contains(front_kept[b]));
                    }
                }
            }
            if !labels.contains(label) {
                assert(kept =~= labels);
            }
        } else {
            assert(labels.contains(label));
        }
    }
}

/// Updating the labels a second time changes nothing: the update is
/// idempotent on every label list and for every pair of marker labels.
pub proof fn lemma_label_update_idempotent(
    labels: Seq<Seq<char>>,
    pending: Seq<char>,
    completed: Seq<char>,
)
    ensures
        labels_after_success(labels_after_success(labels, pending, completed), pending, completed)
            == labels_after_success(labels, pending, completed),
{
    let keep = differs_from(pending);
    let kept = labels.filter(keep);
    let once = labels_after_success(labels, pending, completed);
    lemma_without_label(labels, pending);
    lemma_without_label(kept, pending);
    assert(kept.filter(keep) == kept);
    if kept.contains(completed) {
    } else {
        kept.lemma_filter_push(completed, keep);
        if completed == pending {
            assert(once.filter(keep) == kept);
        } else {
            assert(once.filter(keep) == once);
            assert(once[once.len() - 1] == completed);
        }
    }
}

/// After the update the pending label is absent and the completed label is
/// present, wherever the two marker labels differ; a list free of duplicates
/// stays so, and then holds the completed label exactly once.
pub proof fn lemma_label_update_outcome(
    labels: Seq<Seq<char>>,
    pending: Seq<char>,
    completed: Seq<char>,
)
    requires
        pending != completed,
    ensures
        !labels_after_success(labels, pending, completed).contains(pending),
        labels_after_success(labels, pending, completed).contains(completed),
        labels.no_duplicates() ==> labels_after_success(
            labels,
            pending,
            completed,
        ).no_duplicates(),
        forall|other: Seq<char>|
            other != pending && other != completed ==> (labels_after_success(
                labels,
                pending,
                completed,
            ).contains(other) <==> labels.contains(other)),
{
    let kept = labels.filter(differs_from(pending));
    let after = labels_after_success(labels, pending, completed);
    lemma_without_label(labels, pending);
    if kept.contains(completed) {
    } else {
        assert(after[after.len() - 1] == completed);
        if after.contains(pending) {
            let m = choose|m: int| 0 <= m < after.len() && after[m] == pending;
            assert(kept[m] == pending);
            assert(kept.contains(pending));
        }
        assert forall|other: Seq<char>| other != pending && other != completed implies (
        after.contains(other) <==> labels.contains(other)) by {
            if after.contains(other) {
                let m = choose|m: int| 0 <= m < after.len() && after[m] == other;
                assert(kept[m] == other);
                assert(kept.contains(other));
            }
            if labels.contains(other) {
                assert(kept.contains(other));
                let m = choose|m: int| 0 <= m < kept.len() && kept[m] == other;
                assert(after[m] == other);
            }
        }
        if labels.no_duplicates() {
            assert forall|a: int, b: int|
                0 <= a < after.len() && 0 <= b < after.len() && a != b implies after[a]
                != after[b] by {
                if a < kept.len() && b < kept.len() {
                } else if a < kept.len() {
                    assert(kept.contains(kept[a]));
                } else {
                    assert(kept.contains(kept[b]));
                }
            }
        }
    }
}

/// The bulleted list of shortened commit identifiers, one per line.
pub open spec fn comment_lines(shas: Seq<Seq<char>>) -> Seq<char>
    decreases shas.len(),
{
    if shas.len() == 0 {
        Seq::empty()
    } else if shas.len() == 1 {
        "- "@ + short_sha_spec(shas[0])
    } else {
        comment_lines(shas.drop_last()) + "\n"@ + "- "@ + short_sha_spec(shas.last())
    }
}

/// The comment posted on success: a header that names the target branch, then
/// the list of new commits by their shortened identifiers.
pub open spec fn comment_body(target_branch: Seq<char>, shas: Seq<Seq<char>>) -> Seq<char> {
    "🍒 **Cherry-picked to `"@ + target_branch + "`**\n\nCommits:\n"@ + comment_lines(shas)
}

/// Builds the text of the comment that reports a successful application.
pub fn cherry_pick_comment(target_branch: &str, commit_shas: &Vec<String>) -> (body: String)
    ensures
        body@ == comment_body(target_branch@, commit_shas.deep_view()),
{
    let ghost shas = commit_shas.deep_view();
    let mut body = String::from_str("🍒 **Cherry-picked to `");
    body.append(target_branch);
    body.append("`**\n\nCommits:\n");
    let ghost head = body@;
    let mut i: usize = 0;
    assert(shas.take(0) =~= Seq::<Seq<char>>::empty());
    assert(head + Seq::<char>::empty() =~= head);
    while i < commit_shas.len()
        invariant
            i <= commit_shas.len(),
            shas == commit_shas.deep_view(),
            body@ == head + comment_lines(shas.take(i as int)),
        decreases commit_shas.len() - i,
    {
        let ghost before = comment_lines(shas.take(i as int));
        let ghost upto = shas.take(i as int + 1);
        assert(upto.drop_last() =~= shas.take(i as int));
        assert(upto.last() == shas[i as int]);
        if i > 0 {
            body.append("\n");
        }
        body.append("- ");
        body.append(short_sha(commit_shas[i].as_str()));
        i = i + 1;
        assert(body@ =~= head + comment_lines(upto));
    }
    assert(shas.take(commit_shas.len() as int) =~= shas);
    body
}

} // verus!
