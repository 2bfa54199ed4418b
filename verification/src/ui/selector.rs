//! Choosing one entry from a list that can be searched: the cursor, the
//! scroll window and the search, and the lists offered for organizations and
//! repositories.

use crate::github::{
    OrganizationInfo, OrganizationInfoView, RepositoryInfo, RepositoryInfoView,
};
use crate::text::{
    chars_of, contains, contains_text, decimal, lowercase, pop_char, push_char, push_decimal,
    to_lowercase,
};
use crate::ui::events::Key;
use vstd::prelude::*;
use vstd::string::StringExecFns;

verus! {

/// Cursor, scroll position and search of a selector.
#[derive(Debug, PartialEq, Eq)]
pub struct SelectorApp {
    pub should_quit: bool,
    pub selected_index: usize,
    pub scroll_offset: usize,
    pub search_query: String,
    pub search_mode: bool,
}

/// Mathematical value of a [`SelectorApp`].
pub struct SelectorView {
    pub should_quit: bool,
    pub selected_index: usize,
    pub scroll_offset: usize,
    pub search_query: Seq<char>,
    pub search_mode: bool,
}

impl DeepView for SelectorApp {
    type V = SelectorView;

    open spec fn deep_view(&self) -> SelectorView {
        SelectorView {
            should_quit: self.should_quit,
            selected_index: self.selected_index,
            scroll_offset: self.scroll_offset,
            search_query: self.search_query@,
            search_mode: self.search_mode,
        }
    }
}

/// Where a selector stands after a key.
#[derive(Debug, Clone, Copy, PartialEq, Eq)]
pub enum SelectorStep {
    /// Go on with the next key.
    Continue,
    /// The selection was given up.
    Cancelled,
    /// The entry with this index was chosen.
    Chosen(usize),
}

/// The indices below `upto` of the texts in which `query` occurs, in
/// ascending order. Both sides are compared in lower case.
pub open spec fn matching_texts(texts: Seq<Seq<char>>, query: Seq<char>, upto: nat) -> Seq<usize>
    decreases upto,
{
    if upto == 0 {
        Seq::empty()
    } else {
        let earlier = matching_texts(texts, query, (upto - 1) as nat);
        if contains_text(lowercase(texts[upto - 1]), lowercase(query)) {
            earlier.push((upto - 1) as usize)
        } else {
            earlier
        }
    }
}

/// The indices `0 .. count`.
pub open spec fn all_indices(count: nat) -> Seq<usize> {
    Seq::new(count, |i: int| i as usize)
}

/// The entries that a selector shows: those that match the search while one
/// is under way, every entry while none is, and the entries shown before
/// while the search is open but still empty.
pub open spec fn shown_entries(
    s: SelectorView,
    texts: Seq<Seq<char>>,
    before: Seq<usize>,
) -> Seq<usize> {
    if s.search_mode && s.search_query.len() > 0 {
        matching_texts(texts, s.search_query, texts.len())
    } else if !s.search_mode {
        all_indices(texts.len())
    } else {
        before
    }
}

/// The selector with its cursor held within `shown` entries.
pub open spec fn clamped(s: SelectorView, shown: nat) -> SelectorView {
    if s.selected_index >= shown && shown > 0 {
        SelectorView { selected_index: (shown - 1) as usize, ..s }
    } else {
        s
    }
}

/// The selector and the step after a key, with `shown` entries on display of
/// which `max_visible` fit the window.
///
/// `q` and Esc give up. Enter chooses the entry under the cursor. Up and Down
/// move the cursor within the entries and drag the window along. `/` opens an
/// empty search; while it is open, characters extend it and Backspace shortens
/// it, closing the search with its last character.
pub open spec fn after_selector_key(
    s: SelectorView,
    key: Key,
    shown: Seq<usize>,
    max_visible: usize,
) -> (SelectorView, SelectorStep) {
    if key == Key::Char('q') || key == Key::Esc {
        (SelectorView { should_quit: true, ..s }, SelectorStep::Cancelled)
    } else if key == Key::Enter {
        if s.selected_index < shown.len() {
            (s, SelectorStep::Chosen(shown[s.selected_index as int]))
        } else {
            (s, SelectorStep::Continue)
        }
    } else if key == Key::Up {
        if s.selected_index > 0 {
            let cursor = (s.selected_index - 1) as usize;
            (
                SelectorView {
                    selected_index: cursor,
                    scroll_offset: if cursor < s.scroll_offset {
                        cursor
                    } else {
                        s.scroll_offset
                    },
                    ..s
                },
                SelectorStep::Continue,
            )
        } else {
            (s, SelectorStep::Continue)
        }
    } else if key == Key::Down {
        if s.selected_index + 1 < shown.len() {
            let cursor = (s.selected_index + 1) as usize;
            (
                SelectorView {
                    selected_index: cursor,
                    scroll_offset: if cursor >= s.scroll_offset + max_visible {
                        (cursor - max_visible + 1) as usize
                    } else {
                        s.scroll_offset
                    },
                    ..s
                },
                SelectorStep::Continue,
            )
        } else {
            (s, SelectorStep::Continue)
        }
    } else if key == Key::Char('/') {
        (
            SelectorView { search_mode: true, search_query: Seq::empty(), ..s },
            SelectorStep::Continue,
        )
    } else if s.search_mode {
        match key {
            Key::Backspace => {
                let query = if s.search_query.len() > 0 {
                    s.search_query.drop_last()
                } else {
                    s.search_query
                };
                (
                    SelectorView { search_query: query, search_mode: query.len() > 0, ..s },
                    SelectorStep::Continue,
                )
            },
            Key::Char(c) => (
                SelectorView { search_query: s.search_query.push(c), ..s },
                SelectorStep::Continue,
            ),
            _ => (s, SelectorStep::Continue),
        }
    } else {
        (s, SelectorStep::Continue)
    }
}

/// The part of `shown` entries that the window displays: it starts at the
/// scroll position, held within the entries, and holds at most `max_visible`.
pub open spec fn visible_range_spec(scroll_offset: usize, max_visible: usize, shown: usize) -> (
    usize,
    usize,
) {
    let start = if shown == 0 {
        0
    } else if scroll_offset > shown - 1 {
        (shown - 1) as usize
    } else {
        scroll_offset
    };
    let end = if start + max_visible > shown {
        shown
    } else {
        (start + max_visible) as usize
    };
    (start, end)
}

/// Computes the part of the entries that the window displays.
pub fn visible_range(scroll_offset: usize, max_visible: usize, shown: usize) -> (range: (
    usize,
    usize,
))
    ensures
        range == visible_range_spec(scroll_offset, max_visible, shown),
        range.0 <= range.1 <= shown,
{
    let start = if shown == 0 {
        0
    } else if scroll_offset > shown - 1 {
        shown - 1
    } else {
        scroll_offset
    };
    let end = if max_visible > shown - start {
        shown
    } else {
        start + max_visible
    };
    (start, end)
}

/// Finds the texts in which `query` occurs, without regard to case.
pub fn filter_texts(texts: &Vec<String>, query: &str) -> (found: Vec<usize>)
    ensures
        found@ == matching_texts(texts.deep_view(), query@, texts@.len()),
{
    let wanted = chars_of(to_lowercase(query).as_str());
    let mut found: Vec<usize> = Vec::new();
    let mut i: usize = 0;
    while i < texts.len()
        invariant
            i <= texts@.len(),
            wanted@ == lowercase(query@),
            found@ == matching_texts(texts.deep_view(), query@, i as nat),
        decreases texts@.len() - i,
    {
        assert(texts.deep_view()[i as int] == texts@[i as int]@);
        let text = chars_of(to_lowercase(texts[i].as_str()).as_str());
        if contains(&text, &wanted) {
            found.push(i);
        }
        i = i + 1;
    }
    found
}

/// The list `0 .. count`.
pub fn index_list(count: usize) -> (indices: Vec<usize>)
    ensures
        indices@ == all_indices(count as nat),
{
    let mut indices: Vec<usize> = Vec::new();
    let mut i: usize = 0;
    while i < count
        invariant
            i <= count,
            indices@ == all_indices(i as nat),
        decreases count - i,
    {
        indices.push(i);
        i = i + 1;
        assert(indices@ =~= all_indices(i as nat));
    }
    indices
}

impl SelectorApp {
    /// A selector at the top of its list, with no search.
    pub fn new() -> (selector: Self)
        ensures
            selector.deep_view() == (SelectorView {
                should_quit: false,
                selected_index: 0,
                scroll_offset: 0,
                search_query: Seq::empty(),
                search_mode: false,
            }),
    {
        Self {
            should_quit: false,
            selected_index: 0,
            scroll_offset: 0,
            search_query: String::new(),
            search_mode: false,
        }
    }

    /// Computes the entries to show from the texts of all entries and the
    /// entries shown before, and holds the cursor within them.
    pub fn refresh(&mut self, texts: &Vec<String>, before: Vec<usize>) -> (shown: Vec<usize>)
        ensures
            shown@ == shown_entries(old(self).deep_view(), texts.deep_view(), before@),
            final(self).deep_view() == clamped(old(self).deep_view(), shown@.len()),
    {
        let shown = if self.search_mode && !self.search_query.as_str().is_empty() {
            filter_texts(texts, self.search_query.as_str())
        } else if !self.search_mode {
            index_list(texts.len())
        } else {
            before
        };
        if self.selected_index >= shown.len() && shown.len() > 0 {
            self.selected_index = shown.len() - 1;
        }
        shown
    }

    /// Takes a key, with `shown` entries on display of which `max_visible`
    /// fit the window.
    pub fn handle_key(&mut self, key: Key, shown: &Vec<usize>, max_visible: usize) -> (step:
        SelectorStep)
        ensures
            (final(self).deep_view(), step) == after_selector_key(
                old(self).deep_view(),
                key,
                shown@,
                max_visible,
            ),
    {
        match key {
            Key::Char('q') | Key::Esc => {
                self.should_quit = true;
                SelectorStep::Cancelled
            },
            Key::Enter => {
                if self.selected_index < shown.len() {
                    SelectorStep::Chosen(shown[self.selected_index])
                } else {
                    SelectorStep::Continue
                }
            },
            Key::Up => {
                if self.selected_index > 0 {
                    self.selected_index = self.selected_index - 1;
                    if self.selected_index < self.scroll_offset {
                        self.scroll_offset = self.selected_index;
                    }
                }
                SelectorStep::Continue
            },
            Key::Down => {
                let count = shown.len();
                if self.selected_index < count && self.selected_index + 1 < count {
                    self.selected_index = self.selected_index + 1;
                    if self.selected_index >= self.scroll_offset && self.selected_index
                        - self.scroll_offset >= max_visible {
                        self.scroll_offset = self.selected_index - max_visible + 1;
                    }
                }
                SelectorStep::Continue
            },
            Key::Char('/') => {
                self.search_mode = true;
                self.search_query = String::new();
                SelectorStep::Continue
            },
            Key::Backspace => {
                if self.search_mode {
                    let _ = pop_char(&mut self.search_query);
                    if self.search_query.as_str().is_empty() {
                        self.search_mode = false;
                    }
                }
                SelectorStep::Continue
            },
            Key::Char(c) => {
                if self.search_mode {
                    push_char(&mut self.search_query, c);
                }
                SelectorStep::Continue
            },
            _ => SelectorStep::Continue,
        }
    }
}

/// The line that offers an organization: its login, then its description or
/// a note that it has none.
pub open spec fn organization_line(organization: OrganizationInfoView) -> Seq<char> {
    organization.login + " - "@ + if organization.description.len() == 0 {
        "No description"@
    } else {
        organization.description
    }
}

/// The lines that the organization selector offers: the user's own account,
/// then one line per organization.
pub open spec fn organization_options_spec(
    user_login: Seq<char>,
    organizations: Seq<OrganizationInfoView>,
) -> Seq<Seq<char>> {
    Seq::new(
        organizations.len() + 1,
        |i: int|
            if i == 0 {
                user_login + " (Your personal account)"@
            } else {
                organization_line(organizations[i - 1])
            },
    )
}

/// The owner behind a line of the organization selector.
pub open spec fn selected_owner_spec(
    user_login: Seq<char>,
    organizations: Seq<OrganizationInfoView>,
    index: int,
) -> Seq<char> {
    if index == 0 {
        user_login
    } else {
        organizations[index - 1].login
    }
}

/// The text by which a repository is searched: its name and its description.
pub open spec fn repository_search_text(repository: RepositoryInfoView) -> Seq<char> {
    repository.name + " "@ + repository.description
}

/// The texts by which repositories are searched, one per repository.
pub open spec fn repository_search_texts_spec(repositories: Seq<RepositoryInfoView>) -> Seq<
    Seq<char>,
> {
    Seq::new(repositories.len(), |i: int| repository_search_text(repositories[i]))
}

/// Builds the lines of the organization selector.
pub fn organization_options(user_login: &str, organizations: &Vec<OrganizationInfo>) -> (options:
    Vec<String>)
    ensures
        options.deep_view() == organization_options_spec(user_login@, organizations.deep_view()),
{
    let mut options: Vec<String> = Vec::new();
    options.push(String::from_str(user_login).concat(" (Your personal account)"));
    let mut i: usize = 0;
    while i < organizations.len()
        invariant
            i <= organizations@.len(),
            options@.len() == i + 1,
            forall|k: int|
                0 <= k < options@.len() ==> options@[k]@ == organization_options_spec(
                    user_login@,
                    organizations.deep_view(),
                )[k],
        decreases organizations@.len() - i,
    {
        let organization = &organizations[i];
        assert(organizations.deep_view()[i as int] == organization.deep_view());
        let description = if organization.description.as_str().is_empty() {
            "No description"
        } else {
            organization.description.as_str()
        };
        options.push(organization.login.clone().concat(" - ").concat(description));
        i = i + 1;
    }
    assert(options.deep_view() =~= organization_options_spec(
        user_login@,
        organizations.deep_view(),
    ));
    options
}

/// The owner chosen with the line `index` of the organization selector.
pub fn selected_owner(user_login: &str, organizations: &Vec<OrganizationInfo>, index: usize) -> (owner:
    String)
    requires
        index <= organizations@.len(),
    ensures
        owner@ == selected_owner_spec(user_login@, organizations.deep_view(), index as int),
{
    if index == 0 {
        String::from_str(user_login)
    } else {
        assert(organizations.deep_view()[index - 1] == organizations@[index - 1].deep_view());
        organizations[index - 1].login.clone()
    }
}

/// Builds the texts by which the repositories are searched.
pub fn repository_search_texts(repositories: &Vec<RepositoryInfo>) -> (texts: Vec<String>)
    ensures
        texts.deep_view() == repository_search_texts_spec(repositories.deep_view()),
{
    let mut texts: Vec<String> = Vec::new();
    let mut i: usize = 0;
    while i < repositories.len()
        invariant
            i <= repositories@.len(),
            texts@.len() == i,
            forall|k: int|
                0 <= k < i ==> texts@[k]@ == repository_search_text(
                    repositories.deep_view()[k],
                ),
        decreases repositories@.len() - i,
    {
        let repository = &repositories[i];
        assert(repositories.deep_view()[i as int] == repository.deep_view());
        texts.push(repository.name.clone().concat(" ").concat(repository.description.as_str()));
        i = i + 1;
    }
    assert(texts.deep_view() =~= repository_search_texts_spec(repositories.deep_view()));
    texts
}

/// A cursor that lies within the entries stays within them under every key,
/// and an entry that is chosen is one of those on display.
pub proof fn lemma_selector_stays_in_list(
    s: SelectorView,
    key: Key,
    shown: Seq<usize>,
    max_visible: usize,
)
    requires
        s.selected_index < shown.len(),
    ensures
        after_selector_key(s, key, shown, max_visible).0.selected_index < shown.len(),
        after_selector_key(s, key, shown, max_visible).1 matches SelectorStep::Chosen(entry)
            ==> shown.contains(entry),
{
}

/// Entries that fit the window of the organization selector, as far as the
/// cursor keys go.
pub const ORGANIZATION_WINDOW: usize = 10;

/// Entries that fit the window of the repository selector, as far as the
/// cursor keys go.
pub const REPOSITORY_WINDOW: usize = 5;

/// Number of entries that fit a list of `height` lines with a border, at
/// `lines_per_entry` lines each.
pub open spec fn entries_for_height(height: u16, lines_per_entry: u16) -> usize {
    if lines_per_entry == 0 || height < 2 {
        0
    } else {
        ((height - 2) / lines_per_entry as int) as usize
    }
}

/// Computes the number of entries that fit a list.
pub fn window_entries(height: u16, lines_per_entry: u16) -> (entries: usize)
    ensures
        entries == entries_for_height(height, lines_per_entry),
{
    if lines_per_entry == 0 || height < 2 {
        0
    } else {
        ((height - 2) / lines_per_entry) as usize
    }
}

/// The first line of a repository in the selector: its name, marked where it
/// is a fork.
pub open spec fn repository_name_line(repository: RepositoryInfoView) -> Seq<char> {
    if repository.fork {
        repository.name + " (fork)"@
    } else {
        repository.name
    }
}

/// The second line of a repository in the selector: its description, or a
/// note that it has none.
pub open spec fn repository_description_line(repository: RepositoryInfoView) -> Seq<char> {
    if repository.description.len() == 0 {
        "No description available"@
    } else {
        repository.description
    }
}

/// The title of the repository list: how many repositories there are, and
/// which of them the window shows.
pub open spec fn repositories_title(total: nat, start: nat, end: nat) -> Seq<char> {
    " "@ + decimal(total) + " repositories (showing "@ + decimal(start + 1) + "-"@ + decimal(end)
        + ") "@
}

/// The title of a plain list: how many entries there are.
pub open spec fn items_title(total: nat) -> Seq<char> {
    " "@ + decimal(total) + " items "@
}

/// The title of the search bar: the search while one is open, else how to
/// open one.
pub open spec fn search_title(s: SelectorView) -> Seq<char> {
    if s.search_mode {
        " Search: "@ + s.search_query + " "@
    } else {
        " Press '/' to search "@
    }
}

/// Builds the two lines of a repository.
pub fn repository_lines(repository: &RepositoryInfo) -> (lines: (String, String))
    ensures
        lines.0@ == repository_name_line(repository.deep_view()),
        lines.1@ == repository_description_line(repository.deep_view()),
{
    let name = if repository.fork {
        repository.name.clone().concat(" (fork)")
    } else {
        repository.name.clone()
    };
    let description = if repository.description.as_str().is_empty() {
        String::from_str("No description available")
    } else {
        repository.description.clone()
    };
    (name, description)
}

/// Builds the title of the repository list for a window `start .. end`.
pub fn repository_list_title(total: usize, start: usize, end: usize) -> (title: String)
    requires
        start < usize::MAX,
    ensures
        title@ == repositories_title(total as nat, start as nat, end as nat),
{
    let mut title = String::from_str(" ");
    push_decimal(&mut title, total as u64);
    title.append(" repositories (showing ");
    push_decimal(&mut title, (start + 1) as u64);
    title.append("-");
    push_decimal(&mut title, end as u64);
    title.append(") ");
    title
}

/// Builds the title of a plain list.
pub fn item_list_title(total: usize) -> (title: String)
    ensures
        title@ == items_title(total as nat),
{
    let mut title = String::from_str(" ");
    push_decimal(&mut title, total as u64);
    title.append(" items ");
    title
}

impl SelectorApp {
    /// Builds the title of the search bar.
    pub fn search_title(&self) -> (title: String)
        ensures
            title@ == search_title(self.deep_view()),
    {
        if self.search_mode {
            String::from_str(" Search: ").concat(self.search_query.as_str()).concat(" ")
        } else {
            String::from_str(" Press '/' to search ")
        }
    }
}

} // verus!
