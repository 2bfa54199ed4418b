//! What the front end shows: the current screen, the list cursor, the prompt
//! and the messages.

use crate::github::{PrInfo, PrInfoView};
use crate::text::{
    chars_of, contains, contains_text, decimal, decimal_string, lowercase, string_of,
    to_lowercase, trim, trim_range,
};
use vstd::prelude::*;

verus! {

/// The screens of the front end.
#[derive(Debug, Clone, Copy, PartialEq, Eq)]
pub enum Screen {
    MainMenu,
    PrList,
    Progress,
    Error,
}

/// Cursor of a list: which of `items_count` rows is selected, if any.
#[derive(Debug, Clone, Copy, PartialEq, Eq)]
pub struct ListState {
    selected: Option<usize>,
    items_count: usize,
}

/// The row after `selected` in a list of `count` rows, wrapping to the first
/// row after the last; the first row where none is selected.
pub open spec fn next_row(selected: Option<usize>, count: usize) -> usize {
    match selected {
        Some(row) => if row >= count - 1 {
            0
        } else {
            (row + 1) as usize
        },
        None => 0,
    }
}

/// The row before `selected` in a list of `count` rows, wrapping to the last
/// row before the first; the first row where none is selected.
pub open spec fn previous_row(selected: Option<usize>, count: usize) -> usize {
    match selected {
        Some(row) => if row == 0 {
            (count - 1) as usize
        } else {
            (row - 1) as usize
        },
        None => 0,
    }
}

/// The selection that fits a list of `count` rows: none in an empty list, the
/// first row where none was selected, and the last row where the selected one
/// no longer exists.
pub open spec fn fitted_row(selected: Option<usize>, count: usize) -> Option<usize> {
    if count == 0 {
        None
    } else {
        match selected {
            None => Some(0),
            Some(row) => if row >= count {
                Some((count - 1) as usize)
            } else {
                Some(row)
            },
        }
    }
}

impl ListState {
    /// The selected row.
    pub closed spec fn selection(&self) -> Option<usize> {
        self.selected
    }

    /// The number of rows.
    pub closed spec fn count(&self) -> usize {
        self.items_count
    }

    /// The cursor of an empty list: nothing selected.
    pub fn new() -> (state: Self)
        ensures
            state.selection() is None,
            state.count() == 0,
    {
        Self { selected: None, items_count: 0 }
    }

    /// Selects `index`, or nothing. The row need not exist.
    pub fn select(&mut self, index: Option<usize>)
        ensures
            final(self).selection() == index,
            final(self).count() == old(self).count(),
    {
        self.selected = index;
    }

    /// The selected row.
    pub fn selected(&self) -> (index: Option<usize>)
        ensures
            index == self.selection(),
    {
        self.selected
    }

    /// The number of rows.
    pub fn items_count(&self) -> (count: usize)
        ensures
            count == self.count(),
    {
        self.items_count
    }

    /// Moves the selection one row down, wrapping at the end. An empty list
    /// is left as it is.
    pub fn select_next(&mut self)
        ensures
            final(self).count() == old(self).count(),
            old(self).count() == 0 ==> final(self).selection() == old(self).selection(),
            old(self).count() > 0 ==> final(self).selection() == Some(
                next_row(old(self).selection(), old(self).count()),
            ),
    {
        if self.items_count == 0 {
            return ;
        }
        let row = match self.selected {
            Some(row) => {
                if row >= self.items_count - 1 {
                    0
                } else {
                    row + 1
                }
            },
            None => 0,
        };
        self.select(Some(row));
    }

    /// Moves the selection one row up, wrapping at the start. An empty list
    /// is left as it is.
    pub fn select_previous(&mut self)
        ensures
            final(self).count() == old(self).count(),
            old(self).count() == 0 ==> final(self).selection() == old(self).selection(),
            old(self).count() > 0 ==> final(self).selection() == Some(
                previous_row(old(self).selection(), old(self).count()),
            ),
    {
        if self.items_count == 0 {
            return ;
        }
        let row = match self.selected {
            Some(row) => {
                if row == 0 {
                    self.items_count - 1
                } else {
                    row - 1
                }
            },
            None => 0,
        };
        self.select(Some(row));
    }

    /// Sets the number of rows and fits the selection to it.
    pub fn set_items_count(&mut self, count: usize)
        ensures
            final(self).count() == count,
            final(self).selection() == fitted_row(old(self).selection(), count),
    {
        self.items_count = count;
        if count == 0 {
            self.selected = None;
        } else {
            match self.selected {
                None => {
                    self.selected = Some(0);
                },
                Some(selected) => {
                    if selected >= count {
                        self.selected = Some(count - 1);
                    }
                },
            }
        }
    }
}

impl Default for ListState {
    fn default() -> (state: Self)
        ensures
            state.selection() is None,
            state.count() == 0,
    {
        ListState::new()
    }
}

/// A selection that lies within the list stays within it under both moves,
/// and the two moves undo each other.
pub proof fn lemma_moves_stay_in_list(row: usize, count: usize)
    requires
        row < count,
    ensures
        next_row(Some(row), count) < count,
        previous_row(Some(row), count) < count,
        previous_row(Some(next_row(Some(row), count)), count) == row,
        next_row(Some(previous_row(Some(row), count)), count) == row,
{
}

/// Fitting the selection to a list that is not empty selects a row of it.
pub proof fn lemma_fitted_row_in_list(selected: Option<usize>, count: usize)
    requires
        count > 0,
    ensures
        fitted_row(selected, count) matches Some(row) && row < count,
{
}

/// Everything the front end shows.
#[derive(Debug)]
pub struct AppState {
    pub current_screen: Screen,
    pub prs: Vec<PrInfo>,
    pub pr_list_state: ListState,
    pub input_active: bool,
    pub input_title: String,
    pub input_placeholder: String,
    pub input_buffer: String,
    pub filter_query: Option<String>,
    pub display_indices: Vec<usize>,
    pub error_message: Option<String>,
    pub loading_message: Option<String>,
    pub success_message: Option<String>,
}

/// Mathematical value of an [`AppState`].
pub struct AppStateView {
    pub current_screen: Screen,
    pub prs: Seq<PrInfoView>,
    /// The selected row of the list.
    pub selected: Option<usize>,
    /// The number of rows that the list cursor knows of.
    pub row_count: usize,
    pub input_active: bool,
    pub input_title: Seq<char>,
    pub input_placeholder: Seq<char>,
    pub input_buffer: Seq<char>,
    pub filter_query: Option<Seq<char>>,
    pub display_indices: Seq<usize>,
    pub error_message: Option<Seq<char>>,
    pub loading_message: Option<Seq<char>>,
    pub success_message: Option<Seq<char>>,
}

impl DeepView for AppState {
    type V = AppStateView;

    open spec fn deep_view(&self) -> AppStateView {
        AppStateView {
            current_screen: self.current_screen,
            prs: self.prs.deep_view(),
            selected: self.pr_list_state.selection(),
            row_count: self.pr_list_state.count(),
            input_active: self.input_active,
            input_title: self.input_title@,
            input_placeholder: self.input_placeholder@,
            input_buffer: self.input_buffer@,
            filter_query: self.filter_query.deep_view(),
            display_indices: self.display_indices@,
            error_message: self.error_message.deep_view(),
            loading_message: self.loading_message.deep_view(),
            success_message: self.success_message.deep_view(),
        }
    }
}

/// Whether a change request matches a query that is already in lower case:
/// the query occurs in the title or in the author's name, both taken in lower
/// case, or in the number.
pub open spec fn matches_query(pr: PrInfoView, query: Seq<char>) -> bool {
    ||| contains_text(lowercase(pr.title), query)
    ||| contains_text(lowercase(pr.author), query)
    ||| contains_text(decimal(pr.number as nat), query)
}

/// The indices below `upto` of the change requests that match `query`, in
/// ascending order.
pub open spec fn matching_indices(prs: Seq<PrInfoView>, query: Seq<char>, upto: nat) -> Seq<usize>
    decreases upto,
{
    if upto == 0 {
        Seq::empty()
    } else {
        let earlier = matching_indices(prs, query, (upto - 1) as nat);
        if matches_query(prs[upto - 1], query) {
            earlier.push((upto - 1) as usize)
        } else {
            earlier
        }
    }
}

/// The rows of the list: every change request where no filter is set, else
/// those that match the filter, compared without regard to case.
pub open spec fn displayed(prs: Seq<PrInfoView>, filter: Option<Seq<char>>) -> Seq<usize> {
    match filter {
        Some(query) => matching_indices(prs, lowercase(query), prs.len()),
        None => Seq::new(prs.len(), |i: int| i as usize),
    }
}

/// The filter that a query sets: the query as given, unless it holds nothing
/// but whitespace.
pub open spec fn effective_filter(query: Option<Seq<char>>) -> Option<Seq<char>> {
    match query {
        Some(text) => if trim(text).len() > 0 {
            Some(text)
        } else {
            None
        },
        None => None,
    }
}

impl AppStateView {
    /// The state with the rows computed anew from the change requests and the
    /// filter, and the cursor fitted to them.
    pub open spec fn with_rows(self) -> AppStateView {
        let rows = displayed(self.prs, self.filter_query);
        AppStateView {
            display_indices: rows,
            row_count: rows.len() as usize,
            selected: fitted_row(self.selected, rows.len() as usize),
            ..self
        }
    }

    /// The state with the prompt closed and emptied.
    pub open spec fn without_prompt(self) -> AppStateView {
        AppStateView {
            input_active: false,
            input_title: Seq::empty(),
            input_placeholder: Seq::empty(),
            input_buffer: Seq::empty(),
            ..self
        }
    }

    /// The state with the filter set from a query.
    pub open spec fn with_filter(self, query: Option<Seq<char>>) -> AppStateView {
        AppStateView { filter_query: effective_filter(query), ..self }.with_rows()
    }

    /// The state with an error shown.
    pub open spec fn with_error(self, message: Seq<char>) -> AppStateView {
        AppStateView {
            error_message: Some(message),
            loading_message: None,
            success_message: None,
            ..self
        }
    }

    /// The state with a loading message shown.
    pub open spec fn with_loading(self, message: Seq<char>) -> AppStateView {
        AppStateView {
            loading_message: Some(message),
            error_message: None,
            success_message: None,
            ..self
        }
    }

    /// The state with a success shown.
    pub open spec fn with_success(self, message: Seq<char>) -> AppStateView {
        AppStateView {
            success_message: Some(message),
            loading_message: None,
            error_message: None,
            ..self
        }
    }

    /// The state with the change requests that were loaded.
    pub open spec fn with_prs(self, prs: Seq<PrInfoView>) -> AppStateView {
        AppStateView {
            loading_message: None,
            error_message: None,
            ..AppStateView { prs: prs, ..self }.with_rows()
        }
    }
}

/// The rows of a list are indices of its change requests, in ascending order
/// and without repetition.
pub proof fn lemma_matching_indices(prs: Seq<PrInfoView>, query: Seq<char>, upto: nat)
    requires
        upto <= prs.len(),
        prs.len() <= usize::MAX,
    ensures
        matching_indices(prs, query, upto).len() <= upto,
        forall|k: int|
            0 <= k < matching_indices(prs, query, upto).len() ==> {
                &&& (#[trigger] matching_indices(prs, query, upto)[k]) < upto
                &&& matches_query(prs[matching_indices(prs, query, upto)[k] as int], query)
            },
        forall|k: int, m: int|
            0 <= k < m < matching_indices(prs, query, upto).len() ==> matching_indices(
                prs,
                query,
                upto,
            )[k] < matching_indices(prs, query, upto)[m],
        forall|i: int|
            0 <= i < upto && matches_query(prs[i], query) ==> matching_indices(
                prs,
                query,
                upto,
            ).contains(i as usize),
    decreases upto,
{
    if upto > 0 {
        let earlier = matching_indices(prs, query, (upto - 1) as nat);
        let all = matching_indices(prs, query, upto);
        lemma_matching_indices(prs, query, (upto - 1) as nat);
        assert forall|i: int| 0 <= i < upto && matches_query(prs[i], query) implies all.contains(
            i as usize,
        ) by {
            if i < upto - 1 {
                assert(earlier.contains(i as usize));
                let k = choose|k: int| 0 <= k < earlier.len() && earlier[k] == i as usize;
                assert(all[k] == i as usize);
            } else {
                assert(all[all.len() - 1] == i as usize);
            }
        }
    }
}

impl AppState {
    /// The state at start: the main menu, no change requests, no messages.
    pub fn new() -> (state: Self)
        ensures
            state.deep_view() == (AppStateView {
                current_screen: Screen::MainMenu,
                prs: Seq::empty(),
                selected: None,
                row_count: 0,
                input_active: false,
                input_title: Seq::empty(),
                input_placeholder: Seq::empty(),
                input_buffer: Seq::empty(),
                filter_query: None,
                display_indices: Seq::empty(),
                error_message: None,
                loading_message: None,
                success_message: None,
            }),
    {
        let state = AppState {
            current_screen: Screen::MainMenu,
            prs: Vec::new(),
            pr_list_state: ListState::new(),
            input_active: false,
            input_title: String::new(),
            input_placeholder: String::new(),
            input_buffer: String::new(),
            filter_query: None,
            display_indices: Vec::new(),
            error_message: None,
            loading_message: None,
            success_message: None,
        };
        assert(state.prs.deep_view() =~= Seq::<PrInfoView>::empty());
        state
    }

    /// Takes in the change requests that were loaded: the rows are computed
    /// anew, and the loading and error messages are cleared.
    pub fn set_prs(&mut self, prs: Vec<PrInfo>)
        ensures
            final(self).deep_view() == old(self).deep_view().with_prs(prs.deep_view()),
    {
        self.prs = prs;
        self.recompute_display_indices();
        self.loading_message = None;
        self.error_message = None;
    }

    /// Shows an error; the other messages are cleared.
    pub fn set_error(&mut self, message: String)
        ensures
            final(self).deep_view() == old(self).deep_view().with_error(message@),
    {
        self.error_message = Some(message);
        self.loading_message = None;
        self.success_message = None;
    }

    /// Shows what is being waited for; the other messages are cleared.
    pub fn set_loading(&mut self, message: &str)
        ensures
            final(self).deep_view() == old(self).deep_view().with_loading(message@),
    {
        self.loading_message = Some(message.to_owned());
        self.error_message = None;
        self.success_message = None;
    }

    /// Shows a success; the other messages are cleared.
    pub fn set_success(&mut self, message: &str)
        ensures
            final(self).deep_view() == old(self).deep_view().with_success(message@),
    {
        self.success_message = Some(message.to_owned());
        self.loading_message = None;
        self.error_message = None;
    }

    /// Clears every message.
    pub fn clear_messages(&mut self)
        ensures
            final(self).deep_view() == (AppStateView {
                error_message: None,
                loading_message: None,
                success_message: None,
                ..old(self).deep_view()
            }),
    {
        self.error_message = None;
        self.loading_message = None;
        self.success_message = None;
    }

    /// Opens the prompt with a title, a placeholder and an initial text.
    pub fn start_prompt(&mut self, title: &str, placeholder: &str, initial: &str)
        ensures
            final(self).deep_view() == (AppStateView {
                input_active: true,
                input_title: title@,
                input_placeholder: placeholder@,
                input_buffer: initial@,
                ..old(self).deep_view()
            }),
    {
        self.input_active = true;
        self.input_title = title.to_owned();
        self.input_placeholder = placeholder.to_owned();
        self.input_buffer = initial.to_owned();
    }

    /// Closes the prompt and drops what it held.
    pub fn cancel_prompt(&mut self)
        ensures
            final(self).deep_view() == old(self).deep_view().without_prompt(),
    {
        self.input_active = false;
        self.input_title = String::new();
        self.input_placeholder = String::new();
        self.input_buffer = String::new();
    }

    /// Closes the prompt and returns what was typed, without the whitespace
    /// around it.
    pub fn confirm_prompt(&mut self) -> (typed: String)
        ensures
            typed@ == trim(old(self).input_buffer@),
            final(self).deep_view() == old(self).deep_view().without_prompt(),
    {
        let text = chars_of(self.input_buffer.as_str());
        let (a, b) = trim_range(&text, 0, text.len());
        assert(text@.subrange(0, text@.len() as int) == text@);
        let typed = string_of(&text, a, b);
        self.cancel_prompt();
        typed
    }

    /// Sets the filter, or clears it where the query holds nothing but
    /// whitespace, and computes the rows anew.
    pub fn set_filter_query(&mut self, q: Option<String>)
        ensures
            final(self).deep_view() == old(self).deep_view().with_filter(q.deep_view()),
    {
        self.filter_query = match q {
            Some(text) => {
                let chars = chars_of(text.as_str());
                let (a, b) = trim_range(&chars, 0, chars.len());
                assert(chars@.subrange(0, chars@.len() as int) == chars@);
                if a < b {
                    Some(text)
                } else {
                    None
                }
            },
            None => None,
        };
        self.recompute_display_indices();
    }

    /// Computes the rows of the list from the change requests and the filter,
    /// and fits the cursor to them.
    pub fn recompute_display_indices(&mut self)
        ensures
            final(self).deep_view() == old(self).deep_view().with_rows(),
    {
        let ghost prs = self.prs.deep_view();
        let mut rows: Vec<usize> = Vec::new();
        let count = self.prs.len();
        match &self.filter_query {
            Some(query) => {
                let wanted = chars_of(to_lowercase(query.as_str()).as_str());
                let mut i: usize = 0;
                while i < count
                    invariant
                        i <= count,
                        count == self.prs@.len(),
                        prs == self.prs.deep_view(),
                        wanted@ == lowercase(query@),
                        rows@ == matching_indices(prs, wanted@, i as nat),
                    decreases count - i,
                {
                    let pr = &self.prs[i];
                    assert(prs[i as int] == pr.deep_view());
                    let title = chars_of(to_lowercase(pr.title.as_str()).as_str());
                    let author = chars_of(to_lowercase(pr.author.as_str()).as_str());
                    let number = chars_of(decimal_string(pr.number).as_str());
                    if contains(&title, &wanted) || contains(&author, &wanted) || contains(
                        &number,
                        &wanted,
                    ) {
                        rows.push(i);
                    }
                    i = i + 1;
                }
            },
            None => {
                let mut i: usize = 0;
                while i < count
                    invariant
                        i <= count,
                        rows@ == Seq::new(i as nat, |k: int| k as usize),
                    decreases count - i,
                {
                    rows.push(i);
                    i = i + 1;
                    assert(rows@ =~= Seq::new(i as nat, |k: int| k as usize));
                }
            },
        }
        self.pr_list_state.set_items_count(rows.len());
        self.display_indices = rows;
    }
}

} // verus!
