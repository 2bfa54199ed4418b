//! What a key press means: the front end's state after it, and the command
//! that the caller is to carry out.

use crate::git::error_text;
use crate::github::PrInfo;
use crate::orchestrator::{ApplyFailure, ApplyFailureView};
use crate::text::{
    debug_list, decimal, format_debug_list, pop_char, push_char, push_decimal, trim,
};
use crate::ui::events::Key;
use crate::ui::state::{next_row, previous_row, AppState, AppStateView, Screen};
use crate::util::{short_sha, short_sha_spec};
use vstd::prelude::*;
use vstd::string::StringExecFns;

verus! {

/// What the caller is to do after a key press.
#[derive(Debug, Clone, Copy, PartialEq, Eq)]
pub enum Command {
    /// Nothing: go on with the next key.
    Continue,
    /// Leave the front end.
    Quit,
    /// Load the change requests anew.
    LoadPrs,
    /// Apply the change request at this index.
    CherryPick(usize),
}

/// Title of the filter prompt.
pub open spec fn filter_title() -> Seq<char> {
    "Filter PRs"@
}

/// Placeholder of the filter prompt.
pub open spec fn filter_hint() -> Seq<char> {
    "type to filter by #, title or author (Enter to apply, Esc to cancel)"@
}

/// The cursor after a move up: unchanged in an empty list.
pub open spec fn moved_up(s: AppStateView) -> AppStateView {
    if s.row_count == 0 {
        s
    } else {
        AppStateView { selected: Some(previous_row(s.selected, s.row_count)), ..s }
    }
}

/// The cursor after a move down: unchanged in an empty list.
pub open spec fn moved_down(s: AppStateView) -> AppStateView {
    if s.row_count == 0 {
        s
    } else {
        AppStateView { selected: Some(next_row(s.selected, s.row_count)), ..s }
    }
}

/// The state after a key while the prompt is open: Enter closes the prompt
/// and, on the list, sets the filter to what was typed; Esc closes it;
/// Backspace and characters edit the text; any other key does nothing.
pub open spec fn after_prompt_key(s: AppStateView, key: Key) -> AppStateView {
    match key {
        Key::Enter => {
            let typed = trim(s.input_buffer);
            let closed = s.without_prompt();
            if s.current_screen == Screen::PrList {
                closed.with_filter(
                    if typed.len() == 0 {
                        None
                    } else {
                        Some(typed)
                    },
                )
            } else {
                closed
            }
        },
        Key::Esc => s.without_prompt(),
        Key::Backspace => if s.input_buffer.len() > 0 {
            AppStateView { input_buffer: s.input_buffer.drop_last(), ..s }
        } else {
            s
        },
        Key::Char(c) => AppStateView { input_buffer: s.input_buffer.push(c), ..s },
        _ => s,
    }
}

/// The state and the command after a key on the main menu.
pub open spec fn after_main_menu_key(s: AppStateView, key: Key) -> (AppStateView, Command) {
    if key == Key::Char('1') || key == Key::Enter {
        (AppStateView { current_screen: Screen::PrList, ..s }, Command::Continue)
    } else if key == Key::Char('r') {
        (s, Command::LoadPrs)
    } else {
        (s, Command::Continue)
    }
}

/// The state and the command after a key on the list.
pub open spec fn after_pr_list_key(s: AppStateView, key: Key) -> (AppStateView, Command) {
    if key == Key::Up || key == Key::Char('k') {
        (moved_up(s), Command::Continue)
    } else if key == Key::Down || key == Key::Char('j') {
        (moved_down(s), Command::Continue)
    } else if key == Key::Enter {
        match s.selected {
            Some(row) => if row < s.display_indices.len() {
                (s, Command::CherryPick(s.display_indices[row as int]))
            } else {
                (s, Command::Continue)
            },
            None => (s, Command::Continue),
        }
    } else if key == Key::Char('r') {
        (s, Command::LoadPrs)
    } else if key == Key::Char('f') {
        (
            AppStateView {
                input_active: true,
                input_title: filter_title(),
                input_placeholder: filter_hint(),
                input_buffer: match s.filter_query {
                    Some(query) => query,
                    None => Seq::empty(),
                },
                ..s
            },
            Command::Continue,
        )
    } else {
        (s, Command::Continue)
    }
}

/// The state and the command after a key. While the prompt is open every key
/// goes to it. Otherwise `q` quits, Esc quits from the main menu and leads
/// back to it from everywhere else, and any other key goes to the screen; on
/// the error screen it leads back to the main menu.
pub open spec fn after_key(s: AppStateView, key: Key) -> (AppStateView, Command) {
    if s.input_active {
        (after_prompt_key(s, key), Command::Continue)
    } else if key == Key::Char('q') {
        (s, Command::Quit)
    } else if key == Key::Esc {
        if s.current_screen == Screen::MainMenu {
            (s, Command::Quit)
        } else {
            (AppStateView { current_screen: Screen::MainMenu, ..s }, Command::Continue)
        }
    } else {
        match s.current_screen {
            Screen::MainMenu => after_main_menu_key(s, key),
            Screen::PrList => after_pr_list_key(s, key),
            Screen::Progress => (s, Command::Continue),
            Screen::Error => (
                AppStateView { current_screen: Screen::MainMenu, ..s },
                Command::Continue,
            ),
        }
    }
}

/// Takes a key while the prompt is open.
pub fn handle_prompt_input(state: &mut AppState, key: Key)
    ensures
        final(state).deep_view() == after_prompt_key(old(state).deep_view(), key),
{
    match key {
        Key::Enter => {
            let on_list = matches!(state.current_screen, Screen::PrList);
            let typed = state.confirm_prompt();
            if on_list {
                let query = if typed.as_str().is_empty() {
                    None
                } else {
                    Some(typed)
                };
                state.set_filter_query(query);
            }
        },
        Key::Esc => {
            state.cancel_prompt();
        },
        Key::Backspace => {
            let _ = pop_char(&mut state.input_buffer);
        },
        Key::Char(c) => {
            push_char(&mut state.input_buffer, c);
        },
        _ => {},
    }
}

/// Takes a key on the main menu.
pub fn handle_main_menu_input(state: &mut AppState, key: Key) -> (command: Command)
    ensures
        (final(state).deep_view(), command) == after_main_menu_key(old(state).deep_view(), key),
{
    match key {
        Key::Char('1') | Key::Enter => {
            state.current_screen = Screen::PrList;
            Command::Continue
        },
        Key::Char('r') => Command::LoadPrs,
        _ => Command::Continue,
    }
}

/// Takes a key on the list.
pub fn handle_pr_list_input(state: &mut AppState, key: Key) -> (command: Command)
    ensures
        (final(state).deep_view(), command) == after_pr_list_key(old(state).deep_view(), key),
{
    match key {
        Key::Up | Key::Char('k') => {
            state.pr_list_state.select_previous();
            Command::Continue
        },
        Key::Down | Key::Char('j') => {
            state.pr_list_state.select_next();
            Command::Continue
        },
        Key::Enter => {
            match state.pr_list_state.selected() {
                Some(row) => {
                    if row < state.display_indices.len() {
                        Command::CherryPick(state.display_indices[row])
                    } else {
                        Command::Continue
                    }
                },
                None => Command::Continue,
            }
        },
        Key::Char('r') => Command::LoadPrs,
        Key::Char('f') => {
            let initial = match &state.filter_query {
                Some(query) => query.clone(),
                None => String::new(),
            };
            state.start_prompt(
                "Filter PRs",
                "type to filter by #, title or author (Enter to apply, Esc to cancel)",
                initial.as_str(),
            );
            Command::Continue
        },
        _ => Command::Continue,
    }
}

/// Takes a key and says what the caller is to do.
pub fn handle_key_event(state: &mut AppState, key: Key) -> (command: Command)
    ensures
        (final(state).deep_view(), command) == after_key(old(state).deep_view(), key),
{
    if state.input_active {
        handle_prompt_input(state, key);
        return Command::Continue;
    }
    match key {
        Key::Char('q') => Command::Quit,
        Key::Esc => {
            match state.current_screen {
                Screen::MainMenu => Command::Quit,
                _ => {
                    state.current_screen = Screen::MainMenu;
                    Command::Continue
                },
            }
        },
        _ => {
            match state.current_screen {
                Screen::MainMenu => handle_main_menu_input(state, key),
                Screen::PrList => handle_pr_list_input(state, key),
                Screen::Progress => Command::Continue,
                Screen::Error => {
                    state.current_screen = Screen::MainMenu;
                    Command::Continue
                },
            }
        },
    }
}

/// The state while the change requests are being loaded.
pub open spec fn loading_prs(s: AppStateView) -> AppStateView {
    AppStateView { current_screen: Screen::Progress, ..s.with_loading("Loading PRs..."@) }
}

/// The state after the change requests were loaded, or could not be.
pub open spec fn loaded_prs(
    s: AppStateView,
    outcome: Result<Seq<crate::github::PrInfoView>, Seq<char>>,
) -> AppStateView {
    match outcome {
        Ok(prs) => AppStateView { current_screen: Screen::PrList, ..s.with_prs(prs) },
        Err(cause) => AppStateView {
            current_screen: Screen::Error,
            ..s.with_error("Failed to load PRs: "@ + cause)
        },
    }
}

/// Shows that the change requests are being loaded.
pub fn begin_loading(state: &mut AppState)
    ensures
        final(state).deep_view() == loading_prs(old(state).deep_view()),
{
    state.set_loading("Loading PRs...");
    state.current_screen = Screen::Progress;
}

/// Shows the change requests that were loaded, or why none were.
pub fn finish_loading(state: &mut AppState, outcome: Result<Vec<PrInfo>, String>)
    ensures
        final(state).deep_view() == loaded_prs(
            old(state).deep_view(),
            match outcome {
                Ok(prs) => Ok(prs.deep_view()),
                Err(cause) => Err(cause@),
            },
        ),
{
    match outcome {
        Ok(prs) => {
            state.set_prs(prs);
            state.current_screen = Screen::PrList;
        },
        Err(cause) => {
            state.set_error(String::from_str("Failed to load PRs: ").concat(cause.as_str()));
            state.current_screen = Screen::Error;
        },
    }
}

/// The message shown while a change request is being applied.
pub open spec fn applying_message(number: u64, title: Seq<char>) -> Seq<char> {
    "Cherry-picking PR #"@ + decimal(number as nat) + ": "@ + title
}

/// Shows that the change request at `pr_index` is being applied and hands out
/// a copy of it. An index past the end changes nothing.
pub fn begin_cherry_pick(state: &mut AppState, pr_index: usize) -> (chosen: Option<PrInfo>)
    ensures
        pr_index >= old(state).prs@.len() ==> chosen is None && final(state).deep_view() == old(
            state,
        ).deep_view(),
        pr_index < old(state).prs@.len() ==> {
            &&& chosen matches Some(pr)
            &&& pr.deep_view() == old(state).deep_view().prs[pr_index as int]
            &&& final(state).deep_view() == (AppStateView {
                current_screen: Screen::Progress,
                ..old(state).deep_view().with_loading(
                    applying_message(pr.number, pr.title@),
                )
            })
        },
{
    if pr_index >= state.prs.len() {
        return None;
    }
    let pr = state.prs[pr_index].clone();
    assert(state.deep_view().prs[pr_index as int] == state.prs@[pr_index as int].deep_view());
    let mut message = String::from_str("Cherry-picking PR #");
    push_decimal(&mut message, pr.number);
    message.append(": ");
    message.append(pr.title.as_str());
    state.set_loading(message.as_str());
    state.current_screen = Screen::Progress;
    Some(pr)
}

/// The message that reports why a change request was not applied.
pub open spec fn failure_message(failure: ApplyFailureView) -> Seq<char> {
    match failure {
        ApplyFailureView::Checkout(error) => "Failed to checkout target branch: "@ + error_text(
            error,
        ),
        ApplyFailureView::Conflict { commit_sha, paths } => "Conflicts in commit "@
            + short_sha_spec(commit_sha) + ": "@ + debug_list(paths)
            + ". Please resolve manually and press any key to continue."@,
        ApplyFailureView::Commit { commit_sha, error } => "Failed to cherry-pick commit "@
            + short_sha_spec(commit_sha) + ": "@ + error_text(error),
    }
}

/// The message that reports that a change request was applied.
pub open spec fn success_message(number: u64) -> Seq<char> {
    "Successfully cherry-picked PR #"@ + decimal(number as nat)
}

/// The state after a change request was applied, or was not.
pub open spec fn shown_outcome(
    s: AppStateView,
    number: u64,
    failure: Option<ApplyFailureView>,
) -> AppStateView {
    match failure {
        Some(failure) => AppStateView {
            current_screen: Screen::Error,
            ..s.with_error(failure_message(failure))
        },
        None => AppStateView {
            current_screen: Screen::PrList,
            ..s.with_success(success_message(number))
        },
    }
}

/// Words the report of a failed application.
pub fn describe_failure(failure: &ApplyFailure) -> (message: String)
    ensures
        message@ == failure_message(failure.deep_view()),
{
    match failure {
        ApplyFailure::Checkout(error) => String::from_str(
            "Failed to checkout target branch: ",
        ).concat(error.message().as_str()),
        ApplyFailure::Conflict { commit_sha, paths } => String::from_str(
            "Conflicts in commit ",
        ).concat(short_sha(commit_sha.as_str())).concat(": ").concat(
            format_debug_list(paths).as_str(),
        ).concat(". Please resolve manually and press any key to continue."),
        ApplyFailure::Commit { commit_sha, error } => String::from_str(
            "Failed to cherry-pick commit ",
        ).concat(short_sha(commit_sha.as_str())).concat(": ").concat(error.message().as_str()),
    }
}

/// Shows how the application of the change request `number` ended.
pub fn show_outcome(state: &mut AppState, number: u64, failure: &Option<ApplyFailure>)
    ensures
        final(state).deep_view() == shown_outcome(
            old(state).deep_view(),
            number,
            failure.deep_view(),
        ),
{
    match failure {
        Some(failure) => {
            state.set_error(describe_failure(failure));
            state.current_screen = Screen::Error;
        },
        None => {
            let mut message = String::from_str("Successfully cherry-picked PR #");
            push_decimal(&mut message, number);
            state.set_success(message.as_str());
            state.current_screen = Screen::PrList;
        },
    }
}

} // verus!
