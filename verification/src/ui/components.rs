//! The texts that the screens show, computed from the state. Drawing them is
//! left to the front end.

use crate::config::{Config, ConfigView};
use crate::github::{contains_label, PrInfo, PrInfoView};
use crate::text::{decimal, push_decimal, text_or};
use vstd::prelude::*;
use vstd::string::StringExecFns;

verus! {

/// The main menu.
pub struct MainMenu;

/// The list of change requests.
pub struct PrList;

/// The progress screen.
pub struct ProgressView;

/// The title of the list: how many change requests are shown, of how many.
pub open spec fn list_title(shown: nat, total: nat) -> Seq<char> {
    "📋 Pull Requests  —  showing "@ + decimal(shown) + " of "@ + decimal(total)
}

/// The hint under the title of the list, which names the filter in use.
pub open spec fn list_hint(filter: Option<Seq<char>>) -> Seq<char> {
    match filter {
        Some(query) => "f: Filter (active: '"@ + query
            + "')  •  Enter: Cherry-pick  •  Esc: Back"@,
        None => "f: Filter  •  Enter: Cherry-pick  •  Esc: Back"@,
    }
}

/// The line of one change request in the list.
pub open spec fn item_line(pr: PrInfoView) -> Seq<char> {
    "#"@ + decimal(pr.number as nat) + " - "@ + pr.title + " (by "@ + pr.author + " - "@
        + decimal(pr.commits.len()) + " commits)"@
}

/// The keys of the list.
pub open spec fn list_keys() -> Seq<char> {
    "↑/↓ Navigate  •  Enter Cherry-pick  •  r Refresh  •  f Filter  •  Esc Back  •  q Quit"@
}

/// The status line of the list: the last success, if any, then the keys.
pub open spec fn status_line(success: Option<Seq<char>>) -> Seq<char> {
    match success {
        Some(message) => message + "   •   "@ + list_keys(),
        None => list_keys(),
    }
}

/// What an empty list says: the search criteria in use, and what to check.
pub open spec fn criteria_info(config: ConfigView) -> Seq<char> {
    "No PRs found matching the criteria.\n\n📋 Search Criteria:\n• Repository: "@
        + config.github.owner + "/"@ + config.github.repo + "\n• Base Branch: "@
        + config.github.base_branch + "\n• Environment: "@ + config.tags.environment
        + "\n• Pending Tag: \""@ + config.tags.pending_tag + "\"\n• Days Back: "@ + decimal(
        config.ui.days_back as nat,
    ) + "\n\n💡 Tips:\n• Ensure PRs are tagged with \""@ + config.tags.pending_tag
        + "\"\n• Check if PRs are merged to \""@ + config.github.base_branch
        + "\" branch\n• Verify the tag pattern matches: "@ + config.tags.sprint_pattern
        + "\n\n🔄 Press 'r' to refresh or 'Esc' to go back."@
}

impl MainMenu {
    /// The title of the main menu.
    pub fn title() -> (text: &'static str)
        ensures
            text@ == "🍒 GitHub Cherry-Pick"@,
    {
        "🍒 GitHub Cherry-Pick"
    }

    /// The line that names the keys of the main menu.
    pub fn menu_text() -> (text: &'static str)
        ensures
            text@ == ">> Press Enter to view PRs  •  r: Refresh  •  q: Quit"@,
    {
        ">> Press Enter to view PRs  •  r: Refresh  •  q: Quit"
    }

    /// The instructions under the main menu.
    pub fn instructions() -> (text: &'static str)
        ensures
            text@ == "Use numbers to select options, 'q' to quit"@,
    {
        "Use numbers to select options, 'q' to quit"
    }
}

impl PrList {
    /// Builds the title of the list.
    pub fn title(shown: usize, total: usize) -> (text: String)
        ensures
            text@ == list_title(shown as nat, total as nat),
    {
        let mut text = String::from_str("📋 Pull Requests  —  showing ");
        push_decimal(&mut text, shown as u64);
        text.append(" of ");
        push_decimal(&mut text, total as u64);
        text
    }

    /// Builds the hint under the title.
    pub fn hint(filter: &Option<String>) -> (text: String)
        ensures
            text@ == list_hint(filter.deep_view()),
    {
        match filter {
            Some(query) => String::from_str("f: Filter (active: '").concat(
                query.as_str(),
            ).concat("')  •  Enter: Cherry-pick  •  Esc: Back"),
            None => String::from_str("f: Filter  •  Enter: Cherry-pick  •  Esc: Back"),
        }
    }

    /// Builds the line of one change request.
    pub fn item_line(pr: &PrInfo) -> (text: String)
        ensures
            text@ == item_line(pr.deep_view()),
    {
        let mut text = String::from_str("#");
        push_decimal(&mut text, pr.number);
        text.append(" - ");
        text.append(pr.title.as_str());
        text.append(" (by ");
        text.append(pr.author.as_str());
        text.append(" - ");
        push_decimal(&mut text, pr.commits.len() as u64);
        text.append(" commits)");
        assert(pr.deep_view().commits.len() == pr.commits@.len());
        text
    }

    /// Whether a change request carries the label of the completed ones and
    /// is drawn as done.
    pub fn is_completed(pr: &PrInfo) -> (done: bool)
        ensures
            done == pr.deep_view().labels.contains("cherry picked"@),
    {
        contains_label(&pr.labels, "cherry picked")
    }

    /// Builds the status line.
    pub fn status_line(success: &Option<String>) -> (text: String)
        ensures
            text@ == status_line(success.deep_view()),
    {
        let keys =
            "↑/↓ Navigate  •  Enter Cherry-pick  •  r Refresh  •  f Filter  •  Esc Back  •  q Quit";
        match success {
            Some(message) => message.clone().concat("   •   ").concat(keys),
            None => String::from_str(keys),
        }
    }

    /// Builds what an empty list says.
    pub fn criteria_info(config: &Config) -> (text: String)
        ensures
            text@ == criteria_info(config.deep_view()),
    {
        let mut text = String::from_str(
            "No PRs found matching the criteria.\n\n📋 Search Criteria:\n• Repository: ",
        );
        text.append(config.github.owner.as_str());
        text.append("/");
        text.append(config.github.repo.as_str());
        text.append("\n• Base Branch: ");
        text.append(config.github.base_branch.as_str());
        text.append("\n• Environment: ");
        text.append(config.tags.environment.as_str());
        text.append("\n• Pending Tag: \"");
        text.append(config.tags.pending_tag.as_str());
        text.append("\"\n• Days Back: ");
        push_decimal(&mut text, config.ui.days_back as u64);
        text.append("\n\n💡 Tips:\n• Ensure PRs are tagged with \"");
        text.append(config.tags.pending_tag.as_str());
        text.append("\"\n• Check if PRs are merged to \"");
        text.append(config.github.base_branch.as_str());
        text.append("\" branch\n• Verify the tag pattern matches: ");
        text.append(config.tags.sprint_pattern.as_str());
        text.append("\n\n🔄 Press 'r' to refresh or 'Esc' to go back.");
        text
    }
}

impl ProgressView {
    /// The title of the progress screen.
    pub fn title() -> (text: &'static str)
        ensures
            text@ == "⏳ Processing..."@,
    {
        "⏳ Processing..."
    }

    /// What the progress screen says: the loading message, or a request for
    /// patience.
    pub fn message(loading: &Option<String>) -> (text: String)
        ensures
            text@ == text_or(loading.deep_view(), "Please wait..."@),
    {
        match loading {
            Some(message) => message.clone(),
            None => String::from_str("Please wait..."),
        }
    }
}

/// What the error screen says: the error, or a note that none is known.
pub fn error_text(error: &Option<String>) -> (text: String)
    ensures
        text@ == text_or(error.deep_view(), "Unknown error"@),
{
    match error {
        Some(message) => message.clone(),
        None => String::from_str("Unknown error"),
    }
}

} // verus!
