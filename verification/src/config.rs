//! Settings of a run: the repository and branches, the label convention, and
//! the list options, with the overrides that a project file or the command
//! line lays over them.

use crate::text::{
    chars_of, decimal, find_char, parse_u32, parse_u32_range, position_of, push_decimal,
    string_of, text_or, trim, trim_matches, trim_matches_range, trim_range,
};
use crate::github::{check_sprint_pattern, pattern_compiles};
use crate::ui::config_selector::ConfigChoice;
use vstd::prelude::*;
use vstd::string::StringExecFns;

verus! {

/// Repository and branch settings.
#[derive(Debug, PartialEq, Eq)]
pub struct GitHubConfig {
    pub owner: String,
    pub repo: String,
    pub base_branch: String,
    pub target_branch: String,
    pub cherry_pick_source_branch: String,
    pub branch_name_template: String,
}

/// The label convention that marks a change request for this tool.
#[derive(Debug, PartialEq, Eq)]
pub struct TagConfig {
    pub sprint_pattern: String,
    pub environment: String,
    pub pending_tag: String,
    pub completed_tag: String,
}

/// List options.
#[derive(Debug, PartialEq, Eq, Clone, Copy)]
pub struct UiConfig {
    pub days_back: u32,
    pub page_size: usize,
    pub only_forked_repos: bool,
}

/// All settings of a run.
#[derive(Debug, PartialEq, Eq)]
pub struct Config {
    pub github: GitHubConfig,
    pub tags: TagConfig,
    pub ui: UiConfig,
}

/// Mathematical value of a [`GitHubConfig`].
pub struct GitHubConfigView {
    pub owner: Seq<char>,
    pub repo: Seq<char>,
    pub base_branch: Seq<char>,
    pub target_branch: Seq<char>,
    pub cherry_pick_source_branch: Seq<char>,
    pub branch_name_template: Seq<char>,
}

/// Mathematical value of a [`TagConfig`].
pub struct TagConfigView {
    pub sprint_pattern: Seq<char>,
    pub environment: Seq<char>,
    pub pending_tag: Seq<char>,
    pub completed_tag: Seq<char>,
}

/// Mathematical value of a [`Config`].
pub struct ConfigView {
    pub github: GitHubConfigView,
    pub tags: TagConfigView,
    pub ui: UiConfig,
}

impl DeepView for GitHubConfig {
    type V = GitHubConfigView;

    open spec fn deep_view(&self) -> GitHubConfigView {
        GitHubConfigView {
            owner: self.owner@,
            repo: self.repo@,
            base_branch: self.base_branch@,
            target_branch: self.target_branch@,
            cherry_pick_source_branch: self.cherry_pick_source_branch@,
            branch_name_template: self.branch_name_template@,
        }
    }
}

impl DeepView for TagConfig {
    type V = TagConfigView;

    open spec fn deep_view(&self) -> TagConfigView {
        TagConfigView {
            sprint_pattern: self.sprint_pattern@,
            environment: self.environment@,
            pending_tag: self.pending_tag@,
            completed_tag: self.completed_tag@,
        }
    }
}

impl DeepView for Config {
    type V = ConfigView;

    open spec fn deep_view(&self) -> ConfigView {
        ConfigView {
            github: self.github.deep_view(),
            tags: self.tags.deep_view(),
            ui: self.ui,
        }
    }
}

impl Clone for GitHubConfig {
    fn clone(&self) -> (copy: Self)
        ensures
            copy.deep_view() == self.deep_view(),
    {
        GitHubConfig {
            owner: self.owner.clone(),
            repo: self.repo.clone(),
            base_branch: self.base_branch.clone(),
            target_branch: self.target_branch.clone(),
            cherry_pick_source_branch: self.cherry_pick_source_branch.clone(),
            branch_name_template: self.branch_name_template.clone(),
        }
    }
}

impl Clone for TagConfig {
    fn clone(&self) -> (copy: Self)
        ensures
            copy.deep_view() == self.deep_view(),
    {
        TagConfig {
            sprint_pattern: self.sprint_pattern.clone(),
            environment: self.environment.clone(),
            pending_tag: self.pending_tag.clone(),
            completed_tag: self.completed_tag.clone(),
        }
    }
}

impl Clone for Config {
    fn clone(&self) -> (copy: Self)
        ensures
            copy.deep_view() == self.deep_view(),
    {
        Config { github: self.github.clone(), tags: self.tags.clone(), ui: self.ui }
    }
}

/// The settings used when no file and no override says otherwise.
pub open spec fn default_config() -> ConfigView {
    ConfigView {
        github: GitHubConfigView {
            owner: Seq::empty(),
            repo: Seq::empty(),
            base_branch: "master"@,
            target_branch: "master"@,
            cherry_pick_source_branch: "master"@,
            branch_name_template: "cherry-pick/{task_id}"@,
        },
        tags: TagConfigView {
            sprint_pattern: "S\\d+"@,
            environment: "DEV"@,
            pending_tag: "pending cherrypick"@,
            completed_tag: "cherry picked"@,
        },
        ui: UiConfig { days_back: 28, page_size: 20, only_forked_repos: false },
    }
}

impl Default for Config {
    fn default() -> (config: Self)
        ensures
            config.deep_view() == default_config(),
    {
        Config {
            github: GitHubConfig {
                owner: String::new(),
                repo: String::new(),
                base_branch: "master".to_owned(),
                target_branch: "master".to_owned(),
                cherry_pick_source_branch: "master".to_owned(),
                branch_name_template: "cherry-pick/{task_id}".to_owned(),
            },
            tags: TagConfig {
                sprint_pattern: "S\\d+".to_owned(),
                environment: "DEV".to_owned(),
                pending_tag: "pending cherrypick".to_owned(),
                completed_tag: "cherry picked".to_owned(),
            },
            ui: UiConfig { days_back: 28, page_size: 20, only_forked_repos: false },
        }
    }
}

/// Why a configuration was refused.
#[derive(Debug, PartialEq, Eq)]
pub enum ConfigError {
    /// The sprint-tag pattern is no valid regular expression; the text says
    /// why.
    InvalidSprintPattern(String),
}

/// The settings after the given overrides are laid over `base`: each one that
/// is present replaces its field, every other field is kept.
pub open spec fn with_overrides_spec(
    base: ConfigView,
    owner: Option<Seq<char>>,
    repo: Option<Seq<char>>,
    base_branch: Option<Seq<char>>,
    target_branch: Option<Seq<char>>,
    days: Option<u32>,
    only_forks: Option<bool>,
    source_branch: Option<Seq<char>>,
) -> ConfigView {
    ConfigView {
        github: GitHubConfigView {
            owner: text_or(owner, base.github.owner),
            repo: text_or(repo, base.github.repo),
            base_branch: text_or(base_branch, base.github.base_branch),
            target_branch: text_or(target_branch, base.github.target_branch),
            cherry_pick_source_branch: text_or(
                source_branch,
                base.github.cherry_pick_source_branch,
            ),
            branch_name_template: base.github.branch_name_template,
        },
        tags: base.tags,
        ui: UiConfig {
            days_back: match days {
                Some(d) => d,
                None => base.ui.days_back,
            },
            page_size: base.ui.page_size,
            only_forked_repos: match only_forks {
                Some(b) => b,
                None => base.ui.only_forked_repos,
            },
        },
    }
}

impl Config {
    /// Lays the overrides that are present over these settings.
    pub fn with_overrides(
        self,
        owner: Option<String>,
        repo: Option<String>,
        base_branch: Option<String>,
        target_branch: Option<String>,
        days: Option<u32>,
        only_forks: Option<bool>,
        source_branch: Option<String>,
    ) -> (config: Self)
        ensures
            config.deep_view() == with_overrides_spec(
                self.deep_view(),
                owner.deep_view(),
                repo.deep_view(),
                base_branch.deep_view(),
                target_branch.deep_view(),
                days,
                only_forks,
                source_branch.deep_view(),
            ),
    {
        let mut config = self;
        if let Some(owner) = owner {
            config.github.owner = owner;
        }
        if let Some(repo) = repo {
            config.github.repo = repo;
        }
        if let Some(base_branch) = base_branch {
            config.github.base_branch = base_branch;
        }
        if let Some(target_branch) = target_branch {
            config.github.target_branch = target_branch;
        }
        if let Some(days) = days {
            config.ui.days_back = days;
        }
        if let Some(only_forks) = only_forks {
            config.ui.only_forked_repos = only_forks;
        }
        if let Some(source_branch) = source_branch {
            config.github.cherry_pick_source_branch = source_branch;
        }
        config
    }

    /// Refuses a configuration whose sprint-tag pattern is no valid regular
    /// expression, before anything is asked of the remote system. An empty
    /// owner or repository is allowed, since both can be discovered later.
    pub fn validate(&self) -> (outcome: Result<(), ConfigError>)
        ensures
            outcome is Ok <==> pattern_compiles(self.tags.sprint_pattern@),
            outcome is Err ==> outcome->Err_0 is InvalidSprintPattern,
    {
        match check_sprint_pattern(self.tags.sprint_pattern.as_str()) {
            Ok(()) => Ok(()),
            Err(error) => Err(ConfigError::InvalidSprintPattern(error.message())),
        }
    }

    /// Whether the owner or the repository still has to be discovered.
    pub fn needs_auto_discovery(&self) -> (needed: bool)
        ensures
            needed == (self.github.owner@.len() == 0 || self.github.repo@.len() == 0),
    {
        self.github.owner.as_str().is_empty() || self.github.repo.as_str().is_empty()
    }
}

/// Number of days looked back where a project file gives none that can be
/// read.
pub const DEFAULT_DAYS_BACK: u32 = 28;

/// The keys of a project file.
#[derive(Debug, Clone, Copy, PartialEq, Eq)]
pub enum EnvKey {
    GithubOwner,
    GithubRepo,
    BaseBranch,
    TargetBranch,
    CherryPickSourceBranch,
    BranchNameTemplate,
    OnlyForkedRepos,
    DaysBack,
}

/// The key that a name stands for; `None` for a name that is no key.
pub open spec fn env_key(name: Seq<char>) -> Option<EnvKey> {
    if name == "GITHUB_OWNER"@ {
        Some(EnvKey::GithubOwner)
    } else if name == "GITHUB_REPO"@ {
        Some(EnvKey::GithubRepo)
    } else if name == "BASE_BRANCH"@ {
        Some(EnvKey::BaseBranch)
    } else if name == "TARGET_BRANCH"@ {
        Some(EnvKey::TargetBranch)
    } else if name == "CHERRY_PICK_SOURCE_BRANCH"@ {
        Some(EnvKey::CherryPickSourceBranch)
    } else if name == "BRANCH_NAME_TEMPLATE"@ {
        Some(EnvKey::BranchNameTemplate)
    } else if name == "ONLY_FORKED_REPOS"@ {
        Some(EnvKey::OnlyForkedRepos)
    } else if name == "DAYS_BACK"@ {
        Some(EnvKey::DaysBack)
    } else {
        None
    }
}

/// The settings after one entry of a project file is laid over them. A flag
/// is set by `true` alone; a number of days that cannot be read becomes the
/// default.
pub open spec fn with_env_entry(base: ConfigView, key: EnvKey, value: Seq<char>) -> ConfigView {
    match key {
        EnvKey::GithubOwner => ConfigView {
            github: GitHubConfigView { owner: value, ..base.github },
            ..base
        },
        EnvKey::GithubRepo => ConfigView {
            github: GitHubConfigView { repo: value, ..base.github },
            ..base
        },
        EnvKey::BaseBranch => ConfigView {
            github: GitHubConfigView { base_branch: value, ..base.github },
            ..base
        },
        EnvKey::TargetBranch => ConfigView {
            github: GitHubConfigView { target_branch: value, ..base.github },
            ..base
        },
        EnvKey::CherryPickSourceBranch => ConfigView {
            github: GitHubConfigView { cherry_pick_source_branch: value, ..base.github },
            ..base
        },
        EnvKey::BranchNameTemplate => ConfigView {
            github: GitHubConfigView { branch_name_template: value, ..base.github },
            ..base
        },
        EnvKey::OnlyForkedRepos => ConfigView {
            ui: UiConfig { only_forked_repos: value == "true"@, ..base.ui },
            ..base
        },
        EnvKey::DaysBack => ConfigView {
            ui: UiConfig {
                days_back: match parse_u32(value) {
                    Some(days) => days,
                    None => 28,
                },
                ..base.ui
            },
            ..base
        },
    }
}

/// The settings after one line of a project file. A line that is empty, that
/// starts with `#`, that holds no `=`, or whose key is unknown changes
/// nothing; in any other line the key is what stands before the first `=` and
/// the value what stands after it, both without surrounding whitespace, the
/// value also without surrounding double quotes.
pub open spec fn with_env_line(base: ConfigView, line: Seq<char>) -> ConfigView {
    let entry = trim(line);
    let eq = position_of(entry, '=');
    if entry.len() == 0 || entry[0] == '#' || eq >= entry.len() {
        base
    } else {
        match env_key(trim(entry.take(eq as int))) {
            Some(key) => with_env_entry(
                base,
                key,
                trim_matches(trim(entry.skip(eq as int + 1)), '"'),
            ),
            None => base,
        }
    }
}

/// The settings after every line of a project file, taken in order.
pub open spec fn with_env_text(base: ConfigView, text: Seq<char>) -> ConfigView
    decreases text.len(),
{
    let end = position_of(text, '\n');
    let after = with_env_line(base, text.take(end as int));
    if end >= text.len() {
        after
    } else {
        with_env_text(after, text.skip(end as int + 1))
    }
}

/// `true` or `false`.
pub open spec fn flag_text(flag: bool) -> Seq<char> {
    if flag {
        "true"@
    } else {
        "false"@
    }
}

/// The project file that holds the overridable settings of `config`.
pub open spec fn env_text(config: ConfigView) -> Seq<char> {
    "# GitHub Cherry Pick Configuration\n# This file contains project-specific settings\n\nGITHUB_OWNER=\""@
        + config.github.owner + "\"\nGITHUB_REPO=\""@ + config.github.repo
        + "\"\nBASE_BRANCH=\""@ + config.github.base_branch + "\"\nTARGET_BRANCH=\""@
        + config.github.target_branch + "\"\nCHERRY_PICK_SOURCE_BRANCH=\""@
        + config.github.cherry_pick_source_branch + "\"\nBRANCH_NAME_TEMPLATE=\""@
        + config.github.branch_name_template + "\"\nONLY_FORKED_REPOS="@ + flag_text(
        config.ui.only_forked_repos,
    ) + "\nDAYS_BACK="@ + decimal(config.ui.days_back as nat) + "\n"@
}

/// Reads the name of a key.
pub fn parse_env_key(name: &str) -> (key: Option<EnvKey>)
    ensures
        key == env_key(name@),
{
    if *name == *"GITHUB_OWNER" {
        Some(EnvKey::GithubOwner)
    } else if *name == *"GITHUB_REPO" {
        Some(EnvKey::GithubRepo)
    } else if *name == *"BASE_BRANCH" {
        Some(EnvKey::BaseBranch)
    } else if *name == *"TARGET_BRANCH" {
        Some(EnvKey::TargetBranch)
    } else if *name == *"CHERRY_PICK_SOURCE_BRANCH" {
        Some(EnvKey::CherryPickSourceBranch)
    } else if *name == *"BRANCH_NAME_TEMPLATE" {
        Some(EnvKey::BranchNameTemplate)
    } else if *name == *"ONLY_FORKED_REPOS" {
        Some(EnvKey::OnlyForkedRepos)
    } else if *name == *"DAYS_BACK" {
        Some(EnvKey::DaysBack)
    } else {
        None
    }
}

impl Config {
    /// Lays one entry of a project file over these settings.
    pub fn set_env_entry(&mut self, key: EnvKey, value: &str)
        ensures
            final(self).deep_view() == with_env_entry(old(self).deep_view(), key, value@),
    {
        match key {
            EnvKey::GithubOwner => {
                self.github.owner = value.to_owned();
            },
            EnvKey::GithubRepo => {
                self.github.repo = value.to_owned();
            },
            EnvKey::BaseBranch => {
                self.github.base_branch = value.to_owned();
            },
            EnvKey::TargetBranch => {
                self.github.target_branch = value.to_owned();
            },
            EnvKey::CherryPickSourceBranch => {
                self.github.cherry_pick_source_branch = value.to_owned();
            },
            EnvKey::BranchNameTemplate => {
                self.github.branch_name_template = value.to_owned();
            },
            EnvKey::OnlyForkedRepos => {
                self.ui.only_forked_repos = *value == *"true";
            },
            EnvKey::DaysBack => {
                let text = chars_of(value);
                assert(text@.subrange(0, text@.len() as int) == text@);
                self.ui.days_back = match parse_u32_range(&text, 0, text.len()) {
                    Some(days) => days,
                    None => DEFAULT_DAYS_BACK,
                };
            },
        }
    }

    /// Lays the line `text[start..end]` of a project file over these settings.
    fn apply_env_line(&mut self, text: &Vec<char>, start: usize, end: usize)
        requires
            start <= end <= text@.len(),
        ensures
            final(self).deep_view() == with_env_line(
                old(self).deep_view(),
                text@.subrange(start as int, end as int),
            ),
    {
        let ghost line = text@.subrange(start as int, end as int);
        let (a, b) = trim_range(text, start, end);
        let ghost entry = text@.subrange(a as int, b as int);
        if a == b || text[a] == '#' {
            return ;
        }
        assert(entry[0] == text@[a as int]);
        let eq = find_char(text, a, b, '=');
        if eq >= b {
            return ;
        }
        let (key_a, key_b) = trim_range(text, a, eq);
        assert(text@.subrange(a as int, eq as int) == entry.take(eq - a));
        let (value_a, value_b) = trim_range(text, eq + 1, b);
        assert(text@.subrange(eq as int + 1, b as int) == entry.skip(eq - a + 1));
        let (bare_a, bare_b) = trim_matches_range(text, value_a, value_b, '"');
        let name = string_of(text, key_a, key_b);
        match parse_env_key(name.as_str()) {
            Some(key) => {
                let value = string_of(text, bare_a, bare_b);
                self.set_env_entry(key, value.as_str());
            },
            None => {},
        }
    }

    /// Lays the entries of a project file over these settings, line by line.
    pub fn apply_env(&mut self, contents: &str)
        ensures
            final(self).deep_view() == with_env_text(old(self).deep_view(), contents@),
    {
        let text = chars_of(contents);
        let mut start: usize = 0;
        assert(text@.skip(0) == text@);
        loop
            invariant
                start <= text@.len(),
                text@ == contents@,
                with_env_text(old(self).deep_view(), contents@) == with_env_text(
                    self.deep_view(),
                    text@.skip(start as int),
                ),
            decreases text@.len() - start,
        {
            let ghost rest = text@.skip(start as int);
            let end = find_char(&text, start, text.len(), '\n');
            assert(text@.subrange(start as int, text@.len() as int) == rest);
            assert(text@.subrange(start as int, end as int) == rest.take(end - start));
            self.apply_env_line(&text, start, end);
            if end >= text.len() {
                return ;
            }
            assert(rest.skip(end - start + 1) == text@.skip(end as int + 1));
            start = end + 1;
        }
    }

    /// Writes the overridable settings as a project file.
    pub fn env_file_text(&self) -> (text: String)
        ensures
            text@ == env_text(self.deep_view()),
    {
        let mut text = String::from_str(
            "# GitHub Cherry Pick Configuration\n# This file contains project-specific settings\n\nGITHUB_OWNER=\"",
        );
        text.append(self.github.owner.as_str());
        text.append("\"\nGITHUB_REPO=\"");
        text.append(self.github.repo.as_str());
        text.append("\"\nBASE_BRANCH=\"");
        text.append(self.github.base_branch.as_str());
        text.append("\"\nTARGET_BRANCH=\"");
        text.append(self.github.target_branch.as_str());
        text.append("\"\nCHERRY_PICK_SOURCE_BRANCH=\"");
        text.append(self.github.cherry_pick_source_branch.as_str());
        text.append("\"\nBRANCH_NAME_TEMPLATE=\"");
        text.append(self.github.branch_name_template.as_str());
        text.append("\"\nONLY_FORKED_REPOS=");
        if self.ui.only_forked_repos {
            text.append("true");
        } else {
            text.append("false");
        }
        text.append("\nDAYS_BACK=");
        push_decimal(&mut text, self.ui.days_back as u64);
        text.append("\n");
        text
    }
}

/// Which files a load reads, after the defaults.
#[derive(Debug, Clone, Copy, PartialEq, Eq)]
pub struct LoadPlan {
    /// Read the global configuration file, where it exists.
    pub global_file: bool,
    /// Lay the project file over the result, where it exists.
    pub project_file: bool,
}

/// The files that a load reads: both where nothing was chosen, and else what
/// the choice names.
pub open spec fn load_plan_spec(choice: Option<ConfigChoice>) -> LoadPlan {
    match choice {
        None => LoadPlan { global_file: true, project_file: true },
        Some(ConfigChoice::LoadFromEnv) => LoadPlan { global_file: true, project_file: true },
        Some(ConfigChoice::UseGlobalConfig) => LoadPlan { global_file: true, project_file: false },
        Some(ConfigChoice::UseDefaults) => LoadPlan { global_file: false, project_file: false },
    }
}

/// Decides which files a load reads.
pub fn load_plan(choice: Option<ConfigChoice>) -> (plan: LoadPlan)
    ensures
        plan == load_plan_spec(choice),
{
    match choice {
        None => LoadPlan { global_file: true, project_file: true },
        Some(ConfigChoice::LoadFromEnv) => LoadPlan { global_file: true, project_file: true },
        Some(ConfigChoice::UseGlobalConfig) => LoadPlan { global_file: true, project_file: false },
        Some(ConfigChoice::UseDefaults) => LoadPlan { global_file: false, project_file: false },
    }
}

} // verus!
