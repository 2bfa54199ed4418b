use gh_cherry::config::{load_plan, parse_env_key, Config, ConfigError, EnvKey, LoadPlan};
use gh_cherry::ui::config_selector::ConfigChoice;

#[test]
fn loads_env_overrides_from_cherry_env() {
    let contents = r#"
GITHUB_OWNER="org"
GITHUB_REPO="repo"
BASE_BRANCH="main"
TARGET_BRANCH="release"
CHERRY_PICK_SOURCE_BRANCH="main"
BRANCH_NAME_TEMPLATE="ch/{task_id}"
ONLY_FORKED_REPOS=true
DAYS_BACK=14
"#;
    let mut cfg = Config::default();
    cfg.apply_env(contents);

    assert_eq!(cfg.github.owner, "org");
    assert_eq!(cfg.github.repo, "repo");
    assert_eq!(cfg.github.base_branch, "main");
    assert_eq!(cfg.github.target_branch, "release");
    assert_eq!(cfg.github.cherry_pick_source_branch, "main");
    assert_eq!(cfg.github.branch_name_template, "ch/{task_id}");
    assert!(cfg.ui.only_forked_repos);
    assert_eq!(cfg.ui.days_back, 14);
}

#[test]
fn defaults_are_as_documented() {
    let cfg = Config::default();
    assert_eq!(cfg.github.owner, "");
    assert_eq!(cfg.github.repo, "");
    assert_eq!(cfg.github.base_branch, "master");
    assert_eq!(cfg.github.target_branch, "master");
    assert_eq!(cfg.github.cherry_pick_source_branch, "master");
    assert_eq!(cfg.github.branch_name_template, "cherry-pick/{task_id}");
    assert_eq!(cfg.tags.sprint_pattern, r"S\d+");
    assert_eq!(cfg.tags.environment, "DEV");
    assert_eq!(cfg.tags.pending_tag, "pending cherrypick");
    assert_eq!(cfg.tags.completed_tag, "cherry picked");
    assert_eq!(cfg.ui.days_back, 28);
    assert_eq!(cfg.ui.page_size, 20);
    assert!(!cfg.ui.only_forked_repos);
    assert!(cfg.needs_auto_discovery());
    assert_eq!(cfg.validate(), Ok(()));
}

#[test]
fn env_lines_are_trimmed_and_comments_skipped() {
    let mut cfg = Config::default();
    cfg.apply_env(
        "# GITHUB_OWNER=ignored\n   \n  GITHUB_OWNER  =  \"spaced\"  \r\nGITHUB_REPO=bare\nnonsense line\nUNKNOWN=1\n#\nTARGET_BRANCH=a=b",
    );
    assert_eq!(cfg.github.owner, "spaced");
    assert_eq!(cfg.github.repo, "bare");
    assert_eq!(cfg.github.target_branch, "a=b");
    assert_eq!(cfg.github.base_branch, "master");
}

#[test]
fn env_values_lose_every_surrounding_quote() {
    let mut cfg = Config::default();
    cfg.apply_env("GITHUB_OWNER=\"\"quoted\"\"\nGITHUB_REPO=\"in \"the\" middle\"\nBASE_BRANCH=\"\"\nTARGET_BRANCH=\" padded \"");
    assert_eq!(cfg.github.owner, "quoted");
    assert_eq!(cfg.github.repo, "in \"the\" middle");
    assert_eq!(cfg.github.base_branch, "");
    assert_eq!(cfg.github.target_branch, " padded ");
}

#[test]
fn later_entries_win() {
    let mut cfg = Config::default();
    cfg.apply_env("GITHUB_OWNER=first\nGITHUB_OWNER=second");
    assert_eq!(cfg.github.owner, "second");
    cfg.apply_env("");
    assert_eq!(cfg.github.owner, "second");
}

#[test]
fn flags_and_days_fall_back_on_what_cannot_be_read() {
    let mut cfg = Config::default();
    for (text, expected) in [
        ("true", true),
        ("false", false),
        ("TRUE", false),
        ("1", false),
        ("yes", false),
        ("", false),
    ] {
        cfg.ui.only_forked_repos = !expected;
        cfg.apply_env(&format!("ONLY_FORKED_REPOS={}", text));
        assert_eq!(cfg.ui.only_forked_repos, expected, "for {:?}", text);
    }
    for (text, expected) in [
        ("14", 14u32),
        ("0", 0),
        ("007", 7),
        ("+5", 5),
        ("4294967295", u32::MAX),
        ("4294967296", 28),
        ("99999999999999999999999", 28),
        ("-3", 28),
        ("+", 28),
        ("", 28),
        ("1 2", 28),
        ("12x", 28),
        ("١٢", 28),
    ] {
        cfg.ui.days_back = 1;
        cfg.apply_env(&format!("DAYS_BACK={}", text));
        assert_eq!(cfg.ui.days_back, expected, "for {:?}", text);
        assert_eq!(text.parse::<u32>().unwrap_or(28), expected, "std disagrees on {:?}", text);
    }
}

#[test]
fn env_keys_are_recognised_exactly() {
    assert_eq!(parse_env_key("GITHUB_OWNER"), Some(EnvKey::GithubOwner));
    assert_eq!(parse_env_key("GITHUB_REPO"), Some(EnvKey::GithubRepo));
    assert_eq!(parse_env_key("BASE_BRANCH"), Some(EnvKey::BaseBranch));
    assert_eq!(parse_env_key("TARGET_BRANCH"), Some(EnvKey::TargetBranch));
    assert_eq!(
        parse_env_key("CHERRY_PICK_SOURCE_BRANCH"),
        Some(EnvKey::CherryPickSourceBranch)
    );
    assert_eq!(parse_env_key("BRANCH_NAME_TEMPLATE"), Some(EnvKey::BranchNameTemplate));
    assert_eq!(parse_env_key("ONLY_FORKED_REPOS"), Some(EnvKey::OnlyForkedRepos));
    assert_eq!(parse_env_key("DAYS_BACK"), Some(EnvKey::DaysBack));
    assert_eq!(parse_env_key("days_back"), None);
    assert_eq!(parse_env_key("DAYS_BACK "), None);
    assert_eq!(parse_env_key(""), None);
}

#[test]
fn env_file_is_written_as_documented() {
    let mut cfg = Config::default();
    cfg.github.owner = "org".to_string();
    cfg.github.repo = "repo".to_string();
    cfg.ui.only_forked_repos = true;
    cfg.ui.days_back = 14;
    assert_eq!(
        cfg.env_file_text(),
        "# GitHub Cherry Pick Configuration\n# This file contains project-specific settings\n\nGITHUB_OWNER=\"org\"\nGITHUB_REPO=\"repo\"\nBASE_BRANCH=\"master\"\nTARGET_BRANCH=\"master\"\nCHERRY_PICK_SOURCE_BRANCH=\"master\"\nBRANCH_NAME_TEMPLATE=\"cherry-pick/{task_id}\"\nONLY_FORKED_REPOS=true\nDAYS_BACK=14\n"
    );
}

#[test]
fn env_file_round_trips() {
    let mut written = Config::default();
    written.github.owner = "some org".to_string();
    written.github.repo = "repo-1".to_string();
    written.github.base_branch = "develop".to_string();
    written.github.target_branch = "release/1.0".to_string();
    written.github.cherry_pick_source_branch = "main".to_string();
    written.github.branch_name_template = "cp/{task_id}".to_string();
    written.ui.only_forked_repos = true;
    written.ui.days_back = 3;
    let mut read = Config::default();
    read.apply_env(&written.env_file_text());
    assert_eq!(read, written);
}

#[test]
fn overrides_replace_only_what_is_given() {
    let base = Config::default();
    let same = base.clone().with_overrides(None, None, None, None, None, None, None);
    assert_eq!(same, base);
    let changed = base.clone().with_overrides(
        Some("owner".to_string()),
        None,
        Some("base".to_string()),
        None,
        Some(3),
        Some(true),
        Some("source".to_string()),
    );
    assert_eq!(changed.github.owner, "owner");
    assert_eq!(changed.github.repo, "");
    assert_eq!(changed.github.base_branch, "base");
    assert_eq!(changed.github.target_branch, "master");
    assert_eq!(changed.github.cherry_pick_source_branch, "source");
    assert_eq!(changed.github.branch_name_template, base.github.branch_name_template);
    assert_eq!(changed.tags, base.tags);
    assert_eq!(changed.ui.days_back, 3);
    assert_eq!(changed.ui.page_size, 20);
    assert!(changed.ui.only_forked_repos);
    let all = base.with_overrides(
        Some("o".to_string()),
        Some("r".to_string()),
        None,
        Some("t".to_string()),
        None,
        None,
        None,
    );
    assert!(!all.needs_auto_discovery());
    assert_eq!(all.github.target_branch, "t");
}

#[test]
fn auto_discovery_is_needed_while_owner_or_repo_is_missing() {
    let mut cfg = Config::default();
    cfg.github.owner = "o".to_string();
    assert!(cfg.needs_auto_discovery());
    cfg.github.repo = "r".to_string();
    assert!(!cfg.needs_auto_discovery());
    cfg.github.owner = String::new();
    assert!(cfg.needs_auto_discovery());
}

#[test]
fn load_plan_follows_the_choice() {
    assert_eq!(load_plan(None), LoadPlan { global_file: true, project_file: true });
    assert_eq!(
        load_plan(Some(ConfigChoice::LoadFromEnv)),
        LoadPlan { global_file: true, project_file: true }
    );
    assert_eq!(
        load_plan(Some(ConfigChoice::UseGlobalConfig)),
        LoadPlan { global_file: true, project_file: false }
    );
    assert_eq!(
        load_plan(Some(ConfigChoice::UseDefaults)),
        LoadPlan { global_file: false, project_file: false }
    );
}

#[test]
fn validation_refuses_an_invalid_sprint_pattern() {
    let mut cfg = Config::default();
    assert_eq!(cfg.validate(), Ok(()));
    cfg.github.owner = "o".to_string();
    cfg.tags.sprint_pattern = String::new();
    assert_eq!(cfg.validate(), Ok(()));
    cfg.tags.sprint_pattern = "S[0-9".to_string();
    match cfg.validate() {
        Err(ConfigError::InvalidSprintPattern(message)) => {
            assert!(message.starts_with("Invalid sprint pattern regex: "), "{}", message)
        }
        other => panic!("unexpected outcome {:?}", other),
    }
}
