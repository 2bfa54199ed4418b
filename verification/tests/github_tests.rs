use gh_cherry::config::{Config, GitHubConfig, TagConfig, UiConfig};
use gh_cherry::github::selection::{
    PrSummary, Selection, SelectionAction, SelectionEvent, SelectionPhase,
};
use gh_cherry::github::{
    check_sprint_pattern, cherry_pick_comment, contains_label, has_sprint_tag, labels_qualify,
    pr_matches_criteria, updated_labels, CommitInfo, PrInfo, SelectError, Timestamp,
};

fn test_config_with(env: &str, pending: &str, sprint: &str) -> Config {
    Config {
        github: GitHubConfig {
            owner: String::new(),
            repo: String::new(),
            base_branch: "main".into(),
            target_branch: "main".into(),
            cherry_pick_source_branch: "main".into(),
            branch_name_template: "ch/{task_id}".into(),
        },
        tags: TagConfig {
            sprint_pattern: sprint.into(),
            environment: env.into(),
            pending_tag: pending.into(),
            completed_tag: "done".into(),
        },
        ui: UiConfig { days_back: 7, page_size: 20, only_forked_repos: false },
    }
}

fn labels(names: &[&str]) -> Vec<String> {
    names.iter().map(|n| n.to_string()).collect()
}

const DAY: i64 = 86_400;

fn at(secs: i64) -> Timestamp {
    Timestamp { secs, nanos: 0 }
}

fn summary(number: u64, updated: Option<i64>, created: Option<i64>) -> PrSummary {
    PrSummary {
        number,
        title: Some(format!("Change {}", number)),
        author: Some("alice".to_string()),
        created_at: created.map(at),
        updated_at: updated.map(at),
        head_sha: format!("{:040x}", number),
        base_ref: "main".to_string(),
        head_ref: format!("feature-{}", number),
    }
}

fn commit(sha: &str) -> CommitInfo {
    CommitInfo {
        sha: sha.to_string(),
        message: "message".to_string(),
        author: "alice".to_string(),
        date: at(0),
    }
}

#[test]
fn pr_label_matching_works() {
    let cfg = test_config_with("DEV", "pending cherrypick", r"S\d+");
    let labels = vec![
        "S12".to_string(),
        "DEV".to_string(),
        "pending cherrypick".to_string(),
    ];
    assert!(pr_matches_criteria(&cfg, &labels).unwrap());

    let labels2 = vec!["S12".to_string(), "QA".to_string(), "pending cherrypick".to_string()];
    assert!(!pr_matches_criteria(&cfg, &labels2).unwrap());
}

#[test]
fn qualification_needs_all_three_labels() {
    let cfg = test_config_with("DEV", "pending cherrypick", r"S\d+");
    let cases: [(&[&str], bool); 8] = [
        (&["S12", "DEV", "pending cherrypick"], true),
        (&["pending cherrypick", "DEV", "release S7 notes"], true),
        (&["DEV", "pending cherrypick"], false),
        (&["S12", "pending cherrypick"], false),
        (&["S12", "DEV"], false),
        (&["S", "DEV", "pending cherrypick"], false),
        (&["S12", "dev", "pending cherrypick"], false),
        (&[], false),
    ];
    for (names, expected) in cases {
        assert_eq!(
            pr_matches_criteria(&cfg, &labels(names)),
            Ok(expected),
            "labels {:?}",
            names
        );
    }
}

#[test]
fn sprint_tag_is_found_by_the_pattern_not_by_the_text() {
    // would fail if the matcher compared the pattern with the label
    assert_eq!(has_sprint_tag(&labels(&["S12"]), r"S\d+"), Ok(true));
    assert_eq!(has_sprint_tag(&labels(&[r"S\d+"]), r"S\d+"), Ok(false));
    assert_eq!(has_sprint_tag(&labels(&["x", "y"]), r"^y$"), Ok(true));
    assert_eq!(has_sprint_tag(&labels(&[]), r"S\d+"), Ok(false));
}

#[test]
fn invalid_pattern_is_reported_where_it_decides() {
    let cfg = test_config_with("DEV", "pending", "S(\\d+");
    assert!(matches!(
        check_sprint_pattern("S(\\d+"),
        Err(SelectError::InvalidPattern(_))
    ));
    assert_eq!(check_sprint_pattern(r"S\d+"), Ok(()));
    // the pattern is not needed where a literal label is missing
    assert_eq!(pr_matches_criteria(&cfg, &labels(&["S1", "DEV"])), Ok(false));
    assert!(matches!(
        pr_matches_criteria(&cfg, &labels(&["S1", "DEV", "pending"])),
        Err(SelectError::InvalidPattern(_))
    ));
    assert!(matches!(
        labels_qualify(&cfg.tags, &labels(&["DEV", "pending"])),
        Err(SelectError::InvalidPattern(_))
    ));
}

#[test]
fn contains_label_compares_whole_labels() {
    let list = labels(&["DEV", "pending cherrypick"]);
    assert!(contains_label(&list, "DEV"));
    assert!(!contains_label(&list, "DE"));
    assert!(!contains_label(&list, "pending"));
    assert!(!contains_label(&labels(&[]), "DEV"));
}

#[test]
fn label_update_removes_pending_and_adds_completed() {
    let cfg = test_config_with("DEV", "pending cherrypick", r"S\d+");
    let before = labels(&["S12", "pending cherrypick", "DEV"]);
    let after = updated_labels(&before, &cfg.tags);
    assert_eq!(after, labels(&["S12", "DEV", "done"]));
}

#[test]
fn label_update_is_idempotent() {
    let cfg = test_config_with("DEV", "pending cherrypick", r"S\d+");
    let before = labels(&["pending cherrypick", "S12", "DEV", "pending cherrypick"]);
    let once = updated_labels(&before, &cfg.tags);
    let twice = updated_labels(&once, &cfg.tags);
    assert_eq!(once, labels(&["S12", "DEV", "done"]));
    assert_eq!(twice, once);
    assert_eq!(once.iter().filter(|l| l.as_str() == "done").count(), 1);
    assert!(!once.iter().any(|l| l == "pending cherrypick"));
}

#[test]
fn label_update_keeps_an_existing_completed_label_in_place() {
    let cfg = test_config_with("DEV", "pending cherrypick", r"S\d+");
    let before = labels(&["done", "S12", "pending cherrypick"]);
    assert_eq!(updated_labels(&before, &cfg.tags), labels(&["done", "S12"]));
    assert_eq!(updated_labels(&labels(&[]), &cfg.tags), labels(&["done"]));
}

#[test]
fn label_update_where_both_markers_are_the_same_label() {
    let mut cfg = test_config_with("DEV", "state", r"S\d+");
    cfg.tags.completed_tag = "state".to_string();
    let once = updated_labels(&labels(&["state", "DEV"]), &cfg.tags);
    assert_eq!(once, labels(&["DEV", "state"]));
    assert_eq!(updated_labels(&once, &cfg.tags), once);
}

#[test]
fn comment_lists_shortened_commit_ids() {
    let body = cherry_pick_comment(
        "release",
        &labels(&["0123456789abcdef0123456789abcdef01234567", "abc", "fedcba9876543210"]),
    );
    assert_eq!(
        body,
        "🍒 **Cherry-picked to `release`**\n\nCommits:\n- 01234567\n- abc\n- fedcba98"
    );
}

#[test]
fn comment_without_commits_has_the_header_only() {
    assert_eq!(
        cherry_pick_comment("main", &Vec::new()),
        "🍒 **Cherry-picked to `main`**\n\nCommits:\n"
    );
    assert_eq!(
        cherry_pick_comment("main", &labels(&["1234567890"])),
        "🍒 **Cherry-picked to `main`**\n\nCommits:\n- 12345678"
    );
}

#[test]
fn timestamps_are_ordered_by_seconds_then_nanoseconds() {
    let a = Timestamp { secs: 10, nanos: 5 };
    let b = Timestamp { secs: 10, nanos: 6 };
    let c = Timestamp { secs: 11, nanos: 0 };
    assert!(a.is_before(&b));
    assert!(b.is_before(&c));
    assert!(a.is_before(&c));
    assert!(!b.is_before(&a));
    assert!(!a.is_before(&a));
    let negative = Timestamp { secs: -1, nanos: 999 };
    assert!(negative.is_before(&Timestamp { secs: 0, nanos: 0 }));
}

#[test]
fn minus_days_subtracts_whole_days() {
    let now = Timestamp { secs: 1_700_000_000, nanos: 123 };
    assert_eq!(now.minus_days(0), now);
    assert_eq!(now.minus_days(1), Timestamp { secs: 1_700_000_000 - 86_400, nanos: 123 });
    assert_eq!(
        now.minus_days(28),
        Timestamp { secs: 1_700_000_000 - 28 * 86_400, nanos: 123 }
    );
    let early = Timestamp { secs: i64::MIN + 10, nanos: 7 };
    assert_eq!(early.minus_days(1), Timestamp { secs: i64::MIN, nanos: 7 });
    let far = Timestamp { secs: 0, nanos: 0 }.minus_days(u32::MAX);
    assert_eq!(far.secs, -(u32::MAX as i64) * 86_400);
}

#[test]
fn effective_update_time_falls_back_to_creation_then_now() {
    let now = at(1000);
    assert_eq!(summary(1, Some(5), Some(3)).effective_update_time(now), at(5));
    assert_eq!(summary(1, None, Some(3)).effective_update_time(now), at(3));
    assert_eq!(summary(1, None, None).effective_update_time(now), now);
}

#[test]
fn head_commit_stands_for_the_change_request() {
    let now = at(1000);
    let full = summary(7, Some(5), Some(3));
    let commit = full.head_commit(now);
    assert_eq!(commit.sha, full.head_sha);
    assert_eq!(commit.message, "Change 7");
    assert_eq!(commit.author, "alice");
    assert_eq!(commit.date, at(3));

    let mut bare = summary(4210, None, None);
    bare.title = None;
    bare.author = None;
    let commit = bare.head_commit(now);
    assert_eq!(commit.message, "PR #4210");
    assert_eq!(commit.author, "Unknown");
    assert_eq!(commit.date, now);
    bare.number = 0;
    assert_eq!(bare.head_commit(now).message, "PR #0");
    bare.number = u64::MAX;
    assert_eq!(bare.head_commit(now).message, "PR #18446744073709551615");
}

/// Drives a selection over recorded pages and records every request.
fn run_selection(
    config: &Config,
    now: Timestamp,
    pages: Vec<Vec<(PrSummary, Vec<String>)>>,
) -> (Option<Result<Vec<PrInfo>, SelectError>>, Vec<SelectionAction>) {
    let (mut selection, mut action) = Selection::start(config, now);
    let mut asked = Vec::new();
    let mut page_index = 0usize;
    let mut steps = 0;
    loop {
        asked.push(action);
        steps += 1;
        assert!(steps < 1000, "selection does not end");
        let event = match action {
            SelectionAction::FetchFirstPage | SelectionAction::FetchNextPage => {
                let items: Vec<PrSummary> =
                    pages[page_index].iter().map(|(s, _)| s.clone()).collect();
                page_index += 1;
                SelectionEvent::Page { items, has_next: page_index < pages.len() }
            }
            SelectionAction::FetchLabels(number) => {
                let found = pages
                    .iter()
                    .flatten()
                    .find(|(s, _)| s.number == number)
                    .expect("asked for a known item");
                SelectionEvent::Labels(found.1.clone())
            }
            SelectionAction::FetchCommits(number) => {
                SelectionEvent::Commits(vec![commit(&format!("{:040x}", number))])
            }
            SelectionAction::Done | SelectionAction::Abort => break,
        };
        action = selection.step(event);
    }
    (selection.outcome(), asked)
}

fn qualifying() -> Vec<String> {
    labels(&["S12", "DEV", "pending cherrypick"])
}

#[test]
fn selection_stops_at_the_first_item_beyond_the_cutoff() {
    let config = test_config_with("DEV", "pending cherrypick", r"S\d+");
    let now = at(100 * DAY);
    // lookback of 7 days: the cutoff is day 93
    let pages = vec![
        vec![
            (summary(1, Some(99 * DAY), None), qualifying()),
            (summary(2, Some(98 * DAY), None), labels(&["S12", "QA"])),
        ],
        vec![
            (summary(3, Some(93 * DAY), None), qualifying()),
            (summary(4, Some(93 * DAY - 1), None), qualifying()),
            (summary(5, Some(92 * DAY), None), qualifying()),
        ],
        vec![(summary(6, Some(91 * DAY), None), qualifying())],
    ];
    let (outcome, asked) = run_selection(&config, now, pages);
    let list = outcome.expect("ended").expect("no error");
    assert_eq!(list.iter().map(|p| p.number).collect::<Vec<_>>(), vec![1, 3]);
    assert_eq!(
        asked,
        vec![
            SelectionAction::FetchFirstPage,
            SelectionAction::FetchLabels(1),
            SelectionAction::FetchCommits(1),
            SelectionAction::FetchLabels(2),
            SelectionAction::FetchNextPage,
            SelectionAction::FetchLabels(3),
            SelectionAction::FetchCommits(3),
            SelectionAction::Done,
        ]
    );
}

#[test]
fn selection_builds_change_requests_from_what_was_fetched() {
    let config = test_config_with("DEV", "pending cherrypick", r"S\d+");
    let now = Timestamp { secs: 100 * DAY, nanos: 42 };
    let mut bare = summary(9, None, None);
    bare.title = None;
    bare.author = None;
    let pages = vec![vec![
        (summary(8, Some(99 * DAY), Some(50 * DAY)), qualifying()),
        (bare, qualifying()),
    ]];
    let (outcome, _) = run_selection(&config, now, pages);
    let list = outcome.expect("ended").expect("no error");
    assert_eq!(list.len(), 2);
    assert_eq!(
        list[0],
        PrInfo {
            number: 8,
            title: "Change 8".to_string(),
            author: "alice".to_string(),
            created_at: at(50 * DAY),
            updated_at: at(99 * DAY),
            labels: qualifying(),
            commits: vec![commit(&format!("{:040x}", 8))],
            head_sha: format!("{:040x}", 8),
            base_ref: "main".to_string(),
            head_ref: "feature-8".to_string(),
        }
    );
    assert_eq!(list[1].title, "");
    assert_eq!(list[1].author, "");
    assert_eq!(list[1].created_at, now);
    assert_eq!(list[1].updated_at, now);
}

#[test]
fn selection_walks_every_page_when_nothing_is_old() {
    let config = test_config_with("DEV", "pending cherrypick", r"S\d+");
    let now = at(100 * DAY);
    let pages = vec![
        vec![(summary(1, Some(99 * DAY), None), qualifying())],
        vec![],
        vec![(summary(2, Some(98 * DAY), None), qualifying())],
    ];
    let (outcome, asked) = run_selection(&config, now, pages);
    let list = outcome.expect("ended").expect("no error");
    assert_eq!(list.iter().map(|p| p.number).collect::<Vec<_>>(), vec![1, 2]);
    assert_eq!(asked.iter().filter(|a| **a == SelectionAction::FetchNextPage).count(), 2);
}

#[test]
fn selection_of_an_empty_listing_is_empty() {
    let config = test_config_with("DEV", "pending cherrypick", r"S\d+");
    let (outcome, asked) = run_selection(&config, at(0), vec![vec![]]);
    assert_eq!(outcome, Some(Ok(Vec::new())));
    assert_eq!(asked, vec![SelectionAction::FetchFirstPage, SelectionAction::Done]);
}

#[test]
fn selection_keeps_items_exactly_at_the_cutoff() {
    let mut config = test_config_with("DEV", "pending cherrypick", r"S\d+");
    config.ui.days_back = 0;
    let now = Timestamp { secs: 500, nanos: 10 };
    let mut on_time = summary(1, None, None);
    on_time.updated_at = Some(now);
    let mut late = summary(2, None, None);
    late.updated_at = Some(Timestamp { secs: 500, nanos: 9 });
    let pages = vec![vec![(on_time, qualifying()), (late, qualifying())]];
    let (outcome, _) = run_selection(&config, now, pages);
    let list = outcome.expect("ended").expect("no error");
    assert_eq!(list.iter().map(|p| p.number).collect::<Vec<_>>(), vec![1]);
}

#[test]
fn selection_fails_fast_on_an_invalid_pattern() {
    let config = test_config_with("DEV", "pending cherrypick", "S(");
    let (selection, action) = Selection::start(&config, at(0));
    assert_eq!(action, SelectionAction::Abort);
    assert_eq!(selection.phase(), SelectionPhase::Failed);
    assert!(matches!(
        selection.outcome(),
        Some(Err(SelectError::InvalidPattern(_)))
    ));
}

#[test]
fn selection_aborts_on_a_remote_error_and_drops_partial_results() {
    let config = test_config_with("DEV", "pending cherrypick", r"S\d+");
    let (mut selection, _) = Selection::start(&config, at(100 * DAY));
    let items = vec![summary(1, Some(99 * DAY), None), summary(2, Some(98 * DAY), None)];
    assert_eq!(
        selection.step(SelectionEvent::Page { items, has_next: false }),
        SelectionAction::FetchLabels(1)
    );
    assert_eq!(
        selection.step(SelectionEvent::Labels(qualifying())),
        SelectionAction::FetchCommits(1)
    );
    assert_eq!(
        selection.step(SelectionEvent::Commits(vec![commit("aa")])),
        SelectionAction::FetchLabels(2)
    );
    assert_eq!(
        selection.step(SelectionEvent::RemoteError("timeout".to_string())),
        SelectionAction::Abort
    );
    // nothing moves a failed selection
    assert_eq!(
        selection.step(SelectionEvent::Labels(qualifying())),
        SelectionAction::Abort
    );
    assert_eq!(
        selection.outcome(),
        Some(Err(SelectError::Remote("timeout".to_string())))
    );
}

#[test]
fn selection_ignores_answers_it_did_not_ask_for() {
    let config = test_config_with("DEV", "pending cherrypick", r"S\d+");
    let (mut selection, first) = Selection::start(&config, at(100 * DAY));
    assert_eq!(first, SelectionAction::FetchFirstPage);
    assert_eq!(
        selection.step(SelectionEvent::Labels(qualifying())),
        SelectionAction::FetchFirstPage
    );
    assert_eq!(selection.phase(), SelectionPhase::AwaitingFirstPage);
    assert_eq!(selection.pending(), SelectionAction::FetchFirstPage);
    assert_eq!(selection.outcome(), None);
}

#[test]
fn commits_are_equal_by_identifier() {
    let one = commit("abc");
    let mut same = commit("abc");
    same.message = "another message".to_string();
    same.author = "bob".to_string();
    same.date = at(99);
    assert_eq!(one, same);
    assert_ne!(one, commit("abd"));
    assert_eq!(one.clone(), one);
}
