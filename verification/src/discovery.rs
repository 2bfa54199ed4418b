//! Finding the owner and the repository where the configuration names none:
//! what to take without asking, what to ask for, and when to give up.

use crate::config::{Config, ConfigView};
use crate::github::{RepositoryInfo, RepositoryInfoView};
use crate::text::{chars_of, contains, contains_text};
use crate::util::{render_branch_name, render_branch_name_spec, task_id_placeholder};
use vstd::prelude::*;
use vstd::string::StringExecFns;

verus! {

/// What to do about the owner.
#[derive(Debug, PartialEq, Eq)]
pub enum OwnerStep {
    /// The configuration names the owner.
    Keep,
    /// The user belongs to no organization: the owner is the user's account.
    UseAccount(String),
    /// Ask which of the account and the organizations it is.
    Ask,
}

/// Mathematical value of an [`OwnerStep`].
pub enum OwnerStepView {
    Keep,
    UseAccount(Seq<char>),
    Ask,
}

impl DeepView for OwnerStep {
    type V = OwnerStepView;

    open spec fn deep_view(&self) -> OwnerStepView {
        match self {
            OwnerStep::Keep => OwnerStepView::Keep,
            OwnerStep::UseAccount(login) => OwnerStepView::UseAccount(login@),
            OwnerStep::Ask => OwnerStepView::Ask,
        }
    }
}

/// What to do about the repository.
#[derive(Debug, PartialEq, Eq)]
pub enum RepositoryStep {
    /// The configuration names the repository.
    Keep,
    /// The owner has one repository to offer: it is this one.
    Use(String),
    /// Ask which of these it is.
    Ask(Vec<RepositoryInfo>),
    /// The owner has no repository to offer; the text says so.
    NoneFound(String),
}

/// Mathematical value of a [`RepositoryStep`].
pub enum RepositoryStepView {
    Keep,
    Use(Seq<char>),
    Ask(Seq<RepositoryInfoView>),
    NoneFound(Seq<char>),
}

impl DeepView for RepositoryStep {
    type V = RepositoryStepView;

    open spec fn deep_view(&self) -> RepositoryStepView {
        match self {
            RepositoryStep::Keep => RepositoryStepView::Keep,
            RepositoryStep::Use(name) => RepositoryStepView::Use(name@),
            RepositoryStep::Ask(candidates) => RepositoryStepView::Ask(candidates.deep_view()),
            RepositoryStep::NoneFound(message) => RepositoryStepView::NoneFound(message@),
        }
    }
}

/// Whether a repository is offered for an owner: it belongs to the owner and,
/// where only forks are wanted, is a fork.
pub open spec fn offered(repository: RepositoryInfoView, owner: Seq<char>, only_forks: bool) -> bool {
    repository.owner == owner && (!only_forks || repository.fork)
}

/// The first `upto` repositories that are offered for an owner, in order.
pub open spec fn offered_repositories(
    repositories: Seq<RepositoryInfoView>,
    owner: Seq<char>,
    only_forks: bool,
    upto: nat,
) -> Seq<RepositoryInfoView>
    decreases upto,
{
    if upto == 0 {
        Seq::empty()
    } else {
        let earlier = offered_repositories(repositories, owner, only_forks, (upto - 1) as nat);
        if offered(repositories[upto - 1], owner, only_forks) {
            earlier.push(repositories[upto - 1])
        } else {
            earlier
        }
    }
}

/// What is said where an owner has no repository to offer.
pub open spec fn none_found_message(owner: Seq<char>, only_forks: bool) -> Seq<char> {
    "No repositories found for owner: "@ + owner + if only_forks {
        " (forked repositories only)"@
    } else {
        Seq::empty()
    }
}

/// The step about the owner.
pub open spec fn owner_step_spec(config: ConfigView, user_login: Seq<char>, organizations: nat) -> OwnerStepView {
    if config.github.owner.len() > 0 {
        OwnerStepView::Keep
    } else if organizations == 0 {
        OwnerStepView::UseAccount(user_login)
    } else {
        OwnerStepView::Ask
    }
}

/// The step about the repository.
pub open spec fn repository_step_spec(
    config: ConfigView,
    repositories: Seq<RepositoryInfoView>,
) -> RepositoryStepView {
    let candidates = offered_repositories(
        repositories,
        config.github.owner,
        config.ui.only_forked_repos,
        repositories.len(),
    );
    if config.github.repo.len() > 0 {
        RepositoryStepView::Keep
    } else if candidates.len() == 0 {
        RepositoryStepView::NoneFound(
            none_found_message(config.github.owner, config.ui.only_forked_repos),
        )
    } else if candidates.len() == 1 {
        RepositoryStepView::Use(candidates[0].name)
    } else {
        RepositoryStepView::Ask(candidates)
    }
}

/// Decides what to do about the owner, given the user's login and the number
/// of organizations the user belongs to.
pub fn owner_step(config: &Config, user_login: &str, organizations: usize) -> (step: OwnerStep)
    ensures
        step.deep_view() == owner_step_spec(config.deep_view(), user_login@, organizations as nat),
{
    if !config.github.owner.as_str().is_empty() {
        OwnerStep::Keep
    } else if organizations == 0 {
        OwnerStep::UseAccount(String::from_str(user_login))
    } else {
        OwnerStep::Ask
    }
}

/// The repositories that are offered for an owner.
pub fn owner_repositories(repositories: &Vec<RepositoryInfo>, owner: &str, only_forks: bool) -> (candidates:
    Vec<RepositoryInfo>)
    ensures
        candidates.deep_view() == offered_repositories(
            repositories.deep_view(),
            owner@,
            only_forks,
            repositories@.len(),
        ),
{
    let mut candidates: Vec<RepositoryInfo> = Vec::new();
    let mut i: usize = 0;
    assert(candidates.deep_view() =~= Seq::<RepositoryInfoView>::empty());
    while i < repositories.len()
        invariant
            i <= repositories@.len(),
            candidates.deep_view() == offered_repositories(
                repositories.deep_view(),
                owner@,
                only_forks,
                i as nat,
            ),
        decreases repositories@.len() - i,
    {
        let repository = &repositories[i];
        assert(repositories.deep_view()[i as int] == repository.deep_view());
        if *repository.owner.as_str() == *owner && (!only_forks || repository.fork) {
            let ghost before = candidates.deep_view();
            let copy = repository.clone();
            candidates.push(copy);
            assert(candidates.deep_view() =~= before.push(copy.deep_view()));
        }
        i = i + 1;
    }
    candidates
}

/// Decides what to do about the repository, given the repositories that the
/// user can reach.
pub fn repository_step(config: &Config, repositories: &Vec<RepositoryInfo>) -> (step:
    RepositoryStep)
    ensures
        step.deep_view() == repository_step_spec(config.deep_view(), repositories.deep_view()),
{
    if !config.github.repo.as_str().is_empty() {
        return RepositoryStep::Keep;
    }
    let candidates = owner_repositories(
        repositories,
        config.github.owner.as_str(),
        config.ui.only_forked_repos,
    );
    if candidates.len() == 0 {
        let note = if config.ui.only_forked_repos {
            " (forked repositories only)"
        } else {
            ""
        };
        proof {
            reveal_strlit("");
            assert(""@ =~= Seq::<char>::empty());
        }
        RepositoryStep::NoneFound(
            String::from_str("No repositories found for owner: ").concat(
                config.github.owner.as_str(),
            ).concat(note),
        )
    } else if candidates.len() == 1 {
        assert(candidates.deep_view()[0] == candidates@[0].deep_view());
        RepositoryStep::Use(candidates[0].name.clone())
    } else {
        RepositoryStep::Ask(candidates)
    }
}

/// Whether the branch-name template still waits for a task id.
pub fn needs_task_id(config: &Config) -> (needed: bool)
    ensures
        needed == contains_text(config.github.branch_name_template@, task_id_placeholder()),
{
    let template = chars_of(config.github.branch_name_template.as_str());
    let placeholder = chars_of("{task_id}");
    contains(&template, &placeholder)
}

/// Puts the task id into the branch-name template.
pub fn apply_task_id(config: &mut Config, task_id: &str)
    ensures
        final(config).deep_view() == (ConfigView {
            github: crate::config::GitHubConfigView {
                branch_name_template: render_branch_name_spec(
                    old(config).github.branch_name_template@,
                    task_id@,
                ),
                ..old(config).deep_view().github
            },
            ..old(config).deep_view()
        }),
{
    config.github.branch_name_template = render_branch_name(
        config.github.branch_name_template.as_str(),
        task_id,
    );
}

/// Whether to ask for the source branch: it is empty, or still `develop`.
pub fn needs_source_branch(config: &Config) -> (needed: bool)
    ensures
        needed == (config.github.cherry_pick_source_branch@ == "develop"@
            || config.github.cherry_pick_source_branch@.len() == 0),
{
    *config.github.cherry_pick_source_branch.as_str() == *"develop"
        || config.github.cherry_pick_source_branch.as_str().is_empty()
}

/// The override that the fork switch of the command line stands for: set, it
/// asks for forks only; unset, it leaves the configuration as it is.
pub fn forks_override(only_forks: bool) -> (given: Option<bool>)
    ensures
        given == if only_forks {
            Some(true)
        } else {
            None
        },
{
    if only_forks {
        Some(true)
    } else {
        None
    }
}

} // verus!
