//! Small text helpers shared by the engine and its front ends.

use crate::text::{chars_of, replace, replace_all};
use vstd::prelude::*;
use vstd::string::StrSliceExecFns;

verus! {

/// Number of characters kept by [`short_sha`].
pub const SHORT_SHA_LEN: usize = 8;

/// The first eight characters of `sha`, or all of it when it is shorter.
pub open spec fn short_sha_spec(sha: Seq<char>) -> Seq<char> {
    if sha.len() >= 8 {
        sha.take(8)
    } else {
        sha
    }
}

/// Returns a short prefix of a commit identifier: its first eight characters,
/// or the identifier itself when it has fewer.
pub fn short_sha(sha: &str) -> (short: &str)
    ensures
        short@ == short_sha_spec(sha@),
{
    if sha.unicode_len() >= SHORT_SHA_LEN {
        sha.substring_char(0, SHORT_SHA_LEN)
    } else {
        sha
    }
}

/// The placeholder that a branch-name template holds for the task id.
pub open spec fn task_id_placeholder() -> Seq<char> {
    "{task_id}"@
}

/// The branch name that `template` stands for: every `{task_id}` replaced by
/// `task_id`, everything else kept.
pub open spec fn render_branch_name_spec(template: Seq<char>, task_id: Seq<char>) -> Seq<char> {
    replace_all(template, task_id_placeholder(), task_id)
}

/// Renders a branch name from a template by replacing each `{task_id}` with
/// the given task id. A template without the placeholder comes back unchanged.
pub fn render_branch_name(template: &str, task_id: &str) -> (name: String)
    ensures
        name@ == render_branch_name_spec(template@, task_id@),
{
    proof {
        reveal_strlit("{task_id}");
    }
    let pattern = chars_of("{task_id}");
    let text = chars_of(template);
    replace(&text, &pattern, task_id)
}

/// A template in which the placeholder does not occur renders to itself.
pub proof fn lemma_render_without_placeholder(template: Seq<char>, task_id: Seq<char>)
    requires
        !crate::text::contains_text(template, task_id_placeholder()),
    ensures
        render_branch_name_spec(template, task_id) == template,
{
    crate::text::lemma_replace_absent(template, task_id_placeholder(), task_id);
}

} // verus!
