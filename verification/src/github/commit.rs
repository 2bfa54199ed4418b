//! Commits of a change request. A commit is known by its identifier: two
//! commits are the same when their identifiers are.

use crate::github::Timestamp;
use vstd::prelude::*;
use vstd::std_specs::cmp::PartialEqSpecImpl;

verus! {

/// One commit of a change request.
#[derive(Debug)]
pub struct CommitInfo {
    pub sha: String,
    pub message: String,
    pub author: String,
    pub date: Timestamp,
}

/// Mathematical value of a [`CommitInfo`].
pub struct CommitInfoView {
    pub sha: Seq<char>,
    pub message: Seq<char>,
    pub author: Seq<char>,
    pub date: Timestamp,
}

impl DeepView for CommitInfo {
    type V = CommitInfoView;

    open spec fn deep_view(&self) -> CommitInfoView {
        CommitInfoView {
            sha: self.sha@,
            message: self.message@,
            author: self.author@,
            date: self.date,
        }
    }
}

impl Clone for CommitInfo {
    fn clone(&self) -> (copy: Self)
        ensures
            copy.deep_view() == self.deep_view(),
    {
        CommitInfo {
            sha: self.sha.clone(),
            message: self.message.clone(),
            author: self.author.clone(),
            date: self.date,
        }
    }
}

impl PartialEq for CommitInfo {
    /// Two commits are equal when they have the same identifier.
    fn eq(&self, other: &Self) -> (same: bool) {
        self.sha == other.sha
    }
}

impl PartialEqSpecImpl for CommitInfo {
    open spec fn obeys_eq_spec() -> bool {
        true
    }

    open spec fn eq_spec(&self, other: &Self) -> bool {
        self.sha@ == other.sha@
    }
}

impl Eq for CommitInfo {

}

} // verus!
