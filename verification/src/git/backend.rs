//! The calls into `git2`. Each function here makes one call and is believed,
//! not verified; what a repository answers depends on what is on disk, so
//! nothing is claimed of the answers but where the call reads its arguments
//! alone.

use crate::git::ConflictSides;
use vstd::prelude::*;

verus! {

#[verifier::external_type_specification]
#[verifier::external_body]
pub struct ExRepository(git2::Repository);

#[verifier::external_type_specification]
#[verifier::external_body]
pub struct ExError(git2::Error);

#[verifier::external_type_specification]
#[verifier::external_body]
pub struct ExOid(git2::Oid);

#[verifier::external_type_specification]
#[verifier::external_body]
pub struct ExCommit<'repo>(git2::Commit<'repo>);

#[verifier::external_type_specification]
#[verifier::external_body]
pub struct ExBranch<'repo>(git2::Branch<'repo>);

#[verifier::external_type_specification]
#[verifier::external_body]
pub struct ExReference<'repo>(git2::Reference<'repo>);

#[verifier::external_type_specification]
#[verifier::external_body]
pub struct ExTree<'repo>(git2::Tree<'repo>);

#[verifier::external_type_specification]
#[verifier::external_body]
pub struct ExStatuses<'repo>(git2::Statuses<'repo>);

#[verifier::external_type_specification]
#[verifier::external_body]
pub struct ExRemote<'repo>(git2::Remote<'repo>);

#[verifier::external_type_specification]
#[verifier::external_body]
pub struct ExRevwalk<'repo>(git2::Revwalk<'repo>);

#[verifier::external_type_specification]
#[verifier::external_body]
pub struct ExSignature<'a>(git2::Signature<'a>);

#[verifier::external_type_specification]
#[verifier::external_body]
pub struct ExIndex(git2::Index);

#[verifier::external_type_specification]
pub struct ExRepositoryState(git2::RepositoryState);

#[verifier::external_type_specification]
pub struct ExBranchType(git2::BranchType);

#[verifier::external_type_specification]
pub struct ExResetType(git2::ResetType);

/// A character is a hexadecimal digit, in either case.
pub open spec fn is_hex_digit(c: char) -> bool {
    let code = c as u32;
    ||| 48 <= code <= 57
    ||| 65 <= code <= 70
    ||| 97 <= code <= 102
}

/// What `git2::Oid::from_str` accepts: one to forty hexadecimal digits.
pub open spec fn is_object_id(text: Seq<char>) -> bool {
    &&& 0 < text.len() <= 40
    &&& forall|i: int| 0 <= i < text.len() ==> is_hex_digit(#[trigger] text[i])
}

/// The form in which an object id is written: forty hexadecimal digits.
pub open spec fn is_full_object_id(text: Seq<char>) -> bool {
    &&& text.len() == 40
    &&& forall|i: int| 0 <= i < text.len() ==> is_hex_digit(#[trigger] text[i])
}

/// What `String::from_utf8_lossy` makes of `bytes`: the text they encode,
/// with the replacement character in place of what is no valid UTF-8.
pub uninterp spec fn lossy_text(bytes: Seq<u8>) -> Seq<char>;

/// `git2::Repository::open`.
#[verifier::external_body]
pub(crate) fn open_repository(path: &str) -> (opened: Result<git2::Repository, git2::Error>) {
    git2::Repository::open(path)
}

/// `git2::Repository::discover`.
#[verifier::external_body]
pub(crate) fn discover_repository(path: &str) -> (found: Result<git2::Repository, git2::Error>) {
    git2::Repository::discover(path)
}

/// `git2::Repository::statuses`, with the default options.
#[verifier::external_body]
pub(crate) fn repository_statuses<'repo>(repo: &'repo git2::Repository) -> (statuses: Result<
    git2::Statuses<'repo>,
    git2::Error,
>) {
    repo.statuses(None)
}

/// `git2::Statuses::is_empty`.
#[verifier::external_body]
pub(crate) fn statuses_is_empty(statuses: &git2::Statuses<'_>) -> (empty: bool) {
    statuses.is_empty()
}

/// `git2::Repository::head`.
#[verifier::external_body]
pub(crate) fn repository_head<'repo>(repo: &'repo git2::Repository) -> (head: Result<
    git2::Reference<'repo>,
    git2::Error,
>) {
    repo.head()
}

/// `git2::Reference::shorthand`, as an owned text.
#[verifier::external_body]
pub(crate) fn reference_shorthand(reference: &git2::Reference<'_>) -> (name: Result<
    String,
    git2::Error,
>) {
    reference.shorthand().map(|name| name.to_string())
}

/// `git2::Reference::peel_to_commit`.
#[verifier::external_body]
pub(crate) fn reference_commit<'repo>(reference: &git2::Reference<'repo>) -> (commit: Result<
    git2::Commit<'repo>,
    git2::Error,
>) {
    reference.peel_to_commit()
}

/// `git2::Repository::find_branch`.
#[verifier::external_body]
pub(crate) fn find_branch<'repo>(
    repo: &'repo git2::Repository,
    name: &str,
    kind: git2::BranchType,
) -> (branch: Result<git2::Branch<'repo>, git2::Error>) {
    repo.find_branch(name, kind)
}

/// `git2::Reference::peel_to_commit` on the reference of a branch.
#[verifier::external_body]
pub(crate) fn branch_commit<'repo>(branch: &git2::Branch<'repo>) -> (commit: Result<
    git2::Commit<'repo>,
    git2::Error,
>) {
    branch.get().peel_to_commit()
}

/// `git2::Repository::branch`, which does not replace an existing branch.
#[verifier::external_body]
pub(crate) fn create_branch<'repo>(
    repo: &'repo git2::Repository,
    name: &str,
    target: &git2::Commit<'_>,
) -> (branch: Result<git2::Branch<'repo>, git2::Error>) {
    repo.branch(name, target, false)
}

/// `git2::Repository::checkout_tree` on the tree of a commit, with the default
/// options.
#[verifier::external_body]
pub(crate) fn checkout_tree(repo: &git2::Repository, commit: &git2::Commit<'_>) -> (done: Result<
    (),
    git2::Error,
>) {
    repo.checkout_tree(commit.as_object(), None)
}

/// `git2::Repository::set_head`.
#[verifier::external_body]
pub(crate) fn set_head(repo: &git2::Repository, refname: &str) -> (done: Result<(), git2::Error>) {
    repo.set_head(refname)
}

/// `git2::Config::set_str` on the configuration that
/// `git2::Repository::config` hands out.
#[verifier::external_body]
pub(crate) fn config_set_str(repo: &git2::Repository, name: &str, value: &str) -> (done: Result<
    (),
    git2::Error,
>) {
    repo.config()?.set_str(name, value)
}

/// `git2::Config::get_string` on the configuration that
/// `git2::Repository::config` hands out.
#[verifier::external_body]
pub(crate) fn config_get_string(repo: &git2::Repository, name: &str) -> (value: Result<
    String,
    git2::Error,
>) {
    repo.config()?.get_string(name)
}

/// `git2::Signature::now`.
#[verifier::external_body]
pub(crate) fn signature_now(name: &str, email: &str) -> (signature: Result<
    git2::Signature<'static>,
    git2::Error,
>) {
    git2::Signature::now(name, email)
}

/// `git2::Oid::from_str`: it parses one to forty hexadecimal digits and
/// refuses every other text.
#[verifier::external_body]
pub(crate) fn parse_object_id(text: &str) -> (parsed: Result<git2::Oid, git2::Error>)
    ensures
        parsed is Ok <==> is_object_id(text@),
{
    git2::Oid::from_str(text)
}

/// The hexadecimal form of an object id, as its `Display` impl writes it:
/// the twenty bytes of the id, hex-encoded.
#[verifier::external_body]
pub(crate) fn object_id_text(id: git2::Oid) -> (text: String)
    ensures
        is_full_object_id(text@),
{
    id.to_string()
}

/// `git2::Repository::find_commit`.
#[verifier::external_body]
pub(crate) fn find_commit<'repo>(repo: &'repo git2::Repository, id: git2::Oid) -> (commit: Result<
    git2::Commit<'repo>,
    git2::Error,
>) {
    repo.find_commit(id)
}

/// `git2::Commit::message_bytes`, as owned bytes.
#[verifier::external_body]
pub(crate) fn commit_message_bytes(commit: &git2::Commit<'_>) -> (message: Vec<u8>) {
    commit.message_bytes().to_vec()
}

/// `git2::Repository::cherrypick`, with the default options.
#[verifier::external_body]
pub(crate) fn cherrypick(repo: &git2::Repository, commit: &git2::Commit<'_>) -> (done: Result<
    (),
    git2::Error,
>) {
    let mut options = git2::CherrypickOptions::new();
    repo.cherrypick(commit, Some(&mut options))
}

/// `git2::Repository::state`.
#[verifier::external_body]
pub(crate) fn repository_state(repo: &git2::Repository) -> (state: git2::RepositoryState) {
    repo.state()
}

/// `git2::Repository::index`.
#[verifier::external_body]
pub(crate) fn repository_index(repo: &git2::Repository) -> (index: Result<
    git2::Index,
    git2::Error,
>) {
    repo.index()
}

/// `git2::Index::read`, which loads the index anew from disk and drops what
/// was changed in memory only.
#[verifier::external_body]
pub(crate) fn index_read(index: &mut git2::Index) -> (done: Result<(), git2::Error>) {
    index.read(true)
}

/// `git2::Index::has_conflicts`.
#[verifier::external_body]
pub(crate) fn index_has_conflicts(index: &git2::Index) -> (conflicted: bool) {
    index.has_conflicts()
}

/// `git2::Index::conflicts`, read to its end: for each conflict the paths of
/// its three entries as bytes, each `None` where the side has no entry.
#[verifier::external_body]
pub(crate) fn index_conflicts(index: &git2::Index) -> (conflicts: Result<
    Vec<ConflictSides>,
    git2::Error,
>) {
    index.conflicts()?.map(|found| found.map(|conflict| ConflictSides {
        ancestor: conflict.ancestor.map(|entry| entry.path),
        ours: conflict.our.map(|entry| entry.path),
        theirs: conflict.their.map(|entry| entry.path),
    })).collect()
}

/// `git2::Index::add_all` for one path pattern, with the default options.
#[verifier::external_body]
pub(crate) fn index_add_all(index: &mut git2::Index, pattern: &str) -> (done: Result<
    (),
    git2::Error,
>) {
    index.add_all([pattern].iter(), git2::IndexAddOption::DEFAULT, None)
}

/// `git2::Index::write`.
#[verifier::external_body]
pub(crate) fn index_write(index: &mut git2::Index) -> (done: Result<(), git2::Error>) {
    index.write()
}

/// `git2::Index::write_tree`.
#[verifier::external_body]
pub(crate) fn index_write_tree(index: &mut git2::Index) -> (tree: Result<git2::Oid, git2::Error>) {
    index.write_tree()
}

/// `git2::Repository::find_tree`.
#[verifier::external_body]
pub(crate) fn find_tree<'repo>(repo: &'repo git2::Repository, id: git2::Oid) -> (tree: Result<
    git2::Tree<'repo>,
    git2::Error,
>) {
    repo.find_tree(id)
}

/// `git2::Repository::commit` with one parent and one signature for author
/// and committer.
#[verifier::external_body]
pub(crate) fn create_commit(
    repo: &git2::Repository,
    update_ref: &str,
    signature: &git2::Signature<'_>,
    message: &str,
    tree: &git2::Tree<'_>,
    parent: &git2::Commit<'_>,
) -> (id: Result<git2::Oid, git2::Error>) {
    repo.commit(Some(update_ref), signature, signature, message, tree, &[parent])
}

/// `git2::Repository::cleanup_state`.
#[verifier::external_body]
pub(crate) fn cleanup_state(repo: &git2::Repository) -> (done: Result<(), git2::Error>) {
    repo.cleanup_state()
}

/// `git2::Repository::reset` to a commit, with the default checkout options.
#[verifier::external_body]
pub(crate) fn reset(repo: &git2::Repository, commit: &git2::Commit<'_>, kind: git2::ResetType) -> (done:
    Result<(), git2::Error>) {
    repo.reset(commit.as_object(), kind, None)
}

/// `git2::Repository::find_remote`.
#[verifier::external_body]
pub(crate) fn find_remote<'repo>(repo: &'repo git2::Repository, name: &str) -> (remote: Result<
    git2::Remote<'repo>,
    git2::Error,
>) {
    repo.find_remote(name)
}

/// `git2::Remote::fetch` of the remote's configured refspecs.
#[verifier::external_body]
pub(crate) fn remote_fetch(remote: &mut git2::Remote<'_>) -> (done: Result<(), git2::Error>) {
    let refspecs: [&str; 0] = [];
    remote.fetch(&refspecs, None, None)
}

/// `git2::Repository::revwalk`.
#[verifier::external_body]
pub(crate) fn new_revwalk<'repo>(repo: &'repo git2::Repository) -> (walk: Result<
    git2::Revwalk<'repo>,
    git2::Error,
>) {
    repo.revwalk()
}

/// `git2::Revwalk::push_range`: the walk starts at the right end of the range
/// and leaves out what the left end reaches.
#[verifier::external_body]
pub(crate) fn revwalk_push_range(walk: &mut git2::Revwalk<'_>, range: &str) -> (done: Result<
    (),
    git2::Error,
>) {
    walk.push_range(range)
}

/// One step of the walk: `next` of the `Iterator` impl of `git2::Revwalk`.
#[verifier::external_body]
pub(crate) fn revwalk_next(walk: &mut git2::Revwalk<'_>) -> (step: Option<
    Result<git2::Oid, git2::Error>,
>) {
    walk.next()
}

/// `git2::Error::message`, as an owned text.
#[verifier::external_body]
pub(crate) fn error_message(error: &git2::Error) -> (message: String) {
    error.message().to_string()
}

/// `String::from_utf8_lossy`, as an owned text; the result is named by
/// [`lossy_text`].
#[verifier::external_body]
pub(crate) fn utf8_lossy(bytes: &Vec<u8>) -> (text: String)
    ensures
        text@ == lossy_text(bytes@),
{
    String::from_utf8_lossy(bytes).to_string()
}

} // verus!
