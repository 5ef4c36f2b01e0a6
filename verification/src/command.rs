//! The runs of the external version-control tool that the operations ask for.

use crate::repository::{copy_texts, Repository, RepositoryView};
use vstd::prelude::*;

verus! {

/// One run of an external program: what to start, with which arguments, and
/// in which directory.
#[derive(Debug)]
pub struct Invocation {
    /// The program, looked up on the execution path.
    pub program: String,
    /// Its arguments, in order.
    pub args: Vec<String>,
    /// The directory to run it in; `None` leaves the caller's own.
    pub current_dir: Option<String>,
}

/// An `Invocation` as mathematical values.
pub struct InvocationView {
    pub program: Seq<char>,
    pub args: Seq<Seq<char>>,
    pub current_dir: Option<Seq<char>>,
}

impl View for Invocation {
    type V = InvocationView;

    open spec fn view(&self) -> InvocationView {
        InvocationView {
            program: self.program@,
            args: self.args.deep_view(),
            current_dir: match self.current_dir {
                Some(dir) => Some(dir@),
                None => None,
            },
        }
    }
}

/// The tool run with `args` inside the working copy.
pub open spec fn in_working_copy(r: RepositoryView, args: Seq<Seq<char>>) -> InvocationView {
    InvocationView { program: "git"@, args, current_dir: Some(r.clone_to) }
}

/// Cloning the source into the working copy's path: `clone`, the extra
/// arguments in their order, the source, the destination.
pub open spec fn clone_invocation(r: RepositoryView) -> InvocationView {
    InvocationView {
        program: "git"@,
        args: seq!["clone"@] + r.extra_clone_args + seq![r.clone_from, r.clone_to],
        current_dir: None,
    }
}

/// Fetching from the remote named `origin`.
pub open spec fn fetch_invocation(r: RepositoryView) -> InvocationView {
    in_working_copy(r, seq!["fetch"@, "origin"@])
}

/// Switching the working copy to `reference`.
pub open spec fn checkout_invocation(r: RepositoryView, reference: Seq<char>) -> InvocationView {
    in_working_copy(r, seq!["checkout"@, reference])
}

/// Abandoning a patch application that is under way.
pub open spec fn abort_patch_invocation(r: RepositoryView) -> InvocationView {
    in_working_copy(r, seq!["am"@, "--abort"@])
}

/// Abandoning a merge that is under way.
pub open spec fn abort_merge_invocation(r: RepositoryView) -> InvocationView {
    in_working_copy(r, seq!["merge"@, "--abort"@])
}

/// Resetting working tree and index to the current head.
pub open spec fn hard_reset_invocation(r: RepositoryView) -> InvocationView {
    in_working_copy(r, seq!["reset"@, "--hard"@])
}

/// The tool run with two arguments inside the working copy.
fn run_in_working_copy(repository: &Repository, first: String, second: String) -> (command:
    Invocation)
    ensures
        command@ == in_working_copy(repository@, seq![first@, second@]),
{
    let mut args: Vec<String> = Vec::new();
    args.push(first);
    args.push(second);
    assert(args.deep_view() =~= seq![first@, second@]);
    Invocation {
        program: "git".to_owned(),
        args,
        current_dir: Some(repository.clone_to.clone()),
    }
}

/// The command that clones the source into the working copy's path.
pub fn clone_command(repository: &Repository) -> (command: Invocation)
    ensures
        command@ == clone_invocation(repository@),
{
    let mut args: Vec<String> = Vec::new();
    args.push("clone".to_owned());
    let mut extra = copy_texts(&repository.extra_clone_args);
    args.append(&mut extra);
    args.push(repository.clone_from.clone());
    args.push(repository.clone_to.clone());
    assert(args.deep_view() =~= clone_invocation(repository@).args);
    Invocation { program: "git".to_owned(), args, current_dir: None }
}

/// The command that fetches from the remote named `origin`.
pub fn fetch_command(repository: &Repository) -> (command: Invocation)
    ensures
        command@ == fetch_invocation(repository@),
{
    run_in_working_copy(repository, "fetch".to_owned(), "origin".to_owned())
}

/// The command that switches the working copy to `reference`.
pub fn checkout_command(repository: &Repository, reference: &String) -> (command: Invocation)
    ensures
        command@ == checkout_invocation(repository@, reference@),
{
    run_in_working_copy(repository, "checkout".to_owned(), reference.clone())
}

/// The command that abandons a patch application that is under way.
pub fn abort_patch_command(repository: &Repository) -> (command: Invocation)
    ensures
        command@ == abort_patch_invocation(repository@),
{
    run_in_working_copy(repository, "am".to_owned(), "--abort".to_owned())
}

/// The command that abandons a merge that is under way.
pub fn abort_merge_command(repository: &Repository) -> (command: Invocation)
    ensures
        command@ == abort_merge_invocation(repository@),
{
    run_in_working_copy(repository, "merge".to_owned(), "--abort".to_owned())
}

/// The command that resets working tree and index to the current head.
pub fn hard_reset_command(repository: &Repository) -> (command: Invocation)
    ensures
        command@ == hard_reset_invocation(repository@),
{
    run_in_working_copy(repository, "reset".to_owned(), "--hard".to_owned())
}

} // verus!
