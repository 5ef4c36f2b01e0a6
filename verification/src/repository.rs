//! The description of a repository and of its local working copy.

use vstd::prelude::*;

verus! {

/// Where a repository comes from, where its working copy lives and which
/// lock file guards that working copy.
///
/// The lock path must be unique per `clone_to`: two descriptions that share
/// a lock path wait for each other, and two that share `clone_to` under
/// different lock paths are not kept apart. Nothing here enforces that.
#[derive(Debug)]
pub struct Repository {
    /// The remote location, passed to the external tool as it is.
    pub clone_from: String,
    /// The local path of the working copy.
    pub clone_to: String,
    /// Further arguments of the clone command, in order.
    pub extra_clone_args: Vec<String>,
    /// The path of the lock file.
    pub lock_path: String,
}

/// A `Repository` as mathematical values.
pub struct RepositoryView {
    pub clone_from: Seq<char>,
    pub clone_to: Seq<char>,
    pub extra_clone_args: Seq<Seq<char>>,
    pub lock_path: Seq<char>,
}

impl View for Repository {
    type V = RepositoryView;

    open spec fn view(&self) -> RepositoryView {
        RepositoryView {
            clone_from: self.clone_from@,
            clone_to: self.clone_to@,
            extra_clone_args: self.extra_clone_args.deep_view(),
            lock_path: self.lock_path@,
        }
    }
}

/// A copy of a list of texts.
pub fn copy_texts(texts: &Vec<String>) -> (copy: Vec<String>)
    ensures
        copy.deep_view() == texts.deep_view(),
{
    let mut copy: Vec<String> = Vec::new();
    let mut i: usize = 0;
    while i < texts.len()
        invariant
            i <= texts.len(),
            copy.len() == i,
            forall|k: int| 0 <= k < i ==> copy[k]@ == texts[k]@,
        decreases texts.len() - i,
    {
        copy.push(texts[i].clone());
        i += 1;
    }
    assert(copy.deep_view() =~= texts.deep_view());
    copy
}

} // verus!
