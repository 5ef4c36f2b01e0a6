//! The capability of being kept as a local working copy.

use crate::repository::{copy_texts, Repository};
use crate::session::{Locking, Operation, OperationView, TaskView};
use vstd::prelude::*;

verus! {

/// A repository that can be cloned, fetched, cleaned and checked out under
/// the protection of its lock file.
///
/// An implementer supplies four pieces of data. Each operation reads them
/// once, when it starts, and hands back the operation waiting for its lock;
/// a driver takes it from there. Nothing is assumed of what an implementer
/// reports: an operation works on whatever it read.
pub trait GitClonable {
    /// The remote location to clone from.
    fn clone_from(&self) -> String;

    /// The local path of the working copy.
    fn clone_to(&self) -> String;

    /// Further arguments of the clone command, in order.
    fn extra_clone_args(&self) -> Vec<String>;

    /// The path of the lock file that guards the working copy. It must be
    /// unique per `clone_to`.
    fn lock_path(&self) -> String;

    /// The four pieces of data, read once.
    fn repository(&self) -> (repository: Repository)
        ensures
            call_ensures(Self::clone_from, (self,), repository.clone_from),
            call_ensures(Self::clone_to, (self,), repository.clone_to),
            call_ensures(Self::extra_clone_args, (self,), repository.extra_clone_args),
            call_ensures(Self::lock_path, (self,), repository.lock_path),
    {
        Repository {
            clone_from: self.clone_from(),
            clone_to: self.clone_to(),
            extra_clone_args: self.extra_clone_args(),
            lock_path: self.lock_path(),
        }
    }

    /// Starts making sure that a working copy exists.
    fn clone_repo(&self) -> (start: Locking)
        ensures
            exists|repository: Repository|
                call_ensures(Self::repository, (self,), repository) && start@ == (TaskView {
                    operation: OperationView::Clone,
                    repository: repository@,
                }),
    {
        Locking::new(Operation::Clone, self.repository())
    }

    /// Starts updating the remote-tracking references.
    fn fetch_repo(&self) -> (start: Locking)
        ensures
            exists|repository: Repository|
                call_ensures(Self::repository, (self,), repository) && start@ == (TaskView {
                    operation: OperationView::Fetch,
                    repository: repository@,
                }),
    {
        Locking::new(Operation::Fetch, self.repository())
    }

    /// Starts returning the working copy to a pristine state.
    fn clean(&self) -> (start: Locking)
        ensures
            exists|repository: Repository|
                call_ensures(Self::repository, (self,), repository) && start@ == (TaskView {
                    operation: OperationView::Clean,
                    repository: repository@,
                }),
    {
        Locking::new(Operation::Clean, self.repository())
    }

    /// Starts switching the working copy to `git_ref`, which is passed on
    /// as it is.
    fn checkout(&self, git_ref: &str) -> (start: Locking)
        ensures
            exists|repository: Repository|
                call_ensures(Self::repository, (self,), repository) && start@ == (TaskView {
                    operation: OperationView::Checkout(git_ref@),
                    repository: repository@,
                }),
    {
        Locking::new(Operation::Checkout(git_ref.to_owned()), self.repository())
    }
}

impl GitClonable for Repository {
    fn clone_from(&self) -> (source: String)
        ensures
            source@ == self.clone_from@,
    {
        self.clone_from.clone()
    }

    fn clone_to(&self) -> (destination: String)
        ensures
            destination@ == self.clone_to@,
    {
        self.clone_to.clone()
    }

    fn extra_clone_args(&self) -> (args: Vec<String>)
        ensures
            args.deep_view() == self.extra_clone_args.deep_view(),
    {
        copy_texts(&self.extra_clone_args)
    }

    fn lock_path(&self) -> (path: String)
        ensures
            path@ == self.lock_path@,
    {
        self.lock_path.clone()
    }
}

} // verus!
