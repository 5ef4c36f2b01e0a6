//! One operation on a working copy, decision by decision.
//!
//! An operation waits for its lock, works while it holds the lock, and lets
//! go of it before it reports how it ended. Between two decisions stands
//! something that only a driver can do: obtain the lock, look whether the
//! working copy exists, run the external tool. Each state names what it
//! waits for and takes the outcome as an argument.

use crate::command::{
    abort_merge_command, abort_merge_invocation, abort_patch_command, abort_patch_invocation,
    checkout_command, checkout_invocation, clone_command, clone_invocation, fetch_command,
    fetch_invocation, hard_reset_command, hard_reset_invocation, Invocation, InvocationView,
};
use crate::error::{Failure, SyncError};
use crate::lock::Lock;
use crate::repository::{Repository, RepositoryView};
use vstd::prelude::*;

verus! {

/// What is to be done to the working copy.
#[derive(Debug)]
pub enum Operation {
    /// Make sure that a working copy exists.
    Clone,
    /// Update the remote-tracking references.
    Fetch,
    /// Return the working copy to a pristine state.
    Clean,
    /// Switch the working copy to a branch, tag or commit. The reference is
    /// passed on as it is.
    Checkout(String),
}

/// An `Operation` as mathematical values.
pub enum OperationView {
    Clone,
    Fetch,
    Clean,
    Checkout(Seq<char>),
}

impl View for Operation {
    type V = OperationView;

    open spec fn view(&self) -> OperationView {
        match self {
            Operation::Clone => OperationView::Clone,
            Operation::Fetch => OperationView::Fetch,
            Operation::Clean => OperationView::Clean,
            Operation::Checkout(reference) => OperationView::Checkout(reference@),
        }
    }
}

/// An operation together with the repository it works on.
#[derive(Debug)]
pub struct Task {
    pub operation: Operation,
    pub repository: Repository,
}

/// A `Task` as mathematical values.
pub struct TaskView {
    pub operation: OperationView,
    pub repository: RepositoryView,
}

impl View for Task {
    type V = TaskView;

    open spec fn view(&self) -> TaskView {
        TaskView { operation: self.operation@, repository: self.repository@ }
    }
}

/// What the driver reports back.
pub enum Event<E> {
    /// The lock file was created and the exclusive hold obtained.
    Acquired,
    /// The lock file could not be created or locked.
    AcquireFailed(E),
    /// Whether the working copy's path is a directory.
    Probed(bool),
    /// The external tool ran to its end; whether it reported success.
    Exited(bool),
    /// The external tool could not be launched.
    SpawnFailed(E),
}

/// How far an operation has come.
pub enum Phase<E> {
    /// Waiting for the lock.
    Locking,
    /// Holding the lock; waiting to learn whether the working copy exists.
    Probing,
    /// Holding the lock; waiting for the command of this index to end.
    Running(nat),
    /// Over, the lock given up.
    Done(Result<(), SyncError<E>>),
}

/// The commands of a task, in the order in which they run.
pub open spec fn commands(task: TaskView) -> Seq<InvocationView> {
    match task.operation {
        OperationView::Clone => seq![clone_invocation(task.repository)],
        OperationView::Fetch => seq![fetch_invocation(task.repository)],
        OperationView::Clean => seq![
            abort_patch_invocation(task.repository),
            abort_merge_invocation(task.repository),
            hard_reset_invocation(task.repository),
        ],
        OperationView::Checkout(reference) => seq![
            checkout_invocation(task.repository, reference),
        ],
    }
}

/// The failure that an operation reports when the tool does. Cleaning has
/// none: it succeeds whatever the tool says.
pub open spec fn failure(operation: OperationView) -> Option<Failure> {
    match operation {
        OperationView::Clone => Some(Failure::Clone),
        OperationView::Fetch => Some(Failure::Fetch),
        OperationView::Checkout(_) => Some(Failure::Checkout),
        OperationView::Clean => None,
    }
}

/// How an operation ends once its last command has run and reported
/// `success`.
pub open spec fn verdict<E>(operation: OperationView, success: bool) -> Result<(), SyncError<E>> {
    match failure(operation) {
        Some(failure) => if success {
            Ok(())
        } else {
            Err(SyncError::OperationFailed(failure))
        },
        None => Ok(()),
    }
}

/// The phase that follows `phase` when the driver reports `event`.
///
/// Only a clone looks for the working copy, and it runs nothing when the
/// working copy is there. What a command reports is looked at only after
/// the last one. A failure to obtain the lock or to launch the tool ends the
/// operation at once. An event that does not answer what the phase waits for
/// changes nothing.
pub open spec fn next<E>(task: TaskView, phase: Phase<E>, event: Event<E>) -> Phase<E> {
    match (phase, event) {
        (Phase::Locking, Event::Acquired) => if task.operation is Clone {
            Phase::Probing
        } else {
            Phase::Running(0)
        },
        (Phase::Locking, Event::AcquireFailed(error)) => Phase::Done(Err(SyncError::Lock(error))),
        (Phase::Probing, Event::Probed(present)) => if present {
            Phase::Done(Ok(()))
        } else {
            Phase::Running(0)
        },
        (Phase::Running(index), Event::Exited(success)) => if index + 1 < commands(task).len() {
            Phase::Running(index + 1)
        } else {
            Phase::Done(verdict(task.operation, success))
        },
        (Phase::Running(_), Event::SpawnFailed(error)) => Phase::Done(
            Err(SyncError::Spawn(error)),
        ),
        _ => phase,
    }
}

/// The event that reports how obtaining the lock went.
pub open spec fn lock_event<H, E>(outcome: Result<H, E>) -> Event<E> {
    match outcome {
        Ok(_) => Event::Acquired,
        Err(error) => Event::AcquireFailed(error),
    }
}

/// The event that reports how a run of the tool went.
pub open spec fn exit_event<E>(outcome: Result<bool, E>) -> Event<E> {
    match outcome {
        Ok(success) => Event::Exited(success),
        Err(error) => Event::SpawnFailed(error),
    }
}

impl Operation {
    /// The failure that the operation reports when the tool does.
    pub fn failure(&self) -> (failure: Option<Failure>)
        ensures
            failure == self::failure(self@),
    {
        match self {
            Operation::Clone => Some(Failure::Clone),
            Operation::Fetch => Some(Failure::Fetch),
            Operation::Checkout(_) => Some(Failure::Checkout),
            Operation::Clean => None,
        }
    }

    /// The result of the operation when its last command reported `success`.
    pub fn verdict<E>(&self, success: bool) -> (result: Result<(), SyncError<E>>)
        ensures
            result == verdict::<E>(self@, success),
    {
        match self.failure() {
            Some(failure) => if success {
                Ok(())
            } else {
                Err(SyncError::OperationFailed(failure))
            },
            None => Ok(()),
        }
    }
}

impl Task {
    /// How many commands the task runs.
    pub fn command_count(&self) -> (count: usize)
        ensures
            count == commands(self@).len(),
    {
        match self.operation {
            Operation::Clean => 3,
            _ => 1,
        }
    }
}

/// An operation that waits for its lock.
#[derive(Debug)]
pub struct Locking {
    task: Task,
}

/// A clone that holds its lock and waits to learn whether the working copy
/// exists.
#[derive(Debug)]
pub struct Probing<H> {
    task: Task,
    lock: Lock<H>,
}

/// An operation that holds its lock and waits for a command to end.
#[derive(Debug)]
pub struct Running<H> {
    task: Task,
    lock: Lock<H>,
    index: usize,
}

/// What an operation waits for next, or how it ended.
#[derive(Debug)]
pub enum Step<H, E> {
    /// Find out whether the working copy's path is a directory.
    Probe(Probing<H>),
    /// Run a command and wait for it to end.
    Run(Running<H>),
    /// The operation is over. Nothing here holds the lock any more.
    Done(Result<(), SyncError<E>>),
}

impl View for Locking {
    type V = TaskView;

    closed spec fn view(&self) -> TaskView {
        self.task@
    }
}

impl Locking {
    /// The start of `operation` on `repository`.
    pub fn new(operation: Operation, repository: Repository) -> (start: Locking)
        ensures
            start@ == (TaskView { operation: operation@, repository: repository@ }),
    {
        Locking { task: Task { operation, repository } }
    }

    /// What is being done, and to what.
    pub fn task(&self) -> (task: &Task)
        ensures
            task@ == self@,
    {
        &self.task
    }

    /// The lock file to create and to lock exclusively, waiting as long as
    /// another holder has it.
    pub fn path(&self) -> (path: &String)
        ensures
            path@ == self@.repository.lock_path,
    {
        &self.task.repository.lock_path
    }

    /// Goes on once the driver has tried to obtain the lock. `Ok` carries the
    /// resource that keeps the hold.
    pub fn acquired<H, E>(self, outcome: Result<H, E>) -> (step: Step<H, E>)
        ensures
            step.phase() == next(self@, Phase::Locking, lock_event(outcome)),
            outcome matches Ok(handle) ==> step.carries(self@, Some(handle)),
    {
        match Lock::acquired(outcome) {
            Err(error) => Step::Done(Err(error)),
            Ok(lock) => match self.task.operation {
                Operation::Clone => Step::Probe(Probing { task: self.task, lock }),
                _ => {
                    assert(commands(self.task@).len() > 0);
                    Step::Run(Running { task: self.task, lock, index: 0 })
                },
            },
        }
    }
}

impl<H> Probing<H> {
    #[verifier::type_invariant]
    spec fn holds_lock(&self) -> bool {
        self.lock@ is Some
    }

    /// What is being done, and to what.
    pub closed spec fn task_view(&self) -> TaskView {
        self.task@
    }

    /// The resource that keeps the hold.
    pub closed spec fn held(&self) -> Option<H> {
        self.lock@
    }

    /// What is being done, and to what.
    pub fn task(&self) -> (task: &Task)
        ensures
            task@ == self.task_view(),
    {
        &self.task
    }

    /// The lock, which is held.
    pub fn lock(&self) -> (lock: &Lock<H>)
        ensures
            lock@ == self.held(),
            lock@ is Some,
    {
        proof {
            use_type_invariant(self);
        }
        &self.lock
    }

    /// The path to examine: that of the working copy.
    pub fn path(&self) -> (path: &String)
        ensures
            path@ == self.task_view().repository.clone_to,
    {
        &self.task.repository.clone_to
    }

    /// Goes on once the driver has looked. Where the working copy is
    /// present the clone is over, successfully: an existing directory is
    /// never cloned over, complete or not.
    pub fn probed<E>(self, present: bool) -> (step: Step<H, E>)
        ensures
            step.phase() == next(self.task_view(), Phase::<E>::Probing, Event::Probed(present)),
            step.carries(self.task_view(), self.held()),
    {
        proof {
            use_type_invariant(&self);
        }
        if present {
            let mut lock = self.lock;
            lock.unlock();
            Step::Done(Ok(()))
        } else {
            assert(commands(self.task@).len() > 0);
            Step::Run(Running { task: self.task, lock: self.lock, index: 0 })
        }
    }
}

impl<H> Running<H> {
    #[verifier::type_invariant]
    spec fn holds_lock(&self) -> bool {
        &&& self.lock@ is Some
        &&& self.index < commands(self.task@).len()
    }

    /// What is being done, and to what.
    pub closed spec fn task_view(&self) -> TaskView {
        self.task@
    }

    /// The resource that keeps the hold.
    pub closed spec fn held(&self) -> Option<H> {
        self.lock@
    }

    /// The index of the command that is running.
    pub closed spec fn position(&self) -> nat {
        self.index as nat
    }

    /// What is being done, and to what.
    pub fn task(&self) -> (task: &Task)
        ensures
            task@ == self.task_view(),
    {
        &self.task
    }

    /// The lock, which is held.
    pub fn lock(&self) -> (lock: &Lock<H>)
        ensures
            lock@ == self.held(),
            lock@ is Some,
    {
        proof {
            use_type_invariant(self);
        }
        &self.lock
    }

    /// The command to run and to wait for.
    pub fn command(&self) -> (command: Invocation)
        ensures
            self.position() < commands(self.task_view()).len(),
            command@ == commands(self.task_view())[self.position() as int],
    {
        proof {
            use_type_invariant(self);
        }
        let repository = &self.task.repository;
        match &self.task.operation {
            Operation::Clone => clone_command(repository),
            Operation::Fetch => fetch_command(repository),
            Operation::Checkout(reference) => checkout_command(repository, reference),
            Operation::Clean => if self.index == 0 {
                abort_patch_command(repository)
            } else if self.index == 1 {
                abort_merge_command(repository)
            } else {
                hard_reset_command(repository)
            },
        }
    }

    /// Goes on once the driver has tried to run the command: `Ok` says
    /// whether the tool reported success, `Err` that it could not be
    /// launched. After the last command the lock is released, and only then
    /// is the report turned into the operation's result.
    pub fn exited<E>(self, outcome: Result<bool, E>) -> (step: Step<H, E>)
        ensures
            step.phase() == next(
                self.task_view(),
                Phase::Running(self.position()),
                exit_event(outcome),
            ),
            step.carries(self.task_view(), self.held()),
    {
        proof {
            use_type_invariant(&self);
        }
        match outcome {
            Err(error) => Step::Done(Err(SyncError::Spawn(error))),
            Ok(success) => {
                if self.index + 1 < self.task.command_count() {
                    Step::Run(Running { task: self.task, lock: self.lock, index: self.index + 1 })
                } else {
                    let mut lock = self.lock;
                    lock.unlock();
                    Step::Done(self.task.operation.verdict(success))
                }
            },
        }
    }
}

impl<H, E> Step<H, E> {
    /// How far the operation has come.
    pub open spec fn phase(&self) -> Phase<E> {
        match self {
            Step::Probe(_) => Phase::Probing,
            Step::Run(running) => Phase::Running(running.position()),
            Step::Done(result) => Phase::Done(*result),
        }
    }

    /// An operation that is not over still works on `task` and still holds
    /// what `held` holds.
    pub open spec fn carries(&self, task: TaskView, held: Option<H>) -> bool {
        match self {
            Step::Probe(probing) => probing.task_view() == task && probing.held() == held,
            Step::Run(running) => running.task_view() == task && running.held() == held,
            Step::Done(_) => true,
        }
    }
}

} // verus!
