//! What holds of every run of an operation, whatever the driver reports.

use crate::command::InvocationView;
use crate::error::SyncError;
use crate::session::{commands, next, Event, Phase, TaskView};
use vstd::prelude::*;

verus! {

/// The phase that a fresh operation reaches once the driver has reported
/// `events`, in their order.
pub open spec fn reached<E>(task: TaskView, events: Seq<Event<E>>) -> Phase<E>
    decreases events.len(),
{
    if events.len() == 0 {
        Phase::Locking
    } else {
        next(task, reached(task, events.drop_last()), events.last())
    }
}

/// The commands that a fresh operation asks for while `events` come in, in
/// the order in which it asks: one each time it comes to wait for a command.
pub open spec fn requested<E>(task: TaskView, events: Seq<Event<E>>) -> Seq<InvocationView>
    decreases events.len(),
{
    if events.len() == 0 {
        Seq::empty()
    } else {
        let before = reached(task, events.drop_last());
        let after = reached(task, events);
        let earlier = requested(task, events.drop_last());
        if after is Running && after != before {
            earlier.push(commands(task)[after->Running_0 as int])
        } else {
            earlier
        }
    }
}

/// Whether an operation in this phase holds its lock.
pub open spec fn holds_lock<E>(phase: Phase<E>) -> bool {
    phase is Probing || phase is Running
}

/// The error with which an event ends an operation, if it reports that the
/// lock could not be obtained or the tool not be launched.
pub open spec fn refusal<E>(event: Event<E>) -> Option<SyncError<E>> {
    match event {
        Event::AcquireFailed(error) => Some(SyncError::Lock(error)),
        Event::SpawnFailed(error) => Some(SyncError::Spawn(error)),
        _ => None,
    }
}

/// Two reports that differ at most in what the tool said of its runs.
pub open spec fn alike<E>(a: Seq<Event<E>>, b: Seq<Event<E>>) -> bool {
    &&& a.len() == b.len()
    &&& forall|i: int| 0 <= i < a.len() ==> a[i] == b[i] || (a[i] is Exited && b[i] is Exited)
}

/// An operation asks for its commands in their order, each once and none
/// but its own: what it has asked for is always a beginning of its list of
/// commands. While it waits for the lock or for the look at the working
/// copy it has asked for none.
pub proof fn lemma_commands_in_order<E>(task: TaskView, events: Seq<Event<E>>)
    ensures
        requested(task, events).len() <= commands(task).len(),
        requested(task, events) == commands(task).take(requested(task, events).len() as int),
        reached(task, events) is Locking || reached(task, events) is Probing ==> requested(
            task,
            events,
        ).len() == 0,
        reached(task, events) matches Phase::Running(index) ==> requested(task, events).len()
            == index + 1,
    decreases events.len(),
{
    if events.len() > 0 {
        lemma_commands_in_order(task, events.drop_last());
    }
    assert(requested(task, events) =~= commands(task).take(requested(task, events).len() as int));
}

/// Nothing happens without the lock: as long as the driver has not reported
/// the lock as obtained, the operation holds none and has asked for no
/// command.
pub proof fn lemma_nothing_without_lock<E>(task: TaskView, events: Seq<Event<E>>)
    requires
        forall|i: int| 0 <= i < events.len() ==> !(events[i] is Acquired),
    ensures
        !holds_lock(reached(task, events)),
        requested(task, events).len() == 0,
    decreases events.len(),
{
    if events.len() > 0 {
        lemma_nothing_without_lock(task, events.drop_last());
    }
}

/// Where the lock cannot be obtained the operation is over at once, with
/// the error of the lock, and asks for no command, whatever is reported
/// afterwards.
pub proof fn lemma_lock_failure_ends_all<E>(task: TaskView, error: E, later: Seq<Event<E>>)
    ensures
        reached(task, seq![Event::AcquireFailed(error)] + later) == Phase::Done(
            Err::<(), SyncError<E>>(SyncError::Lock(error)),
        ),
        requested(task, seq![Event::AcquireFailed(error)] + later).len() == 0,
    decreases later.len(),
{
    let events = seq![Event::AcquireFailed(error)] + later;
    if later.len() == 0 {
        assert(events.drop_last() =~= Seq::<Event<E>>::empty());
        assert(reached(task, events.drop_last()) == Phase::<E>::Locking);
        assert(requested(task, events.drop_last()).len() == 0);
    } else {
        lemma_lock_failure_ends_all(task, error, later.drop_last());
        assert(events.drop_last() =~= seq![Event::AcquireFailed(error)] + later.drop_last());
    }
}

/// A clone leaves an existing working copy alone: where no look misses the
/// directory, no command is asked for, and the clone ends in success
/// unless its lock could not be obtained.
pub proof fn lemma_clone_leaves_existing_alone<E>(task: TaskView, events: Seq<Event<E>>)
    requires
        task.operation is Clone,
        forall|i: int| 0 <= i < events.len() ==> events[i] != Event::<E>::Probed(false),
    ensures
        requested(task, events).len() == 0,
        !(reached(task, events) is Running),
        reached(task, events) matches Phase::Done(result) ==> result is Ok || (
        result matches Err(error) && error is Lock),
    decreases events.len(),
{
    if events.len() > 0 {
        lemma_clone_leaves_existing_alone(task, events.drop_last());
    }
}

/// Cloning twice clones once. When a first clone has ended in success the
/// working copy exists, so a second clone finds it at every look: the two
/// together ask for at most one command, the second for none, and the
/// second ends in success unless its lock could not be obtained.
pub proof fn lemma_clone_twice_clones_once<E>(task: TaskView, first: Seq<Event<E>>, second: Seq<Event<E>>)
    requires
        task.operation is Clone,
        reached(task, first) == Phase::<E>::Done(Ok(())),
        forall|i: int| 0 <= i < second.len() ==> second[i] != Event::<E>::Probed(false),
    ensures
        requested(task, first).len() + requested(task, second).len() <= 1,
        requested(task, second).len() == 0,
        reached(task, second) matches Phase::Done(result) ==> result is Ok || (
        result matches Err(error) && error is Lock),
{
    lemma_commands_in_order(task, first);
    lemma_clone_leaves_existing_alone(task, second);
}

/// Cleaning fails only where the driver could not do its part: an error at
/// the end is the one that some event reported, of the lock not obtained or
/// of the tool not launched.
pub proof fn lemma_clean_fails_only_on_refusal<E>(task: TaskView, events: Seq<Event<E>>)
    requires
        task.operation is Clean,
    ensures
        reached(task, events) matches Phase::Done(Err(error)) ==> exists|i: int|
            0 <= i < events.len() && refusal(#[trigger] events[i]) == Some(error),
    decreases events.len(),
{
    if events.len() > 0 {
        let earlier = events.drop_last();
        lemma_clean_fails_only_on_refusal(task, earlier);
        if let Phase::Done(Err(error)) = reached(task, events) {
            if reached(task, earlier) == reached(task, events) {
                let i = choose|i: int|
                    0 <= i < earlier.len() && refusal(#[trigger] earlier[i]) == Some(error);
                assert(events[i] == earlier[i]);
            } else {
                assert(refusal(events[events.len() - 1]) == Some(error));
            }
        }
    }
}

/// What the tool says of its runs does not matter to cleaning: two reports
/// that differ only there lead to the same phase.
pub proof fn lemma_clean_overlooks_reports<E>(task: TaskView, a: Seq<Event<E>>, b: Seq<Event<E>>)
    requires
        task.operation is Clean,
        alike(a, b),
    ensures
        reached(task, a) == reached(task, b),
    decreases a.len(),
{
    if a.len() > 0 {
        lemma_clean_overlooks_reports(task, a.drop_last(), b.drop_last());
    }
}

} // verus!
