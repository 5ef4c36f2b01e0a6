//! Operations at work at the same time, and the lock file that keeps them
//! apart.
//!
//! The lock file hands its exclusive hold to one holder at a time. An
//! operation takes the hold when the driver reports it as obtained and keeps
//! it for as long as it waits for a look or for a command; it has let go of
//! it when it is over. So operations that share a lock path never work at
//! the same time, however their steps fall.

use crate::runs::holds_lock;
use crate::session::{next, Event, Phase, TaskView};
use vstd::prelude::*;

verus! {

/// One of the operations at work: its task and how far it has come.
pub struct Member<E> {
    pub task: TaskView,
    pub phase: Phase<E>,
}

/// A report of a driver: the position of the operation that it goes to, and
/// what it says.
pub struct Delivery<E> {
    pub to: int,
    pub event: Event<E>,
}

/// The path of the lock file that a member waits for or holds.
pub open spec fn lock_path<E>(member: Member<E>) -> Seq<char> {
    member.task.repository.lock_path
}

/// No two members with the same lock path hold their locks at once.
pub open spec fn exclusive<E>(fleet: Seq<Member<E>>) -> bool {
    forall|i: int, j: int|
        0 <= i < j < fleet.len() && holds_lock(fleet[i].phase) && holds_lock(fleet[j].phase)
            ==> lock_path(fleet[i]) != lock_path(fleet[j])
}

/// No member but `who` holds a lock on the lock path of `who`.
pub open spec fn free_for<E>(fleet: Seq<Member<E>>, who: int) -> bool {
    forall|j: int|
        0 <= j < fleet.len() && j != who && holds_lock(#[trigger] fleet[j].phase) ==> lock_path(
            fleet[j],
        ) != lock_path(fleet[who])
}

/// What the lock file grants: a report goes to a member of the fleet, and
/// the hold is reported as obtained only while no other member has it.
pub open spec fn admitted<E>(fleet: Seq<Member<E>>, delivery: Delivery<E>) -> bool {
    &&& 0 <= delivery.to < fleet.len()
    &&& delivery.event is Acquired ==> free_for(fleet, delivery.to)
}

/// The fleet after one report: the member it goes to takes its step, the
/// others stay as they are.
pub open spec fn deliver<E>(fleet: Seq<Member<E>>, delivery: Delivery<E>) -> Seq<Member<E>> {
    let member = fleet[delivery.to];
    fleet.update(
        delivery.to,
        Member { task: member.task, phase: next(member.task, member.phase, delivery.event) },
    )
}

/// The fleet after the reports of `history`, in their order.
pub open spec fn after<E>(fleet: Seq<Member<E>>, history: Seq<Delivery<E>>) -> Seq<Member<E>>
    decreases history.len(),
{
    if history.len() == 0 {
        fleet
    } else {
        deliver(after(fleet, history.drop_last()), history.last())
    }
}

/// Every report of `history` is admitted at the time it is made.
pub open spec fn admissible<E>(fleet: Seq<Member<E>>, history: Seq<Delivery<E>>) -> bool
    decreases history.len(),
{
    history.len() == 0 || (admissible(fleet, history.drop_last()) && admitted(
        after(fleet, history.drop_last()),
        history.last(),
    ))
}

/// One admitted report keeps the members apart.
pub proof fn lemma_step_keeps_exclusion<E>(fleet: Seq<Member<E>>, delivery: Delivery<E>)
    requires
        exclusive(fleet),
        admitted(fleet, delivery),
    ensures
        exclusive(deliver(fleet, delivery)),
{
    let then = deliver(fleet, delivery);
    let who = delivery.to;
    assert forall|i: int, j: int|
        0 <= i < j < then.len() && holds_lock(then[i].phase) && holds_lock(
            then[j].phase,
        ) implies lock_path(then[i]) != lock_path(then[j]) by {
        let other = if i == who {
            j
        } else {
            i
        };
        if i == who || j == who {
            assert(then[other] == fleet[other]);
            assert(lock_path(then[who]) == lock_path(fleet[who]));
            if !holds_lock(fleet[who].phase) {
                assert(delivery.event is Acquired);
                assert(holds_lock(fleet[other].phase));
            }
        }
    }
}

/// Mutual exclusion. Members that were apart stay apart through every
/// admissible history: at no time do two operations on one lock path both
/// hold the lock. A fleet of operations that all wait for their locks is
/// apart to begin with.
pub proof fn lemma_mutual_exclusion<E>(fleet: Seq<Member<E>>, history: Seq<Delivery<E>>)
    requires
        exclusive(fleet),
        admissible(fleet, history),
    ensures
        exclusive(after(fleet, history)),
    decreases history.len(),
{
    if history.len() > 0 {
        lemma_mutual_exclusion(fleet, history.drop_last());
        lemma_step_keeps_exclusion(after(fleet, history.drop_last()), history.last());
    }
}

} // verus!
