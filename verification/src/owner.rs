//! Getting the owner of the window's device, which is built when it is
//! first asked for.
//!
//! The window keeps a reference to the owner that does not keep the owner
//! alive, behind a lock that many may hold to read and one to write. A
//! task that wants the owner looks under the read lock first. If there is
//! no live owner it takes the write lock and looks again, because another
//! task may have built the owner in between. Only if there is still none
//! does it build one, with the write lock held, and stores the reference.

use vstd::prelude::*;
use crate::error::{Error, ErrorView};

verus! {

/// How far a task has come in getting the owner.
#[derive(Debug)]
pub enum Access {
    /// It has not looked yet.
    Start,
    /// It found no owner under the read lock and wants the write lock.
    Locking,
    /// It found no owner under the write lock, which it holds, and builds
    /// one.
    Building,
    /// It found a live owner.
    Existing,
    /// It built the owner.
    Created,
    /// It could not build the owner.
    Failed(Error),
}

/// An `Access` as a value of the specification.
pub enum AccessView {
    Start,
    Locking,
    Building,
    Existing,
    Created,
    Failed(ErrorView),
}

impl View for Access {
    type V = AccessView;

    open spec fn view(&self) -> AccessView {
        match self {
            Access::Start => AccessView::Start,
            Access::Locking => AccessView::Locking,
            Access::Building => AccessView::Building,
            Access::Existing => AccessView::Existing,
            Access::Created => AccessView::Created,
            Access::Failed(error) => AccessView::Failed(error@),
        }
    }
}

/// What a task that wants the owner has to do next.
#[derive(Debug, Clone, Copy, PartialEq, Eq, Structural)]
pub enum AccessAction {
    /// Take the read lock, try to turn the reference into an owner, let
    /// the lock go, and say whether there was one.
    LookShared,
    /// Take the write lock, try again, and say whether there was one. The
    /// lock is kept if there was none.
    LookExclusive,
    /// Build an owner and say how that went.
    Build,
    /// Let the write lock go, if it is held, and return the owner that
    /// was found.
    ReturnFound,
    /// Store the reference to the new owner, let the write lock go, and
    /// return the owner.
    StoreAndReturn,
    /// Let the write lock go and return the error.
    Fail,
}

impl AccessView {
    /// The action that is due.
    pub open spec fn action(self) -> AccessAction {
        match self {
            AccessView::Start => AccessAction::LookShared,
            AccessView::Locking => AccessAction::LookExclusive,
            AccessView::Building => AccessAction::Build,
            AccessView::Existing => AccessAction::ReturnFound,
            AccessView::Created => AccessAction::StoreAndReturn,
            AccessView::Failed(_) => AccessAction::Fail,
        }
    }

    /// The state after the task looked and found a live owner or none.
    pub open spec fn looked(self, found: bool) -> AccessView {
        match self {
            AccessView::Start => if found {
                AccessView::Existing
            } else {
                AccessView::Locking
            },
            AccessView::Locking => if found {
                AccessView::Existing
            } else {
                AccessView::Building
            },
            other => other,
        }
    }

    /// The state after the task tried to build the owner.
    pub open spec fn built(self, failure: Option<ErrorView>) -> AccessView {
        match self {
            AccessView::Building => match failure {
                None => AccessView::Created,
                Some(error) => AccessView::Failed(error),
            },
            other => other,
        }
    }

    /// The task has its owner.
    pub open spec fn has_owner(self) -> bool {
        self is Existing || self is Created
    }
}

impl Access {
    /// Starts to get the owner.
    pub fn begin() -> (access: Access)
        ensures
            access@ == AccessView::Start,
    {
        Access::Start
    }

    /// The action that is due.
    pub fn action(&self) -> (action: AccessAction)
        ensures
            action == self@.action(),
    {
        match self {
            Access::Start => AccessAction::LookShared,
            Access::Locking => AccessAction::LookExclusive,
            Access::Building => AccessAction::Build,
            Access::Existing => AccessAction::ReturnFound,
            Access::Created => AccessAction::StoreAndReturn,
            Access::Failed(_) => AccessAction::Fail,
        }
    }

    /// Takes what the task found when it looked for a live owner. After
    /// it has looked twice the answer changes nothing.
    pub fn looked(self, found: bool) -> (next: Access)
        ensures
            next@ == self@.looked(found),
    {
        match self {
            Access::Start => if found {
                Access::Existing
            } else {
                Access::Locking
            },
            Access::Locking => if found {
                Access::Existing
            } else {
                Access::Building
            },
            other => other,
        }
    }

    /// Takes how the building of the owner went. Unless the task is
    /// building the answer changes nothing.
    pub fn built(self, outcome: Result<(), Error>) -> (next: Access)
        ensures
            next@ == self@.built(
                match outcome {
                    Ok(_) => None,
                    Err(error) => Some(error@),
                },
            ),
    {
        match self {
            Access::Building => match outcome {
                Ok(_) => Access::Created,
                Err(error) => Access::Failed(error),
            },
            other => other,
        }
    }
}

/// A task in a world of tasks that want the owner: how far it has come,
/// and the owner it got.
pub struct Task {
    pub access: AccessView,
    pub owner: Option<nat>,
}

/// The window's reference and lock, and the tasks that want the owner.
/// Owners are numbered in the order in which they are built.
pub struct World {
    /// The live owner that the reference leads to.
    pub slot: Option<nat>,
    /// How many owners were built.
    pub built: nat,
    /// The task that holds the write lock.
    pub writer: Option<int>,
    pub tasks: Seq<Task>,
}

/// A world in which `n` tasks are about to ask for an owner that does not
/// exist yet.
pub open spec fn fresh_world(n: nat) -> World {
    World {
        slot: None,
        built: 0,
        writer: None,
        tasks: Seq::new(n, |i: int| Task { access: AccessView::Start, owner: None }),
    }
}

/// The world after task `t` is given the chance to do what is due for it.
///
/// A task looks only while no task holds the write lock; otherwise it
/// waits, which leaves the world as it is. A task that builds has the
/// write lock, finishes building, stores the reference and lets the lock
/// go. No owner is let go of while the tasks run.
pub open spec fn world_step(world: World, t: int) -> World {
    if !(0 <= t < world.tasks.len()) {
        world
    } else {
        let task = world.tasks[t];
        match task.access.action() {
            AccessAction::LookShared => if world.writer is Some {
                world
            } else {
                let next = task.access.looked(world.slot is Some);
                World {
                    tasks: world.tasks.update(
                        t,
                        Task {
                            access: next,
                            owner: if next.has_owner() {
                                world.slot
                            } else {
                                None
                            },
                        },
                    ),
                    ..world
                }
            },
            AccessAction::LookExclusive => if world.writer is Some {
                world
            } else {
                let next = task.access.looked(world.slot is Some);
                World {
                    writer: if next.has_owner() {
                        None
                    } else {
                        Some(t)
                    },
                    tasks: world.tasks.update(
                        t,
                        Task {
                            access: next,
                            owner: if next.has_owner() {
                                world.slot
                            } else {
                                None
                            },
                        },
                    ),
                    ..world
                }
            },
            AccessAction::Build => World {
                slot: Some(world.built),
                built: world.built + 1,
                writer: None,
                tasks: world.tasks.update(
                    t,
                    Task { access: task.access.built(None), owner: Some(world.built) },
                ),
            },
            _ => world,
        }
    }
}

/// The world after the tasks were given their chances in the order of
/// `schedule`.
pub open spec fn world_run(world: World, schedule: Seq<int>) -> World
    decreases schedule.len(),
{
    if schedule.len() == 0 {
        world
    } else {
        world_step(world_run(world, schedule.drop_last()), schedule.last())
    }
}

/// What holds of a world however its tasks were scheduled.
pub open spec fn consistent(world: World) -> bool {
    &&& world.built <= 1
    &&& world.slot == if world.built == 1 {
        Some(0nat)
    } else {
        None
    }
    &&& (world.writer matches Some(t) ==> 0 <= t < world.tasks.len() && world.tasks[t].access
        is Building && world.built == 0)
    &&& forall|i: int|
        0 <= i < world.tasks.len() ==> {
            let task = #[trigger] world.tasks[i];
            &&& !(task.access is Failed)
            &&& (task.access is Building ==> world.writer == Some(i))
            &&& (task.access.has_owner() ==> task.owner == Some(0nat) && world.built == 1)
            &&& (task.access is Created ==> world.built == 1)
        }
}

/// One chance for one task keeps a consistent world consistent.
pub proof fn lemma_step_keeps_consistent(world: World, t: int)
    requires
        consistent(world),
    ensures
        consistent(world_step(world, t)),
        world_step(world, t).tasks.len() == world.tasks.len(),
{
    let next = world_step(world, t);
    if 0 <= t < world.tasks.len() {
        let task = world.tasks[t];
        assert forall|i: int| 0 <= i < next.tasks.len() implies {
            let task = #[trigger] next.tasks[i];
            &&& !(task.access is Failed)
            &&& (task.access is Building ==> next.writer == Some(i))
            &&& (task.access.has_owner() ==> task.owner == Some(0nat) && next.built == 1)
            &&& (task.access is Created ==> next.built == 1)
        } by {
            let before = world.tasks[i];
            if i != t {
                assert(next.tasks[i] == before || next == world);
            }
        }
    }
}

/// However the tasks are scheduled, the world stays consistent.
pub proof fn lemma_run_keeps_consistent(n: nat, schedule: Seq<int>)
    ensures
        consistent(world_run(fresh_world(n), schedule)),
        world_run(fresh_world(n), schedule).tasks.len() == n,
    decreases schedule.len(),
{
    if schedule.len() == 0 {
        assert(consistent(fresh_world(n)));
    } else {
        lemma_run_keeps_consistent(n, schedule.drop_last());
        lemma_step_keeps_consistent(
            world_run(fresh_world(n), schedule.drop_last()),
            schedule.last(),
        );
    }
}

/// However the tasks that ask for the owner are interleaved, at most one
/// owner is built, and all tasks that have their owner have the same one,
/// of which exactly one was built.
pub proof fn lemma_one_owner_for_all(n: nat, schedule: Seq<int>, a: int, b: int)
    requires
        0 <= a < n,
        0 <= b < n,
    ensures
        world_run(fresh_world(n), schedule).built <= 1,
        ({
            let world = world_run(fresh_world(n), schedule);
            world.tasks[a].access.has_owner() && world.tasks[b].access.has_owner() ==> world.built
                == 1 && world.tasks[a].owner == world.tasks[b].owner && world.tasks[a].owner
                is Some
        }),
{
    lemma_run_keeps_consistent(n, schedule);
    let world = world_run(fresh_world(n), schedule);
    assert(world.tasks[a].access.has_owner() ==> world.tasks[a].owner == Some(0nat));
    assert(world.tasks[b].access.has_owner() ==> world.tasks[b].owner == Some(0nat));
}

/// Two tasks that take their turns one after the other until both are
/// done end with the same owner, which was built once.
pub proof fn lemma_two_tasks_share_one_owner()
    ensures
        ({
            let world = world_run(fresh_world(2), seq![0int, 1, 0, 1, 0, 1]);
            &&& world.built == 1
            &&& world.tasks[0].access.has_owner()
            &&& world.tasks[1].access.has_owner()
            &&& world.tasks[0].owner == world.tasks[1].owner
        }),
{
    let s6 = seq![0int, 1, 0, 1, 0, 1];
    let s5 = seq![0int, 1, 0, 1, 0];
    let s4 = seq![0int, 1, 0, 1];
    let s3 = seq![0int, 1, 0];
    let s2 = seq![0int, 1];
    let s1 = seq![0int];
    let s0 = Seq::<int>::empty();
    assert(s6.drop_last() =~= s5 && s5.drop_last() =~= s4 && s4.drop_last() =~= s3
        && s3.drop_last() =~= s2 && s2.drop_last() =~= s1 && s1.drop_last() =~= s0);
    let w0 = world_run(fresh_world(2), s0);
    assert(w0 == fresh_world(2));
    let w1 = world_run(fresh_world(2), s1);
    assert(w1 == world_step(w0, 0));
    let w2 = world_run(fresh_world(2), s2);
    assert(w2 == world_step(w1, 1));
    let w3 = world_run(fresh_world(2), s3);
    assert(w3 == world_step(w2, 0));
    let w4 = world_run(fresh_world(2), s4);
    assert(w4 == world_step(w3, 1));
    let w5 = world_run(fresh_world(2), s5);
    assert(w5 == world_step(w4, 0));
    let w6 = world_run(fresh_world(2), s6);
    assert(w6 == world_step(w5, 1));
    assert(w1.tasks[0].access is Locking);
    assert(w2.tasks[1].access is Locking);
    assert(w3.tasks[0].access is Building);
    assert(w4 == w3);
    assert(w5.tasks[0].access is Created);
    assert(w5.slot == Some(0nat));
    assert(w6.tasks[1].access is Existing);
    lemma_one_owner_for_all(2, s6, 0, 1);
}

} // verus!
