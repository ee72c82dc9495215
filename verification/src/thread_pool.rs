//! The counter protocol of the worker pool. The pool keeps a count of the
//! queued work items that no worker has claimed yet, and `-1` once it shuts
//! down; workers wait while the count is zero, claim an item by decrementing
//! it, and stop when it is `-1`. The threads, locks and the queue itself
//! belong to the caller; this module decides every step of the count.
use vstd::prelude::*;

verus! {

/// What a woken worker does next.
#[derive(Clone, Copy, Debug, PartialEq, Eq, Structural)]
pub enum WorkerStep {
    /// No work is pending: wait for a signal.
    Wait,
    /// Pop one work item from the queue and run it.
    Take,
    /// The pool is shutting down: run what is left in the queue, then exit.
    Stop,
}

/// The step a worker takes on the count `count`, and the count after it.
pub open spec fn worker_transition(count: int) -> (WorkerStep, int) {
    if count == 0 {
        (WorkerStep::Wait, 0)
    } else if count > 0 {
        (WorkerStep::Take, count - 1)
    } else {
        (WorkerStep::Stop, count)
    }
}

/// The shared count of a worker pool, with the state of the pool that it
/// keeps track of.
pub struct PoolCounter {
    count: i32,
    model: Ghost<PoolModel>,
}

impl PoolCounter {
    /// The count: pending unclaimed items, or `-1` once shut down.
    pub closed spec fn value(self) -> int {
        self.count as int
    }

    /// The state of the pool that the count belongs to: every item queued
    /// and every item claimed so far, and whether it is shut down.
    pub closed spec fn model(self) -> PoolModel {
        self.model@
    }

    #[verifier::type_invariant]
    spec fn well_formed(self) -> bool {
        &&& pool_inv(self.model@)
        &&& self.model@.count == self.count as int
    }

    /// A new pool: nothing queued.
    pub fn new() -> (r: Self)
        ensures
            r.model() == new_pool(),
            r.value() == 0,
            pool_inv(r.model()),
    {
        PoolCounter { count: 0, model: Ghost(new_pool()) }
    }

    /// The count, which is the count of the pool's state; the state keeps the
    /// pool's invariant.
    pub fn value_now(&self) -> (r: i32)
        ensures
            r == self.value(),
            r == self.model().count,
            pool_inv(self.model()),
    {
        proof {
            use_type_invariant(self);
        }
        self.count
    }

    /// Whether work can still be queued: the pool is not shut down and the
    /// count has room for one more item.
    pub fn accepts_work(&self) -> (r: bool)
        ensures
            r == (0 <= self.value() < i32::MAX),
            r == (!self.model().shut_down && self.value() < i32::MAX),
    {
        proof {
            use_type_invariant(self);
        }
        0 <= self.count && self.count < i32::MAX
    }

    /// Counts one more queued item.
    pub fn queue_work(&mut self)
        requires
            0 <= old(self).value() < i32::MAX,
        ensures
            final(self).value() == old(self).value() + 1,
            final(self).model() == after_queue(old(self).model()),
            !old(self).model().shut_down,
            pool_inv(final(self).model()),
    {
        proof {
            use_type_invariant(&*self);
        }
        let ghost m = after_queue(self.model@);
        *self = PoolCounter { count: self.count + 1, model: Ghost(m) };
    }

    /// The step of a woken worker, which claims an item where one is pending.
    pub fn worker_step(&mut self) -> (r: WorkerStep)
        ensures
            (r, final(self).value()) == worker_transition(old(self).value()),
            final(self).model() == after_worker_step(old(self).model()),
            pool_inv(old(self).model()),
            pool_inv(final(self).model()),
    {
        proof {
            use_type_invariant(&*self);
            lemma_worker_step_keeps_inv(self.model@);
        }
        let ghost m = after_worker_step(self.model@);
        if self.count == 0 {
            *self = PoolCounter { count: 0, model: Ghost(m) };
            WorkerStep::Wait
        } else if self.count > 0 {
            *self = PoolCounter { count: self.count - 1, model: Ghost(m) };
            WorkerStep::Take
        } else {
            *self = PoolCounter { count: self.count, model: Ghost(m) };
            WorkerStep::Stop
        }
    }

    /// Shuts the pool down: from now on every worker stops.
    pub fn shutdown(&mut self)
        ensures
            final(self).value() == -1,
            final(self).model() == after_shutdown(old(self).model()),
            pool_inv(final(self).model()),
    {
        proof {
            use_type_invariant(&*self);
        }
        let ghost m = after_shutdown(self.model@);
        *self = PoolCounter { count: -1, model: Ghost(m) };
    }
}

/// The state of a pool: the count, the items in the queue, the items that
/// workers have claimed but not yet popped, and whether it is shut down.
pub struct PoolModel {
    pub count: int,
    pub queued: nat,
    pub claimed: nat,
    pub shut_down: bool,
}

/// The pool's invariant: before shutdown the count plus the claimed items
/// are the queued items; after it the count is `-1`.
pub open spec fn pool_inv(m: PoolModel) -> bool {
    if m.shut_down {
        m.count == -1
    } else {
        m.count >= 0 && m.count + m.claimed == m.queued
    }
}

/// A new pool.
pub open spec fn new_pool() -> PoolModel {
    PoolModel { count: 0, queued: 0, claimed: 0, shut_down: false }
}

/// Queueing an item: the count and the queue grow by one.
pub open spec fn after_queue(m: PoolModel) -> PoolModel {
    PoolModel { count: m.count + 1, queued: m.queued + 1, ..m }
}

/// A worker's step on the count; a `Take` claims an item.
pub open spec fn after_worker_step(m: PoolModel) -> PoolModel {
    let (step, count) = worker_transition(m.count);
    PoolModel {
        count: count,
        claimed: if step == WorkerStep::Take {
            m.claimed + 1
        } else {
            m.claimed
        },
        ..m
    }
}

/// A worker pops the item it claimed (finding none where the queue is empty).
pub open spec fn after_claimed_pop(m: PoolModel) -> PoolModel {
    PoolModel {
        queued: if m.queued > 0 {
            (m.queued - 1) as nat
        } else {
            0
        },
        claimed: (m.claimed - 1) as nat,
        ..m
    }
}

/// Shutting the pool down.
pub open spec fn after_shutdown(m: PoolModel) -> PoolModel {
    PoolModel { count: -1, shut_down: true, ..m }
}

/// A stopped worker pops a remaining item while winding down.
pub open spec fn after_wind_down_pop(m: PoolModel) -> PoolModel {
    PoolModel { queued: (m.queued - 1) as nat, ..m }
}

/// What happens to a pool before it shuts down: an item is queued, or a
/// worker takes a step.
pub enum PoolEvent {
    Queue,
    Step,
}

/// The state of the pool `m` after `events`, in order.
pub open spec fn after_events(m: PoolModel, events: Seq<PoolEvent>) -> PoolModel
    decreases events.len(),
{
    if events.len() == 0 {
        m
    } else {
        let before = after_events(m, events.drop_last());
        match events.last() {
            PoolEvent::Queue => after_queue(before),
            PoolEvent::Step => after_worker_step(before),
        }
    }
}

/// Until a pool shuts down, whatever items are queued and whatever steps
/// workers take, its count is never negative, so queueing is never refused
/// for a shut-down pool; and the invariant holds throughout.
pub proof fn lemma_count_nonnegative_until_shutdown(events: Seq<PoolEvent>)
    ensures
        pool_inv(after_events(new_pool(), events)),
        !after_events(new_pool(), events).shut_down,
        after_events(new_pool(), events).count >= 0,
    decreases events.len(),
{
    if events.len() > 0 {
        lemma_count_nonnegative_until_shutdown(events.drop_last());
        let before = after_events(new_pool(), events.drop_last());
        lemma_worker_step_keeps_inv(before);
    }
}

/// A new pool satisfies the invariant.
pub proof fn lemma_new_pool_inv()
    ensures
        pool_inv(new_pool()),
{
}

/// Queueing work, which the pool allows only before shutdown, keeps the
/// invariant.
pub proof fn lemma_queue_keeps_inv(m: PoolModel)
    requires
        pool_inv(m),
        !m.shut_down,
    ensures
        pool_inv(after_queue(m)),
{
}

/// A worker's step keeps the invariant; it takes an item exactly when one is
/// pending and unclaimed, waits only when none is, and stops only after
/// shutdown.
pub proof fn lemma_worker_step_keeps_inv(m: PoolModel)
    requires
        pool_inv(m),
    ensures
        pool_inv(after_worker_step(m)),
        worker_transition(m.count).0 == WorkerStep::Take <==> m.count > 0,
        worker_transition(m.count).0 == WorkerStep::Wait ==> !m.shut_down && m.claimed
            == m.queued,
        worker_transition(m.count).0 == WorkerStep::Stop <==> m.shut_down,
{
}

/// Before shutdown, a worker that claimed an item always finds one in the
/// queue, and popping it keeps the invariant.
pub proof fn lemma_claimed_pop_finds_work(m: PoolModel)
    requires
        pool_inv(m),
        !m.shut_down,
        m.claimed > 0,
    ensures
        m.queued > 0,
        pool_inv(after_claimed_pop(m)),
{
}

/// Shutting down keeps the invariant, and from then on every worker step
/// stops and leaves the count at `-1`.
pub proof fn lemma_shutdown_stops_workers(m: PoolModel)
    requires
        pool_inv(m),
    ensures
        pool_inv(after_shutdown(m)),
        worker_transition(after_shutdown(m).count) == (WorkerStep::Stop, -1int),
        after_worker_step(after_shutdown(m)) == after_shutdown(m),
{
}

/// After shutdown, popping (by a stopped worker winding down, or by a
/// worker that had claimed an item) keeps the invariant.
pub proof fn lemma_pops_after_shutdown_keep_inv(m: PoolModel)
    requires
        pool_inv(m),
        m.shut_down,
    ensures
        m.queued > 0 ==> pool_inv(after_wind_down_pop(m)),
        m.claimed > 0 ==> pool_inv(after_claimed_pop(m)),
{
}

} // verus!
