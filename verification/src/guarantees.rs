//! What a pool guarantees, proved of every state that it can reach.

use vstd::prelude::*;
use crate::census::{
    lemma_count_all,
    lemma_count_bound,
    lemma_count_partition,
    lemma_count_update,
    lemma_count_zero,
};
use crate::model::{lemma_initial_inv, lemma_steps_inv, PoolView, Step};
use crate::worker::{Message, WorkerState};

verus! {

/// Whatever the producers, the owner and the workers of a new pool do, and
/// in whatever order, the pool is in a state of which `inv` holds. What is
/// proved here of such states therefore holds at every moment of every pool.
pub proof fn every_reachable_state_is_sound<J>(size: nat, steps: Seq<Step<J>>)
    requires
        size >= 1,
        PoolView::<J>::initial(size).admits(steps),
    ensures
        PoolView::<J>::initial(size).after(steps).inv(),
{
    lemma_initial_inv::<J>(size);
    lemma_steps_inv(PoolView::<J>::initial(size), steps);
}

/// Every submitted job is in exactly one place. The jobs handed out are the
/// first `started` of the submitted ones, and each of those has returned or
/// occupies one worker. Every later job waits on the channel, at the place
/// its turn gives it, and the channel holds no other job.
pub proof fn every_job_in_one_place<J>(v: PoolView<J>)
    requires
        v.inv(),
    ensures
        v.started == v.completed + v.executing(),
        v.started + v.pending_jobs() == v.submitted.len(),
        forall|k: int|
            v.started <= k < v.submitted.len() ==> #[trigger] v.queue[k - v.started]
                == Message::NewJob(v.submitted[k]),
        forall|i: int|
            0 <= i < v.queue.len() ==> ((#[trigger] v.queue[i]) is NewJob <==> i
                < v.pending_jobs()),
{
    assert forall|k: int| v.started <= k < v.submitted.len() implies #[trigger] v.queue[k
        - v.started] == Message::NewJob(v.submitted[k]) by {
        let i = k - v.started;
        assert(v.queue[i] == Message::NewJob(v.submitted[v.started + i]));
    }
}

/// Receiving a job hands out the submitted job whose turn it is, to the
/// worker that received and to no other, and takes it off the channel.
pub proof fn take_hands_out_the_next_job<J>(v: PoolView<J>, id: int)
    requires
        v.inv(),
        v.can_take(id),
        v.pending_jobs() > 0,
    ensures
        v.queue[0] == Message::NewJob(v.submitted[v.started as int]),
        v.take(id).started == v.started + 1,
        v.take(id).submitted == v.submitted,
        v.take(id).pending_jobs() == v.pending_jobs() - 1,
        v.take(id).workers[id] == WorkerState::Executing,
        forall|other: int|
            0 <= other < v.size() && other != id ==> #[trigger] v.take(id).workers[other]
                == v.workers[other],
{
    assert(v.queue[0] == Message::NewJob(v.submitted[v.started + 0int]));
}

/// Never are more jobs being executed than the pool has workers.
pub proof fn executing_is_bounded<J>(v: PoolView<J>)
    requires
        v.inv(),
    ensures
        v.executing() <= v.size(),
        v.started - v.completed <= v.size(),
{
    lemma_count_bound(v.workers, WorkerState::Executing);
}

/// Once every worker has exited, no work is lost: shutdown had begun, the
/// channel is empty, and every job that was ever submitted was handed out
/// and has returned.
pub proof fn termination_leaves_nothing_behind<J>(v: PoolView<J>)
    requires
        v.inv(),
        v.terminated(),
    ensures
        !v.accepting,
        v.queue.len() == 0,
        v.executing() == 0,
        v.started == v.submitted.len(),
        v.completed == v.submitted.len(),
{
    lemma_count_partition(v.workers);
}

/// The pool has terminated exactly when each of its workers has exited.
pub proof fn terminated_means_all_exited<J>(v: PoolView<J>)
    ensures
        v.terminated() <==> forall|id: int|
            0 <= id < v.size() ==> #[trigger] v.workers[id] == WorkerState::Exited,
{
    lemma_count_all(v.workers, WorkerState::Exited);
}

/// A bound on the steps that the workers can still take when nothing more
/// is submitted: two for each message that waits, one for each job that is
/// being executed.
pub open spec fn work_left<J>(v: PoolView<J>) -> nat {
    2 * v.queue.len() + v.executing()
}

/// Every step of a worker, receiving or returning a job, brings the end
/// nearer. With `shutdown_can_proceed`: once shutdown has begun, the workers
/// have all exited after `work_left` steps at most.
pub proof fn every_step_reduces_work_left<J>(v: PoolView<J>, id: int)
    requires
        v.inv(),
    ensures
        v.can_take(id) ==> work_left(v.take(id)) < work_left(v),
        v.can_finish(id) ==> work_left(v.finish(id)) < work_left(v),
{
    if v.can_take(id) {
        lemma_count_update(v.workers, id, WorkerState::Executing, WorkerState::Executing);
        lemma_count_update(v.workers, id, WorkerState::Exited, WorkerState::Executing);
    }
    if v.can_finish(id) {
        lemma_count_update(v.workers, id, WorkerState::Idle, WorkerState::Executing);
    }
}

/// Shutdown cannot get stuck: as long as a worker has not exited, either a
/// job can return or a waiting worker can receive.
pub proof fn shutdown_can_proceed<J>(v: PoolView<J>)
    requires
        v.inv(),
        !v.accepting,
        !v.terminated(),
    ensures
        exists|id: int| #![trigger v.can_finish(id)] v.can_finish(id) || v.can_take(id),
{
    lemma_count_partition(v.workers);
    lemma_count_bound(v.workers, WorkerState::Exited);
    if v.executing() > 0 {
        lemma_count_zero(v.workers, WorkerState::Executing);
        let id = choose|id: int|
            0 <= id < v.workers.len() && #[trigger] v.workers[id] == WorkerState::Executing;
        assert(v.can_finish(id));
    } else {
        lemma_count_zero(v.workers, WorkerState::Idle);
        let id = choose|id: int|
            0 <= id < v.workers.len() && #[trigger] v.workers[id] == WorkerState::Idle;
        assert(v.can_take(id));
        assert(!v.can_finish(id));
    }
}

/// A worker exits once: one that has exited receives nothing more and has no
/// job to return, and no step of another worker brings it back. From the
/// beginning of shutdown there is one `Terminate`, waiting or received, for
/// each worker.
pub proof fn exit_is_final<J>(v: PoolView<J>, id: int, other: int)
    requires
        v.inv(),
        0 <= id < v.size(),
        v.workers[id] == WorkerState::Exited,
        other != id,
    ensures
        !v.can_take(id),
        !v.can_finish(id),
        !v.accepting,
        v.exited() + v.pending_stops() == v.size(),
        v.can_take(other) ==> v.take(other).workers[id] == WorkerState::Exited,
        v.can_finish(other) ==> v.finish(other).workers[id] == WorkerState::Exited,
{
    lemma_count_zero(v.workers, WorkerState::Exited);
}

/// A waiting worker is not held up by a job that another worker is
/// executing: it can receive whatever is on the channel, and where that is a
/// job, both jobs are being executed at once.
pub proof fn waiting_worker_is_not_held_up<J>(v: PoolView<J>, busy: int, idle: int)
    requires
        v.inv(),
        v.can_finish(busy),
        0 <= idle < v.size(),
        v.workers[idle] == WorkerState::Idle,
        v.queue.len() > 0,
    ensures
        v.can_take(idle),
        v.queue[0] is NewJob ==> v.take(idle).workers[busy] == WorkerState::Executing && v.take(
            idle,
        ).workers[idle] == WorkerState::Executing,
{
}

} // verus!
