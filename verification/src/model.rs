//! The pool as a mathematical state, the steps it can take, and what holds
//! of every state that the steps can reach.

use vstd::prelude::*;
use crate::census::{count, lemma_count_update, lemma_count_zero};
use crate::worker::{Message, WorkerState};

verus! {

/// The state of a pool.
///
/// Jobs have no identity of their own: a job is known by its place in
/// `submitted`. The channel is first-in, first-out, so the jobs handed out
/// so far are always the first `started` of `submitted`.
pub struct PoolView<J> {
    /// The state of each worker, by the worker's number.
    pub workers: Seq<WorkerState>,
    /// The messages on the channel, the next to be received first.
    pub queue: Seq<Message<J>>,
    /// Whether shutdown has not begun yet.
    pub accepting: bool,
    /// Every job that was ever submitted, in the order of submission.
    pub submitted: Seq<J>,
    /// How many jobs were handed to a worker.
    pub started: nat,
    /// How many jobs have returned.
    pub completed: nat,
}

impl<J> PoolView<J> {
    /// A new pool of `size` workers: all waiting, nothing submitted.
    pub open spec fn initial(size: nat) -> PoolView<J> {
        PoolView {
            workers: Seq::new(size, |i: int| WorkerState::Idle),
            queue: Seq::empty(),
            accepting: true,
            submitted: Seq::empty(),
            started: 0,
            completed: 0,
        }
    }

    /// The number of workers.
    pub open spec fn size(self) -> nat {
        self.workers.len()
    }

    /// The number of workers that are executing a job.
    pub open spec fn executing(self) -> nat {
        count(self.workers, WorkerState::Executing)
    }

    /// The number of workers that have exited.
    pub open spec fn exited(self) -> nat {
        count(self.workers, WorkerState::Exited)
    }

    /// The number of jobs that wait on the channel.
    pub open spec fn pending_jobs(self) -> int {
        self.submitted.len() - self.started
    }

    /// The number of `Terminate` messages that wait on the channel.
    pub open spec fn pending_stops(self) -> int {
        self.queue.len() - self.pending_jobs()
    }

    /// Whether every worker has exited: what shutdown waits for.
    pub open spec fn terminated(self) -> bool {
        self.exited() == self.size()
    }

    /// What holds of every state that a pool can reach.
    ///
    /// There is at least one worker. The channel holds the jobs that were
    /// submitted and not handed out yet, in the order of submission, and
    /// behind them only `Terminate` messages. Every job that was handed out
    /// has returned or occupies one worker. Before shutdown no worker has
    /// exited and no `Terminate` waits; from then on there is one `Terminate`,
    /// received or waiting, for each worker. A worker exits only after the
    /// last job has left the channel.
    pub open spec fn inv(self) -> bool {
        &&& self.workers.len() >= 1
        &&& self.started <= self.submitted.len()
        &&& self.completed + self.executing() == self.started
        &&& self.queue.len() >= self.pending_jobs()
        &&& forall|i: int|
            0 <= i < self.pending_jobs() ==> #[trigger] self.queue[i] == Message::NewJob(
                self.submitted[self.started + i],
            )
        &&& forall|i: int|
            self.pending_jobs() <= i < self.queue.len() ==> #[trigger] self.queue[i]
                == Message::<J>::Terminate
        &&& self.accepting ==> self.exited() == 0 && self.pending_stops() == 0
        &&& !self.accepting ==> self.exited() + self.pending_stops() == self.size()
        &&& self.exited() > 0 ==> self.pending_jobs() == 0
    }

    /// The state after `job` was submitted.
    pub open spec fn submit(self, job: J) -> PoolView<J> {
        PoolView {
            queue: self.queue.push(Message::NewJob(job)),
            submitted: self.submitted.push(job),
            ..self
        }
    }

    /// The state after shutdown began: one `Terminate` for each worker is
    /// behind everything that was on the channel.
    pub open spec fn begin_shutdown(self) -> PoolView<J> {
        PoolView {
            queue: self.queue + Seq::new(self.size(), |i: int| Message::<J>::Terminate),
            accepting: false,
            ..self
        }
    }

    /// Whether the worker `id` can receive now: it exists, it is waiting, and
    /// a message is there. The states of the other workers play no part.
    pub open spec fn can_take(self, id: int) -> bool {
        &&& 0 <= id < self.workers.len()
        &&& self.workers[id] == WorkerState::Idle
        &&& self.queue.len() > 0
    }

    /// The state after the worker `id` received the first message.
    pub open spec fn take(self, id: int) -> PoolView<J> {
        match self.queue[0] {
            Message::NewJob(_) => PoolView {
                workers: self.workers.update(id, WorkerState::Executing),
                queue: self.queue.subrange(1, self.queue.len() as int),
                started: self.started + 1,
                ..self
            },
            Message::Terminate => PoolView {
                workers: self.workers.update(id, WorkerState::Exited),
                queue: self.queue.subrange(1, self.queue.len() as int),
                ..self
            },
        }
    }

    /// Whether the worker `id` exists and is executing a job.
    pub open spec fn can_finish(self, id: int) -> bool {
        &&& 0 <= id < self.workers.len()
        &&& self.workers[id] == WorkerState::Executing
    }

    /// The state after the job of the worker `id` returned.
    pub open spec fn finish(self, id: int) -> PoolView<J> {
        PoolView {
            workers: self.workers.update(id, WorkerState::Idle),
            completed: self.completed + 1,
            ..self
        }
    }
}

/// One step of a pool.
pub enum Step<J> {
    /// A producer submits a job.
    Submit(J),
    /// The owner begins shutdown.
    BeginShutdown,
    /// The worker of this number receives the first message.
    Take(int),
    /// The job of the worker of this number returns.
    Finish(int),
}

impl<J> PoolView<J> {
    /// Whether `step` can be taken now. Jobs are submitted, and shutdown
    /// begins, only before shutdown.
    pub open spec fn enabled(self, step: Step<J>) -> bool {
        match step {
            Step::Submit(_) => self.accepting,
            Step::BeginShutdown => self.accepting,
            Step::Take(id) => self.can_take(id),
            Step::Finish(id) => self.can_finish(id),
        }
    }

    /// The state after `step`.
    pub open spec fn apply(self, step: Step<J>) -> PoolView<J> {
        match step {
            Step::Submit(job) => self.submit(job),
            Step::BeginShutdown => self.begin_shutdown(),
            Step::Take(id) => self.take(id),
            Step::Finish(id) => self.finish(id),
        }
    }

    /// Whether `steps` can be taken one after the other, starting now.
    pub open spec fn admits(self, steps: Seq<Step<J>>) -> bool
        decreases steps.len(),
    {
        steps.len() == 0 || (self.enabled(steps[0]) && self.apply(steps[0]).admits(
            steps.drop_first(),
        ))
    }

    /// The state after `steps`, taken one after the other.
    pub open spec fn after(self, steps: Seq<Step<J>>) -> PoolView<J>
        decreases steps.len(),
    {
        if steps.len() == 0 {
            self
        } else {
            self.apply(steps[0]).after(steps.drop_first())
        }
    }
}

/// A new pool of at least one worker is in a reachable state, and all its
/// workers are there, waiting.
pub proof fn lemma_initial_inv<J>(size: nat)
    requires
        size >= 1,
    ensures
        PoolView::<J>::initial(size).inv(),
        PoolView::<J>::initial(size).size() == size,
        PoolView::<J>::initial(size).executing() == 0,
        PoolView::<J>::initial(size).exited() == 0,
{
    let v = PoolView::<J>::initial(size);
    lemma_count_zero(v.workers, WorkerState::Executing);
    lemma_count_zero(v.workers, WorkerState::Exited);
}

/// Submitting a job before shutdown keeps the state reachable.
pub proof fn lemma_submit_inv<J>(v: PoolView<J>, job: J)
    requires
        v.inv(),
        v.accepting,
    ensures
        v.submit(job).inv(),
{
    let w = v.submit(job);
    assert forall|i: int| 0 <= i < w.pending_jobs() implies #[trigger] w.queue[i]
        == Message::NewJob(w.submitted[w.started + i]) by {
        if i < v.pending_jobs() {
            assert(w.queue[i] == v.queue[i]);
        }
    }
}

/// Beginning shutdown keeps the state reachable.
pub proof fn lemma_begin_shutdown_inv<J>(v: PoolView<J>)
    requires
        v.inv(),
        v.accepting,
    ensures
        v.begin_shutdown().inv(),
{
    let w = v.begin_shutdown();
    assert forall|i: int| 0 <= i < w.pending_jobs() implies #[trigger] w.queue[i]
        == Message::NewJob(w.submitted[w.started + i]) by {
        assert(w.queue[i] == v.queue[i]);
    }
}

/// A worker's receiving keeps the state reachable.
pub proof fn lemma_take_inv<J>(v: PoolView<J>, id: int)
    requires
        v.inv(),
        v.can_take(id),
    ensures
        v.take(id).inv(),
{
    let w = v.take(id);
    let first = v.queue[0];
    assert(forall|i: int| 0 <= i < w.queue.len() ==> #[trigger] w.queue[i] == v.queue[i + 1]);
    match first {
        Message::NewJob(_) => {
            lemma_count_update(v.workers, id, WorkerState::Executing, WorkerState::Executing);
            lemma_count_update(v.workers, id, WorkerState::Executing, WorkerState::Exited);
        },
        Message::Terminate => {
            lemma_count_update(v.workers, id, WorkerState::Exited, WorkerState::Executing);
            lemma_count_update(v.workers, id, WorkerState::Exited, WorkerState::Exited);
        },
    }
}

/// A job's returning keeps the state reachable.
pub proof fn lemma_finish_inv<J>(v: PoolView<J>, id: int)
    requires
        v.inv(),
        v.can_finish(id),
    ensures
        v.finish(id).inv(),
{
    lemma_count_update(v.workers, id, WorkerState::Idle, WorkerState::Executing);
    lemma_count_update(v.workers, id, WorkerState::Idle, WorkerState::Exited);
}


/// Whatever steps are taken from a state in which `inv` holds, `inv` holds
/// in the state they lead to.
pub proof fn lemma_steps_inv<J>(v: PoolView<J>, steps: Seq<Step<J>>)
    requires
        v.inv(),
        v.admits(steps),
    ensures
        v.after(steps).inv(),
    decreases steps.len(),
{
    if steps.len() > 0 {
        match steps[0] {
            Step::Submit(job) => lemma_submit_inv(v, job),
            Step::BeginShutdown => lemma_begin_shutdown_inv(v),
            Step::Take(id) => lemma_take_inv(v, id),
            Step::Finish(id) => lemma_finish_inv(v, id),
        }
        lemma_steps_inv(v.apply(steps[0]), steps.drop_first());
    }
}

} // verus!
