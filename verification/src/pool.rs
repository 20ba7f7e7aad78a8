//! The pool: a fixed set of workers and the channel they share.

use std::collections::VecDeque;
use vstd::prelude::*;
use crate::census::{count, lemma_count_bound};
use crate::model::{
    lemma_begin_shutdown_inv,
    lemma_finish_inv,
    lemma_initial_inv,
    lemma_submit_inv,
    lemma_take_inv,
    PoolView,
};
use crate::worker::{action_for, Action, Message, Received, Worker, WorkerState};

verus! {

/// A pool of a fixed number of workers, for jobs of type `J`.
///
/// The pool holds what its lock protects: the workers' states and the
/// channel. It executes nothing itself, and it keeps no copy of a job: `run`
/// moves the job in, and the one `take` that hands it to a worker moves it
/// out. A worker's thread calls `take` to receive, executes the job it was
/// handed, and calls `job_done`; a producer calls `run`; the owner calls
/// `shutdown` and then waits until `is_terminated`.
pub struct ThreadPool<J> {
    workers: Vec<Worker>,
    queue: VecDeque<Message<J>>,
    accepting: bool,
    submitted: Ghost<Seq<J>>,
    started: Ghost<nat>,
    completed: Ghost<nat>,
}

impl<J> View for ThreadPool<J> {
    type V = PoolView<J>;

    closed spec fn view(&self) -> PoolView<J> {
        PoolView {
            workers: Seq::new(self.workers@.len(), |i: int| self.workers@[i].spec_state()),
            queue: self.queue@,
            accepting: self.accepting,
            submitted: self.submitted@,
            started: self.started@,
            completed: self.completed@,
        }
    }
}

impl<J> ThreadPool<J> {
    /// Whether each worker carries its place in the pool as its number.
    pub closed spec fn numbered(&self) -> bool {
        forall|i: int|
            0 <= i < self.workers@.len() ==> (#[trigger] self.workers@[i]).spec_id() == i
    }

    /// Whether the pool is well formed: its workers are numbered from zero,
    /// and its state is one that a pool can reach.
    pub open spec fn wf(&self) -> bool {
        &&& self.numbered()
        &&& self@.inv()
    }

    /// A pool of `count` workers, numbered from zero, all waiting, with an
    /// empty channel. There is no pool without workers.
    pub fn new(count: usize) -> (pool: ThreadPool<J>)
        requires
            count > 0,
        ensures
            pool.wf(),
            pool@ == PoolView::<J>::initial(count as nat),
    {
        let mut workers: Vec<Worker> = Vec::new();
        let mut id: usize = 0;
        while id < count
            invariant
                id <= count,
                workers@.len() == id,
                forall|i: int|
                    0 <= i < id ==> (#[trigger] workers@[i]).spec_id() == i && workers@[i].spec_state()
                        == WorkerState::Idle,
            decreases count - id,
        {
            workers.push(Worker::new(id));
            id = id + 1;
        }
        let pool = ThreadPool {
            workers,
            queue: VecDeque::new(),
            accepting: true,
            submitted: Ghost(Seq::empty()),
            started: Ghost(0),
            completed: Ghost(0),
        };
        proof {
            let initial = PoolView::<J>::initial(count as nat);
            assert(pool@.workers =~= initial.workers);
            assert(pool@.queue =~= initial.queue);
            lemma_initial_inv::<J>(count as nat);
        }
        pool
    }

    /// The number of workers.
    pub fn size(&self) -> (size: usize)
        ensures
            size == self@.size(),
    {
        self.workers.len()
    }

    /// Whether the pool still accepts jobs: shutdown has not begun.
    pub fn is_accepting(&self) -> (accepting: bool)
        ensures
            accepting == self@.accepting,
    {
        self.accepting
    }

    /// The number of messages that wait on the channel.
    pub fn pending(&self) -> (pending: usize)
        ensures
            pending == self@.queue.len(),
    {
        self.queue.len()
    }

    /// The worker `id`, where there is such a worker: it carries `id` as its
    /// number.
    pub fn worker(&self, id: usize) -> (worker: Option<Worker>)
        requires
            self.wf(),
        ensures
            id < self@.size() ==> worker.is_some() && worker.unwrap().spec_id() == id
                && worker.unwrap().spec_state() == self@.workers[id as int],
            id >= self@.size() ==> worker.is_none(),
    {
        if id < self.workers.len() {
            Some(self.workers[id])
        } else {
            None
        }
    }

    /// The state of the worker `id`, where there is such a worker.
    pub fn worker_state(&self, id: usize) -> (state: Option<WorkerState>)
        ensures
            id < self@.size() ==> state == Some(self@.workers[id as int]),
            id >= self@.size() ==> state.is_none(),
    {
        if id < self.workers.len() {
            Some(self.workers[id].state())
        } else {
            None
        }
    }

    /// The number of workers in the state `state`.
    pub fn count_in(&self, state: WorkerState) -> (number: usize)
        ensures
            number == count(self@.workers, state),
    {
        let ghost states = self@.workers;
        let mut number: usize = 0;
        let mut id: usize = 0;
        while id < self.workers.len()
            invariant
                id <= self.workers@.len(),
                states == self@.workers,
                number == count(states.take(id as int), state),
                number <= id,
            decreases self.workers@.len() - id,
        {
            proof {
                assert(states.take(id + 1).drop_last() =~= states.take(id as int));
            }
            if self.workers[id].state() == state {
                number = number + 1;
            }
            id = id + 1;
        }
        proof {
            assert(states.take(id as int) =~= states);
        }
        number
    }

    /// The number of jobs that are being executed now: never more than
    /// there are workers.
    pub fn executing(&self) -> (number: usize)
        ensures
            number == self@.executing(),
            number <= self@.size(),
    {
        proof {
            lemma_count_bound(self@.workers, WorkerState::Executing);
        }
        self.count_in(WorkerState::Executing)
    }

    /// Whether every worker has exited, which is when shutdown is over.
    pub fn is_terminated(&self) -> (terminated: bool)
        ensures
            terminated == self@.terminated(),
    {
        self.count_in(WorkerState::Exited) == self.workers.len()
    }

    /// Puts `job` on the channel, behind everything that is there, for
    /// whichever worker receives it. It does not wait for the job. A pool
    /// whose shutdown has begun takes no job.
    pub fn run(&mut self, job: J)
        requires
            old(self).wf(),
            old(self)@.accepting,
        ensures
            final(self).wf(),
            final(self)@ == old(self)@.submit(job),
    {
        proof {
            lemma_submit_inv(self@, job);
        }
        self.queue.push_back(Message::NewJob(job));
        self.submitted = Ghost(self.submitted@.push(job));
    }

    /// Begins shutdown: the pool stops accepting jobs and puts one
    /// `Terminate` for each worker behind everything that is on the channel.
    /// The result is the workers' numbers in the order in which to wait for
    /// them: ascending. A second shutdown changes nothing and names no
    /// worker.
    pub fn shutdown(&mut self) -> (order: Vec<usize>)
        requires
            old(self).wf(),
        ensures
            final(self).wf(),
            old(self)@.accepting ==> final(self)@ == old(self)@.begin_shutdown() && order@
                == Seq::new(old(self)@.size(), |i: int| i as usize),
            !old(self)@.accepting ==> final(self)@ == old(self)@ && order@.len() == 0,
    {
        let mut order: Vec<usize> = Vec::new();
        if !self.accepting {
            return order;
        }
        let ghost before = self@;
        let size: usize = self.workers.len();
        self.accepting = false;
        let mut id: usize = 0;
        while id < size
            invariant
                id <= size,
                size == self.workers@.len(),
                self.numbered(),
                order@ == Seq::new(id as nat, |i: int| i as usize),
                self@ == (PoolView {
                    queue: before.queue + Seq::new(id as nat, |i: int| Message::<J>::Terminate),
                    accepting: false,
                    ..before
                }),
            decreases size - id,
        {
            let ghost sent = self.queue@;
            self.queue.push_back(Message::Terminate);
            order.push(id);
            id = id + 1;
            proof {
                assert(sent.push(Message::<J>::Terminate) =~= before.queue + Seq::new(
                    id as nat,
                    |i: int| Message::<J>::Terminate,
                ));
                assert(order@ =~= Seq::new(id as nat, |i: int| i as usize));
            }
        }
        proof {
            lemma_begin_shutdown_inv(before);
        }
        order
    }

    /// The worker `id` tries to receive.
    ///
    /// Where the worker exists, is waiting, and a message is on the channel,
    /// it receives the first message. While jobs wait, that is the job that
    /// was submitted first among them: the worker becomes `Executing` and the
    /// job is handed out, to be executed. When no job waits, it is a
    /// `Terminate`: the worker becomes `Exited`. Otherwise nothing changes and
    /// nothing is handed out. What the other workers are doing makes no
    /// difference.
    pub fn take(&mut self, id: usize) -> (action: Option<Action<J>>)
        requires
            old(self).wf(),
        ensures
            final(self).wf(),
            old(self)@.can_take(id as int) ==> final(self)@ == old(self)@.take(id as int)
                && action == Some(action_for(Received::Message(old(self)@.queue[0]))),
            old(self)@.can_take(id as int) && old(self)@.pending_jobs() > 0 ==> action == Some(
                Action::Execute(old(self)@.submitted[old(self)@.started as int]),
            ),
            old(self)@.can_take(id as int) && old(self)@.pending_jobs() == 0 ==> action == Some(
                Action::<J>::Exit,
            ),
            !old(self)@.can_take(id as int) ==> final(self)@ == old(self)@ && action.is_none(),
    {
        if id >= self.workers.len() {
            return None;
        }
        let mut worker: Worker = self.workers[id];
        if worker.state() != WorkerState::Idle {
            return None;
        }
        let ghost before = self@;
        proof {
            if before.can_take(id as int) {
                assert(before.queue[0] == if before.pending_jobs() > 0 {
                    Message::NewJob(before.submitted[before.started + 0int])
                } else {
                    Message::Terminate
                });
            }
        }
        match self.queue.pop_front() {
            None => None,
            Some(message) => {
                let starts = match &message {
                    Message::NewJob(_) => true,
                    Message::Terminate => false,
                };
                match worker.receive(Received::Message(message)) {
                    Ok(action) => {
                        self.workers.set(id, worker);
                        proof {
                            if starts {
                                self.started = Ghost(self.started@ + 1);
                            }
                            lemma_take_inv(before, id as int);
                            assert(self@.workers =~= before.take(id as int).workers);
                        }
                        Some(action)
                    },
                    // The worker was waiting, and a waiting worker takes
                    // whatever it receives.
                    Err(_) => None,
                }
            },
        }
    }

    /// The job that the worker `id` was executing has returned.
    ///
    /// Where the worker exists and is executing, it goes back to waiting and
    /// the result is `true`. Otherwise nothing changes and the result is
    /// `false`.
    pub fn job_done(&mut self, id: usize) -> (done: bool)
        requires
            old(self).wf(),
        ensures
            final(self).wf(),
            done == old(self)@.can_finish(id as int),
            done ==> final(self)@ == old(self)@.finish(id as int),
            !done ==> final(self)@ == old(self)@,
    {
        if id >= self.workers.len() {
            return false;
        }
        let ghost before = self@;
        let mut worker: Worker = self.workers[id];
        let done = worker.job_done();
        if done {
            self.workers.set(id, worker);
            proof {
                self.completed = Ghost(self.completed@ + 1);
                lemma_finish_inv(before, id as int);
                assert(self@.workers =~= before.finish(id as int).workers);
            }
        }
        done
    }
}

} // verus!
