//! One worker: what it may receive, and what it does next.

use vstd::prelude::*;

verus! {

/// What travels on the channel that the workers share.
#[derive(Debug, PartialEq, Eq)]
pub enum Message<J> {
    /// A job to execute, once.
    NewJob(J),
    /// The instruction to stop, for the one worker that receives it.
    Terminate,
}

/// Where a worker stands.
#[derive(Clone, Copy, Debug, PartialEq, Eq, Structural)]
pub enum WorkerState {
    /// Waiting on the channel.
    Idle,
    /// Occupied by a job until the job returns.
    Executing,
    /// Left its loop; it receives nothing more.
    Exited,
}

/// What a worker's wait on the channel came back with.
#[derive(Debug, PartialEq, Eq)]
pub enum Received<J> {
    /// The next message of the channel.
    Message(Message<J>),
    /// No sender is left: no message will ever arrive.
    Disconnected,
}

/// What a worker does after a wait on the channel.
#[derive(Debug, PartialEq, Eq)]
pub enum Action<J> {
    /// Execute this job to its end, then report that it is done and wait again.
    Execute(J),
    /// Leave the loop and let the thread end.
    Exit,
}

/// The action that answers `received`: a job is executed, and both a
/// `Terminate` and a closed channel are the signal to stop.
pub open spec fn action_for<J>(received: Received<J>) -> Action<J> {
    match received {
        Received::Message(Message::NewJob(job)) => Action::Execute(job),
        Received::Message(Message::Terminate) => Action::Exit,
        Received::Disconnected => Action::Exit,
    }
}

/// The state in which an idle worker is left by `received`.
pub open spec fn state_after<J>(received: Received<J>) -> WorkerState {
    match received {
        Received::Message(Message::NewJob(_)) => WorkerState::Executing,
        Received::Message(Message::Terminate) => WorkerState::Exited,
        Received::Disconnected => WorkerState::Exited,
    }
}

/// A worker of a pool: its number and its state.
#[derive(Clone, Copy, Debug)]
pub struct Worker {
    id: usize,
    state: WorkerState,
}

impl Worker {
    /// The worker's number.
    pub closed spec fn spec_id(&self) -> usize {
        self.id
    }

    /// The worker's state.
    pub closed spec fn spec_state(&self) -> WorkerState {
        self.state
    }

    /// A worker with the number `id`, waiting.
    pub fn new(id: usize) -> (worker: Worker)
        ensures
            worker.spec_id() == id,
            worker.spec_state() == WorkerState::Idle,
    {
        Worker { id, state: WorkerState::Idle }
    }

    /// The worker's number.
    #[verifier::when_used_as_spec(spec_id)]
    pub fn id(&self) -> (id: usize)
        ensures
            id == self.spec_id(),
    {
        self.id
    }

    /// The worker's state.
    #[verifier::when_used_as_spec(spec_state)]
    pub fn state(&self) -> (state: WorkerState)
        ensures
            state == self.spec_state(),
    {
        self.state
    }

    /// The worker's wait on the channel has come back with `received`.
    ///
    /// An idle worker takes it: a job makes it `Executing` and is handed out
    /// to be executed; a `Terminate` or a closed channel makes it `Exited`.
    /// A worker that is not idle was not waiting: it stays as it is and
    /// `received` comes back untouched.
    pub fn receive<J>(&mut self, received: Received<J>) -> (outcome: Result<Action<J>, Received<J>>)
        ensures
            final(self).spec_id() == old(self).spec_id(),
            old(self).spec_state() == WorkerState::Idle ==> outcome == Ok::<
                Action<J>,
                Received<J>,
            >(action_for(received)) && final(self).spec_state() == state_after(received),
            old(self).spec_state() != WorkerState::Idle ==> outcome == Err::<
                Action<J>,
                Received<J>,
            >(received) && final(self).spec_state() == old(self).spec_state(),
    {
        match self.state {
            WorkerState::Idle => {
                match received {
                    Received::Message(Message::NewJob(job)) => {
                        self.state = WorkerState::Executing;
                        Ok(Action::Execute(job))
                    },
                    Received::Message(Message::Terminate) => {
                        self.state = WorkerState::Exited;
                        Ok(Action::Exit)
                    },
                    Received::Disconnected => {
                        self.state = WorkerState::Exited;
                        Ok(Action::Exit)
                    },
                }
            },
            _ => Err(received),
        }
    }

    /// The job that the worker was executing has returned.
    ///
    /// An executing worker goes back to waiting, and the result is `true`.
    /// Any other worker stays as it is, and the result is `false`.
    pub fn job_done(&mut self) -> (was_executing: bool)
        ensures
            final(self).spec_id() == old(self).spec_id(),
            was_executing == (old(self).spec_state() == WorkerState::Executing),
            was_executing ==> final(self).spec_state() == WorkerState::Idle,
            !was_executing ==> final(self).spec_state() == old(self).spec_state(),
    {
        match self.state {
            WorkerState::Executing => {
                self.state = WorkerState::Idle;
                true
            },
            _ => false,
        }
    }
}

} // verus!
