use worker_pool::{Action, Message, Received, Worker, WorkerState};

#[test]
fn new_worker_waits() {
    let worker = Worker::new(3);
    assert_eq!(worker.id(), 3);
    assert_eq!(worker.state(), WorkerState::Idle);
}

#[test]
fn job_makes_a_waiting_worker_execute() {
    let mut worker = Worker::new(0);
    let outcome = worker.receive(Received::Message(Message::NewJob(5u8)));
    assert_eq!(outcome, Ok(Action::Execute(5u8)));
    assert_eq!(worker.state(), WorkerState::Executing);
    assert_eq!(worker.id(), 0);
}

#[test]
fn terminate_makes_a_waiting_worker_exit() {
    let mut worker = Worker::new(1);
    let outcome = worker.receive(Received::Message(Message::<u8>::Terminate));
    assert_eq!(outcome, Ok(Action::Exit));
    assert_eq!(worker.state(), WorkerState::Exited);
}

#[test]
fn closed_channel_makes_a_waiting_worker_exit() {
    let mut worker = Worker::new(1);
    let outcome = worker.receive(Received::<u8>::Disconnected);
    assert_eq!(outcome, Ok(Action::Exit));
    assert_eq!(worker.state(), WorkerState::Exited);
}

#[test]
fn executing_worker_hands_a_message_back() {
    let mut worker = Worker::new(2);
    assert!(worker.receive(Received::Message(Message::NewJob(1u8))).is_ok());
    let outcome = worker.receive(Received::Message(Message::NewJob(2u8)));
    assert_eq!(outcome, Err(Received::Message(Message::NewJob(2u8))));
    assert_eq!(worker.state(), WorkerState::Executing);
}

#[test]
fn exited_worker_hands_a_message_back() {
    let mut worker = Worker::new(2);
    assert!(worker.receive(Received::<u8>::Disconnected).is_ok());
    let outcome = worker.receive(Received::Message(Message::NewJob(2u8)));
    assert_eq!(outcome, Err(Received::Message(Message::NewJob(2u8))));
    let outcome = worker.receive(Received::Message(Message::<u8>::Terminate));
    assert_eq!(outcome, Err(Received::Message(Message::Terminate)));
    assert_eq!(worker.state(), WorkerState::Exited);
}

#[test]
fn job_done_returns_an_executing_worker_to_waiting() {
    let mut worker = Worker::new(4);
    assert!(!worker.job_done());
    assert_eq!(worker.state(), WorkerState::Idle);
    assert!(worker.receive(Received::Message(Message::NewJob(1u8))).is_ok());
    assert!(worker.job_done());
    assert_eq!(worker.state(), WorkerState::Idle);
    assert!(worker.receive(Received::Message(Message::<u8>::Terminate)).is_ok());
    assert!(!worker.job_done());
    assert_eq!(worker.state(), WorkerState::Exited);
}
