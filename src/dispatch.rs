use vstd::prelude::*;

use crate::message::{batch_texts, Message};
use crate::payload::{encode_message, payload_of};

verus! {

/// Where the dispatch worker stands.
#[derive(Clone, Copy, Debug, PartialEq, Eq, Structural)]
pub enum Phase {
    /// Waiting for the next batch from the queue.
    Idle,
    /// Handing the messages of one batch to the broker, one at a time.
    Publishing,
    /// The queue was closed and drained; the worker is done.
    Stopped,
}

/// The worker's state, as mathematics: the current (or last) batch as the
/// texts of its messages, the index of the message whose publish is awaited
/// (or the batch's length once it is done), and the indices of the messages of
/// that batch whose publish failed, in order.
pub struct WorkerState {
    pub phase: Phase,
    pub batch: Seq<Seq<char>>,
    pub next: nat,
    pub failed: Seq<nat>,
}

/// What the worker is told.
pub enum WorkerEvent {
    /// A batch came out of the queue, with these message texts.
    Dequeued(Seq<Seq<char>>),
    /// The queue is closed and empty.
    QueueClosed,
    /// The awaited publish finished: `true` on success.
    PublishDone(bool),
}

/// What the worker asks for next.
pub enum WorkerStep {
    /// Publish this payload to the broker.
    Publish(Seq<char>),
    /// Wait for the next batch from the queue.
    AwaitBatch,
    /// Stop for good.
    Stop,
}

/// The state of a worker that has not seen a batch yet.
pub open spec fn initial_state() -> WorkerState {
    WorkerState { phase: Phase::Idle, batch: Seq::empty(), next: 0, failed: Seq::empty() }
}

/// Whether a worker in state `s` expects event `e`: a batch or the closing of
/// the queue only while idle, a publish outcome only while publishing.
pub open spec fn accepts(s: WorkerState, e: WorkerEvent) -> bool {
    match e {
        WorkerEvent::Dequeued(_) => s.phase == Phase::Idle,
        WorkerEvent::QueueClosed => s.phase == Phase::Idle,
        WorkerEvent::PublishDone(_) => s.phase == Phase::Publishing,
    }
}

/// The step that starts the message at index `i` of `batch`, or that waits for
/// the next batch when `batch` has no message there.
pub open spec fn step_at(batch: Seq<Seq<char>>, i: nat) -> WorkerStep {
    if i < batch.len() {
        WorkerStep::Publish(payload_of(batch[i as int]))
    } else {
        WorkerStep::AwaitBatch
    }
}

/// The phase of a worker about to start the message at index `i` of `batch`.
pub open spec fn phase_at(batch: Seq<Seq<char>>, i: nat) -> Phase {
    if i < batch.len() {
        Phase::Publishing
    } else {
        Phase::Idle
    }
}

/// One transition of the worker: its next state and what it asks for.
/// A new batch starts at its first message; every publish outcome, success or
/// failure, moves on to the next message of the batch, a failure being
/// recorded; after the last message the worker waits for the next batch.
pub open spec fn advance(s: WorkerState, e: WorkerEvent) -> (WorkerState, WorkerStep) {
    match e {
        WorkerEvent::Dequeued(b) => (
            WorkerState { phase: phase_at(b, 0), batch: b, next: 0, failed: Seq::empty() },
            step_at(b, 0),
        ),
        WorkerEvent::QueueClosed => (WorkerState { phase: Phase::Stopped, ..s }, WorkerStep::Stop),
        WorkerEvent::PublishDone(ok) => {
            let failed = if ok {
                s.failed
            } else {
                s.failed.push(s.next)
            };
            (
                WorkerState {
                    phase: phase_at(s.batch, s.next + 1),
                    batch: s.batch,
                    next: s.next + 1,
                    failed,
                },
                step_at(s.batch, s.next + 1),
            )
        },
    }
}

/// One publish call: the configured topic and key, and a message's payload.
#[derive(Debug)]
pub struct PublishRequest {
    pub topic: String,
    pub key: String,
    pub payload: String,
}

/// What the program around the worker is to do next.
#[derive(Debug)]
pub enum Action {
    /// Hand this request to the broker client and report its outcome.
    Publish(PublishRequest),
    /// Take the next batch from the queue and report it, or report that the
    /// queue is closed.
    AwaitBatch,
    /// The worker is done.
    Stop,
}

impl Action {
    pub open spec fn step(&self) -> WorkerStep {
        match self {
            Action::Publish(req) => WorkerStep::Publish(req.payload@),
            Action::AwaitBatch => WorkerStep::AwaitBatch,
            Action::Stop => WorkerStep::Stop,
        }
    }
}

/// What the program around the worker reports to it.
#[derive(Debug)]
pub enum Event {
    /// A batch came out of the queue.
    Dequeued(Vec<Message>),
    /// The queue is closed and empty.
    QueueClosed,
    /// The last publish request succeeded.
    Published,
    /// The last publish request failed.
    PublishFailed,
}

impl Event {
    pub open spec fn view(&self) -> WorkerEvent {
        match self {
            Event::Dequeued(b) => WorkerEvent::Dequeued(batch_texts(b@)),
            Event::QueueClosed => WorkerEvent::QueueClosed,
            Event::Published => WorkerEvent::PublishDone(true),
            Event::PublishFailed => WorkerEvent::PublishDone(false),
        }
    }
}

/// An event that the worker does not expect in its present phase.
#[derive(Clone, Copy, Debug, PartialEq, Eq)]
pub enum DispatchError {
    UnexpectedEvent,
}

/// The single dispatch worker: takes batches one at a time and publishes each
/// of their messages, in order, to one topic under one key.
pub struct Dispatcher {
    topic: String,
    key: String,
    phase: Phase,
    batch: Vec<Message>,
    next: usize,
    failed: Vec<usize>,
}

impl Dispatcher {
    pub closed spec fn state(&self) -> WorkerState {
        WorkerState {
            phase: self.phase,
            batch: batch_texts(self.batch@),
            next: self.next as nat,
            failed: self.failed@.map_values(|i: usize| i as nat),
        }
    }

    pub closed spec fn topic_spec(&self) -> Seq<char> {
        self.topic@
    }

    pub closed spec fn key_spec(&self) -> Seq<char> {
        self.key@
    }

    /// Publishing is only ever awaited for a message of the batch.
    pub closed spec fn wf(&self) -> bool {
        &&& self.next <= self.batch@.len()
        &&& self.phase == Phase::Publishing ==> self.next < self.batch@.len()
    }

    /// A worker that publishes to `topic` under `key` and waits for its first
    /// batch.
    pub fn new(topic: String, key: String) -> (d: Dispatcher)
        ensures
            d.wf(),
            d.state() == initial_state(),
            d.topic_spec() == topic@,
            d.key_spec() == key@,
    {
        let d = Dispatcher { topic, key, phase: Phase::Idle, batch: Vec::new(), next: 0, failed: Vec::new() };
        assert(d.state().batch =~= Seq::<Seq<char>>::empty());
        assert(d.state().failed =~= Seq::<nat>::empty());
        d
    }

    pub fn phase(&self) -> (r: Phase)
        ensures
            r == self.state().phase,
    {
        self.phase
    }

    /// The indices, within the current (or last) batch, of the messages whose
    /// publish failed.
    pub fn failed_indices(&self) -> (r: &Vec<usize>)
        ensures
            r@.map_values(|i: usize| i as nat) == self.state().failed,
    {
        &self.failed
    }

    /// The request that publishes the message at index `self.next`.
    fn request_at_next(&self) -> (r: PublishRequest)
        requires
            self.next < self.batch@.len(),
        ensures
            r.topic@ == self.topic@,
            r.key@ == self.key@,
            r.payload@ == payload_of(self.batch@[self.next as int].data@),
    {
        PublishRequest {
            topic: self.topic.clone(),
            key: self.key.clone(),
            payload: encode_message(&self.batch[self.next]),
        }
    }

    /// Takes one event and says what to do next. An event that the present
    /// phase does not expect is refused and changes nothing.
    pub fn step(&mut self, e: Event) -> (r: Result<Action, DispatchError>)
        requires
            old(self).wf(),
        ensures
            final(self).wf(),
            final(self).topic_spec() == old(self).topic_spec(),
            final(self).key_spec() == old(self).key_spec(),
            accepts(old(self).state(), e.view()) ==> (r matches Ok(a) && (final(self).state(), a.step())
                == advance(old(self).state(), e.view())),
            !accepts(old(self).state(), e.view()) ==> r == Err::<Action, DispatchError>(
                DispatchError::UnexpectedEvent,
            ) && final(self).state() == old(self).state(),
            r matches Ok(Action::Publish(req)) ==> req.topic@ == old(self).topic_spec() && req.key@
                == old(self).key_spec(),
    {
        match e {
            Event::Dequeued(batch) => {
                if self.phase != Phase::Idle {
                    return Err(DispatchError::UnexpectedEvent);
                }
                self.batch = batch;
                self.next = 0;
                self.failed = Vec::new();
                assert(self.state().failed =~= Seq::<nat>::empty());
                if self.batch.len() == 0 {
                    self.phase = Phase::Idle;
                    Ok(Action::AwaitBatch)
                } else {
                    self.phase = Phase::Publishing;
                    Ok(Action::Publish(self.request_at_next()))
                }
            },
            Event::QueueClosed => {
                if self.phase != Phase::Idle {
                    return Err(DispatchError::UnexpectedEvent);
                }
                self.phase = Phase::Stopped;
                Ok(Action::Stop)
            },
            Event::Published | Event::PublishFailed => {
                if self.phase != Phase::Publishing {
                    return Err(DispatchError::UnexpectedEvent);
                }
                let len = self.batch.len();
                if let Event::PublishFailed = e {
                    let ghost before = self.failed@;
                    self.failed.push(self.next);
                    assert(self.failed@.map_values(|i: usize| i as nat) =~= before.map_values(
                        |i: usize| i as nat,
                    ).push(self.next as nat));
                }
                self.next = self.next + 1;
                if self.next < len {
                    Ok(Action::Publish(self.request_at_next()))
                } else {
                    self.phase = Phase::Idle;
                    Ok(Action::AwaitBatch)
                }
            },
        }
    }
}

} // verus!
