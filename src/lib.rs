//! Ingestion bridge: batches of messages come in through a request interface,
//! wait in a bounded queue, and a single dispatch worker publishes each message
//! of each batch to a message broker.
//!
//! The library holds the logic of that pipeline: the message model, the payload
//! that a message becomes, the opening of the bounded queue, the reply that the
//! intake gives, and the dispatch worker as a state machine. The program around
//! it performs the waiting and the network work.

pub mod delivery;
pub mod dispatch;
pub mod intake;
pub mod message;
pub mod payload;
pub mod queue;

pub use message::Message;
pub use payload::{encode_message, frame_payload};
pub use queue::{open_queue, QueueError, MAX_QUEUE_CAPACITY};
pub use intake::{reply_for, EnqueueError, IntakeReply};
pub use dispatch::{Action, DispatchError, Dispatcher, Event, Phase, PublishRequest};
