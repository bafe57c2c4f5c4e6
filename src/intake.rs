use vstd::prelude::*;
use vstd::string::StringExecFns;

verus! {

/// Why a batch could not be put in the queue.
#[derive(Clone, Copy, Debug, PartialEq, Eq)]
pub enum EnqueueError {
    /// The consumer side has been shut down; the batch is lost.
    QueueClosed,
}

/// What the request boundary answers for one submitted batch.
#[derive(Clone, Copy, Debug, PartialEq, Eq)]
pub enum IntakeReply {
    /// The batch was buffered for delivery.
    Accepted,
    /// The batch could not be buffered.
    ServerError,
}

pub open spec fn accepted_body() -> Seq<char> {
    "Messages buffered for Kafka"@
}

pub open spec fn failed_body() -> Seq<char> {
    "Failed to send messages to buffer"@
}

/// The answer to a request whose batch was enqueued with outcome `outcome`:
/// accepted exactly when the batch was buffered.
pub fn reply_for(outcome: &Result<(), EnqueueError>) -> (r: IntakeReply)
    ensures
        r == IntakeReply::Accepted <==> outcome is Ok,
        r == IntakeReply::ServerError <==> outcome is Err,
{
    match outcome {
        Ok(()) => IntakeReply::Accepted,
        Err(EnqueueError::QueueClosed) => IntakeReply::ServerError,
    }
}

impl IntakeReply {
    /// The HTTP status of the reply: 200 when accepted, 500 otherwise.
    pub fn status_code(&self) -> (r: u16)
        ensures
            *self == IntakeReply::Accepted ==> r == 200,
            *self == IntakeReply::ServerError ==> r == 500,
    {
        match self {
            IntakeReply::Accepted => 200,
            IntakeReply::ServerError => 500,
        }
    }

    /// The text of the reply's body.
    pub fn body(&self) -> (r: String)
        ensures
            *self == IntakeReply::Accepted ==> r@ == accepted_body(),
            *self == IntakeReply::ServerError ==> r@ == failed_body(),
    {
        proof {
            reveal_strlit("Messages buffered for Kafka");
            reveal_strlit("Failed to send messages to buffer");
        }
        match self {
            IntakeReply::Accepted => String::from_str("Messages buffered for Kafka"),
            IntakeReply::ServerError => String::from_str("Failed to send messages to buffer"),
        }
    }
}

} // verus!
