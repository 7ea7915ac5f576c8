//! The consumer: which messages it writes, and what it does after a write.

use crate::pipeviewer::channel::recv;
use crossbeam::channel::Receiver;
use vstd::prelude::*;

verus! {

/// How one write to the output ended.
#[derive(Clone, Copy, Debug, PartialEq, Eq, Structural)]
pub enum WriteOutcome {
    /// The whole chunk was written.
    Written,
    /// The write failed because the reader of the output has closed it.
    BrokenPipe,
    /// The write failed for another reason.
    Failed,
}

/// What the consumer does after a write.
#[derive(Clone, Copy, Debug, PartialEq, Eq, Structural)]
pub enum WriteStep {
    /// Wait for the next chunk.
    Continue,
    /// Stop; the run was a success.
    Finish,
    /// Stop and report the failure.
    Abort,
}

/// Whether a message on the data channel carries data. An empty message
/// ends the stream.
pub open spec fn is_data(message: Seq<u8>) -> bool {
    message.len() > 0
}

/// The step that follows a write: a closed output ends the run as a
/// success, any other failure as an error.
pub open spec fn next_step(outcome: WriteOutcome) -> WriteStep {
    match outcome {
        WriteOutcome::Written => WriteStep::Continue,
        WriteOutcome::BrokenPipe => WriteStep::Finish,
        WriteOutcome::Failed => WriteStep::Abort,
    }
}

/// The chunk to write for what came from the data channel, or `None` where
/// the stream is over: after an empty message, and where no sender is left.
pub fn accept(message: Option<Vec<u8>>) -> (chunk: Option<Vec<u8>>)
    ensures
        match message {
            Some(bytes) => if is_data(bytes@) {
                chunk == Some(bytes)
            } else {
                chunk is None
            },
            None => chunk is None,
        },
{
    match message {
        Some(bytes) => {
            if bytes.len() == 0 {
                None
            } else {
                Some(bytes)
            }
        },
        None => None,
    }
}

/// Waits for the next message on the data channel and gives the chunk to
/// write, or `None` where the stream is over. A chunk to write is never
/// empty.
pub fn receive(write_rx: &Receiver<Vec<u8>>) -> (chunk: Option<Vec<u8>>)
    ensures
        chunk matches Some(bytes) ==> is_data(bytes@),
{
    accept(recv(write_rx))
}

/// Decides how to go on after a write.
pub fn after_write(outcome: WriteOutcome) -> (step: WriteStep)
    ensures
        step == next_step(outcome),
{
    match outcome {
        WriteOutcome::Written => WriteStep::Continue,
        WriteOutcome::BrokenPipe => WriteStep::Finish,
        WriteOutcome::Failed => WriteStep::Abort,
    }
}

} // verus!
