//! The producer: what it does with each read, and how it ends the stream.

use crate::pipeviewer::channel::send;
use crossbeam::channel::Sender;
use vstd::prelude::*;
use vstd::slice::slice_to_vec;

verus! {

/// How one read of the input ended.
#[derive(Clone, Copy, Debug, PartialEq, Eq, Structural)]
pub enum ReadOutcome {
    /// The read put this many bytes at the start of the buffer. Zero means
    /// that the input is exhausted.
    Read(usize),
    /// The read failed.
    Failed,
}

/// What the producer sends at a time: a count for the monitor and a chunk
/// for the consumer.
#[derive(Debug)]
pub struct Emission {
    /// The message for the counts channel.
    pub count: usize,
    /// The message for the data channel.
    pub chunk: Vec<u8>,
}

/// The chunk that the producer forwards after a read: the bytes read, where
/// there are any. An exhausted input and a failed read forward nothing and
/// end the reading.
pub open spec fn forwarded(buffer: Seq<u8>, outcome: ReadOutcome) -> Option<Seq<u8>> {
    match outcome {
        ReadOutcome::Read(num_read) => if 0 < num_read <= buffer.len() {
            Some(buffer.take(num_read as int))
        } else {
            None
        },
        ReadOutcome::Failed => None,
    }
}

/// The first `num_read` bytes of `buffer` as a chunk of their own.
pub fn chunk_from(buffer: &[u8], num_read: usize) -> (chunk: Vec<u8>)
    requires
        num_read <= buffer.len(),
    ensures
        chunk@ == buffer@.take(num_read as int),
{
    slice_to_vec(&buffer[0..num_read])
}

/// What to send after a read: the bytes read and their number, or nothing
/// where the reading ends.
pub fn on_read(buffer: &[u8], outcome: ReadOutcome) -> (emission: Option<Emission>)
    requires
        outcome matches ReadOutcome::Read(num_read) ==> num_read <= buffer.len(),
    ensures
        match forwarded(buffer@, outcome) {
            Some(bytes) => emission matches Some(e) && e.chunk@ == bytes && e.count == bytes.len(),
            None => emission is None,
        },
{
    match outcome {
        ReadOutcome::Read(num_read) => {
            if num_read == 0 {
                None
            } else {
                Some(Emission { count: num_read, chunk: chunk_from(buffer, num_read) })
            }
        },
        ReadOutcome::Failed => None,
    }
}

/// What ends the stream: a count of zero and an empty chunk.
pub fn sentinel() -> (emission: Emission)
    ensures
        emission.count == 0,
        emission.chunk@ == Seq::<u8>::empty(),
{
    Emission { count: 0, chunk: Vec::new() }
}

/// Whether the producer goes on after a count and a chunk were sent: it
/// does as long as the consumer took the chunk. A count that the monitor
/// did not take is lost and holds nothing up.
pub fn after_send(count_taken: bool, chunk_taken: bool) -> (keep_reading: bool)
    ensures
        keep_reading == chunk_taken,
{
    chunk_taken
}

/// Sends the count to the monitor, then the chunk to the consumer, waiting
/// while the data channel is full. A monitor that is gone is no obstacle:
/// its count is dropped. The result tells whether the consumer took the
/// chunk.
pub fn emit(emission: Emission, stats_tx: &Sender<usize>, write_tx: &Sender<Vec<u8>>) -> (delivered:
    bool) {
    let count_taken = send(stats_tx, emission.count);
    let chunk_taken = send(write_tx, emission.chunk);
    after_send(count_taken, chunk_taken)
}

/// Handles the result of one read: sends on the bytes read, if there are
/// any, and tells whether to read on. Reading goes on only after a chunk
/// that was not empty and that the consumer took.
pub fn relay(
    buffer: &[u8],
    outcome: ReadOutcome,
    stats_tx: &Sender<usize>,
    write_tx: &Sender<Vec<u8>>,
) -> (keep_reading: bool)
    requires
        outcome matches ReadOutcome::Read(num_read) ==> num_read <= buffer.len(),
    ensures
        keep_reading ==> forwarded(buffer@, outcome) is Some,
{
    match on_read(buffer, outcome) {
        Some(emission) => emit(emission, stats_tx, write_tx),
        None => false,
    }
}

/// Ends the stream: sends a count of zero to the monitor and an empty chunk
/// to the consumer. A receiver that is gone is no obstacle.
pub fn finish(stats_tx: &Sender<usize>, write_tx: &Sender<Vec<u8>>) {
    let _ = emit(sentinel(), stats_tx, write_tx);
}

} // verus!
