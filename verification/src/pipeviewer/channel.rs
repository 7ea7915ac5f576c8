//! The two channels between the workers, and what is assumed of them.
//!
//! The channels are those of the `crossbeam` crate. What a channel holds
//! changes under the hands of the other workers, so a send says only whether
//! the message was taken, and a receive only what came, if anything.

use crossbeam::channel::{Receiver, Sender};
use vstd::prelude::*;

verus! {

/// The sending end of a `crossbeam` channel.
#[verifier::external_type_specification]
#[verifier::external_body]
#[verifier::reject_recursive_types(T)]
pub struct ExSender<T>(crossbeam::channel::Sender<T>);

/// The receiving end of a `crossbeam` channel.
#[verifier::external_type_specification]
#[verifier::external_body]
#[verifier::reject_recursive_types(T)]
pub struct ExReceiver<T>(crossbeam::channel::Receiver<T>);

/// The number of chunks that the data channel can hold at a time.
pub const DATA_CHANNEL_CAPACITY: usize = 1024;

/// The capacity that a channel of chunks was made with; `None` for a channel
/// without a bound. It is fixed when the channel is made.
pub uninterp spec fn chunk_capacity(tx: Sender<Vec<u8>>) -> Option<usize>;

/// The capacity that a channel of byte counts was made with; `None` for a
/// channel without a bound. It is fixed when the channel is made.
pub uninterp spec fn count_capacity(tx: Sender<usize>) -> Option<usize>;

/// `Sender::send`: waits until the message is taken or every receiver is
/// gone. The result tells which; it depends on the other end, so nothing is
/// claimed of it.
#[verifier::external_body]
pub(crate) fn send<T>(tx: &Sender<T>, message: T) -> (delivered: bool) {
    tx.send(message).is_ok()
}

/// `Receiver::recv`: waits until a message comes or the channel is empty
/// with every sender gone. The result is the message, or `None` in the
/// second case; it depends on the other end, so nothing is claimed of it.
#[verifier::external_body]
pub(crate) fn recv<T>(rx: &Receiver<T>) -> (message: Option<T>) {
    rx.recv().ok()
}

/// `crossbeam::channel::unbounded`, for byte counts: a channel that holds
/// any number of messages and so never makes its sender wait. It has no
/// capacity, which is what `Sender::capacity` then reports.
#[verifier::external_body]
pub(crate) fn unbounded_counts() -> (ends: (Sender<usize>, Receiver<usize>))
    ensures
        count_capacity(ends.0) == None::<usize>,
{
    crossbeam::channel::unbounded()
}

/// `crossbeam::channel::bounded`, for chunks: a channel that holds at most
/// `cap` messages at a time, which is what `Sender::capacity` then reports.
/// The outside function fails for a capacity near the largest `usize`; those
/// are left out.
#[verifier::external_body]
pub(crate) fn bounded_chunks(cap: usize) -> (ends: (Sender<Vec<u8>>, Receiver<Vec<u8>>))
    requires
        cap <= 0x1000_0000,
    ensures
        chunk_capacity(ends.0) == Some(cap),
{
    crossbeam::channel::bounded(cap)
}

/// The channel for byte counts, from the producer to the monitor. It has no
/// bound, so the monitor never holds the producer up.
pub fn counts_channel() -> (ends: (Sender<usize>, Receiver<usize>))
    ensures
        count_capacity(ends.0) == None::<usize>,
{
    unbounded_counts()
}

/// The channel for chunks, from the producer to the consumer. It holds at
/// most `DATA_CHANNEL_CAPACITY` chunks; a producer that finds it full waits.
pub fn data_channel() -> (ends: (Sender<Vec<u8>>, Receiver<Vec<u8>>))
    ensures
        chunk_capacity(ends.0) == Some(DATA_CHANNEL_CAPACITY),
{
    bounded_chunks(DATA_CHANNEL_CAPACITY)
}

} // verus!
