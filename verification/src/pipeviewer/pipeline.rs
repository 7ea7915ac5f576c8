//! The pipeline as a whole: what goes over the two channels in a run, what
//! comes out at the far ends, and how the results of the three workers make
//! one result.
//!
//! A run is described by what happens at its edges: how each read of the
//! producer ends, whether the consumer takes each chunk, and how each write
//! ends. Between the edges, a channel hands over its messages in the order
//! in which they were sent, so what a receiver meets is what `sent` lists.
//! The statements below hold for every such run, whatever the timing of the
//! workers.

use crate::pipeviewer::read::{forwarded, ReadOutcome};
use crate::pipeviewer::stats::{Arrival, Flow, Monitor, ProgressSnapshot};
use crate::pipeviewer::write::{is_data, next_step, WriteOutcome, WriteStep};
use vstd::prelude::*;
use vstd::string::StringExecFns;

verus! {

/// One read of the producer, and what became of the chunk it forwarded.
pub struct ReadEvent {
    /// The buffer after the read.
    pub buffer: Seq<u8>,
    /// How the read ended.
    pub outcome: ReadOutcome,
    /// Whether the consumer took the chunk.
    pub delivered: bool,
}

/// What the producer sends in a run: the counts for the monitor and the
/// chunks for the consumer, in the order of sending.
pub struct Sent {
    /// The messages on the counts channel.
    pub counts: Seq<usize>,
    /// The messages on the data channel.
    pub chunks: Seq<Seq<u8>>,
}

/// What the consumer has done when it stops.
pub struct Drained {
    /// The bytes written, in order.
    pub written: Seq<u8>,
    /// Whether the consumer ended without an error.
    pub success: bool,
}

/// The two messages that end the stream: a count of zero and an empty chunk.
pub open spec fn sentinels() -> Sent {
    Sent { counts: seq![0usize], chunks: seq![Seq::<u8>::empty()] }
}

/// What the producer sends when its reads go as `reads` tells. Each read
/// that brings bytes is forwarded, size first. The reading ends with the
/// first read that brings nothing, or after a chunk that the consumer did
/// not take; whatever ends it, the two closing messages follow.
pub open spec fn sent(reads: Seq<ReadEvent>) -> Sent
    decreases reads.len(),
{
    if reads.len() == 0 {
        sentinels()
    } else {
        match forwarded(reads[0].buffer, reads[0].outcome) {
            None => sentinels(),
            Some(chunk) => {
                let rest = if reads[0].delivered {
                    sent(reads.drop_first())
                } else {
                    sentinels()
                };
                Sent {
                    counts: seq![chunk.len() as usize] + rest.counts,
                    chunks: seq![chunk] + rest.chunks,
                }
            },
        }
    }
}

/// The outcome of the write at the front of `outcomes`; a write that the
/// sequence does not reach succeeds.
pub open spec fn first_outcome(outcomes: Seq<WriteOutcome>) -> WriteOutcome {
    if outcomes.len() > 0 {
        outcomes[0]
    } else {
        WriteOutcome::Written
    }
}

/// The outcomes of the writes after the first.
pub open spec fn later_outcomes(outcomes: Seq<WriteOutcome>) -> Seq<WriteOutcome> {
    if outcomes.len() > 0 {
        outcomes.drop_first()
    } else {
        outcomes
    }
}

/// What the consumer does with the messages `messages` when its writes end
/// as `outcomes` tells. It writes each message in turn and stops at the
/// first empty one, at the end of the messages, or after a write that
/// failed. Only a failure other than a closed output makes the run an
/// error.
pub open spec fn drained(messages: Seq<Seq<u8>>, outcomes: Seq<WriteOutcome>) -> Drained
    decreases messages.len(),
{
    if messages.len() == 0 || !is_data(messages[0]) {
        Drained { written: Seq::empty(), success: true }
    } else {
        match next_step(first_outcome(outcomes)) {
            WriteStep::Continue => {
                let rest = drained(messages.drop_first(), later_outcomes(outcomes));
                Drained { written: messages[0] + rest.written, success: rest.success }
            },
            WriteStep::Finish => Drained { written: Seq::empty(), success: true },
            WriteStep::Abort => Drained { written: Seq::empty(), success: false },
        }
    }
}

/// The bytes that come out when every write succeeds.
pub open spec fn output(messages: Seq<Seq<u8>>) -> Seq<u8> {
    drained(messages, Seq::empty()).written
}

/// The total that the monitor reaches on the counts `counts`: their sum up
/// to the first zero.
pub open spec fn tally(counts: Seq<usize>) -> nat
    decreases counts.len(),
{
    if counts.len() == 0 || counts[0] == 0 {
        0
    } else {
        counts[0] as nat + tally(counts.drop_first())
    }
}

/// The monitor after the arrivals `arrivals`, and the progress lines it
/// drew on the way. It stops at the first arrival that ends the stream.
pub open spec fn monitored(monitor: Monitor, arrivals: Seq<Arrival>) -> (
    Monitor,
    Seq<ProgressSnapshot>,
)
    decreases arrivals.len(),
{
    if arrivals.len() == 0 {
        (monitor, Seq::empty())
    } else {
        let (next, step) = monitor.stepped(arrivals[0]);
        let lines = match step.shown {
            Some(snapshot) => seq![snapshot],
            None => Seq::empty(),
        };
        if step.flow == Flow::Continue {
            let rest = monitored(next, arrivals.drop_first());
            (rest.0, lines + rest.1)
        } else {
            (next, lines)
        }
    }
}

/// Whether the arrivals `arrivals` carry the counts `counts`, one each.
pub open spec fn carries(arrivals: Seq<Arrival>, counts: Seq<usize>) -> bool {
    &&& arrivals.len() == counts.len()
    &&& forall|i: int| 0 <= i < counts.len() ==> (#[trigger] arrivals[i]).message == Some(counts[i])
}

/// Whether `reads` is a complete reading of `input`: every read brings the
/// next bytes of the input, at least one while there are any, the consumer
/// takes every chunk, and the reads go on to the end of the input.
pub open spec fn reading_of(input: Seq<u8>, reads: Seq<ReadEvent>) -> bool
    decreases reads.len(),
{
    if reads.len() == 0 {
        input.len() == 0
    } else {
        &&& reads[0].delivered
        &&& reads[0].outcome matches ReadOutcome::Read(num_read)
        &&& num_read <= reads[0].buffer.len()
        &&& num_read <= input.len()
        &&& (num_read == 0 ==> input.len() == 0)
        &&& reads[0].buffer.take(num_read as int) == input.take(num_read as int)
        &&& (num_read > 0 ==> reading_of(input.skip(num_read as int), reads.drop_first()))
    }
}

/// The reading of `input` in which every read fills a buffer of
/// `chunk_size` bytes, but for the last, which brings what is left.
pub open spec fn full_reads(input: Seq<u8>, chunk_size: usize) -> Seq<ReadEvent>
    decreases input.len(),
{
    if input.len() == 0 || chunk_size == 0 {
        Seq::empty()
    } else {
        let num_read = if input.len() < chunk_size {
            input.len() as usize
        } else {
            chunk_size
        };
        seq![
            ReadEvent {
                buffer: input.take(num_read as int),
                outcome: ReadOutcome::Read(num_read),
                delivered: true,
            },
        ] + full_reads(input.skip(num_read as int), chunk_size)
    }
}

/// The shape of what is sent: the two channels get the same number of
/// messages, each count is the length of its chunk, every chunk but the last
/// carries data, and the last pair is the one that ends the stream. So each
/// receiver meets exactly one closing message, after all the data.
pub proof fn lemma_one_sentinel(reads: Seq<ReadEvent>)
    ensures
        sent(reads).counts.len() == sent(reads).chunks.len(),
        1 <= sent(reads).chunks.len() <= reads.len() + 1,
        forall|i: int|
            0 <= i < sent(reads).chunks.len() ==> (#[trigger] sent(reads).counts[i])
                == sent(reads).chunks[i].len(),
        forall|i: int|
            0 <= i < sent(reads).chunks.len() - 1 ==> is_data(#[trigger] sent(reads).chunks[i]),
        !is_data(sent(reads).chunks.last()),
    decreases reads.len(),
{
    if reads.len() > 0 {
        match forwarded(reads[0].buffer, reads[0].outcome) {
            None => {},
            Some(chunk) => {
                let rest = if reads[0].delivered {
                    sent(reads.drop_first())
                } else {
                    sentinels()
                };
                if reads[0].delivered {
                    lemma_one_sentinel(reads.drop_first());
                }
                let counts = seq![chunk.len() as usize] + rest.counts;
                let chunks = seq![chunk] + rest.chunks;
                assert(sent(reads).counts == counts);
                assert(sent(reads).chunks == chunks);
                assert forall|i: int| 0 <= i < chunks.len() implies (#[trigger] counts[i])
                    == chunks[i].len() by {
                    if i > 0 {
                        assert(counts[i] == rest.counts[i - 1]);
                        assert(chunks[i] == rest.chunks[i - 1]);
                    }
                }
                assert forall|i: int| 0 <= i < chunks.len() - 1 implies is_data(
                    #[trigger] chunks[i],
                ) by {
                    if i > 0 {
                        assert(chunks[i] == rest.chunks[i - 1]);
                    }
                }
                assert(chunks.last() == rest.chunks.last());
            },
        }
    }
}

/// No chunk is longer than the buffer it was read into: with buffers of
/// `limit` bytes at most, every message on the data channel has `limit`
/// bytes at most.
pub proof fn lemma_chunks_fit_buffer(reads: Seq<ReadEvent>, limit: nat)
    requires
        forall|i: int| 0 <= i < reads.len() ==> (#[trigger] reads[i]).buffer.len() <= limit,
    ensures
        forall|i: int|
            0 <= i < sent(reads).chunks.len() ==> (#[trigger] sent(reads).chunks[i]).len() <= limit,
    decreases reads.len(),
{
    if reads.len() > 0 {
        match forwarded(reads[0].buffer, reads[0].outcome) {
            None => {},
            Some(chunk) => {
                let rest = if reads[0].delivered {
                    sent(reads.drop_first())
                } else {
                    sentinels()
                };
                if reads[0].delivered {
                    assert forall|i: int| 0 <= i < reads.drop_first().len() implies (
                    #[trigger] reads.drop_first()[i]).buffer.len() <= limit by {
                        assert(reads[i + 1].buffer.len() <= limit);
                    }
                    lemma_chunks_fit_buffer(reads.drop_first(), limit);
                }
                let chunks = seq![chunk] + rest.chunks;
                assert(sent(reads).chunks == chunks);
                assert(reads[0].buffer.len() <= limit);
                assert forall|i: int| 0 <= i < chunks.len() implies (#[trigger] chunks[i]).len()
                    <= limit by {
                    if i > 0 {
                        assert(chunks[i] == rest.chunks[i - 1]);
                    }
                }
            },
        }
    }
}

/// Round trip: whatever the sizes of the reads, the bytes that come out are
/// the bytes of the input, all of them and in their order, and the consumer
/// ends without an error.
pub proof fn lemma_round_trip(input: Seq<u8>, reads: Seq<ReadEvent>)
    requires
        reading_of(input, reads),
    ensures
        output(sent(reads).chunks) == input,
        drained(sent(reads).chunks, Seq::empty()).success,
    decreases reads.len(),
{
    let none = Seq::<WriteOutcome>::empty();
    if reads.len() == 0 {
        assert(input =~= Seq::<u8>::empty());
    } else {
        let num_read = reads[0].outcome->Read_0;
        if num_read == 0 {
            assert(input =~= Seq::<u8>::empty());
        } else {
            let chunk = input.take(num_read as int);
            let rest = sent(reads.drop_first());
            lemma_round_trip(input.skip(num_read as int), reads.drop_first());
            let messages = seq![chunk] + rest.chunks;
            assert(sent(reads).chunks == messages);
            assert(messages[0] == chunk);
            assert(messages.drop_first() =~= rest.chunks);
            assert(later_outcomes(none) == none);
            assert(chunk + input.skip(num_read as int) =~= input);
        }
    }
}

/// Reading in full chunks is a complete reading, whatever the chunk size
/// from one byte up.
pub proof fn lemma_full_reads(input: Seq<u8>, chunk_size: usize)
    requires
        chunk_size > 0,
    ensures
        reading_of(input, full_reads(input, chunk_size)),
    decreases input.len(),
{
    if input.len() > 0 {
        let num_read = if input.len() < chunk_size {
            input.len() as usize
        } else {
            chunk_size
        };
        let first = ReadEvent {
            buffer: input.take(num_read as int),
            outcome: ReadOutcome::Read(num_read),
            delivered: true,
        };
        let later = full_reads(input.skip(num_read as int), chunk_size);
        lemma_full_reads(input.skip(num_read as int), chunk_size);
        let reads = full_reads(input, chunk_size);
        assert(reads == seq![first] + later);
        assert(reads[0] == first);
        assert(reads.drop_first() =~= later);
        assert(first.buffer.take(num_read as int) =~= input.take(num_read as int));
    }
}

/// Chunking invariance: two complete readings of one input give the same
/// output, however each of them cuts the input into chunks.
pub proof fn lemma_chunking_invariance(
    input: Seq<u8>,
    reads_a: Seq<ReadEvent>,
    reads_b: Seq<ReadEvent>,
)
    requires
        reading_of(input, reads_a),
        reading_of(input, reads_b),
    ensures
        output(sent(reads_a).chunks) == output(sent(reads_b).chunks),
{
    lemma_round_trip(input, reads_a);
    lemma_round_trip(input, reads_b);
}

/// The output does not depend on the chunk size: reading in full chunks of
/// any two sizes gives the same bytes, those of the input.
pub proof fn lemma_chunk_size_invariance(input: Seq<u8>, size_a: usize, size_b: usize)
    requires
        size_a > 0,
        size_b > 0,
    ensures
        output(sent(full_reads(input, size_a)).chunks) == input,
        output(sent(full_reads(input, size_b)).chunks) == input,
{
    lemma_full_reads(input, size_a);
    lemma_full_reads(input, size_b);
    lemma_round_trip(input, full_reads(input, size_a));
    lemma_round_trip(input, full_reads(input, size_b));
}

/// Whether the consumer took every chunk of `reads`.
pub open spec fn all_delivered(reads: Seq<ReadEvent>) -> bool {
    forall|i: int| 0 <= i < reads.len() ==> (#[trigger] reads[i]).delivered
}

/// Telemetry total: where the consumer takes every chunk and every write
/// succeeds, the counts sent add up to the number of bytes written.
pub proof fn lemma_counts_match_output(reads: Seq<ReadEvent>)
    requires
        all_delivered(reads),
    ensures
        tally(sent(reads).counts) == output(sent(reads).chunks).len(),
    decreases reads.len(),
{
    let none = Seq::<WriteOutcome>::empty();
    if reads.len() > 0 {
        match forwarded(reads[0].buffer, reads[0].outcome) {
            None => {},
            Some(chunk) => {
                let rest = sent(reads.drop_first());
                assert(reads[0].delivered);
                assert forall|i: int| 0 <= i < reads.drop_first().len() implies (
                #[trigger] reads.drop_first()[i]).delivered by {
                    assert(reads[i + 1].delivered);
                }
                lemma_counts_match_output(reads.drop_first());
                let counts = seq![chunk.len() as usize] + rest.counts;
                let messages = seq![chunk] + rest.chunks;
                assert(sent(reads).counts == counts);
                assert(sent(reads).chunks == messages);
                assert(counts[0] == chunk.len());
                assert(counts.drop_first() =~= rest.counts);
                assert(messages[0] == chunk);
                assert(messages.drop_first() =~= rest.chunks);
                assert(later_outcomes(none) == none);
            },
        }
    }
}

/// The monitor's total: started at zero on the counts of a run, the monitor
/// ends with their tally as its total, as long as the tally fits a `usize`.
pub proof fn lemma_monitor_total(monitor: Monitor, arrivals: Seq<Arrival>, counts: Seq<usize>)
    requires
        carries(arrivals, counts),
        monitor.total_bytes + tally(counts) <= usize::MAX,
    ensures
        monitored(monitor, arrivals).0.total_bytes == monitor.total_bytes + tally(counts),
    decreases arrivals.len(),
{
    if arrivals.len() > 0 {
        assert(arrivals[0].message == Some(counts[0]));
        if counts[0] != 0 {
            let (next, step) = monitor.stepped(arrivals[0]);
            assert forall|i: int| 0 <= i < counts.drop_first().len() implies (
            #[trigger] arrivals.drop_first()[i]).message == Some(counts.drop_first()[i]) by {
                assert(arrivals[i + 1].message == Some(counts[i + 1]));
            }
            lemma_monitor_total(next, arrivals.drop_first(), counts.drop_first());
        }
    }
}

/// Telemetry total: in a run in which the consumer takes every chunk and
/// every write succeeds, a monitor that starts at zero and meets the counts
/// in the order of sending ends with the number of bytes written as its
/// total. The number has to fit a `usize`.
pub proof fn lemma_telemetry_total(monitor: Monitor, reads: Seq<ReadEvent>, arrivals: Seq<Arrival>)
    requires
        monitor.total_bytes == 0,
        all_delivered(reads),
        carries(arrivals, sent(reads).counts),
        output(sent(reads).chunks).len() <= usize::MAX,
    ensures
        monitored(monitor, arrivals).0.total_bytes == output(sent(reads).chunks).len(),
{
    lemma_counts_match_output(reads);
    lemma_monitor_total(monitor, arrivals, sent(reads).counts);
}

/// Silent mode: a silent monitor draws no progress line, whatever arrives.
pub proof fn lemma_silent_draws_nothing(monitor: Monitor, arrivals: Seq<Arrival>)
    requires
        monitor.silent,
    ensures
        monitored(monitor, arrivals).1.len() == 0,
        monitored(monitor, arrivals).0.silent,
    decreases arrivals.len(),
{
    if arrivals.len() > 0 {
        let (next, step) = monitor.stepped(arrivals[0]);
        if step.flow == Flow::Continue {
            lemma_silent_draws_nothing(next, arrivals.drop_first());
        }
    }
}

/// Closed output: as long as no write fails for another reason than a
/// closed output, the consumer ends without an error.
pub proof fn lemma_closed_output_is_success(messages: Seq<Seq<u8>>, outcomes: Seq<WriteOutcome>)
    requires
        forall|i: int| 0 <= i < outcomes.len() ==> outcomes[i] != WriteOutcome::Failed,
    ensures
        drained(messages, outcomes).success,
    decreases messages.len(),
{
    if messages.len() > 0 && is_data(messages[0]) {
        if next_step(first_outcome(outcomes)) == WriteStep::Continue {
            assert forall|i: int| 0 <= i < later_outcomes(outcomes).len() implies later_outcomes(
                outcomes,
            )[i] != WriteOutcome::Failed by {
                assert(outcomes[i + 1] != WriteOutcome::Failed);
            }
            lemma_closed_output_is_success(messages.drop_first(), later_outcomes(outcomes));
        }
    }
}

/// A consumer that is gone stops the producer: after the first chunk that
/// is not taken, only the two closing messages are sent, however many reads
/// could follow.
pub proof fn lemma_stops_without_consumer(reads: Seq<ReadEvent>)
    requires
        reads.len() > 0,
        forwarded(reads[0].buffer, reads[0].outcome) is Some,
        !reads[0].delivered,
    ensures
        sent(reads).chunks == seq![
            forwarded(reads[0].buffer, reads[0].outcome).unwrap(),
            Seq::<u8>::empty(),
        ],
        sent(reads).counts.len() == 2,
        sent(reads).counts[1] == 0,
{
    let chunk = forwarded(reads[0].buffer, reads[0].outcome).unwrap();
    assert(seq![chunk] + seq![Seq::<u8>::empty()] =~= seq![chunk, Seq::<u8>::empty()]);
}

/// An input that brings nothing at the first read, be it exhausted or
/// failing, sends exactly one closing message on each channel, and nothing
/// is written.
pub proof fn lemma_nothing_to_read(reads: Seq<ReadEvent>)
    requires
        reads.len() == 0 || forwarded(reads[0].buffer, reads[0].outcome) is None,
    ensures
        sent(reads) == sentinels(),
        output(sent(reads).chunks).len() == 0,
        drained(sent(reads).chunks, Seq::empty()).success,
        tally(sent(reads).counts) == 0,
{
}


/// One of the three workers.
#[derive(Clone, Copy, Debug, PartialEq, Eq, Structural)]
pub enum Worker {
    /// The producer, which reads the input.
    Read,
    /// The monitor, which reports the progress.
    Stats,
    /// The consumer, which writes the output.
    Write,
}

/// How a worker ended.
#[derive(Debug)]
pub enum Exit {
    /// It returned without an error.
    Completed,
    /// It returned an I/O error, described by the text.
    Failed(String),
    /// It did not return: it ended in a panic, described by the text.
    Panicked(String),
}

/// Why a run failed.
#[derive(Debug)]
pub enum PipelineError {
    /// A worker ended in a panic.
    Panicked { worker: Worker, detail: String },
    /// A worker returned an I/O error.
    Failed { worker: Worker, description: String },
}

impl Worker {
    /// The name of the worker as it stands in messages.
    pub open spec fn name_chars(self) -> Seq<char> {
        match self {
            Worker::Read => "Read"@,
            Worker::Stats => "Stats"@,
            Worker::Write => "Write"@,
        }
    }

    /// The name of the worker as it stands in messages.
    pub fn name(self) -> (text: &'static str)
        ensures
            text@ == self.name_chars(),
    {
        match self {
            Worker::Read => "Read",
            Worker::Stats => "Stats",
            Worker::Write => "Write",
        }
    }
}

impl Exit {
    /// The failure that a panic of `worker` makes, if this is one.
    pub open spec fn panic_of(self, worker: Worker) -> Option<PipelineError> {
        match self {
            Exit::Panicked(detail) => Some(PipelineError::Panicked { worker, detail }),
            _ => None,
        }
    }

    /// The failure that an I/O error of `worker` makes, if this is one.
    pub open spec fn error_of(self, worker: Worker) -> Option<PipelineError> {
        match self {
            Exit::Failed(description) => Some(PipelineError::Failed { worker, description }),
            _ => None,
        }
    }
}

/// The first of the given failures, in their order.
pub open spec fn first_failure(failures: Seq<Option<PipelineError>>) -> Option<PipelineError>
    decreases failures.len(),
{
    if failures.len() == 0 {
        None
    } else if failures[0] is Some {
        failures[0]
    } else {
        first_failure(failures.drop_first())
    }
}

/// The result of a run, from how its workers ended. The workers are joined
/// in the order producer, monitor, consumer, and a panic shows at the join;
/// the errors that workers returned are looked at after all three joins, in
/// the same order. The first failure met this way is the result.
pub open spec fn verdict_of(read: Exit, stats: Exit, write: Exit) -> Result<(), PipelineError> {
    match first_failure(
        seq![
            read.panic_of(Worker::Read),
            stats.panic_of(Worker::Stats),
            write.panic_of(Worker::Write),
            read.error_of(Worker::Read),
            stats.error_of(Worker::Stats),
            write.error_of(Worker::Write),
        ],
    ) {
        Some(failure) => Err(failure),
        None => Ok(()),
    }
}

/// The text that is kept of an exit that was no panic: the description of
/// the error, if there was one.
fn returned(exit: Exit, worker: Worker) -> (kept: Result<Option<String>, PipelineError>)
    ensures
        match kept {
            Ok(Some(description)) => exit == Exit::Failed(description),
            Ok(None) => exit is Completed,
            Err(failure) => exit.panic_of(worker) == Some(failure),
        },
{
    match exit {
        Exit::Completed => Ok(None),
        Exit::Failed(description) => Ok(Some(description)),
        Exit::Panicked(detail) => Err(PipelineError::Panicked { worker, detail }),
    }
}

/// Makes one result of how the three workers ended.
pub fn verdict(read: Exit, stats: Exit, write: Exit) -> (outcome: Result<(), PipelineError>)
    ensures
        outcome == verdict_of(read, stats, write),
{
    proof {
        reveal_with_fuel(first_failure, 8);
    }
    let read_error = match returned(read, Worker::Read) {
        Ok(kept) => kept,
        Err(failure) => {
            return Err(failure);
        },
    };
    let stats_error = match returned(stats, Worker::Stats) {
        Ok(kept) => kept,
        Err(failure) => {
            return Err(failure);
        },
    };
    let write_error = match returned(write, Worker::Write) {
        Ok(kept) => kept,
        Err(failure) => {
            return Err(failure);
        },
    };
    if let Some(description) = read_error {
        return Err(PipelineError::Failed { worker: Worker::Read, description });
    }
    if let Some(description) = stats_error {
        return Err(PipelineError::Failed { worker: Worker::Stats, description });
    }
    if let Some(description) = write_error {
        return Err(PipelineError::Failed { worker: Worker::Write, description });
    }
    Ok(())
}

impl PipelineError {
    /// The text that tells the user of the failure: for a panic, the worker
    /// and what is known of the panic; for an I/O error, its description.
    pub open spec fn message_chars(self) -> Seq<char> {
        match self {
            PipelineError::Panicked { worker, detail } => worker.name_chars()
                + " thread panicked: "@ + detail@,
            PipelineError::Failed { worker, description } => description@,
        }
    }

    /// The text that tells the user of the failure.
    pub fn message(&self) -> (text: String)
        ensures
            text@ == self.message_chars(),
    {
        match self {
            PipelineError::Panicked { worker, detail } => {
                let mut text = String::from_str(worker.name());
                text.append(" thread panicked: ");
                text.append(detail.as_str());
                text
            },
            PipelineError::Failed { worker, description } => description.clone(),
        }
    }
}

} // verus!
