use crossbeam::channel::{Receiver, Sender};
use rust_in_action::pipeviewer::channel::{counts_channel, data_channel, DATA_CHANNEL_CAPACITY};
use rust_in_action::pipeviewer::pipeline::{verdict, Exit, PipelineError, Worker};
use rust_in_action::pipeviewer::read::{
    after_send, chunk_from, emit, finish, on_read, relay, sentinel, Emission, ReadOutcome,
};
use rust_in_action::pipeviewer::stats::{Flow, Monitor};
use rust_in_action::pipeviewer::write::{accept, after_write, receive, WriteOutcome, WriteStep};
use rust_in_action::pipeviewer::CHUNK_SIZE;

fn sample(len: usize) -> Vec<u8> {
    (0..len).map(|i| (i * 31 + 7) as u8).collect()
}

/// Runs the three workers in turn on one thread: one read, then the monitor
/// and the consumer each take what was sent.
fn run(input: &[u8], chunk_size: usize, silent: bool) -> (Vec<u8>, usize, usize) {
    let (stats_tx, stats_rx) = counts_channel();
    let (write_tx, write_rx) = data_channel();
    let mut monitor = Monitor::new(silent);
    let mut output = Vec::new();
    let mut lines = 0;
    let mut buffer = vec![0u8; chunk_size];
    let mut offset = 0;
    loop {
        let num_read = chunk_size.min(input.len() - offset);
        buffer[..num_read].copy_from_slice(&input[offset..offset + num_read]);
        offset += num_read;
        if !relay(&buffer, ReadOutcome::Read(num_read), &stats_tx, &write_tx) {
            break;
        }
        let step = monitor.next(&stats_rx);
        assert_eq!(step.flow, Flow::Continue);
        if let Some(snapshot) = step.shown {
            assert!(!silent);
            assert_eq!(snapshot.total_bytes, offset);
            lines += 1;
        }
        let chunk = receive(&write_rx).unwrap();
        assert_eq!(chunk.len(), num_read);
        assert_eq!(after_write(WriteOutcome::Written), WriteStep::Continue);
        output.extend_from_slice(&chunk);
    }
    finish(&stats_tx, &write_tx);
    let last = monitor.next(&stats_rx);
    assert_eq!(last.flow, Flow::Finished);
    if last.shown.is_some() {
        lines += 1;
    }
    assert_eq!(receive(&write_rx), None);
    assert!(stats_rx.is_empty());
    assert!(write_rx.is_empty());
    (output, monitor.total_bytes, lines)
}

#[test]
fn round_trip_reproduces_the_input() {
    for len in [0, 1, 2, 1023, 16_384, 16_385, 50_000] {
        let input = sample(len);
        let (output, _, _) = run(&input, CHUNK_SIZE, true);
        assert_eq!(output, input);
    }
}

#[test]
fn output_does_not_depend_on_the_chunk_size() {
    let input = sample(3_000);
    for chunk_size in [1, 2, 3, 7, 1_000, 2_999, 3_000, 3_001, CHUNK_SIZE, 4 * CHUNK_SIZE] {
        let (output, _, _) = run(&input, chunk_size, true);
        assert_eq!(output, input);
    }
}

#[test]
fn monitor_total_is_the_number_of_bytes_written() {
    for (len, chunk_size) in [(0, 16), (1, 16), (16, 16), (17, 16), (5_000, 333)] {
        let input = sample(len);
        let (output, total, _) = run(&input, chunk_size, false);
        assert_eq!(total, output.len());
        assert_eq!(total, len);
    }
}

#[test]
fn silent_run_draws_no_line() {
    let input = sample(10_000);
    let (output, total, lines) = run(&input, 100, true);
    assert_eq!(lines, 0);
    assert_eq!(output, input);
    assert_eq!(total, 10_000);
}

#[test]
fn loud_run_draws_the_first_line() {
    let (_, _, lines) = run(&sample(10), 4, false);
    assert!(lines >= 1);
}

#[test]
fn empty_input_sends_one_sentinel_on_each_channel() {
    let (stats_tx, stats_rx) = counts_channel();
    let (write_tx, write_rx) = data_channel();
    let buffer = [0u8; CHUNK_SIZE];
    assert!(!relay(&buffer, ReadOutcome::Read(0), &stats_tx, &write_tx));
    assert!(stats_rx.is_empty());
    assert!(write_rx.is_empty());
    finish(&stats_tx, &write_tx);
    assert_eq!(stats_rx.len(), 1);
    assert_eq!(write_rx.len(), 1);
    assert_eq!(stats_rx.recv(), Ok(0));
    assert_eq!(write_rx.recv(), Ok(Vec::new()));
}

#[test]
fn failed_read_ends_the_stream_like_an_exhausted_input() {
    let (stats_tx, stats_rx) = counts_channel();
    let (write_tx, write_rx) = data_channel();
    let buffer = [9u8; 8];
    assert!(relay(&buffer, ReadOutcome::Read(8), &stats_tx, &write_tx));
    assert!(!relay(&buffer, ReadOutcome::Failed, &stats_tx, &write_tx));
    finish(&stats_tx, &write_tx);
    assert_eq!(stats_rx.try_iter().collect::<Vec<usize>>(), vec![8, 0]);
    assert_eq!(write_rx.try_iter().collect::<Vec<Vec<u8>>>(), vec![vec![9u8; 8], vec![]]);
}

#[test]
fn only_a_chunk_that_was_not_taken_stops_the_producer() {
    assert!(after_send(true, true));
    assert!(after_send(false, true));
    assert!(!after_send(true, false));
    assert!(!after_send(false, false));
}

#[test]
fn count_is_sent_before_the_chunk() {
    let (stats_tx, stats_rx) = counts_channel();
    let (write_tx, write_rx) = data_channel();
    assert!(emit(Emission { count: 3, chunk: vec![1, 2, 3] }, &stats_tx, &write_tx));
    assert_eq!(stats_rx.recv(), Ok(3));
    assert_eq!(write_rx.recv(), Ok(vec![1, 2, 3]));
}

#[test]
fn producer_goes_on_without_a_monitor() {
    let (stats_tx, stats_rx) = counts_channel();
    let (write_tx, write_rx) = data_channel();
    drop(stats_rx);
    assert!(relay(&[5u8, 6], ReadOutcome::Read(2), &stats_tx, &write_tx));
    finish(&stats_tx, &write_tx);
    assert_eq!(receive(&write_rx), Some(vec![5, 6]));
    assert_eq!(receive(&write_rx), None);
}

#[test]
fn producer_stops_without_a_consumer() {
    let (stats_tx, stats_rx) = counts_channel();
    let (write_tx, write_rx) = data_channel();
    drop(write_rx);
    assert!(!relay(&[5u8, 6], ReadOutcome::Read(2), &stats_tx, &write_tx));
    finish(&stats_tx, &write_tx);
    assert_eq!(stats_rx.try_iter().collect::<Vec<usize>>(), vec![2, 0]);
}

#[test]
fn consumer_stops_when_the_producer_is_gone() {
    let (write_tx, write_rx): (Sender<Vec<u8>>, Receiver<Vec<u8>>) = data_channel();
    write_tx.send(vec![1]).unwrap();
    drop(write_tx);
    assert_eq!(receive(&write_rx), Some(vec![1]));
    assert_eq!(receive(&write_rx), None);
}

#[test]
fn data_channel_holds_1024_chunks() {
    let (write_tx, write_rx) = data_channel();
    assert_eq!(DATA_CHANNEL_CAPACITY, 1024);
    assert_eq!(write_tx.capacity(), Some(1024));
    assert_eq!(write_rx.capacity(), Some(1024));
    let (stats_tx, stats_rx) = counts_channel();
    for i in 0..1024 {
        assert!(emit(Emission { count: 4, chunk: vec![i as u8; 4] }, &stats_tx, &write_tx));
    }
    assert!(write_tx.is_full());
    assert_eq!(write_tx.len(), 1024);
    assert!(write_tx.try_send(vec![0]).is_err());
    assert_eq!(stats_rx.len(), 1024);
    assert_eq!(receive(&write_rx), Some(vec![0u8; 4]));
    assert!(write_tx.try_send(vec![0]).is_ok());
    assert_eq!(write_tx.len(), 1024);
}

#[test]
fn counts_channel_has_no_bound() {
    let (stats_tx, stats_rx) = counts_channel();
    assert_eq!(stats_tx.capacity(), None);
    for i in 0..5_000 {
        stats_tx.send(i).unwrap();
    }
    assert_eq!(stats_rx.len(), 5_000);
}

#[test]
fn chunk_is_the_front_of_the_buffer() {
    let buffer = [1u8, 2, 3, 4, 5];
    assert_eq!(chunk_from(&buffer, 0), Vec::<u8>::new());
    assert_eq!(chunk_from(&buffer, 3), vec![1, 2, 3]);
    assert_eq!(chunk_from(&buffer, 5), vec![1, 2, 3, 4, 5]);
}

#[test]
fn on_read_forwards_only_what_was_read() {
    let buffer = [1u8, 2, 3, 4, 5];
    let two = on_read(&buffer, ReadOutcome::Read(2)).unwrap();
    assert_eq!(two.count, 2);
    assert_eq!(two.chunk, vec![1, 2]);
    let all = on_read(&buffer, ReadOutcome::Read(5)).unwrap();
    assert_eq!(all.count, 5);
    assert_eq!(all.chunk, vec![1, 2, 3, 4, 5]);
    assert!(on_read(&buffer, ReadOutcome::Read(0)).is_none());
    assert!(on_read(&buffer, ReadOutcome::Failed).is_none());
}

#[test]
fn sentinel_is_zero_and_empty() {
    let last = sentinel();
    assert_eq!(last.count, 0);
    assert!(last.chunk.is_empty());
}

#[test]
fn consumer_writes_data_and_stops_at_the_sentinel() {
    assert_eq!(accept(Some(vec![7])), Some(vec![7]));
    assert_eq!(accept(Some(vec![])), None);
    assert_eq!(accept(None), None);
}

#[test]
fn closed_output_ends_the_consumer_as_a_success() {
    assert_eq!(after_write(WriteOutcome::Written), WriteStep::Continue);
    assert_eq!(after_write(WriteOutcome::BrokenPipe), WriteStep::Finish);
    assert_eq!(after_write(WriteOutcome::Failed), WriteStep::Abort);
}

#[test]
fn broken_pipe_run_is_a_success() {
    let (stats_tx, stats_rx) = counts_channel();
    let (write_tx, write_rx) = data_channel();
    assert!(relay(&[1u8; 4], ReadOutcome::Read(4), &stats_tx, &write_tx));
    let chunk = receive(&write_rx).unwrap();
    assert_eq!(chunk, vec![1u8; 4]);
    assert_eq!(after_write(WriteOutcome::BrokenPipe), WriteStep::Finish);
    drop(write_rx);
    assert!(!relay(&[1u8; 4], ReadOutcome::Read(4), &stats_tx, &write_tx));
    finish(&stats_tx, &write_tx);
    let mut monitor = Monitor::new(true);
    while monitor.next(&stats_rx).flow == Flow::Continue {}
    assert!(matches!(verdict(Exit::Completed, Exit::Completed, Exit::Completed), Ok(())));
}

fn failed(text: &str) -> Exit {
    Exit::Failed(text.to_string())
}

fn panicked(text: &str) -> Exit {
    Exit::Panicked(text.to_string())
}

#[test]
fn verdict_is_success_when_all_workers_completed() {
    assert!(verdict(Exit::Completed, Exit::Completed, Exit::Completed).is_ok());
}

#[test]
fn verdict_takes_the_first_error_in_join_order() {
    match verdict(failed("r"), failed("s"), failed("w")) {
        Err(PipelineError::Failed { worker, description }) => {
            assert_eq!(worker, Worker::Read);
            assert_eq!(description, "r");
        }
        other => panic!("{:?}", other),
    }
    match verdict(Exit::Completed, failed("s"), failed("w")) {
        Err(PipelineError::Failed { worker, description }) => {
            assert_eq!(worker, Worker::Stats);
            assert_eq!(description, "s");
        }
        other => panic!("{:?}", other),
    }
    match verdict(Exit::Completed, Exit::Completed, failed("w")) {
        Err(PipelineError::Failed { worker, description }) => {
            assert_eq!(worker, Worker::Write);
            assert_eq!(description, "w");
        }
        other => panic!("{:?}", other),
    }
}

#[test]
fn verdict_puts_a_panic_before_an_error() {
    match verdict(failed("r"), Exit::Completed, panicked("w")) {
        Err(PipelineError::Panicked { worker, detail }) => {
            assert_eq!(worker, Worker::Write);
            assert_eq!(detail, "w");
        }
        other => panic!("{:?}", other),
    }
    match verdict(panicked("r"), panicked("s"), failed("w")) {
        Err(PipelineError::Panicked { worker, detail }) => {
            assert_eq!(worker, Worker::Read);
            assert_eq!(detail, "r");
        }
        other => panic!("{:?}", other),
    }
    match verdict(failed("r"), panicked("s"), panicked("w")) {
        Err(PipelineError::Panicked { worker, detail }) => {
            assert_eq!(worker, Worker::Stats);
            assert_eq!(detail, "s");
        }
        other => panic!("{:?}", other),
    }
}

#[test]
fn failure_message_names_the_worker_of_a_panic() {
    let read = PipelineError::Panicked { worker: Worker::Read, detail: "Any { .. }".to_string() };
    assert_eq!(read.message(), "Read thread panicked: Any { .. }");
    let stats = PipelineError::Panicked { worker: Worker::Stats, detail: "x".to_string() };
    assert_eq!(stats.message(), "Stats thread panicked: x");
    let write = PipelineError::Panicked { worker: Worker::Write, detail: String::new() };
    assert_eq!(write.message(), "Write thread panicked: ");
}

#[test]
fn failure_message_of_an_error_is_its_description() {
    let error = PipelineError::Failed {
        worker: Worker::Write,
        description: "No such file or directory (os error 2)".to_string(),
    };
    assert_eq!(error.message(), "No such file or directory (os error 2)");
}

#[test]
fn worker_names() {
    assert_eq!(Worker::Read.name(), "Read");
    assert_eq!(Worker::Stats.name(), "Stats");
    assert_eq!(Worker::Write.name(), "Write");
}

#[test]
fn chunk_size_is_16_kib() {
    assert_eq!(CHUNK_SIZE, 16_384);
}
