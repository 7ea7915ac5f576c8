//! Progress statistics: the running total, the rate and the progress line.

use crate::pipeviewer::channel::recv;
use crate::pipeviewer::stats::timer::{nanos_between, now, Timer};
use crossbeam::channel::Receiver;
use crate::text::{decimal, push_decimal, push_two_digits, zero_padded};
use std::time::Instant;
use vstd::prelude::*;

pub mod timer;

verus! {

/// The number of nanoseconds in a second.
pub const NANOS_PER_SEC: u128 = 1_000_000_000;

/// A span of whole seconds written as `H:MM:SS`: the hours as they are, the
/// minutes and the seconds with two digits each.
pub open spec fn clock_text(secs: nat) -> Seq<char> {
    decimal(secs / 3600) + seq![':'] + zero_padded((secs % 3600) / 60, 2) + seq![':']
        + zero_padded(secs % 60, 2)
}

/// Formatting a number of seconds as a time of the form `H:MM:SS`.
pub trait TimeOutput {
    /// The characters that `as_time` gives.
    spec fn time_text(&self) -> Seq<char>;

    /// The value as hours, minutes and seconds.
    fn as_time(&self) -> (text: String)
        ensures
            text@ == self.time_text(),
    ;
}

impl TimeOutput for u64 {
    open spec fn time_text(&self) -> Seq<char> {
        clock_text(*self as nat)
    }

    fn as_time(&self) -> (text: String) {
        let hours: u64 = *self / 3600;
        let left: u64 = *self % 3600;
        let mins: u64 = left / 60;
        let secs: u64 = left % 60;
        let mut text = String::new();
        push_decimal(&mut text, hours as u128);
        text.push(':');
        push_two_digits(&mut text, mins as u128);
        text.push(':');
        push_two_digits(&mut text, secs as u128);
        assert(text@ =~= clock_text(*self as nat));
        text
    }
}

/// The rate at which `num_bytes` bytes arrived in `delta` nanoseconds, in
/// whole bytes per second, rounded down. Where no time has passed, the
/// interval counts as one second and the rate is the number of bytes.
pub open spec fn rate_per_second(num_bytes: nat, delta: nat) -> nat {
    if delta == 0 {
        num_bytes
    } else {
        num_bytes * 1_000_000_000 / delta
    }
}

/// Computes `rate_per_second`.
pub fn rate(num_bytes: usize, delta: u128) -> (r: u128)
    ensures
        r == rate_per_second(num_bytes as nat, delta as nat),
{
    if delta == 0 {
        num_bytes as u128
    } else {
        (num_bytes as u128) * NANOS_PER_SEC / delta
    }
}

/// What one progress line shows.
#[derive(Clone, Copy, Debug, PartialEq, Eq, Structural)]
pub struct ProgressSnapshot {
    /// The bytes seen so far.
    pub total_bytes: usize,
    /// The whole seconds since the monitor started.
    pub elapsed_secs: u64,
    /// The rate of the chunk seen last, in bytes per second.
    pub rate: u128,
}

impl ProgressSnapshot {
    /// The first part of the line: the total and a space.
    pub open spec fn bytes_chars(self) -> Seq<char> {
        decimal(self.total_bytes as nat) + seq![' ']
    }

    /// The middle part of the line: the elapsed time as `H:MM:SS`.
    pub open spec fn elapsed_chars(self) -> Seq<char> {
        clock_text(self.elapsed_secs as nat)
    }

    /// The last part of the line: a space and the rate in square brackets.
    pub open spec fn rate_chars(self) -> Seq<char> {
        seq![' ', '['] + decimal(self.rate as nat) + seq!['b', '/', 's', ']']
    }

    /// The whole line, `<total> <H:MM:SS> [<rate>b/s]`.
    pub open spec fn line_chars(self) -> Seq<char> {
        self.bytes_chars() + self.elapsed_chars() + self.rate_chars()
    }

    /// The total, followed by a space.
    pub fn bytes_text(&self) -> (text: String)
        ensures
            text@ == self.bytes_chars(),
    {
        let mut text = String::new();
        push_decimal(&mut text, self.total_bytes as u128);
        text.push(' ');
        assert(text@ =~= self.bytes_chars());
        text
    }

    /// The elapsed time as `H:MM:SS`.
    pub fn elapsed_text(&self) -> (text: String)
        ensures
            text@ == self.elapsed_chars(),
    {
        self.elapsed_secs.as_time()
    }

    /// The rate in square brackets, with a space in front.
    pub fn rate_text(&self) -> (text: String)
        ensures
            text@ == self.rate_chars(),
    {
        let mut text = String::new();
        text.push(' ');
        text.push('[');
        push_decimal(&mut text, self.rate);
        text.push('b');
        text.push('/');
        text.push('s');
        text.push(']');
        assert(text@ =~= self.rate_chars());
        text
    }

    /// The progress line.
    pub fn line(&self) -> (text: String)
        ensures
            text@ == self.line_chars(),
    {
        let mut text = String::new();
        push_decimal(&mut text, self.total_bytes as u128);
        text.push(' ');
        let hours: u64 = self.elapsed_secs / 3600;
        let left: u64 = self.elapsed_secs % 3600;
        push_decimal(&mut text, hours as u128);
        text.push(':');
        push_two_digits(&mut text, (left / 60) as u128);
        text.push(':');
        push_two_digits(&mut text, (left % 60) as u128);
        text.push(' ');
        text.push('[');
        push_decimal(&mut text, self.rate);
        text.push('b');
        text.push('/');
        text.push('s');
        text.push(']');
        assert(text@ =~= self.line_chars());
        text
    }
}


/// Whether the monitor goes on after a step.
#[derive(Clone, Copy, Debug, PartialEq, Eq, Structural)]
pub enum Flow {
    /// A count was taken in; more may follow.
    Continue,
    /// The stream is over: the count was zero, or the channel has no sender
    /// left.
    Finished,
    /// The count would take the total beyond `usize::MAX`. Nothing was
    /// changed.
    Overflow,
}

/// The outcome of one step of the monitor.
#[derive(Clone, Copy, Debug, PartialEq, Eq, Structural)]
pub struct MonitorStep {
    /// The progress line to draw, where one is due.
    pub shown: Option<ProgressSnapshot>,
    /// Whether to go on.
    pub flow: Flow,
}

/// One message on the counts channel as the monitor meets it.
pub struct Arrival {
    /// The count received, or `None` where the channel has no sender left.
    pub message: Option<usize>,
    /// The nanoseconds since the message before.
    pub delta: u128,
    /// The whole seconds since the monitor started.
    pub elapsed_secs: u64,
}

/// The state of the monitor: the running total and the timer that spaces the
/// progress lines.
pub struct Monitor {
    /// Whether progress lines are suppressed.
    pub silent: bool,
    /// The bytes counted so far.
    pub total_bytes: usize,
    /// The clock reading at the start.
    pub start: Instant,
    /// The timer that spaces the progress lines.
    pub timer: Timer,
}

impl Monitor {
    /// Whether the total has room for `num_bytes` more.
    pub open spec fn fits(self, num_bytes: usize) -> bool {
        self.total_bytes + num_bytes <= usize::MAX
    }

    /// Whether a progress line is drawn for a count that comes `delta`
    /// nanoseconds after the one before: the monitor is not silent and the
    /// timer is ready.
    pub open spec fn due(self, delta: u128) -> bool {
        !self.silent && self.timer.ticked(delta).ready
    }

    /// The monitor after a count of `num_bytes` that comes `delta`
    /// nanoseconds after the one before: the total has grown, the timer has
    /// moved on, and `ready` is cleared where a line was drawn.
    pub open spec fn observed(self, num_bytes: usize, delta: u128) -> Monitor {
        Monitor {
            silent: self.silent,
            total_bytes: (self.total_bytes + num_bytes) as usize,
            start: self.start,
            timer: Timer {
                ready: self.silent && self.timer.ticked(delta).ready,
                ..self.timer.ticked(delta)
            },
        }
    }

    /// What the line for that count shows.
    pub open spec fn snapshot_of(
        self,
        num_bytes: usize,
        delta: u128,
        elapsed_secs: u64,
    ) -> ProgressSnapshot {
        ProgressSnapshot {
            total_bytes: (self.total_bytes + num_bytes) as usize,
            elapsed_secs,
            rate: rate_per_second(num_bytes as nat, delta as nat) as u128,
        }
    }

    /// One step of the monitor: the state after `arrival` and what the step
    /// hands back. A message of zero is processed like any other and then
    /// ends the stream; a channel without senders ends it at once.
    pub open spec fn stepped(self, arrival: Arrival) -> (Monitor, MonitorStep) {
        match arrival.message {
            None => (self, MonitorStep { shown: None, flow: Flow::Finished }),
            Some(num_bytes) => if !self.fits(num_bytes) {
                (self, MonitorStep { shown: None, flow: Flow::Overflow })
            } else {
                (
                    self.observed(num_bytes, arrival.delta),
                    MonitorStep {
                        shown: if self.due(arrival.delta) {
                            Some(self.snapshot_of(num_bytes, arrival.delta, arrival.elapsed_secs))
                        } else {
                            None
                        },
                        flow: if num_bytes == 0 {
                            Flow::Finished
                        } else {
                            Flow::Continue
                        },
                    },
                )
            },
        }
    }

    /// The same monitor with the clock reading of its timer put back to
    /// `last_instant`.
    pub open spec fn at(self, last_instant: Instant) -> Monitor {
        Monitor { timer: Timer { last_instant, ..self.timer }, ..self }
    }

    /// A monitor that starts now, with nothing counted and a timer that is
    /// ready.
    pub fn new(silent: bool) -> (monitor: Monitor)
        ensures
            monitor.silent == silent,
            monitor.total_bytes == 0,
            monitor.timer.delta == 0,
            monitor.timer.period == timer::PERIOD_NANOS,
            monitor.timer.count_down == 0,
            monitor.timer.ready,
    {
        Monitor { silent, total_bytes: 0, start: now(), timer: Timer::new() }
    }

    /// Adds `num_bytes` to the total and tells whether a line is due,
    /// clearing `ready` where it is.
    fn account(&mut self, num_bytes: usize) -> (due: bool)
        requires
            old(self).fits(num_bytes),
        ensures
            due == (!old(self).silent && old(self).timer.ready),
            *final(self) == (Monitor {
                total_bytes: (old(self).total_bytes + num_bytes) as usize,
                timer: Timer { ready: old(self).silent && old(self).timer.ready, ..old(self).timer },
                ..*old(self)
            }),
    {
        self.total_bytes = self.total_bytes + num_bytes;
        if !self.silent && self.timer.ready {
            self.timer.ready = false;
            true
        } else {
            false
        }
    }

    /// Takes in one message from the counts channel, which came `delta`
    /// nanoseconds after the one before and `elapsed_secs` seconds after the
    /// start.
    pub fn observe(&mut self, message: Option<usize>, delta: u128, elapsed_secs: u64) -> (step:
        MonitorStep)
        ensures
            (*final(self), step) == old(self).stepped(Arrival { message, delta, elapsed_secs }),
    {
        match message {
            None => MonitorStep { shown: None, flow: Flow::Finished },
            Some(num_bytes) => {
                if num_bytes > usize::MAX - self.total_bytes {
                    return MonitorStep { shown: None, flow: Flow::Overflow };
                }
                self.timer.tick(delta);
                let due = self.account(num_bytes);
                let shown = if due {
                    Some(
                        ProgressSnapshot {
                            total_bytes: self.total_bytes,
                            elapsed_secs,
                            rate: rate(num_bytes, delta),
                        },
                    )
                } else {
                    None
                };
                let flow = if num_bytes == 0 {
                    Flow::Finished
                } else {
                    Flow::Continue
                };
                MonitorStep { shown, flow }
            },
        }
    }

    /// Waits for the next message on the counts channel and takes it in,
    /// reading the clock for the time that has passed. Whatever arrives,
    /// the step is the one that `stepped` gives for it.
    pub fn next(&mut self, stats_rx: &Receiver<usize>) -> (step: MonitorStep)
        ensures
            exists|message: Option<usize>, elapsed_secs: u64|
                (final(self).at(old(self).timer.last_instant), step) == old(self).stepped(
                    Arrival { message, delta: final(self).timer.delta, elapsed_secs },
                ),
    {
        let message = recv(stats_rx);
        match message {
            None => {
                assert((self.at(old(self).timer.last_instant), MonitorStep {
                    shown: None,
                    flow: Flow::Finished,
                }) == old(self).stepped(
                    Arrival { message, delta: self.timer.delta, elapsed_secs: 0 },
                ));
                MonitorStep { shown: None, flow: Flow::Finished }
            },
            Some(num_bytes) => {
                if num_bytes > usize::MAX - self.total_bytes {
                    assert((self.at(old(self).timer.last_instant), MonitorStep {
                        shown: None,
                        flow: Flow::Overflow,
                    }) == old(self).stepped(
                        Arrival { message, delta: self.timer.delta, elapsed_secs: 0 },
                    ));
                    return MonitorStep { shown: None, flow: Flow::Overflow };
                }
                self.timer.update();
                let delta = self.timer.delta;
                let due = self.account(num_bytes);
                let mut elapsed_secs: u64 = 0;
                let shown = if due {
                    let elapsed = nanos_between(&self.start, &now());
                    assert(elapsed / NANOS_PER_SEC <= u64::MAX);
                    elapsed_secs = (elapsed / NANOS_PER_SEC) as u64;
                    Some(
                        ProgressSnapshot {
                            total_bytes: self.total_bytes,
                            elapsed_secs,
                            rate: rate(num_bytes, delta),
                        },
                    )
                } else {
                    None
                };
                let flow = if num_bytes == 0 {
                    Flow::Finished
                } else {
                    Flow::Continue
                };
                let step = MonitorStep { shown, flow };
                assert((self.at(old(self).timer.last_instant), step) == old(self).stepped(
                    Arrival { message, delta, elapsed_secs },
                ));
                step
            },
        }
    }

    /// What is written when the stream is over: a line feed, so that the
    /// last progress line stays on the screen, and nothing for a silent
    /// monitor.
    pub fn closing_text(&self) -> (text: String)
        ensures
            text@ == if self.silent {
                Seq::<char>::empty()
            } else {
                seq!['\n']
            },
    {
        let mut text = String::new();
        if !self.silent {
            text.push('\n');
        }
        assert(text@ =~= if self.silent {
            Seq::<char>::empty()
        } else {
            seq!['\n']
        });
        text
    }
}

/// Adds `num_read` to the total and gives the text that reports it: a
/// carriage return and the new total, and a line feed after the last chunk.
/// A silent run reports nothing.
pub fn stats(silent: bool, num_read: usize, total_bytes: &mut usize, last: bool) -> (text: String)
    requires
        *old(total_bytes) + num_read <= usize::MAX,
    ensures
        *final(total_bytes) == *old(total_bytes) + num_read,
        text@ == stats_text(silent, *final(total_bytes), last),
{
    *total_bytes = *total_bytes + num_read;
    let mut text = String::new();
    if !silent {
        text.push('\r');
        push_decimal(&mut text, *total_bytes as u128);
        if last {
            text.push('\n');
        }
    }
    assert(text@ =~= stats_text(silent, *total_bytes, last));
    text
}

/// The text that `stats` gives for a total.
pub open spec fn stats_text(silent: bool, total_bytes: usize, last: bool) -> Seq<char> {
    if silent {
        Seq::<char>::empty()
    } else if last {
        seq!['\r'] + decimal(total_bytes as nat) + seq!['\n']
    } else {
        seq!['\r'] + decimal(total_bytes as nat)
    }
}

} // verus!
