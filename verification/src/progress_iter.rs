//! A progress bar that wraps an iterator and grows by one star for every
//! item asked of it.

use crate::text::repeated;
use vstd::prelude::*;
use vstd::std_specs::iter::IteratorSpec;

verus! {

/// The mark of a progress bar that does not know how far it has to go.
#[derive(Debug)]
pub struct Unbounded;

/// The mark of a progress bar that knows its length.
#[derive(Debug)]
pub struct Bounded {
    /// The number of items that the iterator held when the bound was taken.
    pub bound: usize,
    /// The characters that stand before and after the bar.
    pub delims: (char, char),
}

/// The text that shows a progress bar.
pub trait ProgressDisplay: Sized {
    /// The characters that `display` gives.
    spec fn display_chars(&self) -> Seq<char>;

    /// The text to print for the bar as it stands: a carriage return, so
    /// that the bar is drawn over the one before, and the bar.
    fn display(&self) -> (text: String)
        ensures
            text@ == self.display_chars(),
    ;
}

/// An iterator together with the count of the items asked of it.
#[derive(Debug)]
pub struct Progress<Iter, Bound = Unbounded> {
    /// The iterator that is wrapped.
    pub iter: Iter,
    /// The number of items asked for so far.
    pub i: usize,
    /// What is known of the length.
    pub bound: Bound,
}

/// A bar of `stars` stars, filled up with spaces to a width of `width` where
/// it is shorter.
pub open spec fn bar(stars: nat, width: nat) -> Seq<char> {
    if stars < width {
        repeated('*', stars) + repeated(' ', (width - stars) as nat)
    } else {
        repeated('*', stars)
    }
}

/// Appends `count` copies of `c` to `out`.
fn push_repeated(out: &mut String, c: char, count: usize)
    ensures
        final(out)@ == old(out)@ + repeated(c, count as nat),
{
    let mut done: usize = 0;
    while done < count
        invariant
            done <= count,
            out@ == old(out)@ + repeated(c, done as nat),
        decreases count - done,
    {
        out.push(c);
        done = done + 1;
        assert(out@ =~= old(out)@ + repeated(c, done as nat));
    }
}

impl<Iter> ProgressDisplay for Progress<Iter, Bounded> {
    open spec fn display_chars(&self) -> Seq<char> {
        seq!['\r', self.bound.delims.0] + bar(self.i as nat, self.bound.bound as nat) + seq![
            self.bound.delims.1,
        ]
    }

    fn display(&self) -> (text: String) {
        let mut text = String::new();
        text.push('\r');
        text.push(self.bound.delims.0);
        push_repeated(&mut text, '*', self.i);
        if self.i < self.bound.bound {
            push_repeated(&mut text, ' ', self.bound.bound - self.i);
        }
        text.push(self.bound.delims.1);
        assert(text@ =~= self.display_chars());
        text
    }
}

impl<Iter> ProgressDisplay for Progress<Iter, Unbounded> {
    open spec fn display_chars(&self) -> Seq<char> {
        seq!['\r'] + repeated('*', self.i as nat)
    }

    fn display(&self) -> (text: String) {
        let mut text = String::new();
        text.push('\r');
        push_repeated(&mut text, '*', self.i);
        text
    }
}

impl<Iter> Progress<Iter> {
    /// A progress bar around `iter` that has counted nothing yet.
    pub fn new(iter: Iter) -> (progress: Self)
        ensures
            progress.iter == iter,
            progress.i == 0,
    {
        Progress { iter, i: 0, bound: Unbounded }
    }
}

impl<Iter> Progress<Iter, Bounded> {
    /// The same bar between the two characters of `delims`.
    pub fn with_delims(self, delims: (char, char)) -> (progress: Self)
        ensures
            progress.iter == self.iter,
            progress.i == self.i,
            progress.bound.bound == self.bound.bound,
            progress.bound.delims == delims,
    {
        let mut progress = self;
        progress.bound.delims = delims;
        progress
    }
}

/// Wrapping any iterator in a progress bar.
pub trait ProgressIteratorExt: Sized {
    /// A progress bar around the iterator that has counted nothing yet.
    fn progress(self) -> (progress: Progress<Self>)
        ensures
            progress.iter == self,
            progress.i == 0,
    ;
}

impl<Iter> ProgressIteratorExt for Iter where Iter: Iterator {
    fn progress(self) -> (progress: Progress<Self>) {
        Progress::new(self)
    }
}

impl<Iter, Bound> Progress<Iter, Bound> where Iter: Iterator, Progress<Iter, Bound>: ProgressDisplay {
    /// Gives the text of the bar as it stands, counts one item more and
    /// asks the iterator for its next item.
    pub fn next(&mut self) -> (step: (String, Option<Iter::Item>))
        requires
            old(self).i < usize::MAX,
        ensures
            step.0@ == old(self).display_chars(),
            final(self).i == old(self).i + 1,
            final(self).bound == old(self).bound,
            old(self).iter.obeys_prophetic_iter_laws() ==> if old(self).iter.remaining().len() > 0 {
                &&& step.1 == Some(old(self).iter.remaining()[0])
                &&& final(self).iter.remaining() == old(self).iter.remaining().drop_first()
            } else {
                step.1 is None
            },
    {
        let text = self.display();
        self.i = self.i + 1;
        let item = self.iter.next();
        (text, item)
    }
}

/// The number of items that an iterator of known length says it still
/// holds, by `ExactSizeIterator::len`. What it says is up to the iterator,
/// so nothing is claimed of it.
#[verifier::external_body]
fn exact_len<Iter: ExactSizeIterator>(iter: &Iter) -> (len: usize) {
    iter.len()
}

impl<Iter> Progress<Iter, Unbounded> {
    /// The same bar with `bound` as its length, in square brackets.
    pub fn bounded_by(self, bound: usize) -> (progress: Progress<Iter, Bounded>)
        ensures
            progress.iter == self.iter,
            progress.i == self.i,
            progress.bound.bound == bound,
            progress.bound.delims == ('[', ']'),
    {
        let bound = Bounded { bound, delims: ('[', ']') };
        Progress { iter: self.iter, i: self.i, bound }
    }
}

impl<Iter> Progress<Iter, Unbounded> where Iter: ExactSizeIterator {
    /// The same bar with the number of items that the iterator says are
    /// left as its bound, in square brackets.
    pub fn with_bound(self) -> (progress: Progress<Iter, Bounded>)
        ensures
            progress.iter == self.iter,
            progress.i == self.i,
            progress.bound.delims == ('[', ']'),
    {
        let bound = exact_len(&self.iter);
        self.bounded_by(bound)
    }
}

} // verus!
