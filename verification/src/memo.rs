//! Once-per-process memoization of each stream's capability result.
//!
//! The cache holds, for each of the two streams, either "not yet computed" or
//! the computed boolean. The embedding program asks `lookup` first; only on
//! "not yet computed" does it run the probe and hand the outcome to `fulfill`,
//! which writes the cell at most once: a cell that already holds a value is
//! never overwritten, so every later query converges on the first stored
//! result.

use vstd::prelude::*;
use crate::Stream;

verus! {

/// What a cache cell holds after an attempt to store `probe` into a cell that
/// held `cell`: the first stored value wins, a later store changes nothing.
pub open spec fn spec_fulfilled_cell(cell: Option<bool>, probe: bool) -> Option<bool> {
    match cell {
        Option::Some(v) => Option::Some(v),
        Option::None => Option::Some(probe),
    }
}

/// What a store into a cell returns to its caller: the value the cell holds
/// afterwards.
pub open spec fn spec_fulfilled_value(cell: Option<bool>, probe: bool) -> bool {
    match cell {
        Option::Some(v) => v,
        Option::None => probe,
    }
}

/// The per-process cache of capability results, one cell per stream.
pub struct InteractivityCache {
    stdout_cell: Option<bool>,
    stderr_cell: Option<bool>,
}

impl InteractivityCache {
    /// The cell for one stream: `None` before the first probe of that stream,
    /// `Some` of the stored result afterwards.
    pub closed spec fn cell(self, stream: Stream) -> Option<bool> {
        match stream {
            Stream::Stdout => self.stdout_cell,
            Stream::Stderr => self.stderr_cell,
        }
    }

    /// A fresh cache: nothing computed yet for either stream.
    pub fn new() -> (cache: InteractivityCache)
        ensures
            cache.cell(Stream::Stdout) is None,
            cache.cell(Stream::Stderr) is None,
    {
        InteractivityCache { stdout_cell: None, stderr_cell: None }
    }

    /// The memoized read: the stored result if the stream's probe has already
    /// run, `None` if the caller must probe first.
    pub fn lookup(&self, stream: Stream) -> (cached: Option<bool>)
        ensures
            cached == self.cell(stream),
    {
        match stream {
            Stream::Stdout => self.stdout_cell,
            Stream::Stderr => self.stderr_cell,
        }
    }

    /// Stores a probe outcome and returns the value the cell now holds. The
    /// write happens only if the cell was empty: on a cell already filled the
    /// cache is unchanged and the previously stored value is returned, so all
    /// callers converge on the first stored result. The other stream's cell
    /// is untouched either way.
    pub fn fulfill(&mut self, stream: Stream, probe: bool) -> (value: bool)
        ensures
            final(self).cell(stream) == spec_fulfilled_cell(old(self).cell(stream), probe),
            value == spec_fulfilled_value(old(self).cell(stream), probe),
            final(self).cell(stream) == Option::Some(value),
            forall|other: Stream| other != stream ==> final(self).cell(other) == old(self).cell(other),
    {
        match stream {
            Stream::Stdout => {
                match self.stdout_cell {
                    Option::Some(v) => v,
                    Option::None => {
                        self.stdout_cell = Some(probe);
                        probe
                    }
                }
            }
            Stream::Stderr => {
                match self.stderr_cell {
                    Option::Some(v) => v,
                    Option::None => {
                        self.stderr_cell = Some(probe);
                        probe
                    }
                }
            }
        }
    }
}

/// Idempotence of the memoized query: once any probe outcome has been stored
/// for a stream, the cell is pinned — however many further stores happen, and
/// whatever outcomes they carry, the cell keeps its first value and every
/// store returns that same value.
pub proof fn lemma_memoization_idempotent(cell: Option<bool>, first: bool, later: bool)
    ensures
        spec_fulfilled_cell(spec_fulfilled_cell(cell, first), later)
            == spec_fulfilled_cell(cell, first),
        spec_fulfilled_value(spec_fulfilled_cell(cell, first), later)
            == spec_fulfilled_value(cell, first),
{
}

} // verus!
