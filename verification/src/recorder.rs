//! The recorder: turns a stream of "an iteration happened" into one report
//! per batch.

use crate::clock::Clock;
use crate::report::{measured, Measurement, Report};
use vstd::prelude::*;

verus! {

/// The number of iterations in a batch, unless a recorder is made with
/// another.
pub const BATCH_SIZE: usize = 5_000_000;

/// A recorder as a mathematical value. Instants are nanoseconds on the
/// recorder's own clock, which read zero when the recorder was made.
pub struct RecorderState {
    /// Iterations since the last batch boundary.
    pub count: nat,
    /// Iterations in a batch.
    pub batch_size: nat,
    /// The instant at which the current batch began.
    pub last_instant: nat,
}

impl RecorderState {
    /// A recorder that has seen nothing yet.
    pub open spec fn fresh(batch_size: nat) -> RecorderState {
        RecorderState { count: 0, batch_size, last_instant: 0 }
    }

    /// The count never reaches the batch size: a full batch resets it.
    pub open spec fn wf(self) -> bool {
        self.count < self.batch_size
    }

    /// Whether the next iteration completes the batch.
    pub open spec fn closes_batch(self) -> bool {
        self.count + 1 == self.batch_size
    }

    /// Nanoseconds from the start of the current batch to `now`, and zero if
    /// `now` lies before that start.
    pub open spec fn elapsed_at(self, now: nat) -> nat {
        if now >= self.last_instant {
            (now - self.last_instant) as nat
        } else {
            0
        }
    }

    /// The recorder after one more iteration, which happens at `now`. The
    /// instant matters only when the iteration completes a batch: the next
    /// batch begins where this one ends.
    pub open spec fn iteration(self, now: nat) -> RecorderState {
        if self.closes_batch() {
            RecorderState { count: 0, batch_size: self.batch_size, last_instant: now }
        } else {
            RecorderState {
                count: self.count + 1,
                batch_size: self.batch_size,
                last_instant: self.last_instant,
            }
        }
    }

    /// What one more iteration at `now` reports: the batch, if the iteration
    /// completes it.
    pub open spec fn report(self, now: nat) -> Option<Measurement> {
        if self.closes_batch() {
            Some(Measurement { calls: self.batch_size, elapsed: self.elapsed_at(now) })
        } else {
            None
        }
    }
}

/// Counts iterations and measures each batch of them. It is owned by the one
/// task that advances it.
pub struct Recorder {
    count: usize,
    batch_size: usize,
    last_instant: u128,
    clock: Clock,
}

impl View for Recorder {
    type V = RecorderState;

    closed spec fn view(&self) -> RecorderState {
        RecorderState {
            count: self.count as nat,
            batch_size: self.batch_size as nat,
            last_instant: self.last_instant as nat,
        }
    }
}

impl Recorder {
    #[verifier::type_invariant]
    spec fn count_below_batch_size(self) -> bool {
        self.count < self.batch_size
    }

    /// A recorder with batches of `batch_size` iterations, whose first batch
    /// begins now. There is no batch of zero iterations, so no recorder for
    /// it.
    pub fn new(batch_size: usize) -> (recorder: Option<Recorder>)
        ensures
            recorder.is_none() <==> batch_size == 0,
            recorder matches Some(r) ==> r@ == RecorderState::fresh(batch_size as nat) && r@.wf(),
    {
        if batch_size == 0 {
            None
        } else {
            Some(Recorder { count: 0, batch_size, last_instant: 0, clock: Clock::start() })
        }
    }

    /// Iterations since the last batch boundary.
    pub fn count(&self) -> (count: usize)
        ensures
            count == self@.count,
            self@.wf(),
    {
        proof {
            use_type_invariant(self);
        }
        self.count
    }

    /// Iterations in a batch.
    pub fn batch_size(&self) -> (batch_size: usize)
        ensures
            batch_size == self@.batch_size,
    {
        self.batch_size
    }

    /// The instant at which the current batch began: zero for the first
    /// batch, then the instant of the iteration that completed the batch
    /// before.
    pub fn last_instant(&self) -> (last_instant: u128)
        ensures
            last_instant == self@.last_instant,
    {
        self.last_instant
    }

    /// Records one iteration that happens at `now`, an instant on any clock
    /// the caller likes. Returns the report of the batch if this iteration
    /// completes it.
    pub fn iteration_at(&mut self, now: u128) -> (report: Option<Report>)
        ensures
            final(self)@ == old(self)@.iteration(now as nat),
            measured(report) == old(self)@.report(now as nat),
            final(self)@.wf(),
    {
        proof {
            use_type_invariant(&*self);
        }
        if self.count + 1 == self.batch_size {
            let elapsed_nanos: u128 = if now >= self.last_instant {
                now - self.last_instant
            } else {
                0
            };
            self.count = 0;
            self.last_instant = now;
            Some(Report { calls: self.batch_size, elapsed_nanos })
        } else {
            self.count = self.count + 1;
            None
        }
    }

    /// Records one iteration. The clock is read only if this iteration
    /// completes a batch; the reading is then the new `last_instant`, and the
    /// report is returned.
    pub fn iteration(&mut self) -> (report: Option<Report>)
        ensures
            final(self)@ == old(self)@.iteration(final(self)@.last_instant),
            measured(report) == old(self)@.report(final(self)@.last_instant),
            final(self)@.wf(),
    {
        proof {
            use_type_invariant(&*self);
        }
        let now: u128 = if self.count + 1 == self.batch_size {
            self.clock.now()
        } else {
            self.last_instant
        };
        self.iteration_at(now)
    }
}

impl Default for Recorder {
    /// A recorder with batches of [`BATCH_SIZE`] iterations, whose first
    /// batch begins now.
    fn default() -> (recorder: Recorder)
        ensures
            recorder@ == RecorderState::fresh(BATCH_SIZE as nat),
            recorder@.wf(),
    {
        Recorder { count: 0, batch_size: BATCH_SIZE, last_instant: 0, clock: Clock::start() }
    }
}

} // verus!
