//! What holds of a recorder over many iterations.
//!
//! A run is a sequence of instants, one for each iteration, in the order in
//! which the iterations happen. The laws here are stated over
//! [`RecorderState::after`] and [`RecorderState::reports`], which apply
//! [`RecorderState::iteration`] and [`RecorderState::report`] along a run.

use crate::recorder::RecorderState;
use crate::report::Measurement;
use vstd::arithmetic::div_mod::lemma_fundamental_div_mod;
use vstd::arithmetic::div_mod::lemma_fundamental_div_mod_converse;
use vstd::prelude::*;

verus! {

impl RecorderState {
    /// The recorder after the iterations of a run.
    pub open spec fn after(self, instants: Seq<nat>) -> RecorderState
        decreases instants.len(),
    {
        if instants.len() == 0 {
            self
        } else {
            self.after(instants.drop_last()).iteration(instants.last())
        }
    }

    /// The reports that the iterations of a run give, oldest first.
    pub open spec fn reports(self, instants: Seq<nat>) -> Seq<Measurement>
        decreases instants.len(),
    {
        if instants.len() == 0 {
            Seq::empty()
        } else {
            let earlier = self.reports(instants.drop_last());
            match self.after(instants.drop_last()).report(instants.last()) {
                Some(measurement) => earlier.push(measurement),
                None => earlier,
            }
        }
    }
}

/// A clock that never runs backwards: no instant of the run lies before an
/// earlier one.
pub open spec fn non_decreasing(instants: Seq<nat>) -> bool {
    forall|i: int, j: int| 0 <= i <= j < instants.len() ==> instants[i] <= instants[j]
}

/// The nanoseconds of all the measurements together.
pub open spec fn total_elapsed(reports: Seq<Measurement>) -> nat
    decreases reports.len(),
{
    if reports.len() == 0 {
        0
    } else {
        total_elapsed(reports.drop_last()) + reports.last().elapsed
    }
}

/// One more than `x` either completes a multiple of `d` or moves the
/// remainder up by one.
proof fn lemma_successor_div_mod(x: int, d: int)
    requires
        0 <= x,
        0 < d,
    ensures
        x % d + 1 == d ==> (x + 1) % d == 0 && (x + 1) / d == x / d + 1,
        x % d + 1 != d ==> (x + 1) % d == x % d + 1 && (x + 1) / d == x / d,
{
    lemma_fundamental_div_mod(x, d);
    let q = x / d;
    let r = x % d;
    assert(0 <= r < d);
    if r + 1 == d {
        assert(x + 1 == (q + 1) * d + 0) by (nonlinear_arith)
            requires
                x == d * q + r,
                r + 1 == d,
        ;
        lemma_fundamental_div_mod_converse(x + 1, d, q + 1, 0);
    } else {
        assert(x + 1 == q * d + (r + 1)) by (nonlinear_arith)
            requires
                x == d * q + r,
        ;
        lemma_fundamental_div_mod_converse(x + 1, d, q, r + 1);
    }
}

/// Windowing. After any run, the count is the number of iterations so far
/// modulo the batch size, and the number of reports is that number divided by
/// the batch size; every report is of one full batch. For a recorder that
/// starts fresh, "so far" is the length of the run.
pub proof fn lemma_windowing(start: RecorderState, instants: Seq<nat>)
    requires
        start.wf(),
    ensures
        start.after(instants).wf(),
        start.after(instants).batch_size == start.batch_size,
        start.after(instants).count == (start.count + instants.len()) % start.batch_size,
        start.reports(instants).len() == (start.count + instants.len()) / start.batch_size,
        forall|k: int|
            0 <= k < start.reports(instants).len() ==> (#[trigger] start.reports(instants)[k]).calls
                == start.batch_size,
    decreases instants.len(),
{
    let d = start.batch_size as int;
    if instants.len() == 0 {
        lemma_fundamental_div_mod_converse(start.count as int, d, 0, start.count as int);
    } else {
        lemma_windowing(start, instants.drop_last());
        lemma_successor_div_mod(start.count + instants.len() - 1, d);
    }
}

/// Fewer iterations than a batch: each is counted, nothing is reported, and
/// the batch still begins where it began.
pub proof fn lemma_partial_batch(batch_size: nat, instants: Seq<nat>)
    requires
        instants.len() < batch_size,
    ensures
        RecorderState::fresh(batch_size).after(instants).count == instants.len(),
        RecorderState::fresh(batch_size).after(instants).last_instant == 0,
        RecorderState::fresh(batch_size).reports(instants) == Seq::<Measurement>::empty(),
    decreases instants.len(),
{
    if instants.len() > 0 {
        lemma_partial_batch(batch_size, instants.drop_last());
        lemma_windowing(RecorderState::fresh(batch_size), instants.drop_last());
    }
}

/// Exactly one batch of iterations: the count is back at zero, there is
/// exactly one report, and the next batch begins at the instant of the last
/// iteration. The report measures from the recorder's start to that instant.
pub proof fn lemma_full_batch(batch_size: nat, instants: Seq<nat>)
    requires
        batch_size > 0,
        instants.len() == batch_size,
    ensures
        RecorderState::fresh(batch_size).after(instants).count == 0,
        RecorderState::fresh(batch_size).after(instants).last_instant == instants.last(),
        RecorderState::fresh(batch_size).reports(instants) == seq![
            (Measurement { calls: batch_size, elapsed: instants.last() }),
        ],
{
    lemma_partial_batch(batch_size, instants.drop_last());
    lemma_windowing(RecorderState::fresh(batch_size), instants.drop_last());
}

/// The start of the current batch is the recorder's own start or an instant
/// of the run. Under a clock that never runs backwards it is therefore
/// neither before the recorder's start nor after the last iteration.
proof fn lemma_last_instant_bounds(start: RecorderState, instants: Seq<nat>)
    requires
        non_decreasing(instants),
        instants.len() > 0 ==> start.last_instant <= instants[0],
    ensures
        start.last_instant <= start.after(instants).last_instant,
        instants.len() > 0 ==> start.after(instants).last_instant <= instants.last(),
        instants.len() == 0 ==> start.after(instants).last_instant == start.last_instant,
    decreases instants.len(),
{
    if instants.len() > 0 {
        lemma_last_instant_bounds(start, instants.drop_last());
    }
}

/// Monotonicity. Under a clock that never runs backwards, and that does not
/// read less than it did when the recorder started, the start of the current
/// batch never moves back: after any part of a run it is no later than after
/// the whole run. In particular the values that successive reports leave in
/// `last_instant` do not decrease.
pub proof fn lemma_last_instant_monotonic(start: RecorderState, instants: Seq<nat>, part: int)
    requires
        non_decreasing(instants),
        instants.len() > 0 ==> start.last_instant <= instants[0],
        0 <= part <= instants.len(),
    ensures
        start.after(instants.take(part)).last_instant <= start.after(instants).last_instant,
    decreases instants.len(),
{
    if part == instants.len() {
        assert(instants.take(part) =~= instants);
    } else {
        let shorter = instants.drop_last();
        assert(shorter.take(part) =~= instants.take(part));
        lemma_last_instant_monotonic(start, shorter, part);
        lemma_last_instant_bounds(start, shorter);
    }
}

/// No drift. Under a clock that never runs backwards the batches lie end to
/// end: each begins at the instant at which the one before it ended, so the
/// reported times add up to the time from the recorder's start to the start
/// of the current batch.
pub proof fn lemma_batches_are_contiguous(start: RecorderState, instants: Seq<nat>)
    requires
        non_decreasing(instants),
        instants.len() > 0 ==> start.last_instant <= instants[0],
    ensures
        start.last_instant + total_elapsed(start.reports(instants)) == start.after(
            instants,
        ).last_instant,
    decreases instants.len(),
{
    if instants.len() > 0 {
        let shorter = instants.drop_last();
        lemma_batches_are_contiguous(start, shorter);
        lemma_last_instant_bounds(start, shorter);
        let before = start.after(shorter);
        if before.closes_batch() {
            let measurement = Measurement {
                calls: before.batch_size,
                elapsed: before.elapsed_at(instants.last()),
            };
            let all = start.reports(shorter).push(measurement);
            assert(all.drop_last() =~= start.reports(shorter));
        }
    }
}

} // verus!
