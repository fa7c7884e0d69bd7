//! Keeping score: whether each answer was right, and how long it took.

use std::time::{Duration, Instant};
use vstd::prelude::*;

verus! {

/// `std::time::Instant`, a moment on the clock. Nothing is known of what
/// it holds.
#[verifier::external_type_specification]
#[verifier::external_body]
pub struct ExInstant(Instant);

/// `std::time::Instant::now` reads the clock. Nothing is known of the
/// moment that comes back.
pub assume_specification[ Instant::now ]() -> (now: Instant);

/// `std::time::Instant::elapsed` gives the time since the instant was
/// taken. Nothing is known of its length.
pub assume_specification[ Instant::elapsed ](start: &Instant) -> (elapsed: Duration);

/// The record of a session: one entry for each answer that was graded, in
/// the order in which they were given.
pub struct Scorekeeper {
    attempt_start: Instant,
    results: Vec<(bool, Duration)>,
}

/// The times of the answers that were right, in order.
pub open spec fn times_of_correct(results: Seq<(bool, Duration)>) -> Seq<Duration> {
    results.filter(|result: (bool, Duration)| result.0).map_values(
        |result: (bool, Duration)| result.1,
    )
}

impl View for Scorekeeper {
    type V = Seq<(bool, Duration)>;

    /// The entries so far: whether the answer was right, and the time it
    /// took.
    closed spec fn view(&self) -> Seq<(bool, Duration)> {
        self.results@
    }
}

impl Scorekeeper {
    /// An empty record. The time of the first answer is counted from now.
    pub fn new() -> (keeper: Self)
        ensures
            keeper@ == Seq::<(bool, Duration)>::empty(),
    {
        Scorekeeper { attempt_start: Instant::now(), results: Vec::new() }
    }

    /// Enters an answer that took `duration`; the time of the next answer
    /// is counted from `next_start`.
    pub fn record(&mut self, success: bool, duration: Duration, next_start: Instant)
        ensures
            final(self)@ == old(self)@.push((success, duration)),
    {
        self.results.push((success, duration));
        self.attempt_start = next_start;
    }

    /// Enters an answer given now, and returns the time it took. The time
    /// of the next answer is counted from now.
    pub fn add_result(&mut self, success: bool) -> (duration: Duration)
        ensures
            final(self)@ == old(self)@.push((success, duration)),
    {
        let duration = self.attempt_start.elapsed();
        self.record(success, duration, Instant::now());
        duration
    }

    /// The number of answers that were graded.
    pub fn attempt_count(&self) -> (count: usize)
        ensures
            count == self@.len(),
    {
        self.results.len()
    }

    /// The times of the answers that were right, in order.
    pub fn correct_times(&self) -> (times: Vec<Duration>)
        ensures
            times@ == times_of_correct(self@),
    {
        let mut times: Vec<Duration> = Vec::new();
        let mut i: usize = 0;
        assert(self.results@.take(0) =~= Seq::<(bool, Duration)>::empty());
        while i < self.results.len()
            invariant
                i <= self.results@.len(),
                times@ == times_of_correct(self.results@.take(i as int)),
            decreases self.results@.len() - i,
        {
            let result = self.results[i];
            proof {
                let seen = self.results@.take(i as int);
                assert(self.results@.take(i + 1) =~= seen.push(result));
                seen.lemma_filter_push(result, |result: (bool, Duration)| result.0);
                assert(times_of_correct(seen.push(result)) =~= if result.0 {
                    times_of_correct(seen).push(result.1)
                } else {
                    times_of_correct(seen)
                });
            }
            if result.0 {
                times.push(result.1);
            }
            i += 1;
        }
        assert(self.results@.take(i as int) =~= self.results@);
        times
    }
}

} // verus!
