//! Aggregate transfer progress: chunk counters and the percentage signal
//! sent to the UI, capped at 99 until completion is explicit.

use vstd::prelude::*;

verus! {

/// The percentage emitted for `completed` chunks out of `total`: the raw
/// ratio in whole points, capped at 99. Only an explicit completion signal
/// may raise the emitted value to 100.
pub open spec fn spec_capped_percent(completed: int, total: int) -> int {
    if total > 0 {
        let raw = completed * 100 / total;
        if raw < 99 {
            raw
        } else {
            99
        }
    } else {
        0
    }
}

/// Completion cap: whatever the counters say, the emitted percentage before
/// `complete` lies between 0 and 99.
pub proof fn lemma_progress_cap(completed: int, total: int)
    requires
        completed >= 0,
        total >= 0,
    ensures
        0 <= spec_capped_percent(completed, total) <= 99,
{
    if total > 0 {
        assert(completed * 100 / total >= 0) by (nonlinear_arith)
            requires
                completed >= 0,
                total > 0,
        ;
    }
}

/// Tracks `(completed, total)` chunk counts and the last emitted percentage.
pub struct ProgressTracker {
    total_chunks: u64,
    completed_chunks: u64,
    percent: u64,
}

impl ProgressTracker {
    pub closed spec fn spec_total(&self) -> u64 {
        self.total_chunks
    }

    pub closed spec fn spec_completed(&self) -> u64 {
        self.completed_chunks
    }

    /// The last percentage handed to the UI.
    pub closed spec fn spec_percent(&self) -> u64 {
        self.percent
    }

    pub fn new(total_chunks: u64) -> (t: Self)
        ensures
            t.spec_total() == total_chunks,
            t.spec_completed() == 0,
            t.spec_percent() == 0,
    {
        ProgressTracker { total_chunks, completed_chunks: 0, percent: 0 }
    }

    /// Counts one completed chunk and recomputes the emitted percentage,
    /// which stays at or below 99; returns `(completed, total)`.
    pub fn increment(&mut self) -> (r: (u64, u64))
        requires
            old(self).spec_completed() < u64::MAX,
        ensures
            final(self).spec_completed() == old(self).spec_completed() + 1,
            final(self).spec_total() == old(self).spec_total(),
            final(self).spec_percent() == spec_capped_percent(
                final(self).spec_completed() as int,
                final(self).spec_total() as int,
            ),
            final(self).spec_percent() <= 99,
            r.0 == final(self).spec_completed(),
            r.1 == final(self).spec_total(),
    {
        self.completed_chunks = self.completed_chunks + 1;
        let completed = self.completed_chunks;
        let total = self.total_chunks;
        let raw: u64 = if total > 0 {
            let wide = (completed as u128) * 100 / (total as u128);
            proof {
                assert(wide == completed as int * 100 / total as int);
            }
            if wide < 99 {
                wide as u64
            } else {
                99
            }
        } else {
            0
        };
        proof {
            lemma_progress_cap(completed as int, total as int);
        }
        self.percent = raw;
        (completed, total)
    }

    /// Sets the expected total; the emitted percentage is untouched until
    /// the next increment.
    pub fn set_total(&mut self, total: u64)
        ensures
            final(self).spec_total() == total,
            final(self).spec_completed() == old(self).spec_completed(),
            final(self).spec_percent() == old(self).spec_percent(),
    {
        self.total_chunks = total;
    }

    pub fn get_progress(&self) -> (r: (u64, u64))
        ensures
            r.0 == self.spec_completed(),
            r.1 == self.spec_total(),
    {
        (self.completed_chunks, self.total_chunks)
    }

    /// Signals completion: the emitted percentage becomes exactly 100.
    pub fn complete(&mut self)
        ensures
            final(self).spec_percent() == 100,
            final(self).spec_completed() == old(self).spec_completed(),
            final(self).spec_total() == old(self).spec_total(),
    {
        self.percent = 100;
    }

    /// The percentage to hand to the UI.
    pub fn current_percent(&self) -> (p: u64)
        ensures
            p == self.spec_percent(),
    {
        self.percent
    }
}

} // verus!
