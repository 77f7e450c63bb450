//! Debounce qualifier: turns a stream of raw level samples into qualified
//! levels. A level counts as qualified once it has been observed continuously
//! for at least a configured hold duration; a single opposite sample resets
//! the run.

use vstd::prelude::*;

use crate::spec_elapsed;

verus! {

/// A sampled digital level.
#[derive(Clone, Copy, PartialEq, Eq, Structural)]
pub enum Level {
    High,
    Low,
}

/// Tracks one polarity of the line: when the currently observed run of
/// matching samples began, and how long a run must last to qualify.
pub struct QualificationState {
    /// Timestamp (milliseconds) of the first sample of the current run of
    /// matching samples; `None` while no run is in progress.
    pub since: Option<u64>,
    /// Minimum continuous duration (milliseconds) before the level
    /// qualifies.
    pub hold: u64,
}

/// The new `since` after one sample: a matching sample starts a run or
/// leaves a running one alone; an opposite sample resets the run.
pub open spec fn spec_observe(since: Option<u64>, matches_polarity: bool, now: u64) -> Option<u64> {
    if matches_polarity {
        match since {
            Some(s) => Some(s),
            None => Some(now),
        }
    } else {
        None
    }
}

impl QualificationState {
    /// Whether the tracked polarity is qualified at `now`: a run is in
    /// progress and has lasted at least `hold`.
    pub open spec fn spec_qualified(self, now: u64) -> bool {
        match self.since {
            Some(s) => spec_elapsed(now, s) >= self.hold,
            None => false,
        }
    }

    /// A fresh tracker with no run in progress.
    pub fn new(hold: u64) -> (r: QualificationState)
        ensures
            r.since is None,
            r.hold == hold,
    {
        QualificationState { since: None, hold }
    }

    /// Records one sample at `now`: `matches_polarity` says whether the
    /// sample shows the polarity this state tracks.
    pub fn observe(&mut self, matches_polarity: bool, now: u64)
        ensures
            final(self).hold == old(self).hold,
            final(self).since == spec_observe(old(self).since, matches_polarity, now),
    {
        if matches_polarity {
            if self.since.is_none() {
                self.since = Some(now);
            }
        } else {
            self.since = None;
        }
    }

    /// Whether the tracked polarity is qualified at `now`.
    pub fn qualified(&self, now: u64) -> (r: bool)
        ensures
            r == self.spec_qualified(now),
    {
        match self.since {
            Some(s) => crate::elapsed(now, s) >= self.hold,
            None => false,
        }
    }
}

/// The `since` value reached by feeding a whole sequence of samples, in
/// order, through `spec_observe`. Each sample is a pair of "matches the
/// tracked polarity" and its timestamp.
pub open spec fn folded_since(samples: Seq<(bool, u64)>) -> Option<u64>
    decreases samples.len(),
{
    if samples.len() == 0 {
        None
    } else {
        spec_observe(folded_since(samples.drop_last()), samples.last().0, samples.last().1)
    }
}

/// Length of the trailing run: how many samples at the end of the sequence
/// all match the tracked polarity.
pub open spec fn trailing_run_len(samples: Seq<(bool, u64)>) -> int
    decreases samples.len(),
{
    if samples.len() == 0 || !samples.last().0 {
        0
    } else {
        trailing_run_len(samples.drop_last()) + 1
    }
}

/// Timestamp of the first sample of the trailing run, if one is in progress.
pub open spec fn trailing_run_start(samples: Seq<(bool, u64)>) -> Option<u64> {
    if trailing_run_len(samples) == 0 {
        None
    } else {
        Some(samples[samples.len() - trailing_run_len(samples)].1)
    }
}

/// Observing one more sample advances the folded `since` by exactly one
/// `spec_observe` step — feeding samples one at a time through `observe`
/// computes `folded_since` of the whole sequence.
pub proof fn lemma_folded_since_step(samples: Seq<(bool, u64)>, matches_polarity: bool, t: u64)
    ensures
        folded_since(samples.push((matches_polarity, t))) == spec_observe(
            folded_since(samples),
            matches_polarity,
            t,
        ),
{
    assert(samples.push((matches_polarity, t)).drop_last() =~= samples);
    assert(samples.push((matches_polarity, t)).last() == (matches_polarity, t));
}

/// The trailing run is never longer than the sequence itself.
pub proof fn lemma_trailing_run_len_bounds(samples: Seq<(bool, u64)>)
    ensures
        0 <= trailing_run_len(samples) <= samples.len(),
    decreases samples.len(),
{
    if samples.len() > 0 && samples.last().0 {
        lemma_trailing_run_len_bounds(samples.drop_last());
    }
}

/// The qualifier tracks exactly the most recent continuous run: for every
/// sequence of samples, the `since` reached by observing them all equals the
/// timestamp of the first sample of the trailing run of matching samples
/// (`None` when the last sample did not match).
pub proof fn lemma_since_is_trailing_run_start(samples: Seq<(bool, u64)>)
    ensures
        folded_since(samples) == trailing_run_start(samples),
    decreases samples.len(),
{
    if samples.len() > 0 {
        let prefix = samples.drop_last();
        lemma_since_is_trailing_run_start(prefix);
        lemma_trailing_run_len_bounds(prefix);
        if samples.last().0 {
            if folded_since(prefix) is Some {
                let k = prefix.len() - trailing_run_len(prefix);
                assert(prefix[k] == samples[k]);
            }
        }
    }
}

/// A single opposite sample resets the run: after it, no run is in progress.
pub proof fn lemma_opposite_sample_resets(samples: Seq<(bool, u64)>, t: u64)
    ensures
        folded_since(samples.push((false, t))) is None,
{
    assert(samples.push((false, t)).last() == (false, t));
}

/// A polarity is qualified at `now` after a sequence of samples iff a
/// trailing run of matching samples is in progress and the time elapsed
/// since its first sample is at least the hold duration.
pub proof fn lemma_qualified_characterization(samples: Seq<(bool, u64)>, hold: u64, now: u64)
    ensures
        (QualificationState { since: folded_since(samples), hold }).spec_qualified(now)
            <==> (trailing_run_len(samples) > 0 && spec_elapsed(
            now,
            samples[samples.len() - trailing_run_len(samples)].1,
        ) >= hold),
{
    lemma_trailing_run_len_bounds(samples);
    lemma_since_is_trailing_run_start(samples);
}

} // verus!
