use vstd::prelude::*;

verus! {

/// Sum of a sequence of signal samples.
pub open spec fn sample_sum(s: Seq<u32>) -> int
    decreases s.len(),
{
    if s.len() == 0 {
        0
    } else {
        sample_sum(s.drop_last()) + s.last()
    }
}

/// The samples kept once `value` is recorded into `samples` with room for
/// `window` samples: the new sample goes last and, when that makes one too
/// many, the oldest sample leaves.
pub open spec fn record_sample(samples: Seq<u32>, window: nat, value: u32) -> Seq<u32> {
    let pushed = samples.push(value);
    if pushed.len() > window {
        pushed.remove(0)
    } else {
        pushed
    }
}

/// The samples kept once every sample of `feed` has been recorded, in order,
/// into an empty history with room for `window` samples.
pub open spec fn record_all(window: nat, feed: Seq<u32>) -> Seq<u32>
    decreases feed.len(),
{
    if feed.len() == 0 {
        Seq::empty()
    } else {
        record_sample(record_all(window, feed.drop_last()), window, feed.last())
    }
}

/// The mean of a set of samples, kept exactly as the fraction `sum / count`.
#[derive(Clone, Copy, Debug, PartialEq, Eq, Structural)]
pub struct Average {
    pub sum: u128,
    pub count: usize,
}

/// Whether `avg` is the average of `samples`.
pub open spec fn is_average_of(avg: Average, samples: Seq<u32>) -> bool {
    avg.sum == sample_sum(samples) && avg.count == samples.len()
}

/// Whether the mean `avg` lies strictly below `threshold`. An average of no
/// samples has no mean and is never below anything.
pub open spec fn below_threshold(avg: Average, threshold: u32) -> bool {
    avg.count > 0 && avg.sum < threshold as int * avg.count as int
}

impl Average {
    /// Tells whether the mean lies strictly below `threshold`
    /// (`sum / count < threshold`, compared without rounding).
    pub fn is_below(&self, threshold: u32) -> (b: bool)
        ensures
            b == below_threshold(*self, threshold),
    {
        if self.count == 0 {
            return false;
        }
        let t = threshold as u128;
        let c = self.count as u128;
        assert(t * c <= 0xffff_ffff_ffff_ffff_ffff_ffff_u128) by (nonlinear_arith)
            requires
                t <= 0xffff_ffff_u128,
                c <= 0xffff_ffff_ffff_ffff_u128,
        ;
        self.sum < t * c
    }
}

/// A bounded window of the most recent signal samples.
pub struct SignalHistory {
    values: Vec<u32>,
    window_size: usize,
}

impl SignalHistory {
    /// The samples held, oldest first.
    pub closed spec fn samples(&self) -> Seq<u32> {
        self.values@
    }

    /// How many samples the history keeps at most.
    pub closed spec fn window(&self) -> nat {
        self.window_size as nat
    }

    /// An empty history that keeps at most `window_size` samples.
    pub fn new(window_size: usize) -> (h: Self)
        ensures
            h.samples() == Seq::<u32>::empty(),
            h.window() == window_size,
    {
        SignalHistory { values: Vec::new(), window_size }
    }

    /// Records a sample, dropping the oldest one when the window overflows,
    /// and returns the average of the samples now held.
    pub fn add(&mut self, val: u32) -> (avg: Average)
        ensures
            final(self).window() == old(self).window(),
            final(self).samples() == record_sample(old(self).samples(), old(self).window(), val),
            is_average_of(avg, final(self).samples()),
    {
        self.values.push(val);
        if self.values.len() > self.window_size {
            self.values.remove(0);
        }
        let n = self.values.len();
        let mut sum: u128 = 0;
        let mut i: usize = 0;
        while i < n
            invariant
                n == self.values@.len(),
                i <= n,
                sum == sample_sum(self.values@.take(i as int)),
                sum <= i * 0xffff_ffffu128,
            decreases n - i,
        {
            assert(self.values@.take(i + 1).drop_last() =~= self.values@.take(i as int));
            assert(i * 0xffff_ffffu128 + 0xffff_ffffu128 <= 0xffff_ffff_ffff_ffff_ffff_ffff_u128)
                by (nonlinear_arith)
                requires
                    i < 0xffff_ffff_ffff_ffff_u128,
            ;
            sum = sum + self.values[i] as u128;
            i = i + 1;
        }
        assert(self.values@.take(n as int) =~= self.values@);
        Average { sum, count: n }
    }
}

/// A history never holds more samples than its window: recording a sample
/// into a history within its window leaves it within its window.
pub proof fn lemma_record_stays_within_window(samples: Seq<u32>, window: nat, value: u32)
    requires
        samples.len() <= window,
    ensures
        record_sample(samples, window, value).len() <= window,
{
}

/// After any sequence of samples, the history holds exactly the most recent
/// `window` of them (all of them while fewer have been recorded), oldest first.
pub proof fn lemma_history_keeps_latest(window: nat, feed: Seq<u32>)
    ensures
        record_all(window, feed) == (if feed.len() > window {
            feed.subrange(feed.len() - window, feed.len() as int)
        } else {
            feed
        }),
    decreases feed.len(),
{
    if feed.len() > 0 {
        let prev = feed.drop_last();
        lemma_history_keeps_latest(window, prev);
        if feed.len() > window {
            if prev.len() > window {
                assert(prev.subrange(prev.len() - window, prev.len() as int).push(feed.last()).remove(0)
                    =~= feed.subrange(feed.len() - window, feed.len() as int));
            } else {
                assert(prev.push(feed.last()).remove(0) =~= feed.subrange(
                    feed.len() - window,
                    feed.len() as int,
                ));
            }
        } else {
            assert(prev.push(feed.last()) =~= feed);
        }
    }
}

/// The sum of samples is at most their number times the largest sample value.
pub proof fn lemma_sum_at_most(s: Seq<u32>)
    ensures
        0 <= sample_sum(s) <= s.len() * 0xffff_ffff,
    decreases s.len(),
{
    if s.len() > 0 {
        lemma_sum_at_most(s.drop_last());
        assert(s.len() * 0xffff_ffff == s.drop_last().len() * 0xffff_ffff + 0xffff_ffff) by (nonlinear_arith)
            requires
                s.len() == s.drop_last().len() + 1,
        ;
    }
}

proof fn lemma_sum_bounds(s: Seq<u32>, threshold: u32)
    ensures
        (forall|i: int| 0 <= i < s.len() ==> s[i] < threshold) ==> (s.len() > 0 ==> sample_sum(s) < threshold * s.len()),
        (forall|i: int| 0 <= i < s.len() ==> s[i] >= threshold) ==> sample_sum(s) >= threshold * s.len(),
    decreases s.len(),
{
    if s.len() > 0 {
        let p = s.drop_last();
        lemma_sum_bounds(p, threshold);
        assert(forall|i: int| 0 <= i < p.len() ==> p[i] == s[i]);
        assert(threshold * s.len() == threshold * p.len() + threshold) by (nonlinear_arith)
            requires
                s.len() == p.len() + 1,
        ;
    }
}

/// When every sample in the window is below the threshold, the average is
/// below it; when none is, the average is not.
pub proof fn lemma_uniform_window_decides(avg: Average, samples: Seq<u32>, threshold: u32)
    requires
        is_average_of(avg, samples),
    ensures
        samples.len() > 0 && (forall|i: int| 0 <= i < samples.len() ==> samples[i] < threshold)
            ==> below_threshold(avg, threshold),
        (forall|i: int| 0 <= i < samples.len() ==> samples[i] >= threshold) ==> !below_threshold(
            avg,
            threshold,
        ),
{
    lemma_sum_bounds(samples, threshold);
}

} // verus!
