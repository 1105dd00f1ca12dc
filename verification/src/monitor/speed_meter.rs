use std::collections::VecDeque;

use vstd::prelude::*;

use crate::download::model::{Bytes, BytesPerSecond};

verus! {

/// A timestamped byte count, as `(at_ms, bytes)`.
pub type SampleView = (u64, u64);

/// `a - b`, or zero when `b > a`.
pub open spec fn saturating_sub(a: u64, b: u64) -> u64 {
    if a >= b {
        (a - b) as u64
    } else {
        0
    }
}

/// `a * b`, or `u64::MAX` when the product does not fit.
pub open spec fn saturating_mul(a: u64, b: u64) -> u64 {
    if a * b <= u64::MAX {
        (a * b) as u64
    } else {
        u64::MAX
    }
}

/// Bytes per second between the first and the last retained sample: zero when there
/// are no samples, when no time passed between them, or when the count went down.
pub open spec fn samples_speed(samples: Seq<SampleView>) -> u64 {
    if samples.len() == 0 {
        0
    } else {
        let first = samples[0];
        let last = samples.last();
        let elapsed = saturating_sub(last.0, first.0);
        if elapsed == 0 || last.1 < first.1 {
            0
        } else {
            (saturating_mul((last.1 - first.1) as u64, 1000) / elapsed) as u64
        }
    }
}

/// Drops the oldest samples while more than two remain and, with a window, while the
/// oldest one is older than the window at `now_ms`.
pub open spec fn pruned(samples: Seq<SampleView>, now_ms: u64, window_ms: Option<u64>) -> Seq<
    SampleView,
>
    decreases samples.len(),
{
    if samples.len() > 2 && match window_ms {
        None => true,
        Some(w) => saturating_sub(now_ms, samples[0].0) > w,
    } {
        pruned(samples.drop_first(), now_ms, window_ms)
    } else {
        samples
    }
}

/// Pruning at `now_ms` keeps every sample inside the window. It drops only a prefix of
/// the samples (none while two or fewer remain, never the last two), every dropped
/// sample is older than the window (`at + w < now`), and it stops at the first sample
/// inside the window. Without a window it keeps exactly the last two. Returns how many
/// samples were dropped.
pub proof fn lemma_pruned_keeps_window(samples: Seq<SampleView>, now_ms: u64, window_ms: Option<u64>) -> (k: int)
    ensures
        0 <= k <= samples.len(),
        pruned(samples, now_ms, window_ms) == samples.skip(k),
        samples.len() <= 2 ==> k == 0,
        samples.len() > 2 ==> k <= samples.len() - 2,
        forall|j: int|
            0 <= j < k ==> match window_ms {
                None => true,
                Some(w) => #[trigger] samples[j].0 + w < now_ms,
            },
        forall|j: int|
            #![trigger samples[j]]
            0 <= j < samples.len() && (window_ms matches Some(w) && samples[j].0 + w >= now_ms) ==> j >= k,
        k < samples.len() - 2 ==> match window_ms {
            None => false,
            Some(w) => samples[k].0 + w >= now_ms,
        },
    decreases samples.len(),
{
    if samples.len() > 2 && match window_ms {
        None => true,
        Some(w) => saturating_sub(now_ms, samples[0].0) > w,
    } {
        let rest = samples.drop_first();
        let k1 = lemma_pruned_keeps_window(rest, now_ms, window_ms);
        assert(rest.skip(k1) =~= samples.skip(k1 + 1));
        assert forall|j: int| 0 <= j < k1 + 1 implies match window_ms {
            None => true,
            Some(w) => #[trigger] samples[j].0 + w < now_ms,
        } by {
            if j > 0 {
                assert(samples[j] == rest[j - 1]);
            }
        }
        assert forall|j: int|
            #![trigger samples[j]]
            0 <= j < samples.len() && (window_ms matches Some(w) && samples[j].0 + w >= now_ms)
                implies j >= k1 + 1 by {
            if j > 0 {
                assert(samples[j] == rest[j - 1]);
            }
        }
        if k1 + 1 < samples.len() - 2 {
            assert(samples[k1 + 1] == rest[k1]);
        }
        k1 + 1
    } else {
        assert(samples.skip(0) =~= samples);
        0
    }
}

/// Samples retained after recording `(at_ms, bytes)`.
pub open spec fn recorded(samples: Seq<SampleView>, at_ms: u64, bytes: u64, window_ms: Option<u64>) -> Seq<
    SampleView,
> {
    pruned(samples.push((at_ms, bytes)), at_ms, window_ms)
}

/// Computes current and average throughput from timestamped byte samples.
#[derive(Debug, Clone, PartialEq, Eq)]
pub struct SpeedMeter {
    samples: VecDeque<SpeedSample>,
    window_ms: Option<u64>,
}

#[derive(Debug, Clone, Copy, PartialEq, Eq)]
struct SpeedSample {
    at_ms: u64,
    bytes: Bytes,
}

spec fn sample_view(s: SpeedSample) -> SampleView {
    (s.at_ms, s.bytes@)
}

impl View for SpeedMeter {
    /// Retained samples, oldest first, and the averaging window.
    type V = (Seq<SampleView>, Option<u64>);

    closed spec fn view(&self) -> (Seq<SampleView>, Option<u64>) {
        (self.samples@.map_values(|s: SpeedSample| sample_view(s)), self.window_ms)
    }
}

impl SpeedMeter {
    /// Creates a speed meter with no averaging window.
    #[must_use]
    pub fn new() -> (r: Self)
        ensures
            r@.0 == Seq::<SampleView>::empty(),
            r@.1 == None::<u64>,
    {
        Self::with_window(None)
    }

    /// Creates a speed meter that averages samples within the provided window.
    #[must_use]
    pub fn with_window(window_ms: Option<u64>) -> (r: Self)
        ensures
            r@.0 == Seq::<SampleView>::empty(),
            r@.1 == window_ms,
    {
        let r = SpeedMeter { samples: VecDeque::new(), window_ms };
        assert(r@.0 == Seq::<SampleView>::empty());
        r
    }

    /// Records a sample and returns calculated bytes per second.
    #[must_use]
    pub fn record(&mut self, at_ms: u64, bytes: Bytes) -> (r: BytesPerSecond)
        ensures
            final(self)@.0 == recorded(old(self)@.0, at_ms, bytes@, old(self)@.1),
            final(self)@.1 == old(self)@.1,
            r@ == samples_speed(final(self)@.0),
    {
        let ghost before = self@.0;
        self.samples.push_back(SpeedSample { at_ms, bytes });
        assert(self@.0 == before.push((at_ms, bytes@)));
        self.prune(at_ms);
        self.speed()
    }

    /// Returns current speed based on retained samples.
    #[must_use]
    pub fn speed(&self) -> (r: BytesPerSecond)
        ensures
            r@ == samples_speed(self@.0),
    {
        let n = self.samples.len();
        if n == 0 {
            return BytesPerSecond::new(0);
        }
        let first = self.samples[0];
        let last = self.samples[n - 1];
        assert(sample_view(first) == self@.0[0]);
        assert(sample_view(last) == self@.0.last());
        let elapsed_ms = last.at_ms.saturating_sub(first.at_ms);
        if elapsed_ms == 0 || last.bytes.get() < first.bytes.get() {
            return BytesPerSecond::new(0);
        }
        let delta = last.bytes.get() - first.bytes.get();
        let scaled: u64 = if delta > u64::MAX / 1000 {
            u64::MAX
        } else {
            delta * 1000
        };
        BytesPerSecond::new(scaled / elapsed_ms)
    }

    fn oldest_expired(&self, now_ms: u64) -> (r: bool)
        requires
            self@.0.len() > 0,
        ensures
            r == match self@.1 {
                None => true,
                Some(w) => saturating_sub(now_ms, self@.0[0].0) > w,
            },
    {
        match self.window_ms {
            None => true,
            Some(w) => {
                assert(sample_view(self.samples@[0]) == self@.0[0]);
                now_ms.saturating_sub(self.samples[0].at_ms) > w
            },
        }
    }

    fn prune(&mut self, now_ms: u64)
        ensures
            final(self)@.0 == pruned(old(self)@.0, now_ms, old(self)@.1),
            final(self)@.1 == old(self)@.1,
    {
        let ghost target = pruned(self@.0, now_ms, self.window_ms);
        while self.samples.len() > 2 && self.oldest_expired(now_ms)
            invariant
                pruned(self@.0, now_ms, self.window_ms) == target,
                self.window_ms == old(self).window_ms,
            decreases self.samples@.len(),
        {
            let ghost prev = self@.0;
            assert(prev[0] == sample_view(self.samples@[0]));
            let _ = self.samples.pop_front();
            assert(self@.0 == prev.drop_first());
        }
        assert(pruned(self@.0, now_ms, self.window_ms) == self@.0);
    }
}

impl Default for SpeedMeter {
    fn default() -> (r: Self)
        ensures
            r@.0 == Seq::<SampleView>::empty(),
            r@.1 == None::<u64>,
    {
        Self::new()
    }
}

} // verus!
