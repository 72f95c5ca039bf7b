//! The sample window of one processing unit.
use crate::series::{
    lemma_ingest_retention, lemma_ingest_shape, lemma_kept_len_unique, stale, Sample, Series,
};
use crate::PLOT_SECONDS;
use std::collections::VecDeque;
use vstd::prelude::*;

verus! {

/// The recent utilization of one processing unit: its samples, newest first, with
/// the length of the retention window and a flag that tells a renderer that what
/// it cached of the chart is out of date.
#[derive(Debug)]
pub struct CpuUsageChart {
    data_points: VecDeque<Sample>,
    limit: u64,
    dirty: bool,
}

/// What a renderer needs to draw a chart: the two ends of the time axis and the
/// samples from the oldest to the newest.
#[derive(Debug, PartialEq, Eq)]
pub struct Projection {
    pub oldest_time: i64,
    pub newest_time: i64,
    pub points: Vec<Sample>,
}

impl View for CpuUsageChart {
    type V = Series;

    closed spec fn view(&self) -> Series {
        Series { samples: self.data_points@, limit: self.limit, dirty: self.dirty }
    }
}

impl CpuUsageChart {
    /// A chart with the default retention window that holds `data` as given, the
    /// first sample being the newest.
    pub fn new(data: Vec<Sample>) -> (chart: Self)
        ensures
            chart@ == Series::holding(data@, (PLOT_SECONDS * 1000) as u64),
    {
        Self::with_limit(data, PLOT_SECONDS * 1000)
    }

    /// A chart with a retention window of `limit` milliseconds that holds `data` as
    /// given, the first sample being the newest. Nothing is evicted before the
    /// first ingestion.
    pub fn with_limit(data: Vec<Sample>, limit: u64) -> (chart: Self)
        ensures
            chart@ == Series::holding(data@, limit),
    {
        let mut data_points: VecDeque<Sample> = VecDeque::new();
        let mut i: usize = 0;
        while i < data.len()
            invariant
                i <= data.len(),
                data_points@ == data@.subrange(0, i as int),
            decreases data.len() - i,
        {
            data_points.push_back(data[i]);
            i = i + 1;
        }
        assert(data@.subrange(0, data.len() as int) == data@);
        CpuUsageChart { data_points, limit, dirty: true }
    }

    /// Puts `(time, value)` at the newest end, then removes samples from the oldest
    /// end as long as the oldest is stale with respect to `time`, and marks the
    /// chart dirty.
    ///
    /// A chart whose timestamps were ordered, and to which `time` is not older than
    /// its newest sample, afterwards holds, still ordered, the new sample and exactly
    /// those old ones that are at most the limit older than `time`.
    pub fn push_data(&mut self, time: i64, value: i32)
        ensures
            final(self)@ == old(self)@.ingest(time, value),
            final(self)@.limit == old(self)@.limit,
            final(self)@.dirty,
            1 <= final(self)@.samples.len() <= old(self)@.samples.len() + 1,
            final(self)@.samples[0] == (time, value),
            final(self)@.samples == (seq![(time, value)] + old(self)@.samples).subrange(
                0,
                final(self)@.samples.len() as int,
            ),
            !stale(time, final(self)@.samples.last().0, old(self)@.limit),
            forall|j: int|
                #![trigger old(self)@.samples[j]]
                final(self)@.samples.len() - 1 <= j < old(self)@.samples.len() ==> stale(
                    time,
                    old(self)@.samples[j].0,
                    old(self)@.limit,
                ),
            old(self)@.time_ordered() && old(self)@.admits(time) ==> {
                &&& final(self)@.time_ordered()
                &&& final(self)@.within_window()
                &&& forall|j: int|
                    #![trigger old(self)@.samples[j]]
                    0 <= j < old(self)@.samples.len() ==> (time - old(self)@.samples[j].0 <= old(
                        self,
                    )@.limit <==> j + 1 < final(self)@.samples.len())
            },
    {
        let ghost all = seq![(time, value)] + old(self)@.samples;
        let limit = self.limit;
        self.data_points.push_front((time, value));
        loop
            invariant
                self.limit == limit,
                self.dirty == old(self).dirty,
                all == seq![(time, value)] + old(self)@.samples,
                1 <= self.data_points@.len() <= all.len(),
                self.data_points@ == all.subrange(0, self.data_points@.len() as int),
                forall|j: int|
                    #![trigger all[j]]
                    self.data_points@.len() <= j < all.len() ==> stale(time, all[j].0, limit),
            ensures
                !stale(time, self.data_points@.last().0, limit),
            decreases self.data_points@.len(),
        {
            let n = self.data_points.len();
            let oldest: i64 = self.data_points[n - 1].0;
            let age: i128 = time as i128 - oldest as i128;
            if age < 0 || age > limit as i128 {
                self.data_points.pop_back();
                assert(self.data_points@.len() >= 1) by {
                    if n == 1 {
                        assert(all[0] == (time, value));
                    }
                }
                continue ;
            }
            break ;
        }
        self.dirty = true;
        proof {
            let kept = self.data_points@.len() as int;
            assert(all[kept - 1] == self.data_points@[kept - 1]);
            lemma_kept_len_unique(all, limit, kept);
            lemma_ingest_shape(old(self)@, time, value);
            assert forall|j: int|
                #![trigger old(self)@.samples[j]]
                kept - 1 <= j < old(self)@.samples.len() implies stale(
                time,
                old(self)@.samples[j].0,
                limit,
            ) by {
                assert(all[j + 1] == old(self)@.samples[j]);
            }
            if old(self)@.time_ordered() && old(self)@.admits(time) {
                lemma_ingest_retention(old(self)@, time, value);
            }
        }
    }

    /// The number of samples held.
    pub fn len(&self) -> (n: usize)
        ensures
            n == self@.samples.len(),
    {
        self.data_points.len()
    }

    /// Whether the chart holds no sample yet.
    pub fn is_empty(&self) -> (empty: bool)
        ensures
            empty == (self@.samples.len() == 0),
    {
        self.data_points.len() == 0
    }

    /// The length of the retention window, in milliseconds.
    pub fn limit(&self) -> (limit: u64)
        ensures
            limit == self@.limit,
    {
        self.limit
    }

    /// The sample at `index`, counted from the newest; `None` past the oldest.
    pub fn sample(&self, index: usize) -> (sample: Option<Sample>)
        ensures
            index < self@.samples.len() ==> sample == Some(self@.samples[index as int]),
            index >= self@.samples.len() ==> sample.is_none(),
    {
        if index < self.data_points.len() {
            Some(self.data_points[index])
        } else {
            None
        }
    }

    /// The timestamp of the newest sample, the upper end of the time axis. A chart
    /// without samples answers with the epoch.
    pub fn newest_time(&self) -> (time: i64)
        ensures
            time == self@.newest_time(),
            self@.samples.len() > 0 ==> time == self@.samples[0].0,
            self@.samples.len() == 0 ==> time == 0,
    {
        if self.data_points.len() > 0 {
            self.data_points[0].0
        } else {
            0
        }
    }

    /// The lower end of the time axis: the retention window before `newest_time`.
    /// Where that is below the least timestamp, the least timestamp.
    pub fn oldest_time(&self) -> (time: i64)
        ensures
            time == self@.oldest_time(),
            time <= self@.newest_time(),
            self@.newest_time() - self@.limit >= i64::MIN ==> time == self@.newest_time()
                - self@.limit,
            self@.newest_time() - self@.limit < i64::MIN ==> time == i64::MIN,
    {
        let newest = self.newest_time();
        let bound: i128 = newest as i128 - self.limit as i128;
        if bound < i64::MIN as i128 {
            i64::MIN
        } else {
            bound as i64
        }
    }

    /// The samples from the oldest to the newest.
    pub fn points(&self) -> (points: Vec<Sample>)
        ensures
            points@ == self@.points(),
            points@.len() == self@.samples.len(),
            forall|i: int|
                #![trigger points@[i]]
                0 <= i < points@.len() ==> points@[i] == self@.samples[self@.samples.len() - 1
                    - i],
    {
        let n = self.data_points.len();
        let mut points: Vec<Sample> = Vec::new();
        let mut i: usize = 0;
        while i < n
            invariant
                n == self.data_points@.len(),
                i <= n,
                points@.len() == i,
                forall|k: int|
                    #![trigger points@[k]]
                    0 <= k < i ==> points@[k] == self.data_points@[n - 1 - k],
            decreases n - i,
        {
            points.push(self.data_points[n - 1 - i]);
            i = i + 1;
        }
        assert(points@ =~= self.data_points@.reverse());
        points
    }

    /// The time axis and the points of the chart in one value. The chart is only
    /// read: its samples and its dirty flag stay as they are.
    pub fn projection(&self) -> (p: Projection)
        ensures
            p.newest_time == self@.newest_time(),
            p.oldest_time == self@.oldest_time(),
            p.points@ == self@.points(),
            p.oldest_time <= p.newest_time,
    {
        Projection {
            oldest_time: self.oldest_time(),
            newest_time: self.newest_time(),
            points: self.points(),
        }
    }

    /// Whether the chart changed since a renderer last called `clear_dirty`.
    pub fn is_dirty(&self) -> (dirty: bool)
        ensures
            dirty == self@.dirty,
    {
        self.dirty
    }

    /// Tells the renderer that what it cached of the chart is out of date.
    pub fn mark_dirty(&mut self)
        ensures
            final(self)@ == (Series { dirty: true, ..old(self)@ }),
    {
        self.dirty = true;
    }

    /// Called by the renderer once it has drawn the chart anew.
    pub fn clear_dirty(&mut self)
        ensures
            final(self)@ == (Series { dirty: false, ..old(self)@ }),
    {
        self.dirty = false;
    }
}

} // verus!
