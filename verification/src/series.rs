//! The model of a chart's sample window: sequences of samples, newest first, and
//! what ingestion and eviction do to them.
use vstd::prelude::*;

verus! {

/// One reading: a timestamp in milliseconds since the Unix epoch, and a utilization
/// percentage. The percentage is kept as reported; it is not clamped to `0..=100`.
pub type Sample = (i64, i32);

/// Whether a sample taken at `t` has left the window that ends at `newest`: it is
/// more than `limit` milliseconds older than `newest`, or it is younger than `newest`.
pub open spec fn stale(newest: i64, t: i64, limit: u64) -> bool {
    newest - t < 0 || newest - t > limit
}

/// How many samples of `samples` (newest first) stay when stale samples are removed
/// from the oldest end, one at a time, until the oldest one left is not stale with
/// respect to the newest.
pub open spec fn kept_len(samples: Seq<Sample>, limit: u64) -> nat
    decreases samples.len(),
{
    if samples.len() == 0 {
        0
    } else if stale(samples[0].0, samples.last().0, limit) {
        kept_len(samples.drop_last(), limit)
    } else {
        samples.len()
    }
}

/// `samples` without the stale samples at its oldest end.
pub open spec fn evicted(samples: Seq<Sample>, limit: u64) -> Seq<Sample> {
    samples.subrange(0, kept_len(samples, limit) as int)
}

/// The window after `(time, value)` has been put at the newest end of `samples` and
/// stale samples have been evicted from the oldest end.
pub open spec fn ingested(samples: Seq<Sample>, time: i64, value: i32, limit: u64) -> Seq<Sample> {
    evicted(seq![(time, value)] + samples, limit)
}

/// Timestamps never grow from the newest sample towards the oldest.
pub open spec fn time_ordered(samples: Seq<Sample>) -> bool {
    forall|i: int, j: int|
        #![trigger samples[i], samples[j]]
        0 <= i <= j < samples.len() ==> samples[i].0 >= samples[j].0
}

/// Every sample is at most `limit` milliseconds older than the newest one, and none
/// is younger.
pub open spec fn within_window(samples: Seq<Sample>, limit: u64) -> bool {
    forall|i: int|
        #![trigger samples[i]]
        0 <= i < samples.len() ==> 0 <= samples[0].0 - samples[i].0 <= limit
}

/// Neighbouring samples are at least `gap` milliseconds apart.
pub open spec fn min_spacing(samples: Seq<Sample>, gap: u64) -> bool {
    forall|i: int|
        #![trigger samples[i]]
        0 <= i < samples.len() - 1 ==> samples[i].0 - samples[i + 1].0 >= gap
}

/// `kept_len` is the one cut point `k` for which the sample before the cut is not
/// stale and every sample after it is.
pub proof fn lemma_kept_len(samples: Seq<Sample>, limit: u64)
    requires
        samples.len() > 0,
    ensures
        1 <= kept_len(samples, limit) <= samples.len(),
        !stale(samples[0].0, samples[kept_len(samples, limit) - 1].0, limit),
        forall|j: int|
            #![trigger samples[j]]
            kept_len(samples, limit) <= j < samples.len() ==> stale(
                samples[0].0,
                samples[j].0,
                limit,
            ),
    decreases samples.len(),
{
    if stale(samples[0].0, samples.last().0, limit) {
        let rest = samples.drop_last();
        lemma_kept_len(rest, limit);
        assert forall|j: int|
            #![trigger samples[j]]
            kept_len(samples, limit) <= j < samples.len() implies stale(
            samples[0].0,
            samples[j].0,
            limit,
        ) by {
            if j < rest.len() {
                assert(rest[j] == samples[j]);
            }
        }
    }
}

/// A cut point with the two properties of `lemma_kept_len` is `kept_len`.
pub proof fn lemma_kept_len_unique(samples: Seq<Sample>, limit: u64, k: int)
    requires
        1 <= k <= samples.len(),
        !stale(samples[0].0, samples[k - 1].0, limit),
        forall|j: int|
            #![trigger samples[j]]
            k <= j < samples.len() ==> stale(samples[0].0, samples[j].0, limit),
    ensures
        kept_len(samples, limit) == k,
{
    lemma_kept_len(samples, limit);
    let n = kept_len(samples, limit) as int;
    if n < k {
        assert(stale(samples[0].0, samples[k - 1].0, limit));
    } else if k < n {
        assert(stale(samples[0].0, samples[n - 1].0, limit));
    }
}

/// The model of one chart: its samples, newest first, the length of its retention
/// window in milliseconds, and whether a cached drawing of it is out of date.
pub struct Series {
    pub samples: Seq<Sample>,
    pub limit: u64,
    pub dirty: bool,
}

impl Series {
    /// A chart that holds `samples` as given and has never been drawn.
    pub open spec fn holding(samples: Seq<Sample>, limit: u64) -> Series {
        Series { samples, limit, dirty: true }
    }

    /// The chart after `(time, value)` was ingested.
    pub open spec fn ingest(self, time: i64, value: i32) -> Series {
        Series {
            samples: ingested(self.samples, time, value, self.limit),
            limit: self.limit,
            dirty: true,
        }
    }

    /// The timestamp of the newest sample; the epoch for a chart without samples.
    pub open spec fn newest_time(self) -> i64 {
        if self.samples.len() > 0 {
            self.samples[0].0
        } else {
            0
        }
    }

    /// The lower end of the time axis: `limit` milliseconds before `newest_time`,
    /// or the least timestamp there is where that is out of range.
    pub open spec fn oldest_time(self) -> i64 {
        if self.newest_time() - self.limit < i64::MIN {
            i64::MIN
        } else {
            (self.newest_time() - self.limit) as i64
        }
    }

    /// The samples from the oldest to the newest.
    pub open spec fn points(self) -> Seq<Sample> {
        self.samples.reverse()
    }

    pub open spec fn time_ordered(self) -> bool {
        time_ordered(self.samples)
    }

    pub open spec fn within_window(self) -> bool {
        within_window(self.samples, self.limit)
    }

    /// Whether a sample at `time` may follow the samples of this chart: it is not
    /// older than the newest of them.
    pub open spec fn admits(self, time: i64) -> bool {
        self.samples.len() > 0 ==> time >= self.samples[0].0
    }
}

/// `a / b`, rounded up.
pub open spec fn ceil_div(a: int, b: int) -> int
    recommends
        b > 0,
{
    (a + b - 1) / b
}

/// Whatever the chart held, after an ingestion it is not empty, its newest sample
/// is the one just ingested, it is a part of the old window from the newest end,
/// and its oldest sample is within the window of the newest.
pub proof fn lemma_ingest_shape(s: Series, time: i64, value: i32)
    ensures
        ({
            let all = seq![(time, value)] + s.samples;
            let r = s.ingest(time, value).samples;
            &&& 1 <= r.len() <= s.samples.len() + 1
            &&& r == all.subrange(0, r.len() as int)
            &&& r[0] == (time, value)
            &&& !stale(time, r.last().0, s.limit)
            &&& forall|j: int|
                #![trigger all[j]]
                r.len() <= j < all.len() ==> stale(time, all[j].0, s.limit)
        }),
{
    let all = seq![(time, value)] + s.samples;
    lemma_kept_len(all, s.limit);
}

/// Retention. If the timestamps of a chart are ordered and the ingested sample is
/// not older than its newest, then afterwards the timestamps are ordered, every
/// sample is within the window of the newest, and of the old samples exactly those
/// stay whose age is at most the limit.
pub proof fn lemma_ingest_retention(s: Series, time: i64, value: i32)
    requires
        s.time_ordered(),
        s.admits(time),
    ensures
        s.ingest(time, value).time_ordered(),
        s.ingest(time, value).within_window(),
        s.ingest(time, value).samples.len() >= 1,
        s.ingest(time, value).samples[0] == (time, value),
        forall|j: int|
            #![trigger s.samples[j]]
            0 <= j < s.samples.len() ==> (time - s.samples[j].0 <= s.limit <==> j + 1
                < s.ingest(time, value).samples.len()),
        forall|j: int|
            #![trigger s.ingest(time, value).samples[j]]
            1 <= j < s.ingest(time, value).samples.len() ==> s.ingest(time, value).samples[j]
                == s.samples[j - 1],
{
    let all = seq![(time, value)] + s.samples;
    let r = s.ingest(time, value).samples;
    lemma_ingest_shape(s, time, value);
    assert(time_ordered(all)) by {
        assert forall|i: int, j: int|
            #![trigger all[i], all[j]]
            0 <= i <= j < all.len() implies all[i].0 >= all[j].0 by {
            if i == 0 {
                if j > 0 {
                    assert(all[j] == s.samples[j - 1]);
                    assert(s.samples[0].0 >= s.samples[j - 1].0);
                }
            } else {
                assert(all[i] == s.samples[i - 1]);
                assert(all[j] == s.samples[j - 1]);
                assert(s.samples[i - 1].0 >= s.samples[j - 1].0);
            }
        }
    }
    assert forall|i: int, j: int|
        #![trigger r[i], r[j]]
        0 <= i <= j < r.len() implies r[i].0 >= r[j].0 by {
        assert(r[i] == all[i]);
        assert(r[j] == all[j]);
    }
    assert forall|i: int|
        #![trigger r[i]]
        0 <= i < r.len() implies 0 <= r[0].0 - r[i].0 <= s.limit by {
        let last = r.len() - 1;
        assert(r[i] == all[i]);
        assert(r[last] == all[last]);
        assert(all[0].0 >= all[i].0);
        assert(all[i].0 >= all[last].0);
    }
    assert forall|j: int|
        #![trigger s.samples[j]]
        0 <= j < s.samples.len() implies (time - s.samples[j].0 <= s.limit <==> j + 1
        < r.len()) by {
        let last = r.len() - 1;
        assert(all[j + 1] == s.samples[j]);
        assert(all[0].0 >= all[j + 1].0);
        if j + 1 < r.len() {
            assert(r[last] == all[last]);
            assert(all[j + 1].0 >= all[last].0);
        } else {
            assert(stale(time, all[j + 1].0, s.limit));
        }
    }
    assert forall|j: int|
        #![trigger r[j]]
        1 <= j < r.len() implies r[j] == s.samples[j - 1] by {
        assert(r[j] == all[j]);
    }
}

/// A long pause. If the timestamps of a chart are ordered and the ingested sample
/// is more than the limit younger than its newest, only the ingested sample stays.
pub proof fn lemma_ingest_after_pause(s: Series, time: i64, value: i32)
    requires
        s.time_ordered(),
        s.samples.len() > 0 ==> time - s.samples[0].0 > s.limit,
    ensures
        s.ingest(time, value).samples == seq![(time, value)],
{
    let all = seq![(time, value)] + s.samples;
    assert forall|j: int|
        #![trigger all[j]]
        1 <= j < all.len() implies stale(time, all[j].0, s.limit) by {
        assert(all[j] == s.samples[j - 1]);
        assert(s.samples[0].0 >= s.samples[j - 1].0);
    }
    lemma_kept_len_unique(all, s.limit, 1);
    assert(all.subrange(0, 1) =~= seq![(time, value)]);
}

/// With neighbours at least `gap` apart, the sample at index `i` is at least
/// `i * gap` older than the newest.
pub proof fn lemma_spacing_adds_up(samples: Seq<Sample>, gap: u64, i: int)
    requires
        min_spacing(samples, gap),
        0 <= i < samples.len(),
    ensures
        samples[0].0 - samples[i].0 >= i * gap,
    decreases i,
{
    if i > 0 {
        lemma_spacing_adds_up(samples, gap, i - 1);
        assert(samples[i - 1].0 - samples[i].0 >= gap);
        assert(i * gap == (i - 1) * gap + gap) by (nonlinear_arith);
    } else {
        assert(i * gap == 0) by (nonlinear_arith)
            requires
                i == 0,
        ;
    }
}

/// Growth bound. Where samples arrive at least `gap > 0` milliseconds apart, the
/// spacing is kept by an ingestion, and the chart never holds more than
/// `limit / gap + 1` samples, hence never more than `ceil(limit / gap) + 1`.
pub proof fn lemma_ingest_growth_bound(s: Series, time: i64, value: i32, gap: u64)
    requires
        gap > 0,
        min_spacing(s.samples, gap),
        s.samples.len() > 0 ==> time - s.samples[0].0 >= gap,
    ensures
        min_spacing(s.ingest(time, value).samples, gap),
        s.ingest(time, value).samples.len() <= s.limit as int / gap as int + 1,
        s.ingest(time, value).samples.len() <= ceil_div(s.limit as int, gap as int) + 1,
{
    let all = seq![(time, value)] + s.samples;
    let r = s.ingest(time, value).samples;
    lemma_ingest_shape(s, time, value);
    assert(min_spacing(all, gap)) by {
        assert forall|i: int|
            #![trigger all[i]]
            0 <= i < all.len() - 1 implies all[i].0 - all[i + 1].0 >= gap by {
            assert(all[i + 1] == s.samples[i]);
            if i > 0 {
                assert(all[i] == s.samples[i - 1]);
                assert(s.samples[i - 1].0 - s.samples[i - 1 + 1].0 >= gap);
            }
        }
    }
    assert forall|i: int|
        #![trigger r[i]]
        0 <= i < r.len() - 1 implies r[i].0 - r[i + 1].0 >= gap by {
        assert(r[i] == all[i]);
        assert(r[i + 1] == all[i + 1]);
        assert(all[i].0 - all[i + 1].0 >= gap);
    }
    let last = r.len() - 1;
    lemma_spacing_adds_up(r, gap, last);
    let limit = s.limit as int;
    let g = gap as int;
    assert(last * g <= limit);
    assert(last <= limit / g) by (nonlinear_arith)
        requires
            last * g <= limit,
            g > 0,
    ;
    assert(limit / g <= (limit + g - 1) / g) by (nonlinear_arith)
        requires
            g > 0,
    ;
}

/// What a drawing of a chart is made from depends on its samples and its limit
/// alone: two readings of a chart between which nothing was ingested agree, also
/// when the dirty flag was changed in between.
pub proof fn lemma_projection_repeatable(a: Series, b: Series)
    requires
        a.samples == b.samples,
        a.limit == b.limit,
    ensures
        a.newest_time() == b.newest_time(),
        a.oldest_time() == b.oldest_time(),
        a.points() == b.points(),
        a.oldest_time() <= a.newest_time(),
{
}

} // verus!
