//! The charts of all processing units, and the pacing of their sample rounds.
use crate::clock::nanos_since;
use crate::cpu_usage_chart::CpuUsageChart;
use crate::layout::{is_grid, Grid, Layout};
use crate::series::Series;
use crate::{PLOT_SECONDS, SAMPLE_EVERY_NANOS};
use std::time::Instant;
use vstd::prelude::*;

verus! {

/// The model of the charts of all processing units: the reading of the monotonic
/// clock, in nanoseconds, at which the last sample round was admitted, and the
/// charts in the order in which the units were first reported.
pub struct Registry {
    pub last_sample_time: u128,
    pub charts: Seq<Series>,
}

impl Registry {
    /// Whether the first sample round has brought any chart.
    pub open spec fn is_initialized(self) -> bool {
        self.charts.len() > 0
    }

    /// Whether a sample round is due when the monotonic clock reads `tick`: always
    /// before the first round has brought a chart, afterwards once more than
    /// `SAMPLE_EVERY_NANOS` have passed since the last round. Exactly
    /// `SAMPLE_EVERY_NANOS` after the last round no round is due yet.
    pub open spec fn should_update(self, tick: u128) -> bool {
        !self.is_initialized() || tick - self.last_sample_time > SAMPLE_EVERY_NANOS
    }

    /// The charts after the values `data` were taken in at wall-clock time `now`:
    /// without charts so far, one new chart for each value, seeded with it; else
    /// each chart that has a value at its position ingests it, and the others stay.
    pub open spec fn distribute(self, now: i64, data: Seq<i32>) -> Seq<Series> {
        if !self.is_initialized() {
            Seq::new(
                data.len(),
                |i: int| Series::holding(seq![(now, data[i])], (PLOT_SECONDS * 1000) as u64),
            )
        } else {
            Seq::new(
                self.charts.len(),
                |i: int|
                    if i < data.len() {
                        self.charts[i].ingest(now, data[i])
                    } else {
                        self.charts[i]
                    },
            )
        }
    }

    /// The registry after a tick at monotonic reading `tick` for which `data` was
    /// polled at wall-clock time `now`. Where no round is due, or the poll brought
    /// no value, nothing changes: only a round that took values in is recorded.
    pub open spec fn refresh(self, tick: u128, now: i64, data: Seq<i32>) -> Registry {
        if self.should_update(tick) && data.len() > 0 {
            Registry { last_sample_time: tick, charts: self.distribute(now, data) }
        } else {
            self
        }
    }

    /// Every chart has the default retention window.
    pub open spec fn uniform_window(self) -> bool {
        forall|i: int|
            0 <= i < self.charts.len() ==> (#[trigger] self.charts[i]).limit == (PLOT_SECONDS
                * 1000) as u64
    }
}

/// Fixed cardinality. The first round that brings values makes one chart for
/// each; from then on no round changes the number of charts, whatever the number of
/// values. A poll without values changes nothing at all: no chart, and not the time
/// of the last round.
pub proof fn lemma_refresh_cardinality(r: Registry, tick: u128, now: i64, data: Seq<i32>)
    ensures
        r.is_initialized() ==> r.refresh(tick, now, data).charts.len() == r.charts.len(),
        !r.is_initialized() ==> r.refresh(tick, now, data).charts.len() == data.len(),
        data.len() == 0 ==> r.refresh(tick, now, data) == r,
        r.refresh(tick, now, data).is_initialized() <==> r.is_initialized() || data.len() > 0,
{
}

/// Charts that all have the default retention window keep it through every tick,
/// and the charts that the first round makes have it.
pub proof fn lemma_refresh_uniform_window(r: Registry, tick: u128, now: i64, data: Seq<i32>)
    requires
        r.uniform_window(),
    ensures
        r.refresh(tick, now, data).uniform_window(),
{
}

/// Lazy gate. After a round that was due at `tick` and took values in, no round is
/// due at `tick` itself, nor at any reading up to and including
/// `tick + SAMPLE_EVERY_NANOS`; at every later reading one is due.
pub proof fn lemma_gate_after_refresh(
    r: Registry,
    tick: u128,
    now: i64,
    data: Seq<i32>,
    later: u128,
)
    requires
        r.should_update(tick),
        data.len() > 0,
    ensures
        r.refresh(tick, now, data).last_sample_time == tick,
        !r.refresh(tick, now, data).should_update(tick),
        r.refresh(tick, now, data).should_update(later) <==> later - tick > SAMPLE_EVERY_NANOS,
{
    lemma_refresh_cardinality(r, tick, now, data);
}

/// Until the first round has brought a chart, a round is due at every reading.
pub proof fn lemma_gate_before_first_round(r: Registry, tick: u128)
    requires
        !r.is_initialized(),
    ensures
        r.should_update(tick),
{
}

/// The charts of all processing units. It has no charts until the first sample
/// round that brings values; that round fixes their number.
pub struct SystemChart {
    origin: Instant,
    last_sample_time: u128,
    grid: Grid,
    processors: Vec<CpuUsageChart>,
}

impl View for SystemChart {
    type V = Registry;

    closed spec fn view(&self) -> Registry {
        Registry {
            last_sample_time: self.last_sample_time,
            charts: Seq::new(self.processors@.len(), |i: int| self.processors@[i]@),
        }
    }
}

impl Default for SystemChart {
    /// No charts, three charts to a row, each 300 units high; the monotonic clock
    /// is counted from this moment, at which the last round is taken to have been.
    fn default() -> (chart: Self)
        ensures
            chart@ == (Registry { last_sample_time: 0, charts: Seq::empty() }),
            chart@.uniform_window(),
            chart.spec_items_per_row() == 3,
            chart.spec_chart_height() == 300,
    {
        let chart = SystemChart {
            origin: Instant::now(),
            last_sample_time: 0,
            grid: Grid::default(),
            processors: Vec::new(),
        };
        assert(chart@.charts =~= Seq::empty());
        chart
    }
}

impl SystemChart {
    /// The number of charts in a row of the grid; never zero.
    pub closed spec fn spec_items_per_row(self) -> usize {
        self.grid.spec_items_per_row()
    }

    /// The height of a row of the grid.
    pub closed spec fn spec_chart_height(self) -> u16 {
        self.grid.spec_chart_height()
    }

    /// The instant from which the readings of the monotonic clock are counted. It
    /// is taken when the value is made and never changes.
    pub closed spec fn spec_origin(self) -> Instant {
        self.origin
    }

    /// The number of charts in a row of the grid.
    pub fn items_per_row(&self) -> (n: usize)
        ensures
            n == self.spec_items_per_row(),
            n > 0,
    {
        self.grid.items_per_row()
    }

    /// The height of a row of the grid.
    pub fn chart_height(&self) -> (height: u16)
        ensures
            height == self.spec_chart_height(),
    {
        self.grid.chart_height()
    }

    /// The reading of the monotonic clock at the last admitted sample round, in
    /// nanoseconds since this value was made.
    pub fn last_sample_time(&self) -> (tick: u128)
        ensures
            tick == self@.last_sample_time,
    {
        self.last_sample_time
    }

    /// The number of charts.
    pub fn len(&self) -> (n: usize)
        ensures
            n == self@.charts.len(),
    {
        self.processors.len()
    }

    /// The chart of the processing unit at `index`; `None` where there is none.
    pub fn processor(&self, index: usize) -> (chart: Option<&CpuUsageChart>)
        ensures
            index < self@.charts.len() ==> chart.is_some() && chart.unwrap()@
                == self@.charts[index as int],
            index >= self@.charts.len() ==> chart.is_none(),
    {
        if index < self.processors.len() {
            Some(&self.processors[index])
        } else {
            None
        }
    }

    /// Tells the renderer of the chart at `index` that it has been drawn anew.
    /// Without a chart at `index` nothing changes.
    pub fn clear_dirty(&mut self, index: usize)
        ensures
            final(self)@.last_sample_time == old(self)@.last_sample_time,
            final(self).spec_origin() == old(self).spec_origin(),
            final(self).spec_items_per_row() == old(self).spec_items_per_row(),
            final(self).spec_chart_height() == old(self).spec_chart_height(),
            final(self)@.charts.len() == old(self)@.charts.len(),
            old(self)@.uniform_window() ==> final(self)@.uniform_window(),
            forall|i: int|
                #![trigger final(self)@.charts[i]]
                0 <= i < old(self)@.charts.len() ==> final(self)@.charts[i] == if i == index {
                    Series { dirty: false, ..old(self)@.charts[i] }
                } else {
                    old(self)@.charts[i]
                },
    {
        if index < self.processors.len() {
            self.processors[index].clear_dirty();
        }
        proof {
            if old(self)@.uniform_window() {
                assert forall|i: int| 0 <= i < self@.charts.len() implies (#[trigger] self@.charts[i]).limit
                    == (PLOT_SECONDS * 1000) as u64 by {
                    assert(self@.charts[i].limit == old(self)@.charts[i].limit);
                }
            }
        }
    }

    /// What is shown: the loading notice until the first sample round has brought
    /// charts, afterwards the grid of all charts.
    pub fn layout(&self) -> (layout: Layout)
        ensures
            !self@.is_initialized() ==> layout == Layout::Loading,
            self@.is_initialized() ==> (layout matches Layout::Rows(rows) && is_grid(
                rows@,
                self@.charts.len() as int,
                self.spec_items_per_row() as int,
            )),
    {
        if !self.is_initialized() {
            Layout::Loading
        } else {
            Layout::Rows(self.grid.rows(self.processors.len()))
        }
    }

    /// Whether the first sample round has brought any chart.
    pub fn is_initialized(&self) -> (initialized: bool)
        ensures
            initialized == self@.is_initialized(),
    {
        !self.processors.is_empty()
    }

    /// Whether a sample round is due when the monotonic clock reads `tick`
    /// nanoseconds. Nothing is recorded by asking.
    pub fn should_update_at(&self, tick: u128) -> (due: bool)
        ensures
            due == self@.should_update(tick),
    {
        !self.is_initialized() || (tick > self.last_sample_time && tick - self.last_sample_time
            > SAMPLE_EVERY_NANOS)
    }

    /// Whether a sample round is due now, by the monotonic clock. Before the first
    /// round has brought a chart one is always due.
    pub fn should_update(&self) -> (due: bool)
        ensures
            exists|tick: u128| due == self@.should_update(tick),
            !self@.is_initialized() ==> due,
    {
        let tick = nanos_since(&self.origin);
        let due = self.should_update_at(tick);
        assert(due == self@.should_update(tick));
        due
    }

    /// One tick, with the monotonic reading `tick`, the wall-clock time `now` in
    /// milliseconds and the values `data` that were polled, one for each processing
    /// unit in a stable order.
    ///
    /// Where no round is due, or `data` is empty, nothing changes. Else `tick` is
    /// recorded as the time of the last round, and the values go to the charts: a
    /// registry without charts gets one chart for each value, seeded with
    /// `(now, value)`; one with charts has each chart ingest the value at its
    /// position. Charts without a value stay as they are, and values without a
    /// chart are dropped.
    pub fn update_at(&mut self, tick: u128, now: i64, data: &Vec<i32>)
        ensures
            final(self)@ == old(self)@.refresh(tick, now, data@),
            final(self).spec_origin() == old(self).spec_origin(),
            final(self).spec_items_per_row() == old(self).spec_items_per_row(),
            final(self).spec_chart_height() == old(self).spec_chart_height(),
            old(self)@.is_initialized() ==> final(self)@.charts.len() == old(self)@.charts.len(),
            !old(self)@.should_update(tick) || data@.len() == 0 ==> final(self)@ == old(self)@,
            old(self)@.uniform_window() ==> final(self)@.uniform_window(),
    {
        if data.len() == 0 || !self.should_update_at(tick) {
            return ;
        }
        proof {
            if old(self)@.uniform_window() {
                lemma_refresh_uniform_window(old(self)@, tick, now, data@);
            }
        }
        self.last_sample_time = tick;
        if !self.is_initialized() {
            let mut i: usize = 0;
            while i < data.len()
                invariant
                    i <= data.len(),
                    self.grid == old(self).grid,
                    self.origin == old(self).origin,
                    self.last_sample_time == tick,
                    self.processors@.len() == i,
                    forall|k: int|
                        #![trigger self.processors@[k]]
                        0 <= k < i ==> self.processors@[k]@ == Series::holding(
                            seq![(now, data@[k])],
                            (PLOT_SECONDS * 1000) as u64,
                        ),
                decreases data.len() - i,
            {
                let seed = vec![(now, data[i])];
                assert(seed@ =~= seq![(now, data@[i as int])]);
                self.processors.push(CpuUsageChart::new(seed));
                i = i + 1;
            }
            assert(self@.charts =~= old(self)@.distribute(now, data@));
        } else {
            let count = if data.len() < self.processors.len() {
                data.len()
            } else {
                self.processors.len()
            };
            let mut i: usize = 0;
            while i < count
                invariant
                    i <= count,
                    count <= data.len(),
                    count <= self.processors@.len(),
                    count == data.len() || count == self.processors@.len(),
                    self.grid == old(self).grid,
                    self.origin == old(self).origin,
                    self.last_sample_time == tick,
                    self.processors@.len() == old(self).processors@.len(),
                    forall|k: int|
                        #![trigger self.processors@[k]]
                        0 <= k < i ==> self.processors@[k]@ == old(self).processors@[k]@.ingest(
                            now,
                            data@[k],
                        ),
                    forall|k: int|
                        #![trigger self.processors@[k]]
                        i <= k < self.processors@.len() ==> self.processors@[k] == old(
                            self,
                        ).processors@[k],
                decreases count - i,
            {
                self.processors[i].push_data(now, data[i]);
                i = i + 1;
            }
            assert(self@.charts =~= old(self)@.distribute(now, data@));
        }
    }

    /// One tick at the present reading of the monotonic clock, with the wall-clock
    /// time `now` in milliseconds and the values `data` that were polled: does what
    /// `update_at` does with that reading.
    pub fn update(&mut self, now: i64, data: &Vec<i32>)
        ensures
            exists|tick: u128| final(self)@ == old(self)@.refresh(tick, now, data@),
            final(self).spec_origin() == old(self).spec_origin(),
            final(self).spec_items_per_row() == old(self).spec_items_per_row(),
            final(self).spec_chart_height() == old(self).spec_chart_height(),
            old(self)@.is_initialized() ==> final(self)@.charts.len() == old(self)@.charts.len(),
            !old(self)@.is_initialized() ==> final(self)@.charts.len() == data@.len(),
            data@.len() == 0 ==> final(self)@ == old(self)@,
            old(self)@.uniform_window() ==> final(self)@.uniform_window(),
    {
        let tick = nanos_since(&self.origin);
        self.update_at(tick, now, data);
        proof {
            lemma_refresh_cardinality(old(self)@, tick, now, data@);
            assert(final(self)@ == old(self)@.refresh(tick, now, data@));
        }
    }
}

} // verus!
