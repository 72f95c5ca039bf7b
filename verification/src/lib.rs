//! Rolling per-core CPU utilization history.
//!
//! A [`systemchart::SystemChart`] keeps one [`cpu_usage_chart::CpuUsageChart`] per
//! processing unit. Each chart holds the samples of the trailing retention window,
//! newest first; a sample round is admitted at most once per [`SAMPLE_EVERY_NANOS`].
//! The mathematical model of both, and the laws proved of it, are in [`series`].
use vstd::prelude::*;

pub mod clock;
pub mod cpu_usage_chart;
pub mod gui;
pub mod layout;
pub mod series;
pub mod systemchart;

verus! {

/// Length of the retention window of a chart, in seconds.
pub const PLOT_SECONDS: u64 = 60;

/// Least time between two sample rounds, in nanoseconds (one second).
pub const SAMPLE_EVERY_NANOS: u128 = 1_000_000_000;

/// Lower end of the value axis of a chart, in percent.
pub const VALUE_MIN: i32 = 0;

/// Upper end of the value axis of a chart, in percent.
pub const VALUE_MAX: i32 = 100;

} // verus!
