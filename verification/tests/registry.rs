use cpu_monitor::cpu_usage_chart::CpuUsageChart;
use cpu_monitor::gui::Message;
use cpu_monitor::layout::{Cell, Grid, Layout};
use cpu_monitor::systemchart::SystemChart;
use cpu_monitor::SAMPLE_EVERY_NANOS;

fn held(chart: &CpuUsageChart) -> Vec<(i64, i32)> {
    let mut points = chart.points();
    points.reverse();
    points
}

fn chart_at(charts: &SystemChart, index: usize) -> &CpuUsageChart {
    match charts.processor(index) {
        Some(chart) => chart,
        None => panic!("no chart at {}", index),
    }
}

#[test]
fn default_has_no_charts() {
    let charts = SystemChart::default();
    assert!(!charts.is_initialized());
    assert_eq!(charts.len(), 0);
    assert_eq!(charts.items_per_row(), 3);
    assert_eq!(charts.chart_height(), 300);
    assert_eq!(charts.last_sample_time(), 0);
    assert!(charts.processor(0).is_none());
    assert_eq!(charts.layout(), Layout::Loading);
}

#[test]
fn first_poll_of_four_fixes_four_charts() {
    let mut charts = SystemChart::default();
    charts.update_at(5, 1_000, &vec![10, 20, 30, 40]);
    assert!(charts.is_initialized());
    assert_eq!(charts.len(), 4);
    assert_eq!(charts.last_sample_time(), 5);
    for (index, value) in [10, 20, 30, 40].iter().enumerate() {
        let chart = chart_at(&charts, index);
        assert_eq!(held(chart), vec![(1_000, *value)]);
        assert_eq!(chart.limit(), 60_000);
        assert!(chart.is_dirty());
    }

    let second = 5 + SAMPLE_EVERY_NANOS + 1;
    charts.update_at(second, 2_000, &vec![11, 21, 31]);
    assert_eq!(charts.len(), 4);
    assert_eq!(charts.last_sample_time(), second);
    assert_eq!(held(chart_at(&charts, 0)), vec![(2_000, 11), (1_000, 10)]);
    assert_eq!(held(chart_at(&charts, 1)), vec![(2_000, 21), (1_000, 20)]);
    assert_eq!(held(chart_at(&charts, 2)), vec![(2_000, 31), (1_000, 30)]);
    assert_eq!(held(chart_at(&charts, 3)), vec![(1_000, 40)]);

    let third = second + SAMPLE_EVERY_NANOS + 1;
    charts.update_at(third, 90_000, &vec![12, 22, 32]);
    assert_eq!(charts.len(), 4);
    assert_eq!(held(chart_at(&charts, 0)), vec![(90_000, 12)]);
    assert_eq!(held(chart_at(&charts, 3)), vec![(1_000, 40)]);
    assert_eq!(chart_at(&charts, 3).newest_time(), 1_000);
    assert_eq!(chart_at(&charts, 3).oldest_time(), -59_000);
}

#[test]
fn surplus_values_are_dropped() {
    let mut charts = SystemChart::default();
    charts.update_at(0, 100, &vec![1, 2]);
    charts.update_at(SAMPLE_EVERY_NANOS + 1, 200, &vec![3, 4, 5, 6]);
    assert_eq!(charts.len(), 2);
    assert_eq!(held(chart_at(&charts, 0)), vec![(200, 3), (100, 1)]);
    assert_eq!(held(chart_at(&charts, 1)), vec![(200, 4), (100, 2)]);
    assert!(charts.processor(2).is_none());
}

#[test]
fn empty_first_poll_leaves_registry_uninitialized() {
    let mut charts = SystemChart::default();
    charts.update_at(7, 1_000, &vec![]);
    assert!(!charts.is_initialized());
    assert_eq!(charts.len(), 0);
    assert_eq!(charts.last_sample_time(), 0);
    assert_eq!(charts.layout(), Layout::Loading);
    assert!(charts.should_update_at(7));
    assert!(charts.should_update_at(0));
    assert!(charts.should_update());
    let blank = CpuUsageChart::new(vec![]);
    let p = blank.projection();
    assert_eq!((p.oldest_time, p.newest_time), (-60_000, 0));
    assert!(p.points.is_empty());

    charts.update_at(8, 2_000, &vec![9]);
    assert!(charts.is_initialized());
    assert_eq!(charts.last_sample_time(), 8);
    assert_eq!(held(chart_at(&charts, 0)), vec![(2_000, 9)]);
}

#[test]
fn empty_poll_in_steady_state_changes_no_chart() {
    let mut charts = SystemChart::default();
    charts.update_at(0, 1_000, &vec![1, 2]);
    let tick = 2 * SAMPLE_EVERY_NANOS;
    charts.update_at(tick, 2_000, &vec![]);
    assert_eq!(charts.len(), 2);
    assert_eq!(held(chart_at(&charts, 0)), vec![(1_000, 1)]);
    assert_eq!(held(chart_at(&charts, 1)), vec![(1_000, 2)]);
    assert_eq!(charts.last_sample_time(), 0);
    assert!(charts.should_update_at(tick));
    assert!(charts.should_update_at(tick + 1));
    charts.update_at(tick + 1, 2_100, &vec![3, 4]);
    assert_eq!(charts.last_sample_time(), tick + 1);
    assert_eq!(held(chart_at(&charts, 0)), vec![(2_100, 3), (1_000, 1)]);
    assert!(!charts.should_update_at(tick + 2));
}

#[test]
fn gate_is_closed_until_the_interval_is_exceeded() {
    let mut charts = SystemChart::default();
    let first = 123_456u128;
    assert!(charts.should_update_at(first));
    charts.update_at(first, 1_000, &vec![50]);
    assert!(!charts.should_update_at(first));
    assert!(!charts.should_update_at(first + 1));
    assert!(!charts.should_update_at(first + SAMPLE_EVERY_NANOS - 1));
    assert!(!charts.should_update_at(first + SAMPLE_EVERY_NANOS));
    assert!(charts.should_update_at(first + SAMPLE_EVERY_NANOS + 1));
    assert!(charts.should_update_at(u128::MAX));
    assert!(!charts.should_update_at(0));
    assert_eq!(SAMPLE_EVERY_NANOS, 1_000_000_000);
}

#[test]
fn tick_with_closed_gate_changes_nothing() {
    let mut charts = SystemChart::default();
    charts.update_at(10, 1_000, &vec![1, 2, 3]);
    charts.update_at(10 + SAMPLE_EVERY_NANOS, 2_000, &vec![4, 5, 6]);
    assert_eq!(charts.last_sample_time(), 10);
    for index in 0..3 {
        assert_eq!(chart_at(&charts, index).len(), 1);
        assert_eq!(chart_at(&charts, index).newest_time(), 1_000);
    }
}

#[test]
fn asking_the_gate_records_nothing() {
    let mut charts = SystemChart::default();
    charts.update_at(10, 1_000, &vec![1]);
    let late = 10 + 5 * SAMPLE_EVERY_NANOS;
    assert!(charts.should_update_at(late));
    assert!(charts.should_update_at(late));
    assert_eq!(charts.last_sample_time(), 10);
}

#[test]
fn update_reads_the_monotonic_clock() {
    let mut charts = SystemChart::default();
    assert!(charts.should_update());
    let stamp = 1_700_000_000_000;
    charts.update(stamp, &vec![]);
    assert!(!charts.is_initialized());
    assert!(charts.should_update());
    charts.update(stamp, &vec![3, 4]);
    assert!(charts.is_initialized());
    assert_eq!(charts.len(), 2);
    assert_eq!(held(chart_at(&charts, 0)), vec![(stamp, 3)]);
    assert_eq!(held(chart_at(&charts, 1)), vec![(stamp, 4)]);
    assert!(charts.last_sample_time() < 60 * SAMPLE_EVERY_NANOS);
    assert!(!charts.should_update());
    charts.update(stamp + 500, &vec![5, 6]);
    assert_eq!(held(chart_at(&charts, 0)), vec![(stamp, 3)]);
}

#[test]
fn every_chart_has_the_default_window() {
    let mut charts = SystemChart::default();
    charts.update_at(0, 1_000, &vec![1, 2, 3]);
    charts.update_at(2 * SAMPLE_EVERY_NANOS, 2_000, &vec![4, 5]);
    charts.clear_dirty(0);
    for index in 0..3 {
        assert_eq!(chart_at(&charts, index).limit(), 60_000);
    }
}

#[test]
fn clear_dirty_reaches_one_chart() {
    let mut charts = SystemChart::default();
    charts.update_at(0, 1_000, &vec![1, 2]);
    charts.clear_dirty(1);
    assert!(chart_at(&charts, 0).is_dirty());
    assert!(!chart_at(&charts, 1).is_dirty());
    charts.clear_dirty(5);
    assert_eq!(charts.len(), 2);
    charts.update_at(2 * SAMPLE_EVERY_NANOS, 2_000, &vec![3, 4]);
    assert!(chart_at(&charts, 1).is_dirty());
}

#[test]
fn layout_pads_the_last_row() {
    let mut charts = SystemChart::default();
    charts.update_at(0, 1_000, &vec![1, 2, 3, 4]);
    let expected = Layout::Rows(vec![
        vec![Cell::Chart(0), Cell::Chart(1), Cell::Chart(2)],
        vec![Cell::Chart(3), Cell::Space, Cell::Space],
    ]);
    assert_eq!(charts.layout(), expected);
}

#[test]
fn grid_rows_for_several_counts() {
    let grid = match Grid::new(2, 100) {
        Some(grid) => grid,
        None => panic!("two to a row is a grid"),
    };
    assert_eq!(grid.items_per_row(), 2);
    assert_eq!(grid.chart_height(), 100);
    assert_eq!(grid.rows(0), Vec::<Vec<Cell>>::new());
    assert_eq!(grid.rows(1), vec![vec![Cell::Chart(0), Cell::Space]]);
    assert_eq!(grid.rows(2), vec![vec![Cell::Chart(0), Cell::Chart(1)]]);
    assert_eq!(
        grid.rows(3),
        vec![vec![Cell::Chart(0), Cell::Chart(1)], vec![Cell::Chart(2), Cell::Space]]
    );
    assert!(Grid::new(0, 100).is_none());
    let default = Grid::default();
    assert_eq!((default.items_per_row(), default.chart_height()), (3, 300));
    assert_eq!(default.rows(6).len(), 2);
    assert_eq!(default.rows(7).len(), 3);
}

#[test]
fn tick_is_the_only_message() {
    let message = Message::Tick;
    assert_eq!(message, Message::Tick);
    assert_eq!(format!("{:?}", message), "Tick");
}
