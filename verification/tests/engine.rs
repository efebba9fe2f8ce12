//! Behaviour of the sampling engine: baselines, rates, wraparound,
//! peak-hold windows, commits, and scheduling.

use rdma_mon::data::PortType;
use rdma_mon::fast_io::CounterError;
use rdma_mon::monitor::SamplingEngine;
use rdma_mon::monitor::compute_rate;

const MS: u64 = 1_000_000;
const SEC: u64 = 1_000_000_000;

#[test]
fn rdma_multiplier_scales_delta() {
    // RDMA counters count 4-byte words: raw delta 10 over 1 s is 40 bytes/s.
    assert_eq!(compute_rate(10, 4, SEC), 40);
}

#[test]
fn ethernet_multiplier_is_identity() {
    assert_eq!(compute_rate(10, 1, SEC), 10);
}

#[test]
fn rate_saturates_instead_of_overflowing() {
    assert_eq!(compute_rate(u64::MAX, 4, 1), u64::MAX);
}

#[test]
fn first_tick_establishes_baseline_without_rate() {
    let mut e = SamplingEngine::new(PortType::Ethernet, 0);
    assert!(!e.initialized);
    e.tick(Ok(1000), Ok(2000), 0);
    assert!(e.initialized);
    assert_eq!(e.prev_rx, 1000);
    assert_eq!(e.prev_tx, 2000);
    assert_eq!(e.window_max_rx, 0);
    assert_eq!(e.window_max_tx, 0);
}

#[test]
fn second_tick_computes_instantaneous_rates() {
    // Baseline rx=1000, tx=2000; 1 ms later rx=1010, tx=2005 with
    // multiplier 1 gives 10000 B/s rx and 5000 B/s tx, and no commit is due
    // before the aggregation interval has elapsed.
    let mut e = SamplingEngine::new(PortType::Ethernet, 0);
    e.tick(Ok(1000), Ok(2000), 0);
    e.tick(Ok(1010), Ok(2005), MS);
    assert_eq!(e.window_max_rx, 10_000);
    assert_eq!(e.window_max_tx, 5_000);
    assert!(!e.commit_due(MS));
    assert!(!e.commit_due(49 * MS));
    assert!(e.commit_due(50 * MS));
}

#[test]
fn constant_rate_is_reproduced_every_tick() {
    // A counter advancing at a constant 7 units/s on an RDMA port reads
    // back as exactly 28 bytes/s on every tick.
    let mut e = SamplingEngine::new(PortType::Rdma, 0);
    e.tick(Ok(100), Ok(200), 0);
    for k in 1..=20u64 {
        e.tick(Ok(100 + 7 * k), Ok(200 + 7 * k), k * SEC);
        assert_eq!(e.window_max_rx, 28);
        assert_eq!(e.window_max_tx, 28);
    }
}

#[test]
fn wraparound_discards_delta_and_updates_baseline() {
    // Counter sequence [100, 50]: the decrease is wraparound/reset, so the
    // tick contributes no rate, and the baseline moves to 50.
    let mut e = SamplingEngine::new(PortType::Ethernet, 0);
    e.tick(Ok(100), Ok(100), 0);
    e.tick(Ok(50), Ok(100), MS);
    assert_eq!(e.window_max_rx, 0);
    assert_eq!(e.window_max_tx, 0);
    assert_eq!(e.prev_rx, 50);
    let p = e.commit_point();
    assert_eq!(p.rx_rate, 0);
}

#[test]
fn degenerate_elapsed_time_contributes_nothing() {
    let mut e = SamplingEngine::new(PortType::Ethernet, 0);
    e.tick(Ok(100), Ok(100), 0);
    // 1 us has not *exceeded* the minimal epsilon yet.
    e.tick(Ok(200), Ok(200), 1_000);
    assert_eq!(e.window_max_rx, 0);
    assert_eq!(e.prev_rx, 200);
}

#[test]
fn read_failure_is_tolerated_and_changes_nothing() {
    let mut e = SamplingEngine::new(PortType::Ethernet, 0);
    e.tick(Ok(100), Ok(200), 0);
    e.tick(Ok(150), Ok(250), SEC);
    assert_eq!(e.window_max_rx, 50);
    e.tick(Err(CounterError::Read), Ok(9999), 2 * SEC);
    assert_eq!(e.prev_rx, 150);
    assert_eq!(e.prev_tx, 250);
    assert_eq!(e.prev_sample_ns, SEC);
    assert_eq!(e.window_max_rx, 50);
    // The next successful pair spans the gap and still gives the true rate.
    e.tick(Ok(250), Ok(350), 3 * SEC);
    assert_eq!(e.window_max_rx, 50);
}

#[test]
fn peak_hold_commits_the_maximum() {
    // Sub-sample rates [10, 50, 30] inside one window commit 50: the peak,
    // not the latest value and not the average.
    let mut e = SamplingEngine::new(PortType::Ethernet, 0);
    e.tick(Ok(0), Ok(0), 0);
    e.tick(Ok(10), Ok(10), SEC);
    e.tick(Ok(60), Ok(60), 2 * SEC);
    e.tick(Ok(90), Ok(90), 3 * SEC);
    assert_eq!(e.window_max_rx, 50);
    assert_eq!(e.window_max_tx, 50);
    let p = e.commit_point();
    assert_eq!(p.rx_rate, 50);
}

#[test]
fn failed_commit_keeps_peak_eligible() {
    // If the writer's try-acquire fails at the commit moment the
    // accumulator is untouched, and the later successful commit carries the
    // maximum over the extended window.
    let mut e = SamplingEngine::new(PortType::Ethernet, 0);
    e.tick(Ok(0), Ok(0), 0);
    e.tick(Ok(10), Ok(10), SEC);
    e.tick(Ok(60), Ok(60), 2 * SEC);
    assert!(e.commit_due(2 * SEC));
    let before = e.commit_point();
    e.on_commit_attempt(2 * SEC, false);
    assert_eq!(e.window_max_rx, before.rx_rate);
    assert_eq!(e.logical_time_ms, 0);
    assert!(e.commit_due(2 * SEC + 50 * MS));
    // The extended window sees one more, smaller rate.
    e.tick(Ok(90), Ok(90), 3 * SEC);
    let p = e.commit_point();
    assert_eq!(p.rx_rate, 50);
    e.on_commit_attempt(3 * SEC, true);
    assert_eq!(e.window_max_rx, 0);
    assert_eq!(e.window_max_tx, 0);
    assert_eq!(e.last_commit_ns, 3 * SEC);
    assert_eq!(e.logical_time_ms, 50);
}

#[test]
fn successful_commit_opens_a_fresh_window() {
    let mut e = SamplingEngine::new(PortType::Ethernet, 0);
    e.tick(Ok(0), Ok(0), 0);
    e.tick(Ok(100), Ok(100), SEC);
    e.on_commit_attempt(SEC, true);
    assert_eq!(e.window_max_rx, 0);
    assert!(!e.commit_due(SEC + 49 * MS));
    e.tick(Ok(130), Ok(130), 2 * SEC);
    assert_eq!(e.window_max_rx, 30);
}

#[test]
fn deadline_advances_from_anchor_not_from_now() {
    let mut e = SamplingEngine::new(PortType::Ethernet, 0);
    // Waking a little late does not shift the schedule.
    let w1 = e.next_wake(300_000);
    assert_eq!(w1, MS);
    let w2 = e.next_wake(MS + 400_000);
    assert_eq!(w2, 2 * MS);
}

#[test]
fn overrun_resets_the_anchor() {
    let mut e = SamplingEngine::new(PortType::Ethernet, 0);
    // The deadline is far in the past: no catch-up backlog, the anchor
    // resets to the present.
    let w = e.next_wake(5 * MS);
    assert_eq!(w, 5 * MS);
    assert_eq!(e.next_tick_ns, 5 * MS);
    let w2 = e.next_wake(5 * MS + 200_000);
    assert_eq!(w2, 6 * MS);
}
