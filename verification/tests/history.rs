//! Behaviour of the bounded FIFO history.

use rdma_mon::data::PortType;
use rdma_mon::monitor::HISTORY_CAPACITY;
use rdma_mon::monitor::PortHistory;

#[test]
fn push_appends_pairs() {
    let mut h = PortHistory::new(String::from("eth0"), PortType::Ethernet);
    h.push_point(0, 5, 7);
    h.push_point(50, 6, 8);
    assert_eq!(h.rx_data, vec![(0, 5), (50, 6)]);
    assert_eq!(h.tx_data, vec![(0, 7), (50, 8)]);
}

#[test]
fn capacity_overflow_evicts_exactly_the_oldest() {
    // N+1 pushes into a history of capacity N leave exactly N points: the
    // original oldest point is gone, the rest keep their relative order.
    let mut h = PortHistory::new(String::from("mlx5_0-1"), PortType::Rdma);
    let n = HISTORY_CAPACITY as u64;
    for k in 0..=n {
        h.push_point(k * 50, k + 1, 2 * k + 1);
    }
    assert_eq!(h.rx_data.len(), HISTORY_CAPACITY);
    assert_eq!(h.tx_data.len(), HISTORY_CAPACITY);
    // The first pushed point (time 0) is absent.
    assert!(h.rx_data.iter().all(|p| p.0 != 0));
    // Relative order of the survivors is preserved.
    for (i, p) in h.rx_data.iter().enumerate() {
        let k = i as u64 + 1;
        assert_eq!(*p, (k * 50, k + 1));
    }
    for (i, p) in h.tx_data.iter().enumerate() {
        let k = i as u64 + 1;
        assert_eq!(*p, (k * 50, 2 * k + 1));
    }
}

#[test]
fn max_rate_spans_both_directions() {
    let mut h = PortHistory::new(String::from("eth0"), PortType::Ethernet);
    assert_eq!(h.max_rate(), 0);
    h.push_point(0, 10, 90);
    h.push_point(50, 40, 20);
    assert_eq!(h.max_rate(), 90);
    h.push_point(100, 120, 5);
    assert_eq!(h.max_rate(), 120);
}

#[test]
fn history_never_exceeds_capacity() {
    let mut h = PortHistory::new(String::from("eth0"), PortType::Ethernet);
    for k in 0..3 * HISTORY_CAPACITY as u64 {
        h.push_point(k, k, k);
        assert!(h.rx_data.len() <= HISTORY_CAPACITY);
        assert_eq!(h.rx_data.len(), h.tx_data.len());
    }
    assert_eq!(h.rx_data.first().unwrap().0, 2 * HISTORY_CAPACITY as u64);
}
