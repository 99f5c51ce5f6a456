use rpmsg_async_notify::harness::{
    compute_stats, stats_mean, tsv_file_name, tsv_line, Harness, SampleStore,
};
use rpmsg_async_notify::TimeStamp;

#[test]
fn store_keeps_out_of_order_ids() {
    // a stubbed notification engine delivers the events as [3, 1, 2]
    let mut store = SampleStore::new();
    store.insert_recv(3, 300);
    store.insert_recv(1, 100);
    store.insert_recv(2, 200);
    assert_eq!(store.recv_len(), 3);
    // a reverse scan finds every one of them
    for id in (1..=3).rev() {
        assert!(store.get_recv(id).is_some());
    }
    assert_eq!(store.get_recv(1), Some(100));
    assert_eq!(store.get_recv(2), Some(200));
    assert_eq!(store.get_recv(3), Some(300));
    assert_eq!(store.get_recv(4), None);
}

#[test]
fn negative_latency_sample_excluded() {
    let t: u64 = 5_000_000;
    let mut store = SampleStore::new();
    for id in 1..=6usize {
        store.insert_sent(id, t + id as u64 * 1_000);
        store.insert_recv(id, t + id as u64 * 1_000 + 40_000);
    }
    // id 7 received "before" it was sent, by one microsecond
    store.insert_sent(7, t + 1_000);
    store.insert_recv(7, t);
    let stats = compute_stats(&store, 7);
    assert_eq!(stats.count, 6);
    assert_eq!(stats.min, 40_000);
    assert_eq!(stats.max, 40_000);
    assert_eq!(stats.sum, 6 * 40_000);
}

#[test]
fn stats_track_min_max_sum() {
    let mut store = SampleStore::new();
    store.insert_sent(1, 100);
    store.insert_recv(1, 400);
    store.insert_sent(2, 200);
    store.insert_recv(2, 250);
    store.insert_sent(3, 300);
    // id 3 never echoed back: not counted
    let stats = compute_stats(&store, 3);
    assert_eq!(stats.count, 2);
    assert_eq!(stats.min, 50);
    assert_eq!(stats.max, 300);
    assert_eq!(stats.sum, 350);
}

#[test]
fn round_trip_mean_under_load() {
    // an echo stub returns each payload after fifty microseconds,
    // give or take a small jitter
    let n: usize = 10_000;
    let delay_ns: u64 = 50_000;
    let mut harness = Harness::new(n);
    for id in 1..=n {
        let t_send = id as u64 * 100_000;
        let frame = harness.next_send(t_send);
        assert!(frame.len() >= 16);
        let jitter: i64 = if id % 2 == 0 { 200 } else { -200 };
        let t_recv = (t_send + delay_ns).wrapping_add(jitter as u64);
        harness.on_event(TimeStamp { id, time_stamp: t_recv });
    }
    let stats = compute_stats(&harness.store, n);
    assert_eq!(stats.count, n as u64);
    let mean = stats_mean(&stats);
    let low = (delay_ns as u128) * 9 / 10;
    let high = (delay_ns as u128) * 11 / 10;
    assert!(low <= mean && mean <= high, "mean {} out of range", mean);
}

#[test]
fn report_lines_and_file_name() {
    assert_eq!(tsv_line(7, 123), "7\t123\n");
    assert_eq!(tsv_line(100, 0), "100\t0\n");
    assert_eq!(tsv_file_name(100000), "signal_hook-100000.tsv");
}
