use tgba_installer::status::{record_chunk, DownloadingStats, StatusUpdate};

#[test]
fn new_stats_start_empty() {
    let stats = DownloadingStats::new("numpy", 200, 5);
    assert_eq!(stats.title(), "numpy");
    assert_eq!(stats.total_size(), 200);
    assert_eq!(stats.count(), 0);
    assert_eq!(stats.downloaded(), 0);
    assert_eq!(stats.elapsed(), None);
    assert!(!stats.out_of_tick());
}

#[test]
fn percentage_is_zero_for_unknown_total() {
    let mut stats = DownloadingStats::new("x", 0, 0);
    stats.update(1000, 10);
    assert_eq!(stats.percentage(), 0);
}

#[test]
fn percentage_is_share_of_total() {
    let mut stats = DownloadingStats::new("x", 200, 0);
    stats.update(50, 10);
    assert_eq!(stats.percentage(), 25);
    stats.update(150, 20);
    assert_eq!(stats.percentage(), 100);
}

#[test]
fn percentage_rounds_down() {
    let mut stats = DownloadingStats::new("x", 3, 0);
    stats.update(1, 10);
    assert_eq!(stats.percentage(), 33);
}

#[test]
fn speed_is_zero_without_elapsed_time() {
    let mut stats = DownloadingStats::new("x", 100, 1_000);
    stats.update(100, 1_000);
    assert_eq!(stats.speed(), 0);
}

#[test]
fn speed_is_bytes_per_second_since_checkpoint() {
    let mut stats = DownloadingStats::new("x", 1_000_000, 0);
    stats.update(50, 600_000_000);
    assert_eq!(stats.speed(), 83);
    assert!(stats.out_of_tick());
    stats.next_tick();
    assert!(!stats.out_of_tick());
    assert_eq!(stats.speed(), 0);
    stats.update(1_000, 1_600_000_000);
    assert_eq!(stats.speed(), 1_000);
}

#[test]
fn tick_needs_at_least_half_a_second() {
    let mut stats = DownloadingStats::new("x", 10, 0);
    stats.update(1, 499_999_999);
    assert!(!stats.out_of_tick());
    stats.update(1, 500_000_000);
    assert!(stats.out_of_tick());
}

#[test]
fn update_counts_chunks_and_bytes() {
    let mut stats = DownloadingStats::new("x", 10, 0);
    stats.update(3, 1);
    stats.update(4, 2);
    assert_eq!(stats.count(), 2);
    assert_eq!(stats.downloaded(), 7);
}

#[test]
fn finish_records_time_since_last_chunk() {
    let mut stats = DownloadingStats::new("x", 10, 100);
    stats.update(10, 400);
    stats.finish(1_000);
    assert_eq!(stats.elapsed(), Some(600));
}

struct Recorder {
    reports: std::cell::RefCell<Vec<(u64, u64)>>,
    messages: std::cell::RefCell<Vec<String>>,
}

impl StatusUpdate for Recorder {
    fn message(&self, msg: &str) {
        self.messages.borrow_mut().push(msg.to_string());
    }

    fn update_downloading(&self, status: &DownloadingStats) {
        self.reports.borrow_mut().push((status.downloaded(), status.speed()));
    }
}

#[test]
fn progress_is_reported_only_after_a_tick() {
    let recorder = Recorder {
        reports: std::cell::RefCell::new(Vec::new()),
        messages: std::cell::RefCell::new(Vec::new()),
    };
    let mut stats = DownloadingStats::new("pkg", 3_000, 0);
    assert!(!record_chunk(&mut stats, 1_000, 100_000_000, &recorder));
    assert!(!record_chunk(&mut stats, 1_000, 400_000_000, &recorder));
    assert!(record_chunk(&mut stats, 1_000, 1_000_000_000, &recorder));
    assert!(!record_chunk(&mut stats, 0, 1_200_000_000, &recorder));
    assert_eq!(*recorder.reports.borrow(), vec![(3_000, 3_000)]);
    assert_eq!(stats.count(), 4);
    assert_eq!(stats.percentage(), 100);
    recorder.message("done");
    assert_eq!(recorder.messages.borrow().len(), 1);
}
