//! Progress reporting: the status interface the presentation layer
//! implements, and per-artifact download statistics.
//!
//! Times are nanoseconds on a monotonic clock with an arbitrary origin.

use vstd::prelude::*;

verus! {

/// Receives progress and status messages from the engine.
pub trait StatusUpdate {
    fn message(&self, msg: &str);

    fn update_downloading(&self, status: &DownloadingStats);
}

/// Nanoseconds in the shortest interval between two progress reports.
pub const TICK_NS: u64 = 500_000_000;

/// Nanoseconds per second.
pub const NS_PER_SEC: u64 = 1_000_000_000;

/// Progress of one artifact's download.
pub struct DownloadingStats {
    title: String,
    count: u64,
    start_time: u64,
    total_size: u64,
    downloaded: u64,
    elapsed: Option<u64>,
    prev_start_time: u64,
    prev_downloaded: u64,
}

/// The abstract state of a download's progress.
pub struct StatsView {
    pub title: Seq<char>,
    /// Chunks received so far.
    pub count: u64,
    /// Time of the latest chunk (or of creation, before the first).
    pub start_time: u64,
    pub total_size: u64,
    pub downloaded: u64,
    /// Time from the latest chunk to the end, once finished.
    pub elapsed: Option<u64>,
    /// Time of the last reported checkpoint.
    pub prev_start_time: u64,
    /// Bytes received at the last reported checkpoint.
    pub prev_downloaded: u64,
}

impl View for DownloadingStats {
    type V = StatsView;

    closed spec fn view(&self) -> StatsView {
        StatsView {
            title: self.title@,
            count: self.count,
            start_time: self.start_time,
            total_size: self.total_size,
            downloaded: self.downloaded,
            elapsed: self.elapsed,
            prev_start_time: self.prev_start_time,
            prev_downloaded: self.prev_downloaded,
        }
    }
}

/// `later - earlier`, or 0 when `later` is not after `earlier`.
pub open spec fn interval(earlier: u64, later: u64) -> int {
    if later >= earlier {
        later - earlier
    } else {
        0
    }
}

/// Time since the last reported checkpoint.
pub open spec fn since_checkpoint(v: StatsView) -> int {
    interval(v.prev_start_time, v.start_time)
}

/// `x`, or `u64::MAX` when `x` is larger.
pub open spec fn saturated(x: int) -> int {
    if x > u64::MAX {
        u64::MAX as int
    } else {
        x
    }
}

/// Share of the total received, in whole percent (rounded down, at most
/// `u64::MAX`); 0 when the total size is unknown (zero).
pub open spec fn spec_percentage(v: StatsView) -> int {
    if v.total_size == 0 {
        0
    } else {
        saturated((v.downloaded * 100) / (v.total_size as int))
    }
}

/// Bytes per second since the last checkpoint (rounded down, at most
/// `u64::MAX`); 0 when no time has passed.
pub open spec fn spec_speed(v: StatsView) -> int {
    if since_checkpoint(v) == 0 {
        0
    } else {
        saturated(((v.downloaded - v.prev_downloaded) * NS_PER_SEC) / since_checkpoint(v))
    }
}

impl DownloadingStats {
    /// The bytes at the last checkpoint never exceed the bytes received.
    pub open spec fn wf(&self) -> bool {
        self@.prev_downloaded <= self@.downloaded
    }

    pub fn new(title: &str, total_size: u64, now: u64) -> (r: DownloadingStats)
        ensures
            r.wf(),
            r@ == (StatsView {
                title: title@,
                count: 0,
                start_time: now,
                total_size,
                downloaded: 0,
                elapsed: None,
                prev_start_time: now,
                prev_downloaded: 0,
            }),
    {
        DownloadingStats {
            title: String::from_str(title),
            count: 0,
            start_time: now,
            total_size,
            downloaded: 0,
            elapsed: None,
            prev_start_time: now,
            prev_downloaded: 0,
        }
    }

    pub fn title(&self) -> (r: &str)
        ensures
            r@ == self@.title,
    {
        self.title.as_str()
    }

    pub fn total_size(&self) -> (r: u64)
        ensures
            r == self@.total_size,
    {
        self.total_size
    }

    /// Whether at least half a second has passed since the last reported
    /// checkpoint, so that a new report is due.
    pub fn out_of_tick(&self) -> (r: bool)
        ensures
            r == (since_checkpoint(self@) >= TICK_NS),
    {
        let elapsed = if self.start_time >= self.prev_start_time {
            self.start_time - self.prev_start_time
        } else {
            0
        };
        elapsed >= TICK_NS
    }

    /// Makes the latest chunk the reported checkpoint.
    pub fn next_tick(&mut self)
        requires
            old(self).wf(),
        ensures
            final(self).wf(),
            final(self)@ == (StatsView {
                prev_start_time: old(self)@.start_time,
                prev_downloaded: old(self)@.downloaded,
                ..old(self)@
            }),
    {
        self.prev_start_time = self.start_time;
        self.prev_downloaded = self.downloaded;
    }

    /// Records a chunk of `size` bytes received at time `now`.
    pub fn update(&mut self, size: u64, now: u64)
        requires
            old(self).wf(),
            old(self)@.count < u64::MAX,
            old(self)@.downloaded + size <= u64::MAX,
        ensures
            final(self).wf(),
            final(self)@ == (StatsView {
                count: (old(self)@.count + 1) as u64,
                downloaded: (old(self)@.downloaded + size) as u64,
                start_time: now,
                ..old(self)@
            }),
    {
        self.count = self.count + 1;
        self.downloaded = self.downloaded + size;
        self.start_time = now;
    }

    pub fn count(&self) -> (r: u64)
        ensures
            r == self@.count,
    {
        self.count
    }

    pub fn downloaded(&self) -> (r: u64)
        ensures
            r == self@.downloaded,
    {
        self.downloaded
    }

    /// Time from the latest chunk to the end of the download, once finished.
    pub fn elapsed(&self) -> (r: Option<u64>)
        ensures
            r == self@.elapsed,
    {
        self.elapsed
    }

    /// Share of the total size received so far, in whole percent.
    pub fn percentage(&self) -> (r: u64)
        ensures
            r == spec_percentage(self@),
            self@.total_size == 0 ==> r == 0,
            self@.downloaded <= self@.total_size ==> r <= 100,
    {
        if self.total_size != 0 {
            assert((self.downloaded as u128) * 100 <= u128::MAX) by (nonlinear_arith)
                requires
                    self.downloaded <= u64::MAX,
            ;
            let p: u128 = (self.downloaded as u128) * 100 / (self.total_size as u128);
            proof {
                if self.downloaded <= self.total_size {
                    let d = self.downloaded as int;
                    let t = self.total_size as int;
                    assert(d * 100 / t <= 100) by (nonlinear_arith)
                        requires
                            0 <= d <= t,
                            t > 0,
                    ;
                }
            }
            if p > u64::MAX as u128 {
                u64::MAX
            } else {
                p as u64
            }
        } else {
            0
        }
    }

    /// Throughput since the last reported checkpoint, in bytes per second.
    pub fn speed(&self) -> (r: u64)
        requires
            self.wf(),
        ensures
            r == spec_speed(self@),
            since_checkpoint(self@) == 0 ==> r == 0,
    {
        let bytes = self.downloaded - self.prev_downloaded;
        let elapsed = if self.start_time >= self.prev_start_time {
            self.start_time - self.prev_start_time
        } else {
            0
        };
        if elapsed == 0 {
            0
        } else {
            assert((bytes as u128) * (NS_PER_SEC as u128) <= u128::MAX) by (nonlinear_arith)
                requires
                    bytes <= u64::MAX,
            ;
            let rate: u128 = (bytes as u128) * (NS_PER_SEC as u128) / (elapsed as u128);
            if rate > u64::MAX as u128 {
                u64::MAX
            } else {
                rate as u64
            }
        }
    }

    /// Records the end of the download at time `now`.
    pub fn finish(&mut self, now: u64)
        ensures
            final(self)@ == (StatsView {
                elapsed: Some(interval(old(self)@.start_time, now) as u64),
                ..old(self)@
            }),
    {
        let elapsed = if now >= self.start_time {
            now - self.start_time
        } else {
            0
        };
        self.elapsed = Some(elapsed);
    }
}

/// The progress after a chunk of `size` bytes arrived at time `now`.
pub open spec fn after_chunk(v: StatsView, size: u64, now: u64) -> StatsView {
    StatsView {
        count: (v.count + 1) as u64,
        downloaded: (v.downloaded + size) as u64,
        start_time: now,
        ..v
    }
}

/// Records a received chunk and, when at least half a second has passed
/// since the last reported checkpoint, reports the progress to `status` and
/// makes this chunk the new checkpoint. Returns whether it reported.
pub fn record_chunk<S: StatusUpdate>(stats: &mut DownloadingStats, size: u64, now: u64, status: &S) -> (reported: bool)
    requires
        old(stats).wf(),
        old(stats)@.count < u64::MAX,
        old(stats)@.downloaded + size <= u64::MAX,
    ensures
        final(stats).wf(),
        reported == (since_checkpoint(after_chunk(old(stats)@, size, now)) >= TICK_NS),
        reported ==> final(stats)@ == (StatsView {
            prev_start_time: now,
            prev_downloaded: after_chunk(old(stats)@, size, now).downloaded,
            ..after_chunk(old(stats)@, size, now)
        }),
        !reported ==> final(stats)@ == after_chunk(old(stats)@, size, now),
{
    stats.update(size, now);
    if stats.out_of_tick() {
        status.update_downloading(stats);
        stats.next_tick();
        true
    } else {
        false
    }
}

} // verus!
