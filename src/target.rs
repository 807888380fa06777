//! Build-output directories: their size, their last use, and their staleness.
use vstd::prelude::*;

use crate::text::{join_path, join_seq};

verus! {

/// The name of a project's build-output directory.
pub const TARGET_DIR_NAME: &'static str = "target";

/// Past this many files, the size is estimated rather than summed.
pub const ESTIMATE_THRESHOLD: u64 = 10000;

/// The most top-level entries that an estimate multiplies by.
pub const ENTRY_COUNT_CAP: u64 = 100000;

/// How many files the last-use timestamp looks at.
pub const TIMESTAMP_SAMPLE: usize = 100;

/// The age assumed when no file's modification time can be read: 30 days.
pub const DEFAULT_AGE_SECS: u64 = 30 * 24 * 60 * 60;

/// What is known of one build-output directory. Times are seconds since the
/// Unix epoch.
#[derive(Clone, Debug)]
pub struct TargetInfo {
    pub path: String,
    pub size_bytes: u64,
    pub last_accessed: u64,
    pub is_stale: bool,
}

/// Why no target information was produced.
pub enum TargetError {
    /// The build-output directory does not exist; it holds the path looked at.
    NotFound(String),
}

/// The sum of `s`.
pub open spec fn sum_sizes(s: Seq<u64>) -> int
    decreases s.len(),
{
    if s.len() == 0 {
        0
    } else {
        sum_sizes(s.drop_last()) + s.last()
    }
}

/// `x`, held to the range of `u64`.
pub open spec fn cap_u64(x: int) -> int {
    if x > u64::MAX {
        u64::MAX as int
    } else {
        x
    }
}

/// The size reported for a directory whose files, in walk order, have the
/// sizes `sizes` and whose top level holds `entries` entries. Up to the
/// threshold it is the exact sum; past it, the mean of the files seen so far
/// times the top-level entry count, capped.
pub open spec fn size_estimate(sizes: Seq<u64>, entries: int) -> int {
    if sizes.len() <= ESTIMATE_THRESHOLD {
        cap_u64(sum_sizes(sizes))
    } else {
        let seen = sizes.subrange(0, ESTIMATE_THRESHOLD + 1);
        let count = if entries > ENTRY_COUNT_CAP {
            ENTRY_COUNT_CAP as int
        } else {
            entries
        };
        cap_u64((sum_sizes(seen) / (ESTIMATE_THRESHOLD + 1) as int) * count)
    }
}

/// The running count and sum of the file sizes met while walking a directory.
pub struct SizeTally {
    pub files: u64,
    pub total: u128,
}

impl SizeTally {
    /// The sum never exceeds what `files` values of `u64` can add up to.
    pub open spec fn wf(&self) -> bool {
        self.files <= ESTIMATE_THRESHOLD + 1 && self.total <= self.files * (u64::MAX as int)
    }

    /// Past the threshold: the walk stops and the size is estimated.
    pub open spec fn over(&self) -> bool {
        self.files > ESTIMATE_THRESHOLD
    }

    /// A tally of no files.
    pub fn new() -> (r: Self)
        ensures
            r.wf(),
            r.files == 0,
            r.total == 0,
    {
        SizeTally { files: 0, total: 0 }
    }

    /// Counts one more file of `size` bytes; returns whether the walk has now
    /// passed the threshold and must stop.
    pub fn record_file(&mut self, size: u64) -> (over: bool)
        requires
            old(self).wf(),
            !old(self).over(),
        ensures
            final(self).wf(),
            final(self).files == old(self).files + 1,
            final(self).total == old(self).total + size,
            over == final(self).over(),
    {
        proof {
            let f = self.files as int;
            assert((f + 1) * (u64::MAX as int) == f * (u64::MAX as int) + u64::MAX)
                by (nonlinear_arith);
        }
        self.files = self.files + 1;
        self.total = self.total + size as u128;
        self.files > ESTIMATE_THRESHOLD
    }

    /// The exact sum, held to `u64`.
    pub fn exact(&self) -> (r: u64)
        requires
            self.wf(),
        ensures
            r == cap_u64(self.total as int),
    {
        if self.total > u64::MAX as u128 {
            u64::MAX
        } else {
            self.total as u64
        }
    }

    /// The mean file size so far times the top-level entry count (itself
    /// capped), held to `u64`.
    pub fn estimate(&self, entry_count: u64) -> (r: u64)
        requires
            self.wf(),
            self.files > 0,
        ensures
            r == cap_u64(
                (self.total as int / self.files as int) * (if entry_count > ENTRY_COUNT_CAP {
                    ENTRY_COUNT_CAP as int
                } else {
                    entry_count as int
                }),
            ),
    {
        let avg: u128 = self.total / self.files as u128;
        proof {
            let f = self.files as int;
            let t = self.total as int;
            assert(t / f <= u64::MAX) by (nonlinear_arith)
                requires
                    f > 0,
                    0 <= t <= f * (u64::MAX as int),
            ;
        }
        let count: u64 = if entry_count > ENTRY_COUNT_CAP {
            ENTRY_COUNT_CAP
        } else {
            entry_count
        };
        proof {
            assert((avg as int) * (count as int) <= (u64::MAX as int) * (ENTRY_COUNT_CAP as int))
                by (nonlinear_arith)
                requires
                    avg <= u64::MAX,
                    count <= ENTRY_COUNT_CAP,
            ;
        }
        let product: u128 = avg * count as u128;
        if product > u64::MAX as u128 {
            u64::MAX
        } else {
            product as u64
        }
    }
}

/// The size of a directory whose files, in walk order, have the sizes
/// `sizes`, and whose top level holds `entry_count` entries. Exact up to the
/// threshold; past it, only the files up to the threshold are read.
pub fn estimate_directory_size(sizes: &Vec<u64>, entry_count: u64) -> (r: u64)
    ensures
        r == size_estimate(sizes@, entry_count as int),
{
    let mut tally = SizeTally::new();
    let mut i: usize = 0;
    while i < sizes.len()
        invariant
            tally.wf(),
            i <= sizes@.len(),
            i <= ESTIMATE_THRESHOLD,
            tally.files == i,
            tally.total == sum_sizes(sizes@.subrange(0, i as int)),
        decreases sizes@.len() - i,
    {
        assert(sizes@.subrange(0, i + 1).drop_last() =~= sizes@.subrange(0, i as int));
        let over = tally.record_file(sizes[i]);
        i = i + 1;
        if over {
            return tally.estimate(entry_count);
        }
    }
    assert(sizes@.subrange(0, i as int) =~= sizes@);
    tally.exact()
}

/// Up to the threshold, a directory's size is the exact sum of its files'
/// sizes, wherever that sum fits in `u64`.
pub proof fn lemma_small_directories_exact(sizes: Seq<u64>, entries: int)
    requires
        sizes.len() <= ESTIMATE_THRESHOLD,
        sum_sizes(sizes) <= u64::MAX,
    ensures
        size_estimate(sizes, entries) == sum_sizes(sizes),
{
}

/// Past the threshold, the estimate is the integer mean of the first files
/// seen times the top-level entry count capped, and no later file changes it.
pub proof fn lemma_large_directories_estimated(sizes: Seq<u64>, more: Seq<u64>, entries: int)
    requires
        sizes.len() > ESTIMATE_THRESHOLD,
        0 <= entries,
    ensures
        size_estimate(sizes, entries) == cap_u64(
            (sum_sizes(sizes.subrange(0, ESTIMATE_THRESHOLD + 1)) / (ESTIMATE_THRESHOLD
                + 1) as int) * if entries > ENTRY_COUNT_CAP {
                ENTRY_COUNT_CAP as int
            } else {
                entries
            },
        ),
        size_estimate(sizes + more, entries) == size_estimate(sizes, entries),
{
    assert((sizes + more).subrange(0, ESTIMATE_THRESHOLD + 1) =~= sizes.subrange(
        0,
        ESTIMATE_THRESHOLD + 1,
    ));
}

/// The oldest of `start` and of the readable times in `samples`.
pub open spec fn oldest_of(start: u64, samples: Seq<Option<u64>>) -> u64
    decreases samples.len(),
{
    if samples.len() == 0 {
        start
    } else {
        let a = oldest_of(start, samples.drop_last());
        match samples.last() {
            Some(t) => if t < a {
                t
            } else {
                a
            },
            None => a,
        }
    }
}

/// Some time in `samples` could be read.
pub open spec fn any_readable(samples: Seq<Option<u64>>) -> bool {
    exists|i: int| 0 <= i < samples.len() && #[trigger] samples[i] is Some
}

/// The files that the timestamp looks at: the first of those walked.
pub open spec fn sampled(samples: Seq<Option<u64>>) -> Seq<Option<u64>> {
    if samples.len() <= TIMESTAMP_SAMPLE {
        samples
    } else {
        samples.subrange(0, TIMESTAMP_SAMPLE as int)
    }
}

/// The last-use time of a directory modified at `dir_modified`, whose files
/// in walk order have the modification times `samples` (`None` where
/// unreadable): the oldest of the directory's time and the sampled files'
/// times, or 30 days before `now` when no sampled file's time is readable.
pub open spec fn last_used(dir_modified: u64, samples: Seq<Option<u64>>, now: u64) -> u64 {
    if any_readable(sampled(samples)) {
        oldest_of(dir_modified, sampled(samples))
    } else if now >= DEFAULT_AGE_SECS {
        (now - DEFAULT_AGE_SECS) as u64
    } else {
        0
    }
}

/// The representative last-use time of a build-output directory.
pub fn last_used_time(dir_modified: u64, samples: &Vec<Option<u64>>, now: u64) -> (r: u64)
    ensures
        r == last_used(dir_modified, samples@, now),
{
    let n: usize = if samples.len() > TIMESTAMP_SAMPLE {
        TIMESTAMP_SAMPLE
    } else {
        samples.len()
    };
    let ghost s = sampled(samples@);
    assert(s =~= samples@.subrange(0, n as int));
    let mut oldest = dir_modified;
    let mut found = false;
    let mut i: usize = 0;
    while i < n
        invariant
            n <= samples@.len(),
            s == samples@.subrange(0, n as int),
            i <= n,
            oldest == oldest_of(dir_modified, s.subrange(0, i as int)),
            found == any_readable(s.subrange(0, i as int)),
        decreases n - i,
    {
        let ghost prev = s.subrange(0, i as int);
        let ghost next = s.subrange(0, i + 1);
        assert(next.drop_last() =~= prev);
        assert(next.last() == samples@[i as int]);
        match samples[i] {
            Some(t) => {
                if t < oldest {
                    oldest = t;
                }
                found = true;
                assert(next[i as int] is Some);
            },
            None => {
                proof {
                    if any_readable(next) {
                        let k = choose|k: int| 0 <= k < next.len() && #[trigger] next[k] is Some;
                        assert(prev[k] is Some);
                    }
                    if any_readable(prev) {
                        let k = choose|k: int| 0 <= k < prev.len() && #[trigger] prev[k] is Some;
                        assert(next[k] is Some);
                    }
                }
            },
        }
        proof {
            if found && any_readable(prev) {
                let k = choose|k: int| 0 <= k < prev.len() && #[trigger] prev[k] is Some;
                assert(next[k] is Some);
            }
        }
        i = i + 1;
    }
    assert(s.subrange(0, n as int) =~= s);
    if found {
        oldest
    } else if now >= DEFAULT_AGE_SECS {
        now - DEFAULT_AGE_SECS
    } else {
        0
    }
}

/// Whether a directory last used at `last` is stale at `now` under
/// `threshold` seconds: the time elapsed, never negative, reaches the threshold.
pub open spec fn stale_at(last: u64, threshold: u64, now: u64) -> bool {
    (if now >= last {
        now - last
    } else {
        0
    }) >= threshold
}

/// Staleness never reverts as time goes on, and past `last + threshold` a
/// directory is stale; with a positive threshold, not before.
pub proof fn lemma_staleness_monotonic(last: u64, threshold: u64, now1: u64, now2: u64)
    requires
        now1 <= now2,
    ensures
        stale_at(last, threshold, now1) ==> stale_at(last, threshold, now2),
        now2 >= last + threshold ==> stale_at(last, threshold, now2),
        threshold > 0 ==> (stale_at(last, threshold, now1) <==> now1 >= last + threshold),
{
}

/// Finds and analyzes build-output directories.
pub struct TargetFinder;

impl TargetFinder {
    /// The target information of the project at `project_path`, given whether
    /// its build-output directory exists as a directory, the size found for it
    /// and its last-use time. Fails exactly when the directory is missing.
    pub fn find_target_info(
        project_path: &str,
        target_is_dir: bool,
        size_bytes: u64,
        last_accessed: u64,
    ) -> (r: Result<TargetInfo, TargetError>)
        ensures
            target_is_dir <==> r is Ok,
            r matches Ok(t) ==> t.path@ == join_seq(project_path@, TARGET_DIR_NAME@)
                && t.size_bytes == size_bytes && t.last_accessed == last_accessed && !t.is_stale,
            r matches Err(TargetError::NotFound(p)) ==> p@ == join_seq(
                project_path@,
                TARGET_DIR_NAME@,
            ),
    {
        let path = join_path(project_path, TARGET_DIR_NAME);
        if !target_is_dir {
            return Err(TargetError::NotFound(path));
        }
        Ok(TargetInfo { path, size_bytes, last_accessed, is_stale: false })
    }

    /// Whether `target_info` is stale at `now` under `threshold` seconds.
    pub fn is_stale(target_info: &TargetInfo, threshold: u64, now: u64) -> (r: bool)
        ensures
            r == stale_at(target_info.last_accessed, threshold, now),
    {
        let elapsed = if now >= target_info.last_accessed {
            now - target_info.last_accessed
        } else {
            0
        };
        elapsed >= threshold
    }

    /// Sets the stale flag of `target_info` for `now` and `threshold`; the
    /// other fields stay.
    pub fn update_stale_status(target_info: &mut TargetInfo, threshold: u64, now: u64)
        ensures
            final(target_info).is_stale == stale_at(old(target_info).last_accessed, threshold, now),
            final(target_info).path == old(target_info).path,
            final(target_info).size_bytes == old(target_info).size_bytes,
            final(target_info).last_accessed == old(target_info).last_accessed,
    {
        target_info.is_stale = Self::is_stale(target_info, threshold, now);
    }
}

} // verus!
