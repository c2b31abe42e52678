//! The progress of a scan: counters that only grow, and what follows from them.

use crate::ratio::{saturated, Ratio};
use vstd::prelude::*;

verus! {

/// A snapshot of how far a scan has come.
#[derive(Debug, Clone)]
pub struct ScanProgress {
    /// The path last reported.
    pub current_path: String,
    /// The entries processed so far.
    pub processed_files: u64,
    /// The estimated number of entries in all.
    pub total_files: u64,
    /// The part of the work that is done: processed over total.
    pub progress: Ratio,
    /// The directories processed so far.
    pub processed_directories: u64,
    /// The number of directories in all.
    pub total_directories: u64,
    /// The directory last entered.
    pub current_directory: String,
    /// The estimated seconds until the scan ends.
    pub estimated_time_remaining: u64,
    /// Entries per second: processed over elapsed seconds.
    pub scan_speed: Ratio,
    /// When the scan began, in seconds since the epoch.
    pub start_time: Option<u64>,
    /// The large folders found so far.
    pub large_folders_found: u64,
}

/// The progress of a scan as a mathematical value.
pub struct ProgressState {
    pub current_path: Seq<char>,
    pub processed_files: u64,
    pub total_files: u64,
    pub progress: Ratio,
    pub processed_directories: u64,
    pub total_directories: u64,
    pub current_directory: Seq<char>,
    pub estimated_time_remaining: u64,
    pub scan_speed: Ratio,
    pub start_time: Option<u64>,
    pub large_folders_found: u64,
}

impl View for ScanProgress {
    type V = ProgressState;

    open spec fn view(&self) -> ProgressState {
        ProgressState {
            current_path: self.current_path@,
            processed_files: self.processed_files,
            total_files: self.total_files,
            progress: self.progress,
            processed_directories: self.processed_directories,
            total_directories: self.total_directories,
            current_directory: self.current_directory@,
            estimated_time_remaining: self.estimated_time_remaining,
            scan_speed: self.scan_speed,
            start_time: self.start_time,
            large_folders_found: self.large_folders_found,
        }
    }
}

/// The progress before anything was scanned.
pub open spec fn blank() -> ProgressState {
    ProgressState {
        current_path: Seq::empty(),
        processed_files: 0,
        total_files: 0,
        progress: Ratio { part: 0, whole: 0 },
        processed_directories: 0,
        total_directories: 0,
        current_directory: Seq::empty(),
        estimated_time_remaining: 0,
        scan_speed: Ratio { part: 0, whole: 0 },
        start_time: None,
        large_folders_found: 0,
    }
}

/// The progress is consistent: no more is processed than there is in all,
/// and the part done is the one over the other.
pub open spec fn consistent(p: ProgressState) -> bool {
    &&& p.processed_files <= p.total_files
    &&& p.progress == (Ratio { part: p.processed_files, whole: p.total_files })
}

/// The whole seconds from the start of the scan to `now`, where the scan
/// has a start and time has passed since.
pub open spec fn elapsed_seconds(start: Option<u64>, now: u64) -> Option<u64> {
    match start {
        Some(s) => if now > s {
            Some((now - s) as u64)
        } else {
            None
        },
        None => None,
    }
}

/// The seconds that the rest takes at the speed so far.
pub open spec fn remaining_seconds(processed: u64, total: u64, elapsed: u64) -> u64 {
    saturated(((total - processed) * elapsed) / (processed as int))
}

/// The progress after a report of `processed` out of `total` entries at
/// `path`. The counter of processed entries never falls, and the total is
/// never below it. Speed and remaining time are derived where the scan has
/// a start and at least a second has passed.
pub open spec fn after_report(
    p: ProgressState,
    path: Seq<char>,
    processed: u64,
    total: u64,
    now: u64,
) -> ProgressState {
    let done = if processed > p.processed_files {
        processed
    } else {
        p.processed_files
    };
    let all = if total > done {
        total
    } else {
        done
    };
    let elapsed = elapsed_seconds(p.start_time, now);
    ProgressState {
        current_path: path,
        processed_files: done,
        total_files: all,
        progress: Ratio { part: done, whole: all },
        scan_speed: match elapsed {
            Some(e) => Ratio { part: done, whole: e },
            None => p.scan_speed,
        },
        estimated_time_remaining: match elapsed {
            Some(e) => if done > 0 && all > done {
                remaining_seconds(done, all, e)
            } else {
                p.estimated_time_remaining
            },
            None => p.estimated_time_remaining,
        },
        ..p
    }
}

/// The progress after entering a directory.
pub open spec fn after_directory(
    p: ProgressState,
    directory: Seq<char>,
    processed: u64,
    total: u64,
) -> ProgressState {
    let done = if processed > p.processed_directories {
        processed
    } else {
        p.processed_directories
    };
    ProgressState {
        current_directory: directory,
        processed_directories: done,
        total_directories: if total > done {
            total
        } else {
            done
        },
        ..p
    }
}

/// The progress after `found` more large folders.
pub open spec fn after_large(p: ProgressState, found: nat) -> ProgressState {
    ProgressState { large_folders_found: saturated(p.large_folders_found + found), ..p }
}

/// The progress at the start of a scan of `path`.
pub open spec fn after_start(p: ProgressState, path: Seq<char>, started_at: u64) -> ProgressState {
    ProgressState { current_path: path, start_time: Some(started_at), ..p }
}

impl ScanProgress {
    /// The progress before anything was scanned.
    pub fn new() -> (p: ScanProgress)
        ensures
            p@ == blank(),
            consistent(p@),
    {
        ScanProgress {
            current_path: String::new(),
            processed_files: 0,
            total_files: 0,
            progress: Ratio::zero(),
            processed_directories: 0,
            total_directories: 0,
            current_directory: String::new(),
            estimated_time_remaining: 0,
            scan_speed: Ratio::zero(),
            start_time: None,
            large_folders_found: 0,
        }
    }

    /// A copy of the progress.
    pub fn snapshot(&self) -> (p: ScanProgress)
        ensures
            p@ == self@,
    {
        ScanProgress {
            current_path: self.current_path.clone(),
            processed_files: self.processed_files,
            total_files: self.total_files,
            progress: self.progress,
            processed_directories: self.processed_directories,
            total_directories: self.total_directories,
            current_directory: self.current_directory.clone(),
            estimated_time_remaining: self.estimated_time_remaining,
            scan_speed: self.scan_speed,
            start_time: self.start_time,
            large_folders_found: self.large_folders_found,
        }
    }

    /// Takes a report of `processed` out of `total` entries at `path`.
    pub fn report(&mut self, path: &str, processed: u64, total: u64, now: u64)
        ensures
            final(self)@ == after_report(old(self)@, path@, processed, total, now),
            consistent(final(self)@),
            final(self).processed_files >= old(self).processed_files,
    {
        let done = if processed > self.processed_files {
            processed
        } else {
            self.processed_files
        };
        let all = if total > done {
            total
        } else {
            done
        };
        self.current_path = String::from_str(path);
        self.processed_files = done;
        self.total_files = all;
        self.progress = Ratio::new(done, all);
        if let Some(start) = self.start_time {
            if now > start {
                let elapsed = now - start;
                self.scan_speed = Ratio::new(done, elapsed);
                if done > 0 && all > done {
                    let left = all - done;
                    assert(left * elapsed <= 0xffff_ffff_ffff_ffff * 0xffff_ffff_ffff_ffff)
                        by (nonlinear_arith)
                        requires
                            0 <= left <= 0xffff_ffff_ffff_ffff,
                            0 <= elapsed <= 0xffff_ffff_ffff_ffff,
                    ;
                    let rest: u128 = (left as u128 * elapsed as u128) / (done as u128);
                    self.estimated_time_remaining = if rest > u64::MAX as u128 {
                        u64::MAX
                    } else {
                        rest as u64
                    };
                }
            }
        }
    }

    /// Takes note of the directory that is entered.
    pub fn enter_directory(&mut self, directory: &str, processed: u64, total: u64)
        ensures
            final(self)@ == after_directory(old(self)@, directory@, processed, total),
            consistent(old(self)@) ==> consistent(final(self)@),
            final(self).processed_directories >= old(self).processed_directories,
    {
        let done = if processed > self.processed_directories {
            processed
        } else {
            self.processed_directories
        };
        self.current_directory = String::from_str(directory);
        self.processed_directories = done;
        self.total_directories = if total > done {
            total
        } else {
            done
        };
    }

    /// Counts `found` more large folders.
    pub fn add_large_folders(&mut self, found: u64)
        ensures
            final(self)@ == after_large(old(self)@, found as nat),
            consistent(old(self)@) ==> consistent(final(self)@),
            final(self).large_folders_found >= old(self).large_folders_found,
    {
        self.large_folders_found = crate::ratio::add_saturating(self.large_folders_found, found);
    }
}

/// **Progress invariant.** Whatever is reported, the part done never
/// exceeds one hundred percent.
pub proof fn lemma_progress_bounded(p: ProgressState, path: Seq<char>, processed: u64, total: u64, now: u64)
    ensures
        after_report(p, path, processed, total, now).progress.percent() <= 100,
        after_report(p, path, processed, total, now).processed_files >= p.processed_files,
{
    crate::ratio::lemma_share_at_most_whole(after_report(p, path, processed, total, now).progress);
}

} // verus!
