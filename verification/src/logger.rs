//! Where the application log is written, and which old log files leave.

use crate::appdata_analyzer::{join_path, joined};
use crate::clock::{file_stamp, format_for_file, LocalMoment};
use crate::sorting::{key_of, lemma_stable_sort, sort_by_key, stable_sort, Keyed};
use crate::text::{chars_of, ends_with, has_suffix};
use vstd::prelude::*;

verus! {

/// How much is logged.
#[derive(Debug, Clone, Copy, PartialEq, Eq, Structural)]
pub enum LogLevel {
    Off,
    Error,
    Warn,
    Info,
    Debug,
    Trace,
}

/// The knobs of the application log.
#[derive(Debug, Clone)]
pub struct LoggerConfig {
    pub log_dir: String,
    pub log_level: LogLevel,
    /// The largest log file, in bytes.
    pub max_file_size: u64,
    /// The number of log files that are kept.
    pub max_files: u32,
}

/// The directory of the log files below the data directory of the user.
pub open spec fn log_directory(data_dir: Seq<char>, windows: bool) -> Seq<char> {
    joined(joined(data_dir, "dir-mover"@, windows), "logs"@, windows)
}

/// The name of the log file that begins at a moment.
pub open spec fn log_file_name(moment: LocalMoment) -> Seq<char> {
    "dir-mover-"@ + file_stamp(moment) + ".log"@
}

/// The directory of the log files below the data directory of the user.
pub fn get_log_directory(data_dir: &str, windows: bool) -> (dir: String)
    ensures
        dir@ == log_directory(data_dir@, windows),
{
    let base = join_path(data_dir, "dir-mover", windows);
    join_path(base.as_str(), "logs", windows)
}

impl LoggerConfig {
    /// The configuration in the directory below `data_dir`: informational
    /// logging, files of ten mebibytes, five files kept.
    pub fn in_data_dir(data_dir: &str, windows: bool) -> (c: LoggerConfig)
        ensures
            c.log_dir@ == log_directory(data_dir@, windows),
            c.log_level == LogLevel::Info,
            c.max_file_size == 10 * 1024 * 1024,
            c.max_files == 5,
    {
        LoggerConfig {
            log_dir: get_log_directory(data_dir, windows),
            log_level: LogLevel::Info,
            max_file_size: 10 * 1024 * 1024,
            max_files: 5,
        }
    }

    /// The path of the log file that begins at a moment.
    pub fn log_file_at(&self, moment: &LocalMoment, windows: bool) -> (path: String)
        ensures
            path@ == joined(self.log_dir@, log_file_name(*moment), windows),
    {
        let mut name = String::from_str("dir-mover-");
        name.append(format_for_file(moment).as_str());
        name.append(".log");
        join_path(self.log_dir.as_str(), name.as_str(), windows)
    }
}

/// The level at which the application logs: debugging in a debug build,
/// else informational.
pub open spec fn level_for(debug_build: bool) -> LogLevel {
    if debug_build {
        LogLevel::Debug
    } else {
        LogLevel::Info
    }
}

/// How the application log is set up.
#[derive(Debug, Clone)]
pub struct LoggerSetup {
    /// The configuration in force.
    pub config: LoggerConfig,
    /// The log file that is begun.
    pub log_file: String,
}

/// Decides how the application log is set up at a moment: the directory
/// below the data directory of the user, the level of the build, and the
/// log file that is begun, named by the moment. The caller creates the
/// directory and the file, and then lets the oldest files leave.
pub fn init_logger(data_dir: &str, debug_build: bool, moment: &LocalMoment, windows: bool) -> (setup:
    LoggerSetup)
    ensures
        setup.config.log_dir@ == log_directory(data_dir@, windows),
        setup.config.log_level == level_for(debug_build),
        setup.config.max_file_size == 10 * 1024 * 1024,
        setup.config.max_files == 5,
        setup.log_file@ == joined(log_directory(data_dir@, windows), log_file_name(*moment), windows),
{
    let mut config = LoggerConfig::in_data_dir(data_dir, windows);
    if debug_build {
        config.log_level = LogLevel::Debug;
    }
    let log_file = config.log_file_at(moment, windows);
    LoggerSetup { config, log_file }
}

/// The name is that of a log file: it ends in `.log` behind at least one
/// other character.
pub open spec fn names_log_file(name: Seq<char>) -> bool {
    name.len() > 4 && ends_with(name, ".log"@)
}

/// Whether a file of this name is a log file.
pub fn is_log_file(name: &str) -> (r: bool)
    ensures
        r == names_log_file(name@),
{
    let chars = chars_of(name);
    let tail = chars_of(".log");
    chars.len() > 4 && has_suffix(&chars, &tail)
}

/// A log file as the caller found it.
#[derive(Debug, Clone)]
pub struct LogFile {
    pub path: String,
    /// When it was last written, in seconds since the epoch; zero where unknown.
    pub modified: u64,
}

impl Keyed for LogFile {
    open spec fn key(&self) -> u64 {
        self.modified
    }

    fn key_value(&self) -> (k: u64) {
        self.modified
    }
}

/// The log files that leave so that at most `max_files` stay: the oldest,
/// oldest first. Of files of the same age the one found first leaves first.
pub open spec fn files_to_remove(files: Seq<LogFile>, max_files: u32) -> Seq<LogFile> {
    let sorted = stable_sort(files, key_of::<LogFile>(), false);
    if sorted.len() > max_files {
        sorted.take(sorted.len() - max_files)
    } else {
        Seq::empty()
    }
}

/// Picks the log files that leave; see `files_to_remove`.
pub fn cleanup_old_logs(files: Vec<LogFile>, max_files: u32) -> (leaving: Vec<LogFile>)
    ensures
        leaving@ == files_to_remove(files@, max_files),
        leaving@.len() + max_files >= files@.len(),
{
    let mut sorted = files;
    sort_by_key(&mut sorted, false);
    proof {
        lemma_stable_sort(files@, key_of::<LogFile>(), false);
    }
    if sorted.len() > max_files as usize {
        let keep_from = sorted.len() - max_files as usize;
        sorted.truncate(keep_from);
        sorted
    } else {
        Vec::new()
    }
}

} // verus!
