//! The operation journal: one record for every update in the life of an
//! operation, appended in order, queried and summed up.

use crate::clock::{
    calendar_holds, current_moment, format_month, format_readable, moment_of, month_stamp,
    on_calendar, readable_stamp, LocalMoment,
};
use crate::identifiers::{fresh_id, is_identifier};
use crate::ratio::{add_saturating, saturated, Ratio};
use crate::sorting::{key_of, lemma_sort_commutes, sort_by_key, stable_sort, Keyed};
use crate::appdata_analyzer::{join_path, joined};
use crate::text::{
    chars_of, decimal, decimal_string, replace_char, replaced, same_chars, same_text,
};
use vstd::prelude::*;

verus! {

/// The kinds of operation that are journaled.
#[derive(Debug, Clone, Copy, PartialEq, Eq, Structural)]
pub enum OperationType {
    Scan,
    Migrate,
    Delete,
    CreateSymlink,
    Validate,
    Cancel,
    Error,
}

/// Where an operation stands.
#[derive(Debug, Clone, Copy, PartialEq, Eq, Structural)]
pub enum OperationStatus {
    Started,
    InProgress,
    Completed,
    Failed,
    Cancelled,
}

/// One record of the journal.
#[derive(Debug, Clone)]
pub struct OperationLog {
    /// The identifier of the operation.
    pub id: String,
    /// When the operation began, in seconds since the epoch.
    pub timestamp: i64,
    pub operation_type: OperationType,
    pub status: OperationStatus,
    pub source_path: String,
    pub target_path: Option<String>,
    pub details: String,
    pub error_message: Option<String>,
    pub duration_ms: Option<u64>,
    pub file_count: Option<u64>,
    pub total_size: Option<u64>,
    pub user: String,
    pub session_id: String,
}

/// One record of the journal, as a mathematical value.
pub struct LogRecord {
    pub id: Seq<char>,
    pub timestamp: i64,
    pub operation_type: OperationType,
    pub status: OperationStatus,
    pub source_path: Seq<char>,
    pub target_path: Option<Seq<char>>,
    pub details: Seq<char>,
    pub error_message: Option<Seq<char>>,
    pub duration_ms: Option<u64>,
    pub file_count: Option<u64>,
    pub total_size: Option<u64>,
    pub user: Seq<char>,
    pub session_id: Seq<char>,
}

/// The text of an optional string.
pub open spec fn opt_text(s: Option<String>) -> Option<Seq<char>> {
    match s {
        Some(t) => Some(t@),
        None => None,
    }
}

impl View for OperationLog {
    type V = LogRecord;

    open spec fn view(&self) -> LogRecord {
        LogRecord {
            id: self.id@,
            timestamp: self.timestamp,
            operation_type: self.operation_type,
            status: self.status,
            source_path: self.source_path@,
            target_path: opt_text(self.target_path),
            details: self.details@,
            error_message: opt_text(self.error_message),
            duration_ms: self.duration_ms,
            file_count: self.file_count,
            total_size: self.total_size,
            user: self.user@,
            session_id: self.session_id@,
        }
    }
}

/// A moment as a key that grows with time.
pub open spec fn time_key(timestamp: i64) -> u64 {
    (timestamp + 0x8000_0000_0000_0000) as u64
}

impl Keyed for OperationLog {
    open spec fn key(&self) -> u64 {
        time_key(self.timestamp)
    }

    fn key_value(&self) -> (k: u64) {
        (self.timestamp as i128 + 0x8000_0000_0000_0000) as u64
    }
}

/// The function that takes a record to its mathematical value.
pub open spec fn to_log() -> spec_fn(OperationLog) -> LogRecord {
    |l: OperationLog| l@
}

/// The mathematical values of a list of records.
pub open spec fn logs_of(v: Seq<OperationLog>) -> Seq<LogRecord> {
    v.map_values(to_log())
}

/// The key by which records are ordered in time.
pub open spec fn log_time() -> spec_fn(LogRecord) -> u64 {
    |l: LogRecord| time_key(l.timestamp)
}

/// The operation has ended.
pub open spec fn is_terminal(status: OperationStatus) -> bool {
    status == OperationStatus::Completed || status == OperationStatus::Failed || status
        == OperationStatus::Cancelled
}

/// An operation may go from the one status to the other: from its start
/// or from progress to progress or to an end, and from an end nowhere.
pub open spec fn may_follow(from: OperationStatus, to: OperationStatus) -> bool {
    !is_terminal(from) && to != OperationStatus::Started
}

/// The record as it begins.
pub open spec fn started(
    id: Seq<char>,
    timestamp: i64,
    operation_type: OperationType,
    source_path: Seq<char>,
    target_path: Option<Seq<char>>,
    user: Seq<char>,
    session_id: Seq<char>,
) -> LogRecord {
    LogRecord {
        id,
        timestamp,
        operation_type,
        status: OperationStatus::Started,
        source_path,
        target_path,
        details: Seq::empty(),
        error_message: None,
        duration_ms: None,
        file_count: None,
        total_size: None,
        user,
        session_id,
    }
}

impl OperationLog {
    /// A record of an operation that begins at `timestamp` under the identifier `id`.
    pub fn new_at(
        id: String,
        timestamp: i64,
        operation_type: OperationType,
        source_path: String,
        target_path: Option<String>,
        user: String,
        session_id: String,
    ) -> (log: OperationLog)
        ensures
            log@ == started(
                id@,
                timestamp,
                operation_type,
                source_path@,
                opt_text(target_path),
                user@,
                session_id@,
            ),
    {
        OperationLog {
            id,
            timestamp,
            operation_type,
            status: OperationStatus::Started,
            source_path,
            target_path,
            details: String::new(),
            error_message: None,
            duration_ms: None,
            file_count: None,
            total_size: None,
            user,
            session_id,
        }
    }

    /// A record of an operation that begins now, under a fresh identifier.
    pub fn new(
        operation_type: OperationType,
        source_path: String,
        target_path: Option<String>,
        user: String,
        session_id: String,
    ) -> (log: OperationLog)
        ensures
            is_identifier(log@.id),
            log@ == started(
                log@.id,
                log@.timestamp,
                operation_type,
                source_path@,
                opt_text(target_path),
                user@,
                session_id@,
            ),
    {
        let id = fresh_id();
        let now = current_moment();
        Self::new_at(id, now.epoch_seconds, operation_type, source_path, target_path, user, session_id)
    }

    /// A copy of the record.
    pub fn duplicate(&self) -> (r: OperationLog)
        ensures
            r@ == self@,
    {
        OperationLog {
            id: self.id.clone(),
            timestamp: self.timestamp,
            operation_type: self.operation_type,
            status: self.status,
            source_path: self.source_path.clone(),
            target_path: match &self.target_path {
                Some(t) => Some(t.clone()),
                None => None,
            },
            details: self.details.clone(),
            error_message: match &self.error_message {
                Some(t) => Some(t.clone()),
                None => None,
            },
            duration_ms: self.duration_ms,
            file_count: self.file_count,
            total_size: self.total_size,
            user: self.user.clone(),
            session_id: self.session_id.clone(),
        }
    }

    /// The record with its details replaced.
    pub fn with_details(self, details: String) -> (log: OperationLog)
        ensures
            log@ == (LogRecord { details: details@, ..self@ }),
    {
        let mut log = self;
        log.details = details;
        log
    }

    /// The record with its status replaced.
    pub fn with_status(self, status: OperationStatus) -> (log: OperationLog)
        ensures
            log@ == (LogRecord { status, ..self@ }),
    {
        let mut log = self;
        log.status = status;
        log
    }

    /// The record as failed with the error.
    pub fn with_error(self, error: String) -> (log: OperationLog)
        ensures
            log@ == (LogRecord {
                status: OperationStatus::Failed,
                error_message: Some(error@),
                ..self@
            }),
    {
        let mut log = self;
        log.error_message = Some(error);
        log.status = OperationStatus::Failed;
        log
    }

    /// The record with what the operation achieved.
    pub fn with_metrics(self, file_count: u64, total_size: u64, duration_ms: u64) -> (log: OperationLog)
        ensures
            log@ == (LogRecord {
                file_count: Some(file_count),
                total_size: Some(total_size),
                duration_ms: Some(duration_ms),
                ..self@
            }),
    {
        let mut log = self;
        log.file_count = Some(file_count);
        log.total_size = Some(total_size);
        log.duration_ms = Some(duration_ms);
        log
    }

    /// The record as completed.
    pub fn complete(self) -> (log: OperationLog)
        ensures
            log@ == (LogRecord { status: OperationStatus::Completed, ..self@ }),
    {
        self.with_status(OperationStatus::Completed)
    }

    /// The record as failed with the error.
    pub fn fail(self, error: String) -> (log: OperationLog)
        ensures
            log@ == (LogRecord {
                status: OperationStatus::Failed,
                error_message: Some(error@),
                ..self@
            }),
    {
        self.with_error(error)
    }

    /// The record as cancelled.
    pub fn cancel(self) -> (log: OperationLog)
        ensures
            log@ == (LogRecord { status: OperationStatus::Cancelled, ..self@ }),
    {
        self.with_status(OperationStatus::Cancelled)
    }
}

/// Sums over the operations of the journal.
#[derive(Debug, Clone, Copy, PartialEq, Eq, Structural)]
pub struct OperationStatistics {
    pub total_operations: u64,
    pub completed_operations: u64,
    pub failed_operations: u64,
    pub cancelled_operations: u64,
    pub total_bytes_transferred: u64,
    pub total_files_processed: u64,
    pub total_duration_ms: u64,
    pub average_duration_ms: u64,
}

impl Default for OperationStatistics {
    /// The statistics of an empty journal.
    fn default() -> (s: OperationStatistics)
        ensures
            s == no_statistics(),
    {
        OperationStatistics {
            total_operations: 0,
            completed_operations: 0,
            failed_operations: 0,
            cancelled_operations: 0,
            total_bytes_transferred: 0,
            total_files_processed: 0,
            total_duration_ms: 0,
            average_duration_ms: 0,
        }
    }
}

/// The statistics of an empty journal.
pub open spec fn no_statistics() -> OperationStatistics {
    OperationStatistics {
        total_operations: 0,
        completed_operations: 0,
        failed_operations: 0,
        cancelled_operations: 0,
        total_bytes_transferred: 0,
        total_files_processed: 0,
        total_duration_ms: 0,
        average_duration_ms: 0,
    }
}

/// The value of an optional count; nothing counts as zero.
pub open spec fn or_zero(n: Option<u64>) -> u64 {
    match n {
        Some(v) => v,
        None => 0,
    }
}

/// One where the status is the given one, else zero.
pub open spec fn one_if(status: OperationStatus, wanted: OperationStatus) -> int {
    if status == wanted {
        1
    } else {
        0
    }
}

/// Record `i` is the last of its operation: no record behind it carries
/// its identifier.
pub open spec fn is_last_of_operation(logs: Seq<LogRecord>, i: int) -> bool {
    forall|j: int| i < j < logs.len() ==> (#[trigger] logs[j]).id != logs[i].id
}

/// The sums over the operations whose last record is among the first `n`
/// records, before the average is taken. Each operation counts once, by
/// its last record: that record tells how the operation stands and what
/// it achieved.
pub open spec fn sums_of(logs: Seq<LogRecord>, n: nat) -> OperationStatistics
    decreases n,
{
    if n == 0 || n > logs.len() {
        no_statistics()
    } else {
        let s = sums_of(logs, (n - 1) as nat);
        let l = logs[n - 1];
        if is_last_of_operation(logs, n - 1) {
            OperationStatistics {
                total_operations: saturated(s.total_operations + 1),
                completed_operations: saturated(
                    s.completed_operations + one_if(l.status, OperationStatus::Completed),
                ),
                failed_operations: saturated(
                    s.failed_operations + one_if(l.status, OperationStatus::Failed),
                ),
                cancelled_operations: saturated(
                    s.cancelled_operations + one_if(l.status, OperationStatus::Cancelled),
                ),
                total_bytes_transferred: saturated(s.total_bytes_transferred + or_zero(l.total_size)),
                total_files_processed: saturated(s.total_files_processed + or_zero(l.file_count)),
                total_duration_ms: saturated(s.total_duration_ms + or_zero(l.duration_ms)),
                average_duration_ms: 0,
            }
        } else {
            s
        }
    }
}

/// The statistics of the operations in a journal: the sums over the
/// operations, each counted once by its last record, and the duration of
/// all taken over the number of completed operations.
pub open spec fn statistics_of(logs: Seq<LogRecord>) -> OperationStatistics {
    let s = sums_of(logs, logs.len());
    OperationStatistics {
        average_duration_ms: if s.completed_operations > 0 {
            (s.total_duration_ms / s.completed_operations) as u64
        } else {
            0
        },
        ..s
    }
}

/// The last `limit` records of a journal, in order.
pub open spec fn latest(logs: Seq<LogRecord>, limit: nat) -> Seq<LogRecord> {
    if logs.len() <= limit {
        logs
    } else {
        logs.subrange(logs.len() - limit, logs.len() as int)
    }
}

/// **Operations count once.** The statistics of a journal that a machine
/// can hold count no more operations than the journal has records, and no
/// more completed, failed and cancelled operations together than operations.
pub proof fn lemma_operations_count_once(logs: Seq<LogRecord>, n: nat)
    requires
        n <= logs.len() <= u64::MAX,
    ensures
        sums_of(logs, n).total_operations <= n,
        sums_of(logs, n).completed_operations + sums_of(logs, n).failed_operations + sums_of(
            logs,
            n,
        ).cancelled_operations <= sums_of(logs, n).total_operations,
    decreases n,
{
    if n > 0 {
        lemma_operations_count_once(logs, (n - 1) as nat);
    }
}

/// **A journal of finished operations.** Where every operation of a
/// journal ends completed, the statistics count as many completed
/// operations as operations: the rate of success is the whole.
pub proof fn lemma_all_completed(logs: Seq<LogRecord>, n: nat)
    requires
        n <= logs.len() <= u64::MAX,
        forall|i: int|
            0 <= i < logs.len() && is_last_of_operation(logs, i) ==> (#[trigger] logs[i]).status
                == OperationStatus::Completed,
    ensures
        sums_of(logs, n).completed_operations == sums_of(logs, n).total_operations,
        sums_of(logs, n).failed_operations == 0,
        sums_of(logs, n).cancelled_operations == 0,
    decreases n,
{
    if n > 0 {
        lemma_all_completed(logs, (n - 1) as nat);
        lemma_operations_count_once(logs, (n - 1) as nat);
    }
}

impl OperationStatistics {
    /// The share of the operations that were completed; zero where there were none.
    pub fn success_rate(&self) -> (r: Ratio)
        ensures
            r == (Ratio { part: self.completed_operations, whole: self.total_operations }),
    {
        Ratio::new(self.completed_operations, self.total_operations)
    }

    /// The average speed of transfer in mebibytes per second, as bytes
    /// times one thousand over milliseconds times the bytes of a mebibyte;
    /// zero where no time was spent.
    pub fn average_transfer_speed_mbps(&self) -> (r: (u128, u128))
        ensures
            r.0 == self.total_bytes_transferred * 1000,
            r.1 == self.total_duration_ms * 0x10_0000,
    {
        (self.total_bytes_transferred as u128 * 1000, self.total_duration_ms as u128 * 0x10_0000)
    }

    /// The average speed of transfer in whole mebibytes per second, rounded down.
    pub fn whole_transfer_speed_mbps(&self) -> (r: u128)
        ensures
            r == (if self.total_duration_ms == 0 {
                0
            } else {
                (self.total_bytes_transferred * 1000) / (self.total_duration_ms * 0x10_0000)
            }),
    {
        if self.total_duration_ms == 0 {
            0
        } else {
            (self.total_bytes_transferred as u128 * 1000) / (self.total_duration_ms as u128 * 0x10_0000)
        }
    }
}

/// The `limit` most recent of the records, oldest first.
pub open spec fn most_recent(logs: Seq<LogRecord>, limit: nat) -> Seq<LogRecord> {
    let sorted = stable_sort(logs, log_time(), true);
    let kept = if limit < sorted.len() {
        limit
    } else {
        sorted.len()
    };
    sorted.take(kept as int).reverse()
}

/// The first `limit` of the first `n` records of which `p` holds, in order.
pub open spec fn first_matching(logs: Seq<LogRecord>, p: spec_fn(LogRecord) -> bool, limit: nat, n: nat) -> Seq<
    LogRecord,
>
    decreases n,
{
    if n == 0 || n > logs.len() {
        Seq::empty()
    } else {
        let before = first_matching(logs, p, limit, (n - 1) as nat);
        if before.len() < limit && p(logs[n - 1]) {
            before.push(logs[n - 1])
        } else {
            before
        }
    }
}

/// A test on records.
#[derive(Debug, Clone, Copy, PartialEq, Eq, Structural)]
pub enum LogFilter {
    /// The record is of the given kind of operation.
    OfType(OperationType),
    /// The record is of a failed operation.
    Failed,
    /// The record is not older than the given moment.
    NotOlder(i64),
}

/// Whether the test holds of a record.
pub open spec fn admits(filter: LogFilter, l: LogRecord) -> bool {
    match filter {
        LogFilter::OfType(t) => l.operation_type == t,
        LogFilter::Failed => l.status == OperationStatus::Failed,
        LogFilter::NotOlder(cutoff) => l.timestamp >= cutoff,
    }
}

/// The test as a function on records.
pub open spec fn admitting(filter: LogFilter) -> spec_fn(LogRecord) -> bool {
    |l: LogRecord| admits(filter, l)
}

/// How many records the queries by kind and by failure look at.
pub const QUERY_WINDOW: usize = 1000;

/// How many records the statistics look at.
pub const STATISTICS_WINDOW: usize = 10000;

/// The moment before which records are pruned: so many days before `now`.
pub open spec fn cutoff_for(now: i64, days_to_keep: u32) -> i64 {
    let c = now - days_to_keep * 86400;
    if c < i64::MIN {
        i64::MIN
    } else {
        c as i64
    }
}

/// Copies the first `limit` records of which the test holds.
pub fn select(logs: &Vec<OperationLog>, filter: LogFilter, limit: usize) -> (r: Vec<OperationLog>)
    ensures
        logs_of(r@) == first_matching(logs_of(logs@), admitting(filter), limit as nat, logs@.len()),
{
    let mut r: Vec<OperationLog> = Vec::new();
    let mut i: usize = 0;
    proof {
        assert(logs_of(r@) =~= Seq::<LogRecord>::empty());
    }
    while i < logs.len()
        invariant
            i <= logs@.len(),
            logs_of(r@) == first_matching(logs_of(logs@), admitting(filter), limit as nat, i as nat),
        decreases logs@.len() - i,
    {
        let l = &logs[i];
        assert(logs_of(logs@)[i as int] == l@);
        let ok = match filter {
            LogFilter::OfType(t) => l.operation_type == t,
            LogFilter::Failed => l.status == OperationStatus::Failed,
            LogFilter::NotOlder(cutoff) => l.timestamp >= cutoff,
        };
        if r.len() < limit && ok {
            let copy = l.duplicate();
            proof {
                assert(logs_of(r@.push(copy)) =~= logs_of(r@).push(copy@));
            }
            r.push(copy);
        }
        i += 1;
    }
    r
}

/// Why the journal refuses an update.
#[derive(Debug, Clone, Copy, PartialEq, Eq, Structural)]
pub enum JournalError {
    /// The operation may not go from its status to the one asked for.
    InvalidTransition,
    /// The journal holds a record of the same operation with another moment of beginning.
    ConflictingRecord,
}

impl JournalError {
    /// Tells the user why the journal refused.
    pub fn message(&self) -> (s: String)
        ensures
            s@ == (match *self {
                JournalError::InvalidTransition => "operation status cannot change this way"@,
                JournalError::ConflictingRecord => "operation is journaled with another start time"@,
            }),
    {
        match self {
            JournalError::InvalidTransition => String::from_str("operation status cannot change this way"),
            JournalError::ConflictingRecord => String::from_str(
                "operation is journaled with another start time",
            ),
        }
    }
}

/// All records of one operation carry the same moment of beginning.
pub open spec fn one_start_per_operation(records: Seq<LogRecord>) -> bool {
    forall|i: int, j: int|
        0 <= i < records.len() && 0 <= j < records.len() && (#[trigger] records[i]).id == (
        #[trigger] records[j]).id ==> records[i].timestamp == records[j].timestamp
}

/// The record fits into the journal: no record of the same operation
/// carries another moment of beginning.
pub open spec fn fits(records: Seq<LogRecord>, r: LogRecord) -> bool {
    forall|i: int|
        0 <= i < records.len() && (#[trigger] records[i]).id == r.id ==> records[i].timestamp
            == r.timestamp
}

/// **Journal monotonicity.** In a journal the moments of the records of
/// one operation never fall: they are all the same.
pub proof fn lemma_journal_monotone(records: Seq<LogRecord>, i: int, j: int)
    requires
        one_start_per_operation(records),
        0 <= i <= j < records.len(),
        records[i].id == records[j].id,
    ensures
        records[i].timestamp <= records[j].timestamp,
{
}

/// A journal with one record more that fits is a journal.
pub proof fn lemma_append_fits(records: Seq<LogRecord>, r: LogRecord)
    requires
        one_start_per_operation(records),
        fits(records, r),
    ensures
        one_start_per_operation(records.push(r)),
{
    let after = records.push(r);
    assert forall|i: int, j: int|
        0 <= i < after.len() && 0 <= j < after.len() && (#[trigger] after[i]).id == (
        #[trigger] after[j]).id implies after[i].timestamp == after[j].timestamp by {
        if i < records.len() && j < records.len() {
            assert(records[i].timestamp == records[j].timestamp);
        } else if i < records.len() {
            assert(records[i].timestamp == r.timestamp);
        } else if j < records.len() {
            assert(records[j].timestamp == r.timestamp);
        }
    }
}

/// The name of the journal file of a month.
pub open spec fn journal_file_name(month: Seq<char>) -> Seq<char> {
    "operations-"@ + month + ".log"@
}

/// The name of a kind of operation.
pub open spec fn kind_name(t: OperationType) -> Seq<char> {
    match t {
        OperationType::Scan => "Scan"@,
        OperationType::Migrate => "Migrate"@,
        OperationType::Delete => "Delete"@,
        OperationType::CreateSymlink => "CreateSymlink"@,
        OperationType::Validate => "Validate"@,
        OperationType::Cancel => "Cancel"@,
        OperationType::Error => "Error"@,
    }
}

/// The name of a status.
pub open spec fn status_name(s: OperationStatus) -> Seq<char> {
    match s {
        OperationStatus::Started => "Started"@,
        OperationStatus::InProgress => "InProgress"@,
        OperationStatus::Completed => "Completed"@,
        OperationStatus::Failed => "Failed"@,
        OperationStatus::Cancelled => "Cancelled"@,
    }
}

/// An optional number as text; nothing is written as nothing.
pub open spec fn number_text(n: Option<u64>) -> Seq<char> {
    match n {
        Some(v) => decimal(v as nat),
        None => Seq::empty(),
    }
}

/// An optional text; nothing is written as nothing.
pub open spec fn text_or_empty(t: Option<Seq<char>>) -> Seq<char> {
    match t {
        Some(v) => v,
        None => Seq::empty(),
    }
}

/// The first line of the exported table.
pub open spec fn csv_header() -> Seq<char> {
    "ID,Timestamp,Type,Status,Source,Target,Details,Error,Duration(ms),FileCount,TotalSize,User,Session"@
}

/// The line of the exported table for one record, with its moment
/// written as `stamp`. Commas in the details are written as semicolons.
pub open spec fn csv_line(l: LogRecord, stamp: Seq<char>) -> Seq<char> {
    l.id + ","@ + stamp + ","@ + kind_name(l.operation_type) + ","@ + status_name(l.status) + ","@
        + l.source_path + ","@ + text_or_empty(l.target_path) + ","@ + replace_char(
        l.details,
        ',',
        ';',
    ) + ","@ + text_or_empty(l.error_message) + ","@ + number_text(l.duration_ms) + ","@
        + number_text(l.file_count) + ","@ + number_text(l.total_size) + ","@ + l.user + ","@
        + l.session_id
}

/// The exported table of the first `n` records: the header and one line
/// for each record, each line ended by a line feed.
pub open spec fn csv_text(logs: Seq<LogRecord>, stamps: Seq<Seq<char>>, n: nat) -> Seq<char>
    decreases n,
{
    if n == 0 || n > logs.len() || n > stamps.len() {
        csv_header() + "\n"@
    } else {
        csv_text(logs, stamps, (n - 1) as nat) + csv_line(logs[n - 1], stamps[n - 1]) + "\n"@
    }
}

/// Writes the name of a kind of operation.
pub fn type_label(t: OperationType) -> (s: &'static str)
    ensures
        s@ == kind_name(t),
{
    match t {
        OperationType::Scan => "Scan",
        OperationType::Migrate => "Migrate",
        OperationType::Delete => "Delete",
        OperationType::CreateSymlink => "CreateSymlink",
        OperationType::Validate => "Validate",
        OperationType::Cancel => "Cancel",
        OperationType::Error => "Error",
    }
}

/// Writes the name of a status.
pub fn status_label(s: OperationStatus) -> (r: &'static str)
    ensures
        r@ == status_name(s),
{
    match s {
        OperationStatus::Started => "Started",
        OperationStatus::InProgress => "InProgress",
        OperationStatus::Completed => "Completed",
        OperationStatus::Failed => "Failed",
        OperationStatus::Cancelled => "Cancelled",
    }
}

fn append_number(out: &mut String, n: Option<u64>)
    ensures
        final(out)@ == old(out)@ + number_text(n),
{
    match n {
        Some(v) => {
            out.append(decimal_string(v).as_str());
        },
        None => {
            proof {
                assert(out@ + Seq::<char>::empty() =~= out@);
            }
        },
    }
}

fn append_text(out: &mut String, t: &Option<String>)
    ensures
        final(out)@ == old(out)@ + text_or_empty(opt_text(*t)),
{
    match t {
        Some(v) => {
            out.append(v.as_str());
        },
        None => {
            proof {
                assert(out@ + Seq::<char>::empty() =~= out@);
            }
        },
    }
}

/// Writes the line of the exported table for one record.
pub fn write_csv_line(log: &OperationLog, stamp: &str) -> (s: String)
    ensures
        s@ == csv_line(log@, stamp@),
{
    let mut s = log.id.clone();
    s.append(",");
    s.append(stamp);
    s.append(",");
    s.append(type_label(log.operation_type));
    s.append(",");
    s.append(status_label(log.status));
    s.append(",");
    s.append(log.source_path.as_str());
    s.append(",");
    append_text(&mut s, &log.target_path);
    s.append(",");
    s.append(replaced(log.details.as_str(), ',', ';').as_str());
    s.append(",");
    append_text(&mut s, &log.error_message);
    s.append(",");
    append_number(&mut s, log.duration_ms);
    s.append(",");
    append_number(&mut s, log.file_count);
    s.append(",");
    append_number(&mut s, log.total_size);
    s.append(",");
    s.append(log.user.as_str());
    s.append(",");
    s.append(log.session_id.as_str());
    s
}

/// The text is the moment `timestamp` as the table shows it: where the
/// calendar holds the second, a moment of the calendar that carries it,
/// written as `YYYY-MM-DD HH:MM:SS`; else nothing.
pub open spec fn is_stamp_of(timestamp: i64, stamp: Seq<char>) -> bool {
    if calendar_holds(timestamp) {
        exists|m: LocalMoment|
            #[trigger] on_calendar(m) && m.epoch_seconds == timestamp && stamp == readable_stamp(m)
    } else {
        stamp.len() == 0
    }
}

/// Writes the exported table. The moment of each record is written on the
/// local calendar as `YYYY-MM-DD HH:MM:SS`, and as nothing where the
/// calendar does not hold it. Which day and hour the local calendar gives
/// to a second depends on the time zone of the machine.
pub fn export_logs_to_csv(logs: &Vec<OperationLog>) -> (text: String)
    ensures
        exists|stamps: Seq<Seq<char>>|
            stamps.len() == logs@.len() && text@ == csv_text(logs_of(logs@), stamps, logs@.len())
                && forall|k: int|
                0 <= k < stamps.len() ==> is_stamp_of(logs@[k]@.timestamp, #[trigger] stamps[k]),
{
    let mut text = String::from_str(
        "ID,Timestamp,Type,Status,Source,Target,Details,Error,Duration(ms),FileCount,TotalSize,User,Session",
    );
    text.append("\n");
    let ghost mut stamps: Seq<Seq<char>> = Seq::empty();
    let mut i: usize = 0;
    while i < logs.len()
        invariant
            i <= logs@.len(),
            stamps.len() == i,
            text@ == csv_text(logs_of(logs@), stamps, i as nat),
            forall|k: int| 0 <= k < i ==> is_stamp_of(logs@[k]@.timestamp, #[trigger] stamps[k]),
        decreases logs@.len() - i,
    {
        let found = moment_of(logs[i].timestamp);
        let stamp = match found {
            Some(m) => format_readable(&m),
            None => String::new(),
        };
        let line = write_csv_line(&logs[i], stamp.as_str());
        proof {
            let before = stamps;
            stamps = stamps.push(stamp@);
            assert(logs_of(logs@)[i as int] == logs@[i as int]@);
            lemma_csv_prefix(logs_of(logs@), before, stamps, i as nat);
            if let Some(m) = found {
                assert(on_calendar(m) && m.epoch_seconds == logs@[i as int]@.timestamp && stamp@
                    == readable_stamp(m));
            }
            assert(is_stamp_of(logs@[i as int]@.timestamp, stamp@));
            assert forall|k: int| 0 <= k < i + 1 implies is_stamp_of(
                logs@[k]@.timestamp,
                #[trigger] stamps[k],
            ) by {
                if k < i {
                    assert(stamps[k] == before[k]);
                }
            }
        }
        text.append(line.as_str());
        text.append("\n");
        i += 1;
    }
    text
}

/// The table of the first `n` records reads only the first `n` moments.
pub proof fn lemma_csv_prefix(logs: Seq<LogRecord>, a: Seq<Seq<char>>, b: Seq<Seq<char>>, n: nat)
    requires
        n <= logs.len(),
        n <= a.len(),
        n <= b.len(),
        forall|k: int| 0 <= k < n ==> a[k] == b[k],
    ensures
        csv_text(logs, a, n) == csv_text(logs, b, n),
    decreases n,
{
    if n > 0 {
        lemma_csv_prefix(logs, a, b, (n - 1) as nat);
    }
}

/// The `limit` most recent of the records, oldest first.
pub fn recent_logs(all: Vec<OperationLog>, limit: usize) -> (r: Vec<OperationLog>)
    ensures
        logs_of(r@) == most_recent(logs_of(all@), limit as nat),
{
    let mut v = all;
    sort_by_key(&mut v, true);
    proof {
        assert forall|a: OperationLog| #[trigger]
            key_of::<OperationLog>()(a) == log_time()(to_log()(a)) by {}
        lemma_sort_commutes(all@, to_log(), key_of::<OperationLog>(), log_time(), true);
        crate::sorting::lemma_stable_sort(all@, key_of::<OperationLog>(), true);
    }
    let ghost sorted = v@;
    v.truncate(limit);
    let ghost kept = v@;
    let mut out: Vec<OperationLog> = Vec::new();
    while v.len() > 0
        invariant
            v@.len() <= kept.len(),
            v@ == kept.take(v@.len() as int),
            out@.len() == kept.len() - v@.len(),
            forall|k: int| 0 <= k < out@.len() ==> #[trigger] out@[k] == kept[kept.len() - 1 - k],
        decreases v@.len(),
    {
        let x = v.pop().unwrap();
        out.push(x);
    }
    proof {
        let n = if (limit as nat) < sorted.len() {
            limit as nat
        } else {
            sorted.len()
        };
        assert(kept =~= sorted.take(n as int));
        assert(out@ =~= kept.reverse());
        assert(logs_of(out@) =~= logs_of(sorted).take(n as int).reverse());
    }
    out
}

/// The identifiers of the records, in order.
fn identifiers_of(logs: &Vec<OperationLog>) -> (ids: Vec<Vec<char>>)
    ensures
        ids@.len() == logs@.len(),
        forall|k: int| 0 <= k < ids@.len() ==> (#[trigger] ids@[k])@ == logs@[k]@.id,
{
    let mut ids: Vec<Vec<char>> = Vec::new();
    let mut i: usize = 0;
    while i < logs.len()
        invariant
            i <= logs@.len(),
            ids@.len() == i,
            forall|k: int| 0 <= k < i ==> (#[trigger] ids@[k])@ == logs@[k]@.id,
        decreases logs@.len() - i,
    {
        ids.push(chars_of(logs[i].id.as_str()));
        i += 1;
    }
    ids
}

/// Whether none of the identifiers behind identifier `i` is the same.
fn none_behind(ids: &Vec<Vec<char>>, i: usize) -> (r: bool)
    requires
        i < ids@.len(),
    ensures
        r == forall|j: int| i < j < ids@.len() ==> (#[trigger] ids@[j])@ != ids@[i as int]@,
{
    let n = ids.len();
    let mut j: usize = i + 1;
    while j < n
        invariant
            n == ids@.len(),
            i < j <= ids@.len(),
            forall|k: int| i < k < j ==> (#[trigger] ids@[k])@ != ids@[i as int]@,
        decreases n - j,
    {
        if same_chars(&ids[j], &ids[i]) {
            return false;
        }
        j += 1;
    }
    true
}

/// The statistics of the operations in a journal; see `statistics_of`.
pub fn summarize(logs: &Vec<OperationLog>) -> (stats: OperationStatistics)
    ensures
        stats == statistics_of(logs_of(logs@)),
{
    let ids = identifiers_of(logs);
    let mut total: u64 = 0;
    let mut completed: u64 = 0;
    let mut failed: u64 = 0;
    let mut cancelled: u64 = 0;
    let mut bytes: u64 = 0;
    let mut files: u64 = 0;
    let mut duration: u64 = 0;
    let mut i: usize = 0;
    while i < logs.len()
        invariant
            i <= logs@.len(),
            ids@.len() == logs@.len(),
            forall|k: int| 0 <= k < ids@.len() ==> (#[trigger] ids@[k])@ == logs@[k]@.id,
            sums_of(logs_of(logs@), i as nat) == (OperationStatistics {
                total_operations: total,
                completed_operations: completed,
                failed_operations: failed,
                cancelled_operations: cancelled,
                total_bytes_transferred: bytes,
                total_files_processed: files,
                total_duration_ms: duration,
                average_duration_ms: 0,
            }),
        decreases logs@.len() - i,
    {
        let l = &logs[i];
        let last = none_behind(&ids, i);
        proof {
            let records = logs_of(logs@);
            assert(records[i as int] == l@);
            if last {
                assert forall|j: int| i < j < records.len() implies (#[trigger] records[j]).id
                    != records[i as int].id by {
                    assert(ids@[j]@ == logs@[j]@.id);
                    assert(ids@[i as int]@ == logs@[i as int]@.id);
                }
            } else {
                let j = choose|j: int| i < j < ids@.len() && (#[trigger] ids@[j])@ == ids@[i as int]@;
                assert(ids@[i as int]@ == logs@[i as int]@.id);
                assert(records[j].id == records[i as int].id);
            }
            assert(last == is_last_of_operation(records, i as int));
        }
        if last {
            total = add_saturating(total, 1);
            match l.status {
                OperationStatus::Completed => {
                    completed = add_saturating(completed, 1);
                },
                OperationStatus::Failed => {
                    failed = add_saturating(failed, 1);
                },
                OperationStatus::Cancelled => {
                    cancelled = add_saturating(cancelled, 1);
                },
                _ => {},
            }
            if let Some(n) = l.total_size {
                bytes = add_saturating(bytes, n);
            }
            if let Some(n) = l.file_count {
                files = add_saturating(files, n);
            }
            if let Some(n) = l.duration_ms {
                duration = add_saturating(duration, n);
            }
        }
        i += 1;
    }
    OperationStatistics {
        total_operations: total,
        completed_operations: completed,
        failed_operations: failed,
        cancelled_operations: cancelled,
        total_bytes_transferred: bytes,
        total_files_processed: files,
        total_duration_ms: duration,
        average_duration_ms: if completed > 0 {
            duration / completed
        } else {
            0
        },
    }
}

/// The journal of one session.
pub struct OperationLogger {
    log_file: String,
    session_id: String,
    current_user: String,
    journal: Vec<OperationLog>,
}

impl OperationLogger {
    /// The path of the journal file.
    pub closed spec fn file(&self) -> Seq<char> {
        self.log_file@
    }

    /// The identifier of the session.
    pub closed spec fn session(&self) -> Seq<char> {
        self.session_id@
    }

    /// The user of the session.
    pub closed spec fn user(&self) -> Seq<char> {
        self.current_user@
    }

    /// The records appended in this session, in order.
    pub closed spec fn records(&self) -> Seq<LogRecord> {
        logs_of(self.journal@)
    }

    /// All records of one operation carry the same moment of beginning.
    /// This holds of every journal.
    #[verifier::type_invariant]
    pub open spec fn wf(&self) -> bool {
        one_start_per_operation(self.records())
    }

    /// A journal in the file of the month of `moment`, below `log_dir`.
    pub fn new_at(log_dir: &str, session_id: String, current_user: String, moment: &LocalMoment, windows: bool) -> (l:
        OperationLogger)
        ensures
            l.file() == joined(log_dir@, journal_file_name(month_stamp(*moment)), windows),
            l.session() == session_id@,
            l.user() == current_user@,
            l.records().len() == 0,
            l.wf(),
    {
        let mut name = String::from_str("operations-");
        name.append(format_month(moment).as_str());
        name.append(".log");
        OperationLogger {
            log_file: join_path(log_dir, name.as_str(), windows),
            session_id,
            current_user,
            journal: Vec::new(),
        }
    }

    /// A journal in the file of the current month, below `log_dir`.
    pub fn new(log_dir: &str, session_id: String, current_user: String, windows: bool) -> (l:
        OperationLogger)
        ensures
            l.session() == session_id@,
            l.user() == current_user@,
            l.records().len() == 0,
            l.wf(),
            exists|moment: LocalMoment|
                on_calendar(moment) && l.file() == joined(
                    log_dir@,
                    journal_file_name(month_stamp(moment)),
                    windows,
                ),
    {
        let moment = current_moment();
        Self::new_at(log_dir, session_id, current_user, &moment, windows)
    }

    /// The path of the journal file.
    pub fn log_file(&self) -> (path: &String)
        ensures
            path@ == self.file(),
    {
        &self.log_file
    }

    /// Whether the record fits into the journal.
    fn accepts(&self, id: &str, timestamp: i64) -> (r: bool)
        ensures
            r == forall|i: int|
                0 <= i < self.records().len() && (#[trigger] self.records()[i]).id == id@
                    ==> self.records()[i].timestamp == timestamp,
    {
        let mut i: usize = 0;
        while i < self.journal.len()
            invariant
                i <= self.journal@.len(),
                forall|k: int|
                    0 <= k < i && (#[trigger] self.records()[k]).id == id@
                        ==> self.records()[k].timestamp == timestamp,
            decreases self.journal@.len() - i,
        {
            assert(self.records()[i as int] == self.journal@[i as int]@);
            if same_text(self.journal[i].id.as_str(), id) && self.journal[i].timestamp != timestamp {
                return false;
            }
            i += 1;
        }
        true
    }

    /// Journals the beginning of an operation under the identifier `id` at
    /// the moment `timestamp`. The record is refused where the journal
    /// holds the operation with another moment of beginning.
    pub fn log_operation_start_at(
        &mut self,
        id: String,
        timestamp: i64,
        operation_type: OperationType,
        source_path: String,
        target_path: Option<String>,
        details: String,
    ) -> (r: Result<OperationLog, JournalError>)
        ensures
            final(self).wf(),
            final(self).file() == old(self).file(),
            final(self).session() == old(self).session(),
            final(self).user() == old(self).user(),
            match r {
                Ok(log) => log@ == (LogRecord {
                    details: details@,
                    ..started(
                        id@,
                        timestamp,
                        operation_type,
                        source_path@,
                        opt_text(target_path),
                        old(self).user(),
                        old(self).session(),
                    )
                }) && fits(old(self).records(), log@) && final(self).records() == old(
                    self,
                ).records().push(log@),
                Err(e) => e == JournalError::ConflictingRecord && final(self).records() == old(
                    self,
                ).records() && !fits(
                    old(self).records(),
                    started(
                        id@,
                        timestamp,
                        operation_type,
                        source_path@,
                        opt_text(target_path),
                        old(self).user(),
                        old(self).session(),
                    ),
                ),
            },
    {
        proof {
            use_type_invariant(&*self);
        }
        if !self.accepts(id.as_str(), timestamp) {
            return Err(JournalError::ConflictingRecord);
        }
        let log = OperationLog::new_at(
            id,
            timestamp,
            operation_type,
            source_path,
            target_path,
            self.current_user.clone(),
            self.session_id.clone(),
        ).with_details(details);
        let copy = log.duplicate();
        proof {
            lemma_append_fits(self.records(), copy@);
            assert(logs_of(self.journal@.push(copy)) =~= self.records().push(copy@));
        }
        let mut journal: Vec<OperationLog> = Vec::new();
        std::mem::swap(&mut journal, &mut self.journal);
        journal.push(copy);
        self.journal = journal;
        Ok(log)
    }

    /// Journals the beginning of an operation now, under a fresh identifier.
    /// The record is journaled exactly where it fits with the identifier
    /// drawn and the moment read; on an empty journal it always is.
    pub fn log_operation_start(
        &mut self,
        operation_type: OperationType,
        source_path: String,
        target_path: Option<String>,
        details: String,
    ) -> (r: Result<OperationLog, JournalError>)
        ensures
            final(self).wf(),
            final(self).file() == old(self).file(),
            final(self).session() == old(self).session(),
            final(self).user() == old(self).user(),
            match r {
                Ok(log) => is_identifier(log@.id) && log@ == (LogRecord {
                    details: details@,
                    ..started(
                        log@.id,
                        log@.timestamp,
                        operation_type,
                        source_path@,
                        opt_text(target_path),
                        old(self).user(),
                        old(self).session(),
                    )
                }) && final(self).records() == old(self).records().push(log@),
                Err(e) => e == JournalError::ConflictingRecord && final(self).records() == old(
                    self,
                ).records(),
            },
            exists|id: Seq<char>, timestamp: i64|
                is_identifier(id) && (r is Ok <==> fits(
                    old(self).records(),
                    started(
                        id,
                        timestamp,
                        operation_type,
                        source_path@,
                        opt_text(target_path),
                        old(self).user(),
                        old(self).session(),
                    ),
                )) && (r matches Ok(log) ==> log@.id == id && log@.timestamp == timestamp),
            old(self).records().len() == 0 ==> r is Ok,
    {
        let id = fresh_id();
        let now = current_moment();
        let ghost drawn = id@;
        let ghost begun = started(
            drawn,
            now.epoch_seconds,
            operation_type,
            source_path@,
            opt_text(target_path),
            self.user(),
            self.session(),
        );
        let r = self.log_operation_start_at(
            id,
            now.epoch_seconds,
            operation_type,
            source_path,
            target_path,
            details,
        );
        proof {
            if r is Ok {
                assert(fits(old(self).records(), r->Ok_0@) <==> fits(old(self).records(), begun));
            }
            assert(is_identifier(drawn) && (r is Ok <==> fits(old(self).records(), begun)) && (r matches Ok(
                log,
            ) ==> log@.id == drawn && log@.timestamp == now.epoch_seconds));
        }
        r
    }

    /// Journals an update of an operation: `log` takes the new values and
    /// a copy of it is appended. The update is refused, and nothing
    /// changes, where the status may not follow the one that the operation
    /// has, or where the journal holds the operation with another moment
    /// of beginning.
    fn journal_update(&mut self, log: &mut OperationLog, updated: OperationLog) -> (r: Result<
        (),
        JournalError,
    >)
        requires
            updated@.id == old(log)@.id,
            updated@.timestamp == old(log)@.timestamp,
        ensures
            final(self).wf(),
            final(self).file() == old(self).file(),
            final(self).session() == old(self).session(),
            final(self).user() == old(self).user(),
            final(log)@.id == old(log)@.id,
            final(log)@.timestamp == old(log)@.timestamp,
            r is Ok <==> may_follow(old(log)@.status, updated@.status) && fits(
                old(self).records(),
                old(log)@,
            ),
            r matches Err(e) ==> e == (if may_follow(old(log)@.status, updated@.status) {
                JournalError::ConflictingRecord
            } else {
                JournalError::InvalidTransition
            }) && final(log)@ == old(log)@ && final(self).records() == old(self).records(),
            r is Ok ==> final(log)@ == updated@ && final(self).records() == old(self).records().push(
                updated@,
            ),
    {
        proof {
            use_type_invariant(&*self);
        }
        let terminal = match log.status {
            OperationStatus::Completed => true,
            OperationStatus::Failed => true,
            OperationStatus::Cancelled => true,
            _ => false,
        };
        let restart = match updated.status {
            OperationStatus::Started => true,
            _ => false,
        };
        if terminal || restart {
            return Err(JournalError::InvalidTransition);
        }
        if !self.accepts(log.id.as_str(), log.timestamp) {
            return Err(JournalError::ConflictingRecord);
        }
        let copy = updated.duplicate();
        proof {
            lemma_append_fits(self.records(), copy@);
            assert(logs_of(self.journal@.push(copy)) =~= self.records().push(copy@));
        }
        let mut journal: Vec<OperationLog> = Vec::new();
        std::mem::swap(&mut journal, &mut self.journal);
        journal.push(copy);
        self.journal = journal;
        *log = updated;
        Ok(())
    }

    /// The details of an update: the new ones where some are given, else the old ones.
    fn details_for(log: &OperationLog, details: Option<String>) -> (d: String)
        ensures
            d@ == (match details {
                Some(t) => t@,
                None => log@.details,
            }),
    {
        match details {
            Some(t) => t,
            None => log.details.clone(),
        }
    }

    /// Journals a change of status; see `journal_update`.
    pub fn update_operation_status(
        &mut self,
        log: &mut OperationLog,
        status: OperationStatus,
        details: Option<String>,
    ) -> (r: Result<(), JournalError>)
        ensures
            final(self).wf(),
            final(log)@.id == old(log)@.id,
            final(log)@.timestamp == old(log)@.timestamp,
            r is Ok <==> may_follow(old(log)@.status, status) && fits(old(self).records(), old(log)@),
            r matches Err(e) ==> e == (if may_follow(old(log)@.status, status) {
                JournalError::ConflictingRecord
            } else {
                JournalError::InvalidTransition
            }) && final(log)@ == old(log)@ && final(self).records() == old(self).records(),
            r is Ok ==> final(log)@ == (LogRecord {
                status,
                details: match details {
                    Some(t) => t@,
                    None => old(log)@.details,
                },
                ..old(log)@
            }) && final(self).records() == old(self).records().push(final(log)@),
    {
        let d = Self::details_for(log, details);
        let updated = log.duplicate().with_status(status).with_details(d);
        self.journal_update(log, updated)
    }

    /// Journals the completion of an operation with what it achieved.
    pub fn complete_operation(
        &mut self,
        log: &mut OperationLog,
        file_count: u64,
        total_size: u64,
        duration_ms: u64,
        details: Option<String>,
    ) -> (r: Result<(), JournalError>)
        ensures
            final(self).wf(),
            final(log)@.id == old(log)@.id,
            final(log)@.timestamp == old(log)@.timestamp,
            r is Ok <==> !is_terminal(old(log)@.status) && fits(old(self).records(), old(log)@),
            r matches Err(e) ==> e == (if is_terminal(old(log)@.status) {
                JournalError::InvalidTransition
            } else {
                JournalError::ConflictingRecord
            }) && final(log)@ == old(log)@ && final(self).records() == old(self).records(),
            r is Ok ==> final(log)@ == (LogRecord {
                status: OperationStatus::Completed,
                file_count: Some(file_count),
                total_size: Some(total_size),
                duration_ms: Some(duration_ms),
                details: match details {
                    Some(t) => t@,
                    None => old(log)@.details,
                },
                ..old(log)@
            }) && final(self).records() == old(self).records().push(final(log)@),
    {
        let d = Self::details_for(log, details);
        let updated = log.duplicate().complete().with_metrics(
            file_count,
            total_size,
            duration_ms,
        ).with_details(d);
        self.journal_update(log, updated)
    }

    /// Journals the failure of an operation.
    pub fn fail_operation(&mut self, log: &mut OperationLog, error: String, details: Option<String>) -> (r:
        Result<(), JournalError>)
        ensures
            final(self).wf(),
            final(log)@.id == old(log)@.id,
            final(log)@.timestamp == old(log)@.timestamp,
            r is Ok <==> !is_terminal(old(log)@.status) && fits(old(self).records(), old(log)@),
            r matches Err(e) ==> e == (if is_terminal(old(log)@.status) {
                JournalError::InvalidTransition
            } else {
                JournalError::ConflictingRecord
            }) && final(log)@ == old(log)@ && final(self).records() == old(self).records(),
            r is Ok ==> final(log)@ == (LogRecord {
                status: OperationStatus::Failed,
                error_message: Some(error@),
                details: match details {
                    Some(t) => t@,
                    None => old(log)@.details,
                },
                ..old(log)@
            }) && final(self).records() == old(self).records().push(final(log)@),
    {
        let d = Self::details_for(log, details);
        let updated = log.duplicate().fail(error).with_details(d);
        self.journal_update(log, updated)
    }

    /// Journals the cancellation of an operation.
    pub fn cancel_operation(&mut self, log: &mut OperationLog, details: Option<String>) -> (r: Result<
        (),
        JournalError,
    >)
        ensures
            final(self).wf(),
            final(log)@.id == old(log)@.id,
            final(log)@.timestamp == old(log)@.timestamp,
            r is Ok <==> !is_terminal(old(log)@.status) && fits(old(self).records(), old(log)@),
            r matches Err(e) ==> e == (if is_terminal(old(log)@.status) {
                JournalError::InvalidTransition
            } else {
                JournalError::ConflictingRecord
            }) && final(log)@ == old(log)@ && final(self).records() == old(self).records(),
            r is Ok ==> final(log)@ == (LogRecord {
                status: OperationStatus::Cancelled,
                details: match details {
                    Some(t) => t@,
                    None => old(log)@.details,
                },
                ..old(log)@
            }) && final(self).records() == old(self).records().push(final(log)@),
    {
        let d = Self::details_for(log, details);
        let updated = log.duplicate().cancel().with_details(d);
        self.journal_update(log, updated)
    }

    /// The `limit` most recent of the records read from the journal file, oldest first.
    pub fn get_recent_logs(&self, all: Vec<OperationLog>, limit: usize) -> (r: Vec<OperationLog>)
        ensures
            logs_of(r@) == most_recent(logs_of(all@), limit as nat),
    {
        recent_logs(all, limit)
    }

    /// The first `limit` records of a kind among the thousand most recent.
    pub fn get_logs_by_type(&self, all: Vec<OperationLog>, operation_type: OperationType, limit: usize) -> (r:
        Vec<OperationLog>)
        ensures
            logs_of(r@) == first_matching(
                most_recent(logs_of(all@), QUERY_WINDOW as nat),
                admitting(LogFilter::OfType(operation_type)),
                limit as nat,
                most_recent(logs_of(all@), QUERY_WINDOW as nat).len(),
            ),
    {
        let recent = recent_logs(all, QUERY_WINDOW);
        select(&recent, LogFilter::OfType(operation_type), limit)
    }

    /// The first `limit` records of failed operations among the thousand most recent.
    pub fn get_failed_operations(&self, all: Vec<OperationLog>, limit: usize) -> (r: Vec<OperationLog>)
        ensures
            logs_of(r@) == first_matching(
                most_recent(logs_of(all@), QUERY_WINDOW as nat),
                admitting(LogFilter::Failed),
                limit as nat,
                most_recent(logs_of(all@), QUERY_WINDOW as nat).len(),
            ),
    {
        let recent = recent_logs(all, QUERY_WINDOW);
        select(&recent, LogFilter::Failed, limit)
    }

    /// The statistics of the operations in the last ten thousand records
    /// of the journal file, which holds its records in the order in which
    /// they were appended. Each operation counts once, by its last record.
    pub fn get_statistics(&self, all: Vec<OperationLog>) -> (stats: OperationStatistics)
        ensures
            stats == statistics_of(latest(logs_of(all@), STATISTICS_WINDOW as nat)),
    {
        let ghost whole = all@;
        let mut records = all;
        let n = records.len();
        if n <= STATISTICS_WINDOW {
            summarize(&records)
        } else {
            let window = records.split_off(n - STATISTICS_WINDOW);
            proof {
                assert(logs_of(window@) =~= latest(logs_of(whole), STATISTICS_WINDOW as nat));
            }
            summarize(&window)
        }
    }

    /// The records that are not older than `cutoff`, in order: what the
    /// journal file holds after pruning.
    pub fn retain_since(&self, all: &Vec<OperationLog>, cutoff: i64) -> (r: Vec<OperationLog>)
        ensures
            logs_of(r@) == first_matching(
                logs_of(all@),
                admitting(LogFilter::NotOlder(cutoff)),
                all@.len(),
                all@.len(),
            ),
    {
        select(all, LogFilter::NotOlder(cutoff), all.len())
    }

    /// The records that are at most `days_to_keep` days old by now; see `retain_since`.
    pub fn cleanup_old_logs(&self, all: &Vec<OperationLog>, days_to_keep: u32) -> (r: Vec<OperationLog>)
        ensures
            exists|now: i64|
                logs_of(r@) == first_matching(
                    logs_of(all@),
                    admitting(LogFilter::NotOlder(cutoff_for(now, days_to_keep))),
                    all@.len(),
                    all@.len(),
                ),
    {
        let now = current_moment().epoch_seconds;
        let wide = now as i128 - days_to_keep as i128 * 86400;
        let cutoff: i64 = if wide < i64::MIN as i128 {
            i64::MIN
        } else {
            wide as i64
        };
        assert(cutoff == cutoff_for(now, days_to_keep));
        self.retain_since(all, cutoff)
    }
}

} // verus!
