//! Classifying errors and choosing how to recover from them.

use crate::appdata_analyzer::{join_path, joined};
use crate::clock::{compact_stamp, current_moment, format_compact, on_calendar, LocalMoment};
use crate::file_operations::{
    lemma_steps_push, steps_of, text_of, FileOperationError, FsStep, IoKind, OperationFailure,
    Step,
};
use crate::identifiers::{fresh_id, is_identifier};
use crate::ratio::{saturated, Ratio};
use crate::size_format::{format_size_in, size_text};
use crate::text::{chars_of, contains, has_substring, same_text};
use vstd::prelude::*;

verus! {

/// The kinds of error, each with its text.
#[derive(Debug, Clone)]
pub enum ErrorType {
    IoError(String),
    PermissionDenied(String),
    PathNotFound(String),
    PathAlreadyExists(String),
    InvalidPath(String),
    OperationCancelled(String),
    DiskSpaceInsufficient(String),
    SystemProtection(String),
    NetworkError(String),
    Timeout(String),
    Unknown(String),
}

/// The kinds of error without their texts.
#[derive(Debug, Clone, Copy, PartialEq, Eq, Structural)]
pub enum ErrorKind {
    IoError,
    PermissionDenied,
    PathNotFound,
    PathAlreadyExists,
    InvalidPath,
    OperationCancelled,
    DiskSpaceInsufficient,
    SystemProtection,
    NetworkError,
    Timeout,
    Unknown,
}

/// How grave an error is.
#[derive(Debug, Clone, Copy, PartialEq, Eq, PartialOrd, Ord, Structural)]
pub enum ErrorSeverity {
    Low,
    Medium,
    High,
    Critical,
}

/// What is done about an error.
#[derive(Debug, Clone, Copy, PartialEq, Eq, Structural)]
pub enum RecoveryStrategy {
    /// Try again, at most so many times.
    Retry(u32),
    /// Restore from a backup.
    Rollback,
    /// Go on without the failed step.
    Skip,
    /// Give the operation up.
    Abort,
    /// Leave it to the user.
    Manual,
}

/// The knobs of recovery.
#[derive(Debug, Clone, Copy, PartialEq, Eq, Structural)]
pub struct ErrorRecoveryConfig {
    pub max_retries: u32,
    /// The pause before each retry, in milliseconds.
    pub retry_delay_ms: u64,
    /// Without it every error is left to the user.
    pub enable_auto_recovery: bool,
    /// With it, retries that are used up are followed by a rollback.
    pub enable_partial_rollback: bool,
    /// The largest subtree that is backed up, in mebibytes.
    pub max_rollback_size_mb: u64,
    /// How long a backup is kept, in hours.
    pub backup_retention_hours: u64,
}

impl Default for ErrorRecoveryConfig {
    /// Three retries a second apart, automatic recovery with rollback,
    /// backups up to 1000 MiB kept for a day.
    fn default() -> (c: ErrorRecoveryConfig)
        ensures
            c == (ErrorRecoveryConfig {
                max_retries: 3,
                retry_delay_ms: 1000,
                enable_auto_recovery: true,
                enable_partial_rollback: true,
                max_rollback_size_mb: 1000,
                backup_retention_hours: 24,
            }),
    {
        ErrorRecoveryConfig {
            max_retries: 3,
            retry_delay_ms: 1000,
            enable_auto_recovery: true,
            enable_partial_rollback: true,
            max_rollback_size_mb: 1000,
            backup_retention_hours: 24,
        }
    }
}

/// An error as a mathematical value: its kind and its text.
pub struct ClassifiedError {
    pub kind: ErrorKind,
    pub text: Seq<char>,
}

impl View for ErrorType {
    type V = ClassifiedError;

    open spec fn view(&self) -> ClassifiedError {
        match *self {
            ErrorType::IoError(t) => ClassifiedError { kind: ErrorKind::IoError, text: t@ },
            ErrorType::PermissionDenied(t) => ClassifiedError {
                kind: ErrorKind::PermissionDenied,
                text: t@,
            },
            ErrorType::PathNotFound(t) => ClassifiedError { kind: ErrorKind::PathNotFound, text: t@ },
            ErrorType::PathAlreadyExists(t) => ClassifiedError {
                kind: ErrorKind::PathAlreadyExists,
                text: t@,
            },
            ErrorType::InvalidPath(t) => ClassifiedError { kind: ErrorKind::InvalidPath, text: t@ },
            ErrorType::OperationCancelled(t) => ClassifiedError {
                kind: ErrorKind::OperationCancelled,
                text: t@,
            },
            ErrorType::DiskSpaceInsufficient(t) => ClassifiedError {
                kind: ErrorKind::DiskSpaceInsufficient,
                text: t@,
            },
            ErrorType::SystemProtection(t) => ClassifiedError {
                kind: ErrorKind::SystemProtection,
                text: t@,
            },
            ErrorType::NetworkError(t) => ClassifiedError { kind: ErrorKind::NetworkError, text: t@ },
            ErrorType::Timeout(t) => ClassifiedError { kind: ErrorKind::Timeout, text: t@ },
            ErrorType::Unknown(t) => ClassifiedError { kind: ErrorKind::Unknown, text: t@ },
        }
    }
}

/// The kind and text into which a failed file operation is classified: a
/// failure of the filesystem by its kind, every other error as itself.
pub open spec fn classified(f: OperationFailure) -> ClassifiedError {
    match f {
        OperationFailure::IoError(kind, text) => ClassifiedError {
            kind: match kind {
                IoKind::PermissionDenied => ErrorKind::PermissionDenied,
                IoKind::NotFound => ErrorKind::PathNotFound,
                IoKind::AlreadyExists => ErrorKind::PathAlreadyExists,
                IoKind::Other => ErrorKind::IoError,
            },
            text,
        },
        OperationFailure::PermissionDenied(text) => ClassifiedError {
            kind: ErrorKind::PermissionDenied,
            text,
        },
        OperationFailure::PathNotFound(text) => ClassifiedError { kind: ErrorKind::PathNotFound, text },
        OperationFailure::PathAlreadyExists(text) => ClassifiedError {
            kind: ErrorKind::PathAlreadyExists,
            text,
        },
        OperationFailure::InvalidPath(text) => ClassifiedError { kind: ErrorKind::InvalidPath, text },
        OperationFailure::OperationCancelled(text) => ClassifiedError {
            kind: ErrorKind::OperationCancelled,
            text,
        },
    }
}

/// How grave an error of a kind is.
pub open spec fn severity_of(kind: ErrorKind) -> ErrorSeverity {
    match kind {
        ErrorKind::OperationCancelled => ErrorSeverity::Low,
        ErrorKind::PathAlreadyExists => ErrorSeverity::Low,
        ErrorKind::PathNotFound => ErrorSeverity::Medium,
        ErrorKind::PermissionDenied => ErrorSeverity::Medium,
        ErrorKind::NetworkError => ErrorSeverity::Medium,
        ErrorKind::Timeout => ErrorSeverity::Medium,
        ErrorKind::InvalidPath => ErrorSeverity::High,
        ErrorKind::IoError => ErrorSeverity::High,
        ErrorKind::Unknown => ErrorSeverity::High,
        ErrorKind::DiskSpaceInsufficient => ErrorSeverity::Critical,
        ErrorKind::SystemProtection => ErrorSeverity::Critical,
    }
}

/// What is done about an error of a kind and a severity. Without automatic
/// recovery everything is left to the user.
pub open spec fn strategy_for(automatic: bool, kind: ErrorKind, severity: ErrorSeverity) -> RecoveryStrategy {
    if !automatic {
        RecoveryStrategy::Manual
    } else {
        match (kind, severity) {
            (ErrorKind::OperationCancelled, _) => RecoveryStrategy::Skip,
            (ErrorKind::PathAlreadyExists, ErrorSeverity::Low) => RecoveryStrategy::Skip,
            (ErrorKind::PathNotFound, ErrorSeverity::Medium) => RecoveryStrategy::Retry(2),
            (ErrorKind::PermissionDenied, ErrorSeverity::Medium) => RecoveryStrategy::Manual,
            (ErrorKind::IoError, ErrorSeverity::High) => RecoveryStrategy::Retry(3),
            (ErrorKind::DiskSpaceInsufficient, ErrorSeverity::Critical) => RecoveryStrategy::Abort,
            (ErrorKind::SystemProtection, ErrorSeverity::Critical) => RecoveryStrategy::Abort,
            _ => RecoveryStrategy::Manual,
        }
    }
}

/// What is known of the operation that failed.
#[derive(Debug, Clone)]
pub struct RecoveryContext {
    pub operation_type: String,
    pub source_path: String,
    pub target_path: Option<String>,
    pub operation_phase: String,
    pub previous_operations: Vec<String>,
    /// The preferences of the user, as pairs of name and value.
    pub user_preferences: Vec<(String, String)>,
}

impl RecoveryContext {
    /// A context without earlier operations and without preferences.
    pub fn new(
        operation_type: String,
        source_path: String,
        target_path: Option<String>,
        operation_phase: String,
    ) -> (c: RecoveryContext)
        ensures
            c.operation_type == operation_type,
            c.source_path == source_path,
            c.target_path == target_path,
            c.operation_phase == operation_phase,
            c.previous_operations@.len() == 0,
            c.user_preferences@.len() == 0,
    {
        RecoveryContext {
            operation_type,
            source_path,
            target_path,
            operation_phase,
            previous_operations: Vec::new(),
            user_preferences: Vec::new(),
        }
    }

    /// The context with the preferences replaced.
    pub fn with_preferences(self, preferences: Vec<(String, String)>) -> (c: RecoveryContext)
        ensures
            c.user_preferences == preferences,
            c.operation_type == self.operation_type,
            c.source_path == self.source_path,
            c.target_path == self.target_path,
            c.operation_phase == self.operation_phase,
            c.previous_operations == self.previous_operations,
    {
        let mut c = self;
        c.user_preferences = preferences;
        c
    }
}

/// The ways in which an error was dealt with.
#[derive(Debug, Clone, Copy, PartialEq, Eq, Structural)]
pub enum RecoveryType {
    Retry,
    Rollback,
    Skip,
    Abort,
    Manual,
}

/// How dealing with an error ended.
#[derive(Debug, Clone)]
pub struct RecoveryResult {
    pub success: bool,
    pub recovery_type: RecoveryType,
    pub message: String,
    /// The backup that was restored, where a rollback took place.
    pub backup_path: Option<String>,
}

/// Why recovery failed.
#[derive(Debug, Clone)]
pub enum RecoveryError {
    MaxRetriesExceeded(String),
    RollbackFailed(String),
    BackupFailed(String),
    RecoveryImpossible(String),
    UserCancelled(String),
}

/// Why a backup failed.
#[derive(Debug, Clone)]
pub enum BackupError {
    BackupFailed(String),
    BackupTooLarge(String),
    BackupNotFound(String),
    InvalidBackupPath(String),
}

/// The text that tells the user why recovery failed.
pub open spec fn recovery_error_text(e: RecoveryError) -> Seq<char> {
    match e {
        RecoveryError::MaxRetriesExceeded(m) => "重试次数超限: "@ + m@,
        RecoveryError::RollbackFailed(m) => "回滚失败: "@ + m@,
        RecoveryError::BackupFailed(m) => "备份失败: "@ + m@,
        RecoveryError::RecoveryImpossible(m) => "无法恢复: "@ + m@,
        RecoveryError::UserCancelled(m) => "用户取消: "@ + m@,
    }
}

/// The text that tells the user why a backup failed.
pub open spec fn backup_error_text(e: BackupError) -> Seq<char> {
    match e {
        BackupError::BackupFailed(m) => "备份失败: "@ + m@,
        BackupError::BackupTooLarge(m) => "备份过大: "@ + m@,
        BackupError::BackupNotFound(m) => "备份未找到: "@ + m@,
        BackupError::InvalidBackupPath(m) => "无效备份路径: "@ + m@,
    }
}

impl RecoveryError {
    /// Tells the user why recovery failed.
    pub fn message(&self) -> (s: String)
        ensures
            s@ == recovery_error_text(*self),
    {
        match self {
            RecoveryError::MaxRetriesExceeded(m) => String::from_str("重试次数超限: ").concat(m.as_str()),
            RecoveryError::RollbackFailed(m) => String::from_str("回滚失败: ").concat(m.as_str()),
            RecoveryError::BackupFailed(m) => String::from_str("备份失败: ").concat(m.as_str()),
            RecoveryError::RecoveryImpossible(m) => String::from_str("无法恢复: ").concat(m.as_str()),
            RecoveryError::UserCancelled(m) => String::from_str("用户取消: ").concat(m.as_str()),
        }
    }
}

impl BackupError {
    /// Tells the user why a backup failed.
    pub fn message(&self) -> (s: String)
        ensures
            s@ == backup_error_text(*self),
    {
        match self {
            BackupError::BackupFailed(m) => String::from_str("备份失败: ").concat(m.as_str()),
            BackupError::BackupTooLarge(m) => String::from_str("备份过大: ").concat(m.as_str()),
            BackupError::BackupNotFound(m) => String::from_str("备份未找到: ").concat(m.as_str()),
            BackupError::InvalidBackupPath(m) => String::from_str("无效备份路径: ").concat(m.as_str()),
        }
    }
}

/// Counts of how errors were dealt with.
#[derive(Debug, Clone, Copy, PartialEq, Eq, Structural)]
pub struct RecoveryStatistics {
    pub total_operations: u32,
    pub successful_recoveries: u32,
    pub failed_recoveries: u32,
    pub retry_successes: u32,
    pub rollback_successes: u32,
    pub skip_count: u32,
    pub abort_count: u32,
    pub manual_count: u32,
}

impl RecoveryStatistics {
    /// The share of the operations that were recovered; zero where there were none.
    pub fn success_rate(&self) -> (r: Ratio)
        ensures
            r == (Ratio {
                part: self.successful_recoveries as u64,
                whole: self.total_operations as u64,
            }),
    {
        Ratio::new(self.successful_recoveries as u64, self.total_operations as u64)
    }
}

/// A copy of a subtree, taken before a risky step.
#[derive(Debug, Clone)]
pub struct BackupInfo {
    /// The identifier of the backup.
    pub backup_id: String,
    /// Where the subtree was.
    pub original_path: String,
    /// Where the copy is.
    pub backup_path: String,
    /// The bytes of the subtree.
    pub backup_size: u64,
    /// When the backup was taken, in seconds since the epoch.
    pub created_at: i64,
    /// The tag of the operation for which it was taken.
    pub operation_type: String,
    /// Whether the copy is still on disk.
    pub is_active: bool,
}

/// A backup as a mathematical value.
pub struct BackupRecord {
    pub backup_id: Seq<char>,
    pub original_path: Seq<char>,
    pub backup_path: Seq<char>,
    pub backup_size: u64,
    pub created_at: i64,
    pub operation_type: Seq<char>,
    pub is_active: bool,
}

impl View for BackupInfo {
    type V = BackupRecord;

    open spec fn view(&self) -> BackupRecord {
        BackupRecord {
            backup_id: self.backup_id@,
            original_path: self.original_path@,
            backup_path: self.backup_path@,
            backup_size: self.backup_size,
            created_at: self.created_at,
            operation_type: self.operation_type@,
            is_active: self.is_active,
        }
    }
}

impl BackupInfo {
    /// A copy of the record.
    pub fn duplicate(&self) -> (r: BackupInfo)
        ensures
            r@ == self@,
    {
        BackupInfo {
            backup_id: self.backup_id.clone(),
            original_path: self.original_path.clone(),
            backup_path: self.backup_path.clone(),
            backup_size: self.backup_size,
            created_at: self.created_at,
            operation_type: self.operation_type.clone(),
            is_active: self.is_active,
        }
    }
}

/// The function that takes a backup to its mathematical value.
pub open spec fn to_record() -> spec_fn(BackupInfo) -> BackupRecord {
    |b: BackupInfo| b@
}

/// The mathematical values of a list of backups.
pub open spec fn records_of(v: Seq<BackupInfo>) -> Seq<BackupRecord> {
    v.map_values(to_record())
}

/// No two backups carry the same identifier.
pub open spec fn distinct_ids(s: Seq<BackupRecord>) -> bool {
    forall|i: int, j: int|
        0 <= i < j < s.len() ==> (#[trigger] s[i]).backup_id != (#[trigger] s[j]).backup_id
}

/// The index of the backup with the identifier `id` among the first `n`.
pub open spec fn index_of_backup(s: Seq<BackupRecord>, id: Seq<char>, n: nat) -> Option<int>
    decreases n,
{
    if n == 0 || n > s.len() {
        None
    } else if s[n - 1].backup_id == id {
        Some(n - 1)
    } else {
        index_of_backup(s, id, (n - 1) as nat)
    }
}

/// The backup can serve the operation: it is active and its tag holds the
/// identifier of the operation.
pub open spec fn serves(b: BackupRecord, operation_id: Seq<char>) -> bool {
    b.is_active && contains(b.operation_type, operation_id)
}

/// The index, among the first `n` backups, of the most recent one that
/// serves the operation. Of two that are equally recent the later in the
/// registry is taken.
pub open spec fn latest_serving(s: Seq<BackupRecord>, operation_id: Seq<char>, n: nat) -> Option<int>
    decreases n,
{
    if n == 0 || n > s.len() {
        None
    } else {
        let before = latest_serving(s, operation_id, (n - 1) as nat);
        if !serves(s[n - 1], operation_id) {
            before
        } else {
            match before {
                Some(i) => if s[i].created_at > s[n - 1].created_at {
                    Some(i)
                } else {
                    Some(n - 1)
                },
                None => Some(n - 1),
            }
        }
    }
}

/// **Most recent backup.** The backup found serves the operation and none
/// that serves it is more recent; where none is found, none serves it.
pub proof fn lemma_latest_serving(s: Seq<BackupRecord>, operation_id: Seq<char>, n: nat)
    requires
        n <= s.len(),
    ensures
        match latest_serving(s, operation_id, n) {
            Some(i) => 0 <= i < n && serves(s[i], operation_id) && forall|j: int|
                0 <= j < n && serves(#[trigger] s[j], operation_id) ==> s[j].created_at
                    <= s[i].created_at,
            None => forall|j: int| 0 <= j < n ==> !serves(#[trigger] s[j], operation_id),
        },
    decreases n,
{
    if n > 0 {
        lemma_latest_serving(s, operation_id, (n - 1) as nat);
    }
}

/// The seconds for which a backup is kept.
pub open spec fn retention_seconds(cfg: ErrorRecoveryConfig) -> int {
    cfg.backup_retention_hours * 3600
}

/// The backup has outlived its retention at `now`.
pub open spec fn is_expired(b: BackupRecord, cfg: ErrorRecoveryConfig, now: i64) -> bool {
    b.created_at < now - retention_seconds(cfg)
}

/// The backups among the first `n` that have expired, in order.
pub open spec fn expired_among(s: Seq<BackupRecord>, cfg: ErrorRecoveryConfig, now: i64, n: nat) -> Seq<
    BackupRecord,
>
    decreases n,
{
    if n == 0 || n > s.len() {
        Seq::empty()
    } else if is_expired(s[n - 1], cfg, now) {
        expired_among(s, cfg, now, (n - 1) as nat).push(s[n - 1])
    } else {
        expired_among(s, cfg, now, (n - 1) as nat)
    }
}

/// The backups among the first `n` that have not expired, in order.
pub open spec fn kept_among(s: Seq<BackupRecord>, cfg: ErrorRecoveryConfig, now: i64, n: nat) -> Seq<
    BackupRecord,
>
    decreases n,
{
    if n == 0 || n > s.len() {
        Seq::empty()
    } else if is_expired(s[n - 1], cfg, now) {
        kept_among(s, cfg, now, (n - 1) as nat)
    } else {
        kept_among(s, cfg, now, (n - 1) as nat).push(s[n - 1])
    }
}

/// Those that are kept are among the first `n`, in their order.
pub proof fn lemma_kept_are_members(s: Seq<BackupRecord>, cfg: ErrorRecoveryConfig, now: i64, n: nat)
    requires
        n <= s.len(),
        distinct_ids(s),
    ensures
        distinct_ids(kept_among(s, cfg, now, n)),
        forall|k: int|
            0 <= k < kept_among(s, cfg, now, n).len() ==> exists|j: int|
                0 <= j < n && s[j] == #[trigger] kept_among(s, cfg, now, n)[k],
        forall|k: int|
            0 <= k < kept_among(s, cfg, now, n).len() ==> !is_expired(
                #[trigger] kept_among(s, cfg, now, n)[k],
                cfg,
                now,
            ),
    decreases n,
{
    if n > 0 {
        lemma_kept_are_members(s, cfg, now, (n - 1) as nat);
        let before = kept_among(s, cfg, now, (n - 1) as nat);
        let after = kept_among(s, cfg, now, n);
        assert forall|k: int| 0 <= k < after.len() implies exists|j: int|
            0 <= j < n && s[j] == #[trigger] after[k] by {
            if k < before.len() {
                let j = choose|j: int| 0 <= j < n - 1 && s[j] == before[k];
                assert(s[j] == after[k]);
            } else {
                assert(s[n - 1] == after[k]);
            }
        }
        assert forall|i: int, j: int| 0 <= i < j < after.len() implies (#[trigger] after[i]).backup_id
            != (#[trigger] after[j]).backup_id by {
            if j == before.len() {
                let a = choose|a: int| 0 <= a < n - 1 && s[a] == before[i];
                assert(s[a].backup_id != s[n - 1].backup_id);
            }
        }
    }
}

/// The largest subtree that is backed up, in bytes.
pub open spec fn backup_limit(cfg: ErrorRecoveryConfig) -> u64 {
    saturated(cfg.max_rollback_size_mb * 0x10_0000)
}

/// The text of a subtree that is too large to back up.
pub open spec fn too_large_text(size: u64, limit: u64) -> Seq<char> {
    "备份大小 "@ + size_text(size as nat, 4, false) + " 超过最大限制 "@ + size_text(limit as nat, 4, false)
}

/// The name of a backup: the last component of the source, the moment and the identifier.
pub open spec fn backup_name(leaf: Option<Seq<char>>, stamp: Seq<char>, id: Seq<char>) -> Seq<char> {
    (match leaf {
        Some(l) => l,
        None => "backup"@,
    }) + "_"@ + stamp + "_"@ + id
}

/// The name of a temporary copy: the last component of the source and the moment.
pub open spec fn temp_name(leaf: Option<Seq<char>>, stamp: Seq<char>) -> Seq<char> {
    (match leaf {
        Some(l) => l,
        None => "temp_backup"@,
    }) + "_"@ + stamp + "_temp"@
}

/// The directory that holds the backups, below the temporary directory of the system.
pub open spec fn backup_root(temp_dir: Seq<char>, windows: bool) -> Seq<char> {
    joined(temp_dir, "dir_mover_backups"@, windows)
}

/// The directory that holds the temporary copies, below the temporary directory of the system.
pub open spec fn temp_root(temp_dir: Seq<char>, windows: bool) -> Seq<char> {
    joined(temp_dir, "dir_mover_temp"@, windows)
}

/// Writes a size with two decimals in units from bytes to tebibytes.
pub fn format_size(bytes: u64) -> (s: String)
    ensures
        s@ == size_text(bytes as nat, 4, false),
{
    format_size_in(bytes, 4, false)
}

/// What was observed of the subtree that is to be backed up.
#[derive(Debug, Clone)]
pub struct BackupRequest {
    /// The path of the subtree.
    pub source_path: String,
    /// Its last component, where it has one.
    pub source_leaf: Option<String>,
    /// Whether it is a single file.
    pub source_is_file: bool,
    /// Its bytes, where they could be summed.
    pub source_size: Option<u64>,
    /// The tag of the operation.
    pub operation_type: String,
    /// The temporary directory of the system.
    pub temp_dir: String,
}

/// What is to be done to take a backup, and the record that it gives.
#[derive(Debug)]
pub struct BackupPlan {
    /// The record that is registered once the steps have succeeded.
    pub info: BackupInfo,
    /// The steps that take the copy.
    pub steps: Vec<FsStep>,
}

/// The record of the backup that a request gives.
pub open spec fn planned_record(
    request: BackupRequest,
    id: Seq<char>,
    moment: LocalMoment,
    windows: bool,
) -> BackupRecord {
    BackupRecord {
        backup_id: id,
        original_path: request.source_path@,
        backup_path: joined(
            backup_root(request.temp_dir@, windows),
            backup_name(text_of(request.source_leaf), compact_stamp(moment), id),
            windows,
        ),
        backup_size: match request.source_size {
            Some(n) => n,
            None => 0,
        },
        created_at: moment.epoch_seconds,
        operation_type: request.operation_type@,
        is_active: true,
    }
}

/// Why a request for a backup is refused, if it is: the size of the
/// subtree is unknown, or it is over the limit.
pub open spec fn backup_refusal(cfg: ErrorRecoveryConfig, request: BackupRequest) -> Option<(bool, Seq<char>)> {
    match request.source_size {
        None => Some((false, "路径不存在"@)),
        Some(size) => if size > backup_limit(cfg) {
            Some((true, too_large_text(size, backup_limit(cfg))))
        } else {
            None
        },
    }
}

/// The outcome `r` is the one that planning a backup has with this
/// identifier and this moment.
pub open spec fn backup_plan_is(
    r: Result<BackupPlan, BackupError>,
    cfg: ErrorRecoveryConfig,
    request: BackupRequest,
    id: Seq<char>,
    moment: LocalMoment,
    windows: bool,
) -> bool {
    match backup_refusal(cfg, request) {
        Some((too_large, text)) => if too_large {
            r matches Err(BackupError::BackupTooLarge(t)) && t@ == text
        } else {
            r matches Err(BackupError::BackupFailed(t)) && t@ == text
        },
        None => r matches Ok(plan) && plan.info@ == planned_record(request, id, moment, windows)
            && steps_of(plan.steps@) == seq![
            Step::CreateDirAll(backup_root(request.temp_dir@, windows)),
            Step::CopyAll { from: request.source_path@, to: plan.info@.backup_path },
        ],
    }
}

/// What was observed of the place to which a backup is restored.
#[derive(Debug, Clone)]
pub struct RestoreFacts {
    /// Whether anything is at the original path.
    pub exists: bool,
    /// Whether it is a directory.
    pub is_directory: bool,
    /// The last component of the original path, where it has one.
    pub leaf: Option<String>,
    /// The parent of the original path, where it has one.
    pub parent: Option<String>,
    /// The temporary directory of the system.
    pub temp_dir: String,
}

/// The steps that restore a backup: what is at the original path is copied
/// aside and removed, then the backup is copied back in its place.
pub open spec fn rollback_steps(
    backup: BackupRecord,
    facts: RestoreFacts,
    moment: LocalMoment,
    windows: bool,
) -> Seq<Step> {
    let aside = if facts.exists {
        seq![
            Step::CreateDirAll(temp_root(facts.temp_dir@, windows)),
            Step::CopyAll {
                from: backup.original_path,
                to: joined(
                    temp_root(facts.temp_dir@, windows),
                    temp_name(text_of(facts.leaf), compact_stamp(moment)),
                    windows,
                ),
            },
            if facts.is_directory {
                Step::RemoveTree(backup.original_path)
            } else {
                Step::RemoveFile(backup.original_path)
            },
        ]
    } else {
        Seq::empty()
    };
    let parent = match facts.parent {
        Some(p) => seq![Step::CreateDirAll(p@)],
        None => Seq::empty(),
    };
    aside + parent + seq![Step::CopyAll { from: backup.backup_path, to: backup.original_path }]
}

/// **Backup round trip.** A backup that was planned for a subtree is
/// restored to the place from which it was taken: the steps of the rollback
/// end with the copy of everything from the place to which the steps of
/// the backup copied the subtree, back to the path of the subtree. Where
/// something stands at that path, it is copied aside and removed first.
pub proof fn lemma_rollback_returns_backup(
    request: BackupRequest,
    id: Seq<char>,
    taken: LocalMoment,
    facts: RestoreFacts,
    restored: LocalMoment,
    windows: bool,
)
    ensures
        ({
            let record = planned_record(request, id, taken, windows);
            let steps = rollback_steps(record, facts, restored, windows);
            &&& steps.len() >= 1
            &&& steps.last() == (Step::CopyAll { from: record.backup_path, to: request.source_path@ })
            &&& facts.exists ==> steps.len() >= 4 && (steps[1] matches Step::CopyAll { from, .. } && from
                == request.source_path@) && steps[2] == (if facts.is_directory {
                Step::RemoveTree(request.source_path@)
            } else {
                Step::RemoveFile(request.source_path@)
            })
            &&& !facts.exists ==> forall|i: int|
                0 <= i < steps.len() - 1 ==> #[trigger] steps[i] is CreateDirAll
        }),
{
}

/// How dealing with one error went.
#[derive(Debug, Clone)]
pub struct RecoveryState {
    pub operation_id: String,
    pub error_type: ErrorType,
    pub severity: ErrorSeverity,
    pub recovery_strategy: RecoveryStrategy,
    pub retry_count: u32,
    pub is_recovered: bool,
    pub recovery_message: Option<String>,
    /// The backup that was restored.
    pub backup_path: Option<String>,
    /// When the error was taken up, in seconds since the epoch.
    pub timestamp: i64,
}

/// What counts of the way in which an error was dealt with.
pub struct Handled {
    pub operation_id: Seq<char>,
    pub strategy: RecoveryStrategy,
    pub recovered: bool,
}

/// What counts of a recorded state.
pub open spec fn handled(s: RecoveryState) -> Handled {
    Handled { operation_id: s.operation_id@, strategy: s.recovery_strategy, recovered: s.is_recovered }
}

/// The function that takes a state to what counts of it.
pub open spec fn to_handled() -> spec_fn(RecoveryState) -> Handled {
    |s: RecoveryState| handled(s)
}

/// What counts of the recorded states.
pub open spec fn handled_of(v: Seq<RecoveryState>) -> Seq<Handled> {
    v.map_values(to_handled())
}

/// The number of states among the first `n` of which `p` holds.
pub open spec fn count_states(s: Seq<Handled>, p: spec_fn(Handled) -> bool, n: nat) -> nat
    decreases n,
{
    if n == 0 || n > s.len() {
        0
    } else {
        count_states(s, p, (n - 1) as nat) + if p(s[n - 1]) {
            1nat
        } else {
            0nat
        }
    }
}

/// The state was recovered.
pub open spec fn was_recovered() -> spec_fn(Handled) -> bool {
    |h: Handled| h.recovered
}

/// The state was recovered and its strategy was to retry.
pub open spec fn recovered_by_retry() -> spec_fn(Handled) -> bool {
    |h: Handled| h.recovered && h.strategy is Retry
}

/// The state was recovered and its strategy was to roll back.
pub open spec fn recovered_by_rollback() -> spec_fn(Handled) -> bool {
    |h: Handled| h.recovered && h.strategy is Rollback
}

/// The strategy of the state was to skip.
pub open spec fn was_skipped() -> spec_fn(Handled) -> bool {
    |h: Handled| h.strategy is Skip
}

/// The strategy of the state was to abort.
pub open spec fn was_aborted() -> spec_fn(Handled) -> bool {
    |h: Handled| h.strategy is Abort
}

/// The strategy of the state was to leave it to the user.
pub open spec fn was_manual() -> spec_fn(Handled) -> bool {
    |h: Handled| h.strategy is Manual
}

/// A count as far as thirty-two bits hold it.
pub open spec fn capped(n: nat) -> u32 {
    if n > u32::MAX {
        u32::MAX
    } else {
        n as u32
    }
}

/// The statistics of the recorded states.
pub open spec fn statistics_of(s: Seq<Handled>) -> RecoveryStatistics {
    let total = capped(s.len());
    let recovered = capped(count_states(s, was_recovered(), s.len()));
    RecoveryStatistics {
        total_operations: total,
        successful_recoveries: recovered,
        failed_recoveries: (total - recovered) as u32,
        retry_successes: capped(count_states(s, recovered_by_retry(), s.len())),
        rollback_successes: capped(count_states(s, recovered_by_rollback(), s.len())),
        skip_count: capped(count_states(s, was_skipped(), s.len())),
        abort_count: capped(count_states(s, was_aborted(), s.len())),
        manual_count: capped(count_states(s, was_manual(), s.len())),
    }
}

/// No more states are counted than there are.
pub proof fn lemma_count_bounded(s: Seq<Handled>, p: spec_fn(Handled) -> bool, n: nat)
    requires
        n <= s.len(),
    ensures
        count_states(s, p, n) <= n,
    decreases n,
{
    if n > 0 {
        lemma_count_bounded(s, p, (n - 1) as nat);
    }
}

/// The index of the state of the operation `id` among the first `n`.
pub open spec fn index_of_state(s: Seq<Handled>, id: Seq<char>, n: nat) -> Option<int>
    decreases n,
{
    if n == 0 || n > s.len() {
        None
    } else if s[n - 1].operation_id == id {
        Some(n - 1)
    } else {
        index_of_state(s, id, (n - 1) as nat)
    }
}

fn add_capped(n: u32) -> (r: u32)
    ensures
        r == capped((n + 1) as nat),
{
    if n == u32::MAX {
        n
    } else {
        n + 1
    }
}

/// Enters a backup into a registry. A backup with the same identifier is replaced.
fn enter_backup(registry: &mut Vec<BackupInfo>, info: BackupInfo)
    requires
        distinct_ids(records_of(old(registry)@)),
    ensures
        distinct_ids(records_of(final(registry)@)),
        match index_of_backup(
            records_of(old(registry)@),
            info@.backup_id,
            records_of(old(registry)@).len(),
        ) {
            Some(i) => records_of(final(registry)@) == records_of(old(registry)@).update(i, info@),
            None => records_of(final(registry)@) == records_of(old(registry)@).push(info@),
        },
{
    let ghost before = records_of(registry@);
    let mut i: usize = registry.len();
    while i > 0
        invariant
            i <= registry@.len(),
            registry@ == old(registry)@,
            before == records_of(registry@),
            distinct_ids(before),
            index_of_backup(before, info@.backup_id, before.len()) == index_of_backup(
                before,
                info@.backup_id,
                i as nat,
            ),
        decreases i,
    {
        assert(before[i - 1] == registry@[i - 1]@);
        if same_text(registry[i - 1].backup_id.as_str(), info.backup_id.as_str()) {
            proof {
                assert forall|a: int, b: int|
                    0 <= a < b < before.len() implies (#[trigger] before.update(
                    i - 1,
                    info@,
                )[a]).backup_id != (#[trigger] before.update(i - 1, info@)[b]).backup_id by {
                    assert(before[a].backup_id != before[b].backup_id);
                    assert(before[i - 1].backup_id == info@.backup_id);
                }
                assert(records_of(registry@.update(i - 1, info)) =~= before.update(i - 1, info@));
            }
            registry.set(i - 1, info);
            return ;
        }
        i -= 1;
    }
    proof {
        assert(records_of(registry@.push(info)) =~= before.push(info@));
        lemma_absent_everywhere(before, info@.backup_id, before.len());
        assert forall|a: int, b: int| 0 <= a < b < before.push(info@).len() implies (
        #[trigger] before.push(info@)[a]).backup_id != (#[trigger] before.push(info@)[b]).backup_id by {
            if b < before.len() {
                assert(before[a].backup_id != before[b].backup_id);
            }
        }
    }
    registry.push(info);
}

/// Takes the backup with the identifier out of a registry.
fn take_backup(registry: &mut Vec<BackupInfo>, backup_id: &str) -> (r: Result<BackupInfo, String>)
    requires
        distinct_ids(records_of(old(registry)@)),
    ensures
        distinct_ids(records_of(final(registry)@)),
        match index_of_backup(records_of(old(registry)@), backup_id@, records_of(old(registry)@).len()) {
            Some(i) => r matches Ok(b) && b@ == records_of(old(registry)@)[i] && records_of(
                final(registry)@,
            ) == records_of(old(registry)@).remove(i),
            None => r matches Err(e) && e@ == "备份不存在"@ && records_of(final(registry)@)
                == records_of(old(registry)@),
        },
{
    let ghost before = records_of(registry@);
    let mut i: usize = registry.len();
    while i > 0
        invariant
            i <= registry@.len(),
            registry@ == old(registry)@,
            before == records_of(registry@),
            distinct_ids(before),
            index_of_backup(before, backup_id@, before.len()) == index_of_backup(
                before,
                backup_id@,
                i as nat,
            ),
        decreases i,
    {
        assert(before[i - 1] == registry@[i - 1]@);
        if same_text(registry[i - 1].backup_id.as_str(), backup_id) {
            proof {
                assert(records_of(registry@.remove(i - 1)) =~= before.remove(i - 1));
                assert forall|a: int, b: int|
                    0 <= a < b < before.remove(i - 1).len() implies (#[trigger] before.remove(
                    i - 1,
                )[a]).backup_id != (#[trigger] before.remove(i - 1)[b]).backup_id by {
                    let x = if a < i - 1 {
                        a
                    } else {
                        a + 1
                    };
                    let y = if b < i - 1 {
                        b
                    } else {
                        b + 1
                    };
                    assert(before[x].backup_id != before[y].backup_id);
                }
            }
            let b = registry.remove(i - 1);
            return Ok(b);
        }
        i -= 1;
    }
    Err(String::from_str("备份不存在"))
}

/// Marks the backup with the identifier in a registry as no longer on disk.
fn retire_backup(registry: &mut Vec<BackupInfo>, backup_id: &str) -> (known: bool)
    requires
        distinct_ids(records_of(old(registry)@)),
    ensures
        distinct_ids(records_of(final(registry)@)),
        match index_of_backup(records_of(old(registry)@), backup_id@, records_of(old(registry)@).len()) {
            Some(i) => known && records_of(final(registry)@) == records_of(old(registry)@).update(
                i,
                BackupRecord { is_active: false, ..records_of(old(registry)@)[i] },
            ),
            None => !known && records_of(final(registry)@) == records_of(old(registry)@),
        },
        forall|i: int|
            0 <= i < records_of(old(registry)@).len() && !(#[trigger] records_of(
                old(registry)@,
            )[i]).is_active ==> records_of(final(registry)@).len() == records_of(old(registry)@).len()
                && !records_of(final(registry)@)[i].is_active,
{
    let ghost before = records_of(registry@);
    let mut i: usize = registry.len();
    while i > 0
        invariant
            i <= registry@.len(),
            registry@ == old(registry)@,
            before == records_of(registry@),
            distinct_ids(before),
            index_of_backup(before, backup_id@, before.len()) == index_of_backup(
                before,
                backup_id@,
                i as nat,
            ),
        decreases i,
    {
        assert(before[i - 1] == registry@[i - 1]@);
        if same_text(registry[i - 1].backup_id.as_str(), backup_id) {
            let mut updated = registry[i - 1].duplicate();
            updated.is_active = false;
            proof {
                let after = before.update(i - 1, updated@);
                assert(records_of(registry@.update(i - 1, updated)) =~= after);
                assert forall|a: int, b: int| 0 <= a < b < after.len() implies (
                #[trigger] after[a]).backup_id != (#[trigger] after[b]).backup_id by {
                    assert(before[a].backup_id != before[b].backup_id);
                }
                assert forall|k: int|
                    0 <= k < before.len() && !(#[trigger] before[k]).is_active implies !after[k].is_active by {}
            }
            registry.set(i - 1, updated);
            return true;
        }
        i -= 1;
    }
    false
}

/// Enters the state of an operation into a list. A state of the same operation is replaced.
fn enter_state(states: &mut Vec<RecoveryState>, state: RecoveryState)
    ensures
        match index_of_state(
            handled_of(old(states)@),
            state.operation_id@,
            handled_of(old(states)@).len(),
        ) {
            Some(i) => handled_of(final(states)@) == handled_of(old(states)@).update(i, handled(state)),
            None => handled_of(final(states)@) == handled_of(old(states)@).push(handled(state)),
        },
{
    let ghost before = handled_of(states@);
    let mut i: usize = states.len();
    while i > 0
        invariant
            i <= states@.len(),
            states@ == old(states)@,
            before == handled_of(states@),
            index_of_state(before, state.operation_id@, before.len()) == index_of_state(
                before,
                state.operation_id@,
                i as nat,
            ),
        decreases i,
    {
        assert(before[i - 1] == handled(states@[i - 1]));
        if same_text(states[i - 1].operation_id.as_str(), state.operation_id.as_str()) {
            proof {
                assert(handled_of(states@.update(i - 1, state)) =~= before.update(i - 1, handled(state)));
            }
            states.set(i - 1, state);
            return ;
        }
        i -= 1;
    }
    proof {
        assert(handled_of(states@.push(state)) =~= before.push(handled(state)));
    }
    states.push(state);
}

/// The manager of recovery: the states of the errors dealt with, and the registry of backups.
pub struct ErrorRecoveryManager {
    config: ErrorRecoveryConfig,
    recovery_states: Vec<RecoveryState>,
    backup_registry: Vec<BackupInfo>,
}

impl ErrorRecoveryManager {
    /// The configuration in force.
    pub closed spec fn config_value(&self) -> ErrorRecoveryConfig {
        self.config
    }

    /// The backups in the registry, in the order in which they came.
    pub closed spec fn backups(&self) -> Seq<BackupRecord> {
        records_of(self.backup_registry@)
    }

    /// What counts of the recorded states, in the order in which they came.
    pub closed spec fn states(&self) -> Seq<Handled> {
        handled_of(self.recovery_states@)
    }

    /// The registry holds no identifier twice. This holds of every manager.
    #[verifier::type_invariant]
    pub open spec fn wf(&self) -> bool {
        distinct_ids(self.backups())
    }

    /// A manager that has dealt with nothing and holds no backup.
    pub fn new(config: ErrorRecoveryConfig) -> (m: ErrorRecoveryManager)
        ensures
            m.config_value() == config,
            m.backups().len() == 0,
            m.states().len() == 0,
            m.wf(),
    {
        ErrorRecoveryManager { config, recovery_states: Vec::new(), backup_registry: Vec::new() }
    }

    /// Classifies a failed file operation.
    pub fn classify_error(&self, error: &FileOperationError) -> (e: ErrorType)
        ensures
            e@ == classified(error@),
    {
        match error {
            FileOperationError::IoError(f) => match f.kind {
                IoKind::PermissionDenied => ErrorType::PermissionDenied(f.text.clone()),
                IoKind::NotFound => ErrorType::PathNotFound(f.text.clone()),
                IoKind::AlreadyExists => ErrorType::PathAlreadyExists(f.text.clone()),
                IoKind::Other => ErrorType::IoError(f.text.clone()),
            },
            FileOperationError::PermissionDenied(m) => ErrorType::PermissionDenied(m.clone()),
            FileOperationError::PathNotFound(m) => ErrorType::PathNotFound(m.clone()),
            FileOperationError::PathAlreadyExists(m) => ErrorType::PathAlreadyExists(m.clone()),
            FileOperationError::InvalidPath(m) => ErrorType::InvalidPath(m.clone()),
            FileOperationError::OperationCancelled(m) => ErrorType::OperationCancelled(m.clone()),
        }
    }

    /// How grave an error is. The context has no say.
    pub fn determine_severity(&self, error_type: &ErrorType, context: &RecoveryContext) -> (s:
        ErrorSeverity)
        ensures
            s == severity_of(error_type@.kind),
    {
        match error_type {
            ErrorType::OperationCancelled(_) => ErrorSeverity::Low,
            ErrorType::PathAlreadyExists(_) => ErrorSeverity::Low,
            ErrorType::PathNotFound(_) => ErrorSeverity::Medium,
            ErrorType::PermissionDenied(_) => ErrorSeverity::Medium,
            ErrorType::InvalidPath(_) => ErrorSeverity::High,
            ErrorType::IoError(_) => ErrorSeverity::High,
            ErrorType::DiskSpaceInsufficient(_) => ErrorSeverity::Critical,
            ErrorType::SystemProtection(_) => ErrorSeverity::Critical,
            ErrorType::NetworkError(_) => ErrorSeverity::Medium,
            ErrorType::Timeout(_) => ErrorSeverity::Medium,
            ErrorType::Unknown(_) => ErrorSeverity::High,
        }
    }

    /// What is done about an error. The answer is a function of the kind,
    /// the severity and the configuration alone; the context has no say.
    pub fn determine_recovery_strategy(
        &self,
        error_type: &ErrorType,
        severity: &ErrorSeverity,
        context: &RecoveryContext,
    ) -> (s: RecoveryStrategy)
        ensures
            s == strategy_for(self.config_value().enable_auto_recovery, error_type@.kind, *severity),
    {
        if !self.config.enable_auto_recovery {
            return RecoveryStrategy::Manual;
        }
        match (error_type, severity) {
            (ErrorType::OperationCancelled(_), _) => RecoveryStrategy::Skip,
            (ErrorType::PathAlreadyExists(_), ErrorSeverity::Low) => RecoveryStrategy::Skip,
            (ErrorType::PathNotFound(_), ErrorSeverity::Medium) => RecoveryStrategy::Retry(2),
            (ErrorType::PermissionDenied(_), ErrorSeverity::Medium) => RecoveryStrategy::Manual,
            (ErrorType::IoError(_), ErrorSeverity::High) => RecoveryStrategy::Retry(3),
            (ErrorType::DiskSpaceInsufficient(_), ErrorSeverity::Critical) => RecoveryStrategy::Abort,
            (ErrorType::SystemProtection(_), ErrorSeverity::Critical) => RecoveryStrategy::Abort,
            _ => RecoveryStrategy::Manual,
        }
    }

    /// The largest subtree that is backed up, in bytes.
    pub fn max_backup_bytes(&self) -> (n: u64)
        ensures
            n == backup_limit(self.config_value()),
    {
        let mb = self.config.max_rollback_size_mb;
        if mb > u64::MAX / 0x10_0000 {
            u64::MAX
        } else {
            mb * 0x10_0000
        }
    }

    /// Plans a backup with the given identifier, taken at the given moment.
    pub fn plan_backup(
        &self,
        request: &BackupRequest,
        backup_id: String,
        moment: &LocalMoment,
        windows: bool,
    ) -> (r: Result<BackupPlan, BackupError>)
        ensures
            backup_plan_is(r, self.config_value(), *request, backup_id@, *moment, windows),
    {
        let size = match request.source_size {
            None => {
                return Err(BackupError::BackupFailed(String::from_str("路径不存在")));
            },
            Some(n) => n,
        };
        let limit = self.max_backup_bytes();
        if size > limit {
            let mut text = String::from_str("备份大小 ");
            text.append(format_size(size).as_str());
            text.append(" 超过最大限制 ");
            text.append(format_size(limit).as_str());
            return Err(BackupError::BackupTooLarge(text));
        }
        let root = join_path(request.temp_dir.as_str(), "dir_mover_backups", windows);
        let mut name = match &request.source_leaf {
            Some(l) => l.clone(),
            None => String::from_str("backup"),
        };
        name.append("_");
        name.append(format_compact(moment).as_str());
        name.append("_");
        name.append(backup_id.as_str());
        let backup_path = join_path(root.as_str(), name.as_str(), windows);
        let mut steps: Vec<FsStep> = Vec::new();
        let make = FsStep::CreateDirAll(root);
        let copy = FsStep::CopyAll { from: request.source_path.clone(), to: backup_path.clone() };
        proof {
            assert(steps_of(steps@) =~= Seq::<Step>::empty());
            lemma_steps_push(steps@, make);
            lemma_steps_push(steps@.push(make), copy);
            assert(Seq::<Step>::empty().push(make@).push(copy@) =~= seq![make@, copy@]);
        }
        steps.push(make);
        steps.push(copy);
        Ok(
            BackupPlan {
                info: BackupInfo {
                    backup_id,
                    original_path: request.source_path.clone(),
                    backup_path,
                    backup_size: size,
                    created_at: moment.epoch_seconds,
                    operation_type: request.operation_type.clone(),
                    is_active: true,
                },
                steps,
            },
        )
    }

    /// Plans a backup under a fresh identifier, taken now. Whether the
    /// request is refused depends on the request alone; what is planned is
    /// what `plan_backup` plans with the identifier drawn and the moment read.
    pub fn create_backup(&self, request: &BackupRequest, windows: bool) -> (r: Result<
        BackupPlan,
        BackupError,
    >)
        ensures
            r is Err <==> backup_refusal(self.config_value(), *request) is Some,
            exists|id: Seq<char>, moment: LocalMoment|
                is_identifier(id) && on_calendar(moment) && backup_plan_is(
                    r,
                    self.config_value(),
                    *request,
                    id,
                    moment,
                    windows,
                ),
    {
        let id = fresh_id();
        let moment = current_moment();
        let ghost drawn = id@;
        let r = self.plan_backup(request, id, &moment, windows);
        proof {
            assert(is_identifier(drawn) && on_calendar(moment) && backup_plan_is(
                r,
                self.config_value(),
                *request,
                drawn,
                moment,
                windows,
            ));
        }
        r
    }

    /// The error of a backup whose steps failed with `text`.
    pub fn backup_failed(text: &str) -> (e: BackupError)
        ensures
            e matches BackupError::BackupFailed(t) && t@ == "备份操作失败: "@ + text@,
    {
        BackupError::BackupFailed(String::from_str("备份操作失败: ").concat(text))
    }

    /// Enters a backup into the registry. A backup with the same identifier is replaced.
    pub fn register_backup(&mut self, info: BackupInfo)
        ensures
            final(self).wf(),
            final(self).config_value() == old(self).config_value(),
            final(self).states() == old(self).states(),
            match index_of_backup(old(self).backups(), info@.backup_id, old(self).backups().len()) {
                Some(i) => final(self).backups() == old(self).backups().update(i, info@),
                None => final(self).backups() == old(self).backups().push(info@),
            },
    {
        proof {
            use_type_invariant(&*self);
        }
        let mut registry: Vec<BackupInfo> = Vec::new();
        std::mem::swap(&mut registry, &mut self.backup_registry);
        enter_backup(&mut registry, info);
        self.backup_registry = registry;
    }

    /// The most recent active backup whose tag holds the identifier of the operation.
    pub fn find_backup_for_operation(&self, operation_id: &str) -> (r: Option<BackupInfo>)
        ensures
            self.wf(),
            match latest_serving(self.backups(), operation_id@, self.backups().len()) {
                Some(i) => r matches Some(b) && b@ == self.backups()[i],
                None => r is None,
            },
    {
        proof {
            use_type_invariant(self);
        }
        let id = chars_of(operation_id);
        let mut best: Option<usize> = None;
        let mut i: usize = 0;
        while i < self.backup_registry.len()
            invariant
                i <= self.backup_registry@.len(),
                id@ == operation_id@,
                latest_serving(self.backups(), operation_id@, i as nat) == (match best {
                    Some(k) => Some(k as int),
                    None => None,
                }),
                best matches Some(k) ==> k < i,
            decreases self.backup_registry@.len() - i,
        {
            let b = &self.backup_registry[i];
            assert(self.backups()[i as int] == b@);
            let tag = chars_of(b.operation_type.as_str());
            if b.is_active && has_substring(&tag, &id) {
                match best {
                    Some(k) => {
                        assert(self.backups()[k as int] == self.backup_registry@[k as int]@);
                        if !(self.backup_registry[k].created_at > b.created_at) {
                            best = Some(i);
                        }
                    },
                    None => {
                        best = Some(i);
                    },
                }
            }
            i += 1;
        }
        match best {
            Some(k) => {
                assert(self.backups()[k as int] == self.backup_registry@[k as int]@);
                Some(self.backup_registry[k].duplicate())
            },
            None => None,
        }
    }

    /// Removes the backups that have outlived their retention at `now`
    /// from the registry and hands them out, for their copies to be deleted.
    pub fn remove_expired(&mut self, now: i64) -> (removed: Vec<BackupInfo>)
        ensures
            final(self).wf(),
            final(self).config_value() == old(self).config_value(),
            final(self).states() == old(self).states(),
            records_of(removed@) == expired_among(
                old(self).backups(),
                old(self).config_value(),
                now,
                old(self).backups().len(),
            ),
            final(self).backups() == kept_among(
                old(self).backups(),
                old(self).config_value(),
                now,
                old(self).backups().len(),
            ),
    {
        proof {
            use_type_invariant(&*self);
        }
        let ghost before = self.backups();
        let ghost cfg = self.config;
        let mut kept: Vec<BackupInfo> = Vec::new();
        let mut removed: Vec<BackupInfo> = Vec::new();
        let hours = self.config.backup_retention_hours;
        let mut i: usize = 0;
        proof {
            assert(records_of(kept@) =~= Seq::<BackupRecord>::empty());
            assert(records_of(removed@) =~= Seq::<BackupRecord>::empty());
        }
        while i < self.backup_registry.len()
            invariant
                i <= self.backup_registry@.len(),
                self.backups() == before,
                self.config == cfg,
                hours == cfg.backup_retention_hours,
                self.recovery_states == old(self).recovery_states,
                records_of(kept@) == kept_among(before, cfg, now, i as nat),
                records_of(removed@) == expired_among(before, cfg, now, i as nat),
            decreases self.backup_registry@.len() - i,
        {
            let b = &self.backup_registry[i];
            assert(before[i as int] == b@);
            let expired = (b.created_at as i128) < (now as i128) - (hours as i128) * 3600;
            let copy = b.duplicate();
            if expired {
                proof {
                    assert(records_of(removed@.push(copy)) =~= records_of(removed@).push(copy@));
                }
                removed.push(copy);
            } else {
                proof {
                    assert(records_of(kept@.push(copy)) =~= records_of(kept@).push(copy@));
                }
                kept.push(copy);
            }
            i += 1;
        }
        proof {
            lemma_kept_are_members(before, cfg, now, before.len());
        }
        self.backup_registry = kept;
        removed
    }

    /// Removes the backups that have outlived their retention by now; see `remove_expired`.
    pub fn cleanup_expired_backups(&mut self) -> (removed: Vec<BackupInfo>)
        ensures
            final(self).wf(),
            final(self).config_value() == old(self).config_value(),
            final(self).states() == old(self).states(),
            exists|now: i64|
                records_of(removed@) == expired_among(
                    old(self).backups(),
                    old(self).config_value(),
                    now,
                    old(self).backups().len(),
                ) && final(self).backups() == kept_among(
                    old(self).backups(),
                    old(self).config_value(),
                    now,
                    old(self).backups().len(),
                ),
    {
        let now = current_moment();
        self.remove_expired(now.epoch_seconds)
    }

    /// Takes the backup with the identifier out of the registry.
    pub fn remove_backup(&mut self, backup_id: &str) -> (r: Result<BackupInfo, String>)
        ensures
            final(self).wf(),
            final(self).config_value() == old(self).config_value(),
            final(self).states() == old(self).states(),
            match index_of_backup(old(self).backups(), backup_id@, old(self).backups().len()) {
                Some(i) => r matches Ok(b) && b@ == old(self).backups()[i] && final(self).backups()
                    == old(self).backups().remove(i),
                None => r matches Err(e) && e@ == "备份不存在"@ && final(self).backups() == old(
                    self,
                ).backups(),
            },
    {
        proof {
            use_type_invariant(&*self);
        }
        let mut registry: Vec<BackupInfo> = Vec::new();
        std::mem::swap(&mut registry, &mut self.backup_registry);
        let r = take_backup(&mut registry, backup_id);
        self.backup_registry = registry;
        r
    }

    /// Marks the backup with the identifier as no longer on disk. A backup
    /// that is marked so stays so. Tells whether the backup is known.
    pub fn deactivate_backup(&mut self, backup_id: &str) -> (known: bool)
        ensures
            final(self).wf(),
            final(self).config_value() == old(self).config_value(),
            final(self).states() == old(self).states(),
            match index_of_backup(old(self).backups(), backup_id@, old(self).backups().len()) {
                Some(i) => known && final(self).backups() == old(self).backups().update(
                    i,
                    BackupRecord { is_active: false, ..old(self).backups()[i] },
                ),
                None => !known && final(self).backups() == old(self).backups(),
            },
            forall|i: int|
                0 <= i < old(self).backups().len() && !(#[trigger] old(self).backups()[i]).is_active
                    ==> final(self).backups().len() == old(self).backups().len()
                    && !final(self).backups()[i].is_active,
    {
        proof {
            use_type_invariant(&*self);
        }
        let mut registry: Vec<BackupInfo> = Vec::new();
        std::mem::swap(&mut registry, &mut self.backup_registry);
        let known = retire_backup(&mut registry, backup_id);
        self.backup_registry = registry;
        known
    }

    /// The steps that restore a backup; see `rollback_steps`.
    pub fn perform_rollback(&self, backup: &BackupInfo, facts: &RestoreFacts, moment: &LocalMoment, windows: bool) -> (steps:
        Vec<FsStep>)
        ensures
            steps_of(steps@) == rollback_steps(backup@, *facts, *moment, windows),
    {
        let mut steps: Vec<FsStep> = Vec::new();
        proof {
            assert(steps_of(steps@) =~= Seq::<Step>::empty());
        }
        if facts.exists {
            let root = join_path(facts.temp_dir.as_str(), "dir_mover_temp", windows);
            let mut name = match &facts.leaf {
                Some(l) => l.clone(),
                None => String::from_str("temp_backup"),
            };
            name.append("_");
            name.append(format_compact(moment).as_str());
            name.append("_temp");
            let aside = join_path(root.as_str(), name.as_str(), windows);
            let a = FsStep::CreateDirAll(root);
            let b = FsStep::CopyAll { from: backup.original_path.clone(), to: aside };
            let c = if facts.is_directory {
                FsStep::RemoveTree(backup.original_path.clone())
            } else {
                FsStep::RemoveFile(backup.original_path.clone())
            };
            proof {
                lemma_steps_push(steps@, a);
                lemma_steps_push(steps@.push(a), b);
                lemma_steps_push(steps@.push(a).push(b), c);
            }
            steps.push(a);
            steps.push(b);
            steps.push(c);
        }
        if let Some(p) = &facts.parent {
            let d = FsStep::CreateDirAll(p.clone());
            proof {
                lemma_steps_push(steps@, d);
            }
            steps.push(d);
        }
        let e = FsStep::CopyAll {
            from: backup.backup_path.clone(),
            to: backup.original_path.clone(),
        };
        proof {
            lemma_steps_push(steps@, e);
            assert(steps_of(steps@.push(e)) =~= rollback_steps(backup@, *facts, *moment, windows));
        }
        steps.push(e);
        steps
    }

    /// Enters the state of an operation. A state of the same operation is replaced.
    pub fn record_state(&mut self, state: RecoveryState)
        ensures
            final(self).wf(),
            final(self).config_value() == old(self).config_value(),
            final(self).backups() == old(self).backups(),
            match index_of_state(old(self).states(), state.operation_id@, old(self).states().len()) {
                Some(i) => final(self).states() == old(self).states().update(i, handled(state)),
                None => final(self).states() == old(self).states().push(handled(state)),
            },
    {
        proof {
            use_type_invariant(&*self);
        }
        let mut states: Vec<RecoveryState> = Vec::new();
        std::mem::swap(&mut states, &mut self.recovery_states);
        enter_state(&mut states, state);
        self.recovery_states = states;
    }

    /// Counts how the errors were dealt with.
    pub fn get_recovery_statistics(&self) -> (stats: RecoveryStatistics)
        ensures
            stats == statistics_of(self.states()),
    {
        let ghost s = self.states();
        let mut recovered: u32 = 0;
        let mut by_retry: u32 = 0;
        let mut by_rollback: u32 = 0;
        let mut skipped: u32 = 0;
        let mut aborted: u32 = 0;
        let mut manual: u32 = 0;
        let mut total: u32 = 0;
        let mut i: usize = 0;
        while i < self.recovery_states.len()
            invariant
                i <= self.recovery_states@.len(),
                s == self.states(),
                total == capped(i as nat),
                recovered == capped(count_states(s, was_recovered(), i as nat)),
                by_retry == capped(count_states(s, recovered_by_retry(), i as nat)),
                by_rollback == capped(count_states(s, recovered_by_rollback(), i as nat)),
                skipped == capped(count_states(s, was_skipped(), i as nat)),
                aborted == capped(count_states(s, was_aborted(), i as nat)),
                manual == capped(count_states(s, was_manual(), i as nat)),
            decreases self.recovery_states@.len() - i,
        {
            let state = &self.recovery_states[i];
            assert(s[i as int] == handled(*state));
            total = add_capped(total);
            if state.is_recovered {
                recovered = add_capped(recovered);
            }
            match state.recovery_strategy {
                RecoveryStrategy::Retry(_) => {
                    if state.is_recovered {
                        by_retry = add_capped(by_retry);
                    }
                },
                RecoveryStrategy::Rollback => {
                    if state.is_recovered {
                        by_rollback = add_capped(by_rollback);
                    }
                },
                RecoveryStrategy::Skip => {
                    skipped = add_capped(skipped);
                },
                RecoveryStrategy::Abort => {
                    aborted = add_capped(aborted);
                },
                RecoveryStrategy::Manual => {
                    manual = add_capped(manual);
                },
            }
            i += 1;
        }
        proof {
            lemma_count_bounded(s, was_recovered(), s.len());
        }
        RecoveryStatistics {
            total_operations: total,
            successful_recoveries: recovered,
            failed_recoveries: total - recovered,
            retry_successes: by_retry,
            rollback_successes: by_rollback,
            skip_count: skipped,
            abort_count: aborted,
            manual_count: manual,
        }
    }
}

/// An identifier that is not among the first `n` is not found among them.
pub proof fn lemma_absent_everywhere(s: Seq<BackupRecord>, id: Seq<char>, n: nat)
    requires
        n <= s.len(),
        index_of_backup(s, id, n) is None,
    ensures
        forall|j: int| 0 <= j < n ==> (#[trigger] s[j]).backup_id != id,
    decreases n,
{
    if n > 0 {
        lemma_absent_everywhere(s, id, (n - 1) as nat);
    }
}

} // verus!
