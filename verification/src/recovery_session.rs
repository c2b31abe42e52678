//! Carrying out a recovery strategy.
//!
//! A session follows one error from the choice of the strategy to its end.
//! The caller waits, retries and restores; the session decides what comes
//! next from what the caller reports.

use crate::clock::current_moment;
use crate::error_recovery::{
    classified, severity_of, strategy_for, BackupInfo, BackupRecord, ClassifiedError,
    ErrorRecoveryConfig, ErrorRecoveryManager, ErrorSeverity, RecoveryContext, RecoveryError,
    RecoveryResult, RecoveryState, RecoveryStrategy, RecoveryType,
};
use crate::file_operations::{text_of, FileOperationError};
use crate::text::{decimal, decimal_string};
use vstd::prelude::*;

verus! {

/// Where a session stands.
#[derive(Debug, Clone, Copy, PartialEq, Eq, Structural)]
pub enum RecoveryStage {
    /// The operation is being retried.
    Retrying,
    /// A backup is being restored.
    RollingBack,
    /// Recovery has ended.
    Finished,
}

/// The kinds of failure of a recovery.
#[derive(Debug, Clone, Copy, PartialEq, Eq, Structural)]
pub enum RecoveryFailure {
    MaxRetriesExceeded,
    RollbackFailed,
    BackupFailed,
    RecoveryImpossible,
    UserCancelled,
}

/// How a recovery ended.
pub enum Ending {
    /// With a result: whether the operation was recovered, in which way,
    /// the message and the backup that was restored.
    Settled { success: bool, way: RecoveryType, message: Seq<char>, backup_path: Option<Seq<char>> },
    /// With a failure of the recovery itself.
    Failed { kind: RecoveryFailure, message: Seq<char> },
}

/// One error on its way through recovery.
#[derive(Debug)]
pub struct RecoverySession {
    /// The state as it is recorded at the end.
    pub state: RecoveryState,
    /// Where the session stands.
    pub stage: RecoveryStage,
    /// The backup that is being restored.
    pub backup: Option<BackupInfo>,
    /// How recovery ended, once it has.
    pub outcome: Option<Result<RecoveryResult, RecoveryError>>,
}

/// A session as a mathematical value.
pub struct Session {
    pub operation_id: Seq<char>,
    pub error: ClassifiedError,
    pub severity: ErrorSeverity,
    pub strategy: RecoveryStrategy,
    pub retry_count: u32,
    pub recovered: bool,
    pub message: Option<Seq<char>>,
    pub backup_path: Option<Seq<char>>,
    pub timestamp: i64,
    pub stage: RecoveryStage,
    pub backup: Option<BackupRecord>,
    pub ending: Option<Ending>,
}

/// The ending that a result or an error of recovery stands for.
pub open spec fn ending_of(r: Result<RecoveryResult, RecoveryError>) -> Ending {
    match r {
        Ok(res) => Ending::Settled {
            success: res.success,
            way: res.recovery_type,
            message: res.message@,
            backup_path: text_of(res.backup_path),
        },
        Err(RecoveryError::MaxRetriesExceeded(m)) => Ending::Failed {
            kind: RecoveryFailure::MaxRetriesExceeded,
            message: m@,
        },
        Err(RecoveryError::RollbackFailed(m)) => Ending::Failed {
            kind: RecoveryFailure::RollbackFailed,
            message: m@,
        },
        Err(RecoveryError::BackupFailed(m)) => Ending::Failed {
            kind: RecoveryFailure::BackupFailed,
            message: m@,
        },
        Err(RecoveryError::RecoveryImpossible(m)) => Ending::Failed {
            kind: RecoveryFailure::RecoveryImpossible,
            message: m@,
        },
        Err(RecoveryError::UserCancelled(m)) => Ending::Failed {
            kind: RecoveryFailure::UserCancelled,
            message: m@,
        },
    }
}

impl View for RecoverySession {
    type V = Session;

    open spec fn view(&self) -> Session {
        Session {
            operation_id: self.state.operation_id@,
            error: self.state.error_type@,
            severity: self.state.severity,
            strategy: self.state.recovery_strategy,
            retry_count: self.state.retry_count,
            recovered: self.state.is_recovered,
            message: text_of(self.state.recovery_message),
            backup_path: text_of(self.state.backup_path),
            timestamp: self.state.timestamp,
            stage: self.stage,
            backup: match self.backup {
                Some(b) => Some(b@),
                None => None,
            },
            ending: match self.outcome {
                Some(r) => Some(ending_of(r)),
                None => None,
            },
        }
    }
}

/// The session that has ended with `ending`.
pub open spec fn ended(s: Session, recovered: bool, message: Seq<char>, ending: Ending) -> Session {
    Session {
        stage: RecoveryStage::Finished,
        recovered,
        message: Some(message),
        ending: Some(ending),
        ..s
    }
}

/// The session that turns to a rollback: it restores `backup`, or fails where there is none.
pub open spec fn rolling_back(s: Session, backup: Option<BackupRecord>) -> Session {
    match backup {
        Some(b) => Session { stage: RecoveryStage::RollingBack, backup: Some(b), ..s },
        None => Session {
            stage: RecoveryStage::Finished,
            ending: Some(
                Ending::Failed {
                    kind: RecoveryFailure::RollbackFailed,
                    message: "no backup available"@,
                },
            ),
            ..s
        },
    }
}

/// How many times a strategy retries.
pub open spec fn retries_of(strategy: RecoveryStrategy) -> u32 {
    match strategy {
        RecoveryStrategy::Retry(n) => n,
        _ => 0,
    }
}

/// The session as it begins, once the strategy is chosen. `backup` is the
/// backup that serves the operation, if there is one.
pub open spec fn begun(
    operation_id: Seq<char>,
    error: ClassifiedError,
    cfg: ErrorRecoveryConfig,
    backup: Option<BackupRecord>,
    now: i64,
) -> Session {
    let severity = severity_of(error.kind);
    let strategy = strategy_for(cfg.enable_auto_recovery, error.kind, severity);
    let fresh = Session {
        operation_id,
        error,
        severity,
        strategy,
        retry_count: 0,
        recovered: false,
        message: None,
        backup_path: None,
        timestamp: now,
        stage: RecoveryStage::Retrying,
        backup: None,
        ending: None,
    };
    match strategy {
        RecoveryStrategy::Retry(n) => if n == 0 {
            Session {
                stage: RecoveryStage::Finished,
                ending: Some(
                    Ending::Failed { kind: RecoveryFailure::MaxRetriesExceeded, message: "重试次数耗尽"@ },
                ),
                ..fresh
            }
        } else {
            fresh
        },
        RecoveryStrategy::Rollback => rolling_back(fresh, backup),
        RecoveryStrategy::Skip => ended(
            fresh,
            true,
            "操作已跳过"@,
            Ending::Settled {
                success: true,
                way: RecoveryType::Skip,
                message: "操作已跳过，继续执行后续步骤"@,
                backup_path: None,
            },
        ),
        RecoveryStrategy::Abort => ended(
            fresh,
            false,
            "操作已中止"@,
            Ending::Settled {
                success: false,
                way: RecoveryType::Abort,
                message: "操作已中止，需要手动干预"@,
                backup_path: None,
            },
        ),
        RecoveryStrategy::Manual => ended(
            fresh,
            false,
            "需要手动恢复"@,
            Ending::Settled {
                success: false,
                way: RecoveryType::Manual,
                message: "错误需要手动处理，请查看日志获取详细信息"@,
                backup_path: None,
            },
        ),
    }
}

/// The session after a retry. `failure` is the text of the failure of the
/// retry, or `None` where it succeeded. Outside the retrying stage nothing changes.
pub open spec fn after_retry(
    s: Session,
    failure: Option<Seq<char>>,
    cfg: ErrorRecoveryConfig,
    backup: Option<BackupRecord>,
) -> Session {
    if s.stage != RecoveryStage::Retrying || s.retry_count >= retries_of(s.strategy) {
        s
    } else {
        let count = (s.retry_count + 1) as u32;
        let counted = Session { retry_count: count, ..s };
        match failure {
            None => ended(
                counted,
                true,
                "重试成功，共重试 "@ + decimal(count as nat) + " 次"@,
                Ending::Settled {
                    success: true,
                    way: RecoveryType::Retry,
                    message: "操作通过重试恢复成功"@,
                    backup_path: None,
                },
            ),
            Some(_) => if count < retries_of(s.strategy) {
                counted
            } else if cfg.enable_partial_rollback {
                rolling_back(counted, backup)
            } else {
                Session {
                    stage: RecoveryStage::Finished,
                    ending: Some(
                        Ending::Failed {
                            kind: RecoveryFailure::MaxRetriesExceeded,
                            message: "达到最大重试次数: "@ + decimal(retries_of(s.strategy) as nat),
                        },
                    ),
                    ..counted
                }
            },
        }
    }
}

/// The session after the restoring of the backup. `failure` is the text of
/// its failure, or `None` where it succeeded. Outside the stage of rolling
/// back nothing changes.
pub open spec fn after_rollback(s: Session, failure: Option<Seq<char>>) -> Session {
    if s.stage != RecoveryStage::RollingBack || s.backup is None {
        s
    } else {
        match failure {
            None => Session {
                backup_path: Some(s.backup->0.backup_path),
                ..ended(
                    s,
                    true,
                    "回滚成功"@,
                    Ending::Settled {
                        success: true,
                        way: RecoveryType::Rollback,
                        message: "操作通过回滚恢复成功"@,
                        backup_path: Some(s.backup->0.backup_path),
                    },
                )
            },
            Some(e) => Session {
                stage: RecoveryStage::Finished,
                ending: Some(
                    Ending::Failed { kind: RecoveryFailure::RollbackFailed, message: "回滚操作失败: "@ + e },
                ),
                ..s
            },
        }
    }
}

/// What the caller is to do next.
#[derive(Debug)]
pub enum RecoveryAction {
    /// Wait so many milliseconds, try the operation again and report.
    RetryAfter(u64),
    /// Restore the backup and report.
    Restore(BackupInfo),
    /// Nothing: the session has ended.
    Nothing,
}

/// **Retries are bounded.** A session never counts more retries than its
/// strategy allows, and once it has ended no report changes it.
pub proof fn lemma_retries_bounded(
    s: Session,
    failure: Option<Seq<char>>,
    cfg: ErrorRecoveryConfig,
    backup: Option<BackupRecord>,
)
    requires
        s.retry_count <= retries_of(s.strategy),
    ensures
        after_retry(s, failure, cfg, backup).retry_count <= retries_of(s.strategy),
        after_retry(s, failure, cfg, backup).retry_count >= s.retry_count,
        s.stage == RecoveryStage::Finished ==> after_retry(s, failure, cfg, backup) == s
            && after_rollback(s, failure) == s,
        after_retry(s, failure, cfg, backup).strategy == s.strategy,
{
}

impl RecoverySession {
    fn finish(&mut self, recovered: bool, message: &str, result: Result<RecoveryResult, RecoveryError>)
        ensures
            final(self)@ == ended(old(self)@, recovered, message@, ending_of(result)),
    {
        self.state.is_recovered = recovered;
        self.state.recovery_message = Some(String::from_str(message));
        self.stage = RecoveryStage::Finished;
        self.outcome = Some(result);
    }

    fn settled(success: bool, way: RecoveryType, message: &str, backup_path: Option<String>) -> (r: Result<
        RecoveryResult,
        RecoveryError,
    >)
        ensures
            ending_of(r) == (Ending::Settled {
                success,
                way,
                message: message@,
                backup_path: text_of(backup_path),
            }),
    {
        Ok(
            RecoveryResult {
                success,
                recovery_type: way,
                message: String::from_str(message),
                backup_path,
            },
        )
    }

    /// Turns to a rollback with the backup that serves the operation.
    pub fn handle_rollback(&mut self, backup: Option<BackupInfo>)
        ensures
            final(self)@ == rolling_back(
                old(self)@,
                match backup {
                    Some(b) => Some(b@),
                    None => None,
                },
            ),
    {
        match backup {
            Some(b) => {
                self.stage = RecoveryStage::RollingBack;
                self.backup = Some(b);
            },
            None => {
                self.stage = RecoveryStage::Finished;
                self.outcome = Some(
                    Err(RecoveryError::RollbackFailed(String::from_str("no backup available"))),
                );
            },
        }
    }

    /// Ends the session by skipping the failed step.
    pub fn handle_skip(&mut self)
        ensures
            final(self)@ == ended(
                old(self)@,
                true,
                "操作已跳过"@,
                Ending::Settled {
                    success: true,
                    way: RecoveryType::Skip,
                    message: "操作已跳过，继续执行后续步骤"@,
                    backup_path: None,
                },
            ),
    {
        let r = Self::settled(true, RecoveryType::Skip, "操作已跳过，继续执行后续步骤", None);
        self.finish(true, "操作已跳过", r);
    }

    /// Ends the session by giving the operation up.
    pub fn handle_abort(&mut self)
        ensures
            final(self)@ == ended(
                old(self)@,
                false,
                "操作已中止"@,
                Ending::Settled {
                    success: false,
                    way: RecoveryType::Abort,
                    message: "操作已中止，需要手动干预"@,
                    backup_path: None,
                },
            ),
    {
        let r = Self::settled(false, RecoveryType::Abort, "操作已中止，需要手动干预", None);
        self.finish(false, "操作已中止", r);
    }

    /// Ends the session by leaving the error to the user.
    pub fn handle_manual(&mut self)
        ensures
            final(self)@ == ended(
                old(self)@,
                false,
                "需要手动恢复"@,
                Ending::Settled {
                    success: false,
                    way: RecoveryType::Manual,
                    message: "错误需要手动处理，请查看日志获取详细信息"@,
                    backup_path: None,
                },
            ),
    {
        let r = Self::settled(
            false,
            RecoveryType::Manual,
            "错误需要手动处理，请查看日志获取详细信息",
            None,
        );
        self.finish(false, "需要手动恢复", r);
    }

    /// Takes the report of a retry; see `after_retry`.
    pub fn handle_retry(
        &mut self,
        failure: Option<&str>,
        cfg: &ErrorRecoveryConfig,
        backup: Option<BackupInfo>,
    )
        ensures
            final(self)@ == after_retry(
                old(self)@,
                match failure {
                    Some(f) => Some(f@),
                    None => None,
                },
                *cfg,
                match backup {
                    Some(b) => Some(b@),
                    None => None,
                },
            ),
    {
        let allowed = match self.state.recovery_strategy {
            RecoveryStrategy::Retry(n) => n,
            _ => 0,
        };
        match self.stage {
            RecoveryStage::Retrying => {},
            _ => {
                return ;
            },
        }
        if self.state.retry_count >= allowed {
            return ;
        }
        self.state.retry_count = self.state.retry_count + 1;
        let count = self.state.retry_count;
        match failure {
            None => {
                let mut message = String::from_str("重试成功，共重试 ");
                message.append(decimal_string(count as u64).as_str());
                message.append(" 次");
                let r = Self::settled(true, RecoveryType::Retry, "操作通过重试恢复成功", None);
                self.finish(true, message.as_str(), r);
            },
            Some(_) => {
                if count < allowed {
                } else if cfg.enable_partial_rollback {
                    self.handle_rollback(backup);
                } else {
                    let mut message = String::from_str("达到最大重试次数: ");
                    message.append(decimal_string(allowed as u64).as_str());
                    self.stage = RecoveryStage::Finished;
                    self.outcome = Some(Err(RecoveryError::MaxRetriesExceeded(message)));
                }
            },
        }
    }

    /// Takes the report of the restoring of the backup; see `after_rollback`.
    pub fn rollback_finished(&mut self, failure: Option<&str>)
        ensures
            final(self)@ == after_rollback(
                old(self)@,
                match failure {
                    Some(f) => Some(f@),
                    None => None,
                },
            ),
    {
        match self.stage {
            RecoveryStage::RollingBack => {},
            _ => {
                return ;
            },
        }
        let path = match &self.backup {
            Some(b) => b.backup_path.clone(),
            None => {
                return ;
            },
        };
        match failure {
            None => {
                let r = Self::settled(
                    true,
                    RecoveryType::Rollback,
                    "操作通过回滚恢复成功",
                    Some(path.clone()),
                );
                self.finish(true, "回滚成功", r);
                self.state.backup_path = Some(path);
            },
            Some(e) => {
                self.stage = RecoveryStage::Finished;
                self.outcome = Some(
                    Err(RecoveryError::RollbackFailed(String::from_str("回滚操作失败: ").concat(e))),
                );
            },
        }
    }

    /// What the caller is to do next: wait and retry, restore the backup, or nothing.
    pub fn next_action(&self, cfg: &ErrorRecoveryConfig) -> (a: RecoveryAction)
        ensures
            match self.stage {
                RecoveryStage::Retrying => a matches RecoveryAction::RetryAfter(ms) && ms
                    == cfg.retry_delay_ms,
                RecoveryStage::RollingBack => match self.backup {
                    Some(b) => a matches RecoveryAction::Restore(r) && r@ == b@,
                    None => a is Nothing,
                },
                RecoveryStage::Finished => a is Nothing,
            },
    {
        match self.stage {
            RecoveryStage::Retrying => RecoveryAction::RetryAfter(cfg.retry_delay_ms),
            RecoveryStage::RollingBack => match &self.backup {
                Some(b) => RecoveryAction::Restore(b.duplicate()),
                None => RecoveryAction::Nothing,
            },
            RecoveryStage::Finished => RecoveryAction::Nothing,
        }
    }
}

impl ErrorRecoveryManager {
    /// Takes up an error at the moment `now`: classifies it, chooses the
    /// strategy and begins to carry it out; see `begun`.
    pub fn handle_error_at(
        &self,
        operation_id: &str,
        error: &FileOperationError,
        context: &RecoveryContext,
        now: i64,
    ) -> (session: RecoverySession)
        ensures
            session@ == begun(
                operation_id@,
                classified(error@),
                self.config_value(),
                match crate::error_recovery::latest_serving(
                    self.backups(),
                    operation_id@,
                    self.backups().len(),
                ) {
                    Some(i) => Some(self.backups()[i]),
                    None => None,
                },
                now,
            ),
    {
        let error_type = self.classify_error(error);
        let severity = self.determine_severity(&error_type, context);
        let strategy = self.determine_recovery_strategy(&error_type, &severity, context);
        let mut session = RecoverySession {
            state: RecoveryState {
                operation_id: String::from_str(operation_id),
                error_type,
                severity,
                recovery_strategy: strategy,
                retry_count: 0,
                is_recovered: false,
                recovery_message: None,
                backup_path: None,
                timestamp: now,
            },
            stage: RecoveryStage::Retrying,
            backup: None,
            outcome: None,
        };
        match strategy {
            RecoveryStrategy::Retry(n) => {
                if n == 0 {
                    session.stage = RecoveryStage::Finished;
                    session.outcome = Some(
                        Err(RecoveryError::MaxRetriesExceeded(String::from_str("重试次数耗尽"))),
                    );
                }
            },
            RecoveryStrategy::Rollback => {
                let backup = self.find_backup_for_operation(operation_id);
                session.handle_rollback(backup);
            },
            RecoveryStrategy::Skip => {
                session.handle_skip();
            },
            RecoveryStrategy::Abort => {
                session.handle_abort();
            },
            RecoveryStrategy::Manual => {
                session.handle_manual();
            },
        }
        session
    }

    /// Takes up an error now: the session is the one that `handle_error_at`
    /// begins at the moment read from the clock, which it carries as its timestamp.
    pub fn handle_error(&self, operation_id: &str, error: &FileOperationError, context: &RecoveryContext) -> (session:
        RecoverySession)
        ensures
            session@ == begun(
                operation_id@,
                classified(error@),
                self.config_value(),
                match crate::error_recovery::latest_serving(
                    self.backups(),
                    operation_id@,
                    self.backups().len(),
                ) {
                    Some(i) => Some(self.backups()[i]),
                    None => None,
                },
                session@.timestamp,
            ),
    {
        let now = current_moment();
        self.handle_error_at(operation_id, error, context, now.epoch_seconds)
    }

    /// Records the state of a session and hands out how it ended: `None`
    /// while it has not ended.
    pub fn complete(&mut self, session: RecoverySession) -> (r: Option<Result<RecoveryResult, RecoveryError>>)
        ensures
            r == session.outcome,
            final(self).wf(),
            final(self).config_value() == old(self).config_value(),
            final(self).backups() == old(self).backups(),
            match crate::error_recovery::index_of_state(
                old(self).states(),
                session.state.operation_id@,
                old(self).states().len(),
            ) {
                Some(i) => final(self).states() == old(self).states().update(
                    i,
                    crate::error_recovery::handled(session.state),
                ),
                None => final(self).states() == old(self).states().push(
                    crate::error_recovery::handled(session.state),
                ),
            },
    {
        let RecoverySession { state, stage: _, backup: _, outcome } = session;
        self.record_state(state);
        outcome
    }
}

} // verus!
