use dir_mover::clock::LocalMoment;
use dir_mover::error_recovery::{
    format_size, BackupError, BackupInfo, BackupRequest, ErrorRecoveryConfig, ErrorRecoveryManager,
    ErrorSeverity, ErrorType, RecoveryContext, RecoveryError, RecoveryState, RecoveryStrategy,
    RecoveryType, RestoreFacts,
};
use dir_mover::file_operations::{FileOperationError, FsStep, IoKind};
use dir_mover::recovery_session::{RecoveryAction, RecoveryStage};

fn context() -> RecoveryContext {
    RecoveryContext::new(
        "test_operation".to_string(),
        "/tmp/test.txt".to_string(),
        None,
        "test_phase".to_string(),
    )
}

fn moment() -> LocalMoment {
    LocalMoment { epoch_seconds: 1_700_000_000, year: 2023, month: 11, day: 4, hour: 9, minute: 5, second: 7 }
}

fn backup(id: &str, tag: &str, created_at: i64, active: bool) -> BackupInfo {
    BackupInfo {
        backup_id: id.to_string(),
        original_path: "/orig".to_string(),
        backup_path: format!("/tmp/backups/{}", id),
        backup_size: 10,
        created_at,
        operation_type: tag.to_string(),
        is_active: active,
    }
}

fn percent(r: dir_mover::ratio::Ratio) -> f64 {
    if r.whole == 0 { 0.0 } else { (r.part as f64 / r.whole as f64) * 100.0 }
}

#[test]
fn test_error_classification() {
    let config = ErrorRecoveryConfig::default();
    let manager = ErrorRecoveryManager::new(config);

    let io_error = FileOperationError::from_io(IoKind::PermissionDenied, "权限被拒绝".to_string());
    let classified = manager.classify_error(&io_error);

    match classified {
        ErrorType::PermissionDenied(_) => assert!(true),
        _ => panic!("错误分类不正确"),
    }
}

#[test]
fn test_recovery_statistics() {
    let config = ErrorRecoveryConfig::default();
    let manager = ErrorRecoveryManager::new(config);

    let stats = manager.get_recovery_statistics();
    assert_eq!(stats.total_operations, 0);
    assert_eq!(percent(stats.success_rate()), 0.0);
}

#[test]
fn test_error_recovery_manager() {
    let config = ErrorRecoveryConfig::default();
    let mut manager = ErrorRecoveryManager::new(config);
    let permission_error = FileOperationError::PermissionDenied("测试权限错误".to_string());
    let session = manager.handle_error("test_op_1", &permission_error, &context());
    assert_eq!(session.state.recovery_strategy, RecoveryStrategy::Manual);
    assert_eq!(session.stage, RecoveryStage::Finished);
    let result = manager.complete(session).expect("ended").expect("settled");
    assert!(!result.success);
    assert_eq!(result.recovery_type, RecoveryType::Manual);
    assert_eq!(result.message, "错误需要手动处理，请查看日志获取详细信息");
    assert_eq!(manager.get_recovery_statistics().manual_count, 1);
}

#[test]
fn io_errors_are_classified_by_their_kind() {
    let manager = ErrorRecoveryManager::new(ErrorRecoveryConfig::default());
    let kind = |k: IoKind| manager.classify_error(&FileOperationError::from_io(k, "t".to_string()));
    assert!(matches!(kind(IoKind::NotFound), ErrorType::PathNotFound(t) if t == "t"));
    assert!(matches!(kind(IoKind::AlreadyExists), ErrorType::PathAlreadyExists(_)));
    assert!(matches!(kind(IoKind::Other), ErrorType::IoError(_)));
    assert!(matches!(
        manager.classify_error(&FileOperationError::InvalidPath("p".to_string())),
        ErrorType::InvalidPath(p) if p == "p"
    ));
    assert!(matches!(
        manager.classify_error(&FileOperationError::OperationCancelled("c".to_string())),
        ErrorType::OperationCancelled(_)
    ));
}

#[test]
fn severity_and_strategy_follow_the_tables() {
    let manager = ErrorRecoveryManager::new(ErrorRecoveryConfig::default());
    let table = vec![
        (ErrorType::OperationCancelled(String::new()), ErrorSeverity::Low, RecoveryStrategy::Skip),
        (ErrorType::PathAlreadyExists(String::new()), ErrorSeverity::Low, RecoveryStrategy::Skip),
        (ErrorType::PathNotFound(String::new()), ErrorSeverity::Medium, RecoveryStrategy::Retry(2)),
        (ErrorType::PermissionDenied(String::new()), ErrorSeverity::Medium, RecoveryStrategy::Manual),
        (ErrorType::NetworkError(String::new()), ErrorSeverity::Medium, RecoveryStrategy::Manual),
        (ErrorType::Timeout(String::new()), ErrorSeverity::Medium, RecoveryStrategy::Manual),
        (ErrorType::InvalidPath(String::new()), ErrorSeverity::High, RecoveryStrategy::Manual),
        (ErrorType::IoError(String::new()), ErrorSeverity::High, RecoveryStrategy::Retry(3)),
        (ErrorType::Unknown(String::new()), ErrorSeverity::High, RecoveryStrategy::Manual),
        (ErrorType::DiskSpaceInsufficient(String::new()), ErrorSeverity::Critical, RecoveryStrategy::Abort),
        (ErrorType::SystemProtection(String::new()), ErrorSeverity::Critical, RecoveryStrategy::Abort),
    ];
    let manual = ErrorRecoveryManager::new(ErrorRecoveryConfig {
        enable_auto_recovery: false,
        ..ErrorRecoveryConfig::default()
    });
    for (error, severity, strategy) in table {
        let found = manager.determine_severity(&error, &context());
        assert_eq!(found, severity);
        assert_eq!(manager.determine_recovery_strategy(&error, &found, &context()), strategy);
        // the same question gets the same answer
        assert_eq!(manager.determine_recovery_strategy(&error, &found, &context()), strategy);
        assert_eq!(manual.determine_recovery_strategy(&error, &found, &context()), RecoveryStrategy::Manual);
    }
    // a severity that does not belong to the kind is left to the user
    assert_eq!(
        manager.determine_recovery_strategy(&ErrorType::IoError(String::new()), &ErrorSeverity::Low, &context()),
        RecoveryStrategy::Manual
    );
    assert!(ErrorSeverity::Low < ErrorSeverity::Critical);
}

#[test]
fn the_default_configuration_is_as_documented() {
    let c = ErrorRecoveryConfig::default();
    assert_eq!(c.max_retries, 3);
    assert_eq!(c.retry_delay_ms, 1000);
    assert!(c.enable_auto_recovery);
    assert!(c.enable_partial_rollback);
    assert_eq!(c.max_rollback_size_mb, 1000);
    assert_eq!(c.backup_retention_hours, 24);
    let with = context().with_preferences(vec![("theme".to_string(), "dark".to_string())]);
    assert_eq!(with.user_preferences.len(), 1);
    assert_eq!(with.operation_type, "test_operation");
    assert!(with.previous_operations.is_empty());
}

#[test]
fn retries_succeed_or_fall_back_to_rollback() {
    let config = ErrorRecoveryConfig::default();
    let manager = ErrorRecoveryManager::new(config);
    let error = FileOperationError::from_io(IoKind::Other, "disk hiccup".to_string());
    let mut session = manager.handle_error_at("op", &error, &context(), 77);
    assert_eq!(session.state.timestamp, 77);
    assert_eq!(session.state.recovery_strategy, RecoveryStrategy::Retry(3));
    assert!(matches!(session.next_action(&config), RecoveryAction::RetryAfter(1000)));
    session.handle_retry(Some("again"), &config, None);
    assert_eq!(session.stage, RecoveryStage::Retrying);
    session.handle_retry(None, &config, None);
    assert_eq!(session.stage, RecoveryStage::Finished);
    assert_eq!(session.state.retry_count, 2);
    assert!(session.state.is_recovered);
    assert_eq!(session.state.recovery_message, Some("重试成功，共重试 2 次".to_string()));
    let result = session.outcome.unwrap().unwrap();
    assert!(result.success);
    assert_eq!(result.recovery_type, RecoveryType::Retry);
    assert_eq!(result.message, "操作通过重试恢复成功");

    // all retries fail and there is no backup
    let mut session = manager.handle_error_at("op", &error, &context(), 0);
    for _ in 0..5 {
        session.handle_retry(Some("no"), &config, None);
    }
    assert_eq!(session.state.retry_count, 3);
    match session.outcome {
        Some(Err(RecoveryError::RollbackFailed(m))) => assert_eq!(m, "no backup available"),
        other => panic!("unexpected {:?}", other),
    }

    // without rollback the retries are simply used up
    let strict = ErrorRecoveryConfig { enable_partial_rollback: false, ..config };
    let mut session = manager.handle_error_at("op", &error, &context(), 0);
    for _ in 0..3 {
        session.handle_retry(Some("no"), &strict, None);
    }
    match &session.outcome {
        Some(Err(e)) => assert_eq!(e.message(), "重试次数超限: 达到最大重试次数: 3"),
        other => panic!("unexpected {:?}", other),
    }
    assert!(matches!(session.next_action(&config), RecoveryAction::Nothing));
}

#[test]
fn rollback_restores_the_most_recent_backup() {
    let config = ErrorRecoveryConfig::default();
    let mut manager = ErrorRecoveryManager::new(config);
    manager.register_backup(backup("b1", "migrate op-7", 100, true));
    manager.register_backup(backup("b2", "migrate op-7", 300, true));
    manager.register_backup(backup("b3", "migrate op-7", 900, false));
    manager.register_backup(backup("b4", "migrate op-8", 950, true));
    manager.register_backup(backup("b5", "migrate op-7", 300, true));
    let found = manager.find_backup_for_operation("op-7").unwrap();
    assert_eq!(found.backup_id, "b5");
    assert!(manager.find_backup_for_operation("op-9").is_none());

    let error = FileOperationError::from_io(IoKind::Other, "broken".to_string());
    let mut session = manager.handle_error_at("op-7", &error, &context(), 0);
    for _ in 0..3 {
        let serving = manager.find_backup_for_operation("op-7");
        session.handle_retry(Some("still broken"), &config, serving);
    }
    assert_eq!(session.stage, RecoveryStage::RollingBack);
    match session.next_action(&config) {
        RecoveryAction::Restore(b) => assert_eq!(b.backup_path, "/tmp/backups/b5"),
        other => panic!("unexpected {:?}", other),
    }
    session.rollback_finished(None);
    assert!(session.state.is_recovered);
    assert_eq!(session.state.backup_path, Some("/tmp/backups/b5".to_string()));
    let result = manager.complete(session).unwrap().unwrap();
    assert_eq!(result.recovery_type, RecoveryType::Rollback);
    assert_eq!(result.message, "操作通过回滚恢复成功");
    assert_eq!(result.backup_path, Some("/tmp/backups/b5".to_string()));
    let stats = manager.get_recovery_statistics();
    assert_eq!(stats.total_operations, 1);
    assert_eq!(stats.successful_recoveries, 1);
    assert_eq!(stats.retry_successes, 1);
    assert_eq!(stats.rollback_successes, 0);
    assert_eq!(percent(stats.success_rate()), 100.0);

    let mut failing = manager.handle_error_at("op-7", &error, &context(), 0);
    for _ in 0..3 {
        let serving = manager.find_backup_for_operation("op-7");
        failing.handle_retry(Some("x"), &config, serving);
    }
    failing.rollback_finished(Some("copy failed"));
    match failing.outcome {
        Some(Err(RecoveryError::RollbackFailed(m))) => assert_eq!(m, "回滚操作失败: copy failed"),
        other => panic!("unexpected {:?}", other),
    }
}

#[test]
fn the_registry_replaces_removes_and_expires() {
    let mut manager = ErrorRecoveryManager::new(ErrorRecoveryConfig::default());
    manager.register_backup(backup("a", "t", 0, true));
    manager.register_backup(backup("b", "t", 50_000, true));
    manager.register_backup(backup("a", "t", 90_000, true));
    assert_eq!(manager.find_backup_for_operation("t").unwrap().backup_id, "a");
    // a day is 86400 seconds: at 140000 the backup of 50000 has expired, that of 90000 not
    let removed = manager.remove_expired(140_000);
    assert_eq!(removed.len(), 1);
    assert_eq!(removed[0].backup_id, "b");
    assert!(manager.remove_expired(140_000).is_empty());
    assert_eq!(manager.remove_backup("b").err(), Some("备份不存在".to_string()));
    assert_eq!(manager.remove_backup("a").unwrap().created_at, 90_000);
    assert!(manager.find_backup_for_operation("t").is_none());
    manager.register_backup(backup("old", "t", 0, true));
    assert!(manager.deactivate_backup("old"));
    assert!(!manager.deactivate_backup("unknown"));
    assert!(manager.find_backup_for_operation("t").is_none());
    let swept = manager.cleanup_expired_backups();
    assert_eq!(swept.len(), 1);
    assert!(!swept[0].is_active);
}

#[test]
fn backups_are_planned_within_the_limit() {
    let manager = ErrorRecoveryManager::new(ErrorRecoveryConfig::default());
    assert_eq!(manager.max_backup_bytes(), 1000 * 1024 * 1024);
    let request = |size: Option<u64>| BackupRequest {
        source_path: "/data/orig".to_string(),
        source_leaf: Some("orig".to_string()),
        source_is_file: false,
        source_size: size,
        operation_type: "migrate op-1".to_string(),
        temp_dir: "/tmp".to_string(),
    };
    let plan = manager.plan_backup(&request(Some(500)), "id-1".to_string(), &moment(), false).unwrap();
    assert_eq!(plan.info.backup_id, "id-1");
    assert_eq!(plan.info.backup_path, "/tmp/dir_mover_backups/orig_20231104_090507_id-1");
    assert_eq!(plan.info.original_path, "/data/orig");
    assert_eq!(plan.info.backup_size, 500);
    assert_eq!(plan.info.created_at, 1_700_000_000);
    assert!(plan.info.is_active);
    assert_eq!(plan.steps.len(), 2);
    assert!(matches!(&plan.steps[0], FsStep::CreateDirAll(p) if p == "/tmp/dir_mover_backups"));
    assert!(matches!(&plan.steps[1], FsStep::CopyAll { from, to } if from == "/data/orig" && to == &plan.info.backup_path));

    match manager.plan_backup(&request(Some(1000 * 1024 * 1024 + 1)), "x".to_string(), &moment(), false) {
        Err(BackupError::BackupTooLarge(m)) => {
            assert_eq!(m, "备份大小 1000.00 MB 超过最大限制 1000.00 MB")
        }
        other => panic!("unexpected {:?}", other),
    }
    match manager.plan_backup(&request(None), "x".to_string(), &moment(), false) {
        Err(e) => assert_eq!(e.message(), "备份失败: 路径不存在"),
        other => panic!("unexpected {:?}", other),
    }
    assert!(manager.plan_backup(&request(Some(1000 * 1024 * 1024)), "x".to_string(), &moment(), false).is_ok());

    // under a fresh identifier, now
    let fresh = manager.create_backup(&request(Some(5)), false).unwrap();
    assert_eq!(fresh.info.backup_id.len(), 36);
    assert!(fresh.info.backup_path.starts_with("/tmp/dir_mover_backups/orig_"));
    assert!(fresh.info.backup_path.ends_with(&fresh.info.backup_id));
    assert!(fresh.info.created_at > 1_600_000_000);
    assert!(manager.create_backup(&request(None), false).is_err());
    assert_eq!(format_size(0), "0.00 B");
    assert_eq!(format_size(1536), "1.50 KB");
    assert!(matches!(
        ErrorRecoveryManager::backup_failed("disk full"),
        BackupError::BackupFailed(m) if m == "备份操作失败: disk full"
    ));
}

#[test]
fn a_rollback_copies_aside_removes_and_restores() {
    let manager = ErrorRecoveryManager::new(ErrorRecoveryConfig::default());
    let b = backup("b1", "t", 0, true);
    let facts = RestoreFacts {
        exists: true,
        is_directory: true,
        leaf: Some("orig".to_string()),
        parent: Some("/".to_string()),
        temp_dir: "/tmp".to_string(),
    };
    let steps = manager.perform_rollback(&b, &facts, &moment(), false);
    assert_eq!(steps.len(), 5);
    assert!(matches!(&steps[0], FsStep::CreateDirAll(p) if p == "/tmp/dir_mover_temp"));
    assert!(matches!(&steps[1], FsStep::CopyAll { from, to }
        if from == "/orig" && to == "/tmp/dir_mover_temp/orig_20231104_090507_temp"));
    assert!(matches!(&steps[2], FsStep::RemoveTree(p) if p == "/orig"));
    assert!(matches!(&steps[3], FsStep::CreateDirAll(p) if p == "/"));
    assert!(matches!(&steps[4], FsStep::CopyAll { from, to } if from == "/tmp/backups/b1" && to == "/orig"));
    let gone = RestoreFacts { exists: false, is_directory: false, leaf: None, parent: None, temp_dir: "/tmp".to_string() };
    let steps = manager.perform_rollback(&b, &gone, &moment(), false);
    assert_eq!(steps.len(), 1);
}

#[test]
fn statistics_count_each_operation_once() {
    let mut manager = ErrorRecoveryManager::new(ErrorRecoveryConfig::default());
    let state = |id: &str, strategy: RecoveryStrategy, recovered: bool| RecoveryState {
        operation_id: id.to_string(),
        error_type: ErrorType::Unknown(String::new()),
        severity: ErrorSeverity::High,
        recovery_strategy: strategy,
        retry_count: 0,
        is_recovered: recovered,
        recovery_message: None,
        backup_path: None,
        timestamp: 0,
    };
    manager.record_state(state("a", RecoveryStrategy::Skip, true));
    manager.record_state(state("b", RecoveryStrategy::Abort, false));
    manager.record_state(state("c", RecoveryStrategy::Rollback, true));
    manager.record_state(state("d", RecoveryStrategy::Retry(2), false));
    manager.record_state(state("d", RecoveryStrategy::Retry(2), true));
    let stats = manager.get_recovery_statistics();
    assert_eq!(stats.total_operations, 4);
    assert_eq!(stats.successful_recoveries, 3);
    assert_eq!(stats.failed_recoveries, 1);
    assert_eq!(stats.retry_successes, 1);
    assert_eq!(stats.rollback_successes, 1);
    assert_eq!(stats.skip_count, 1);
    assert_eq!(stats.abort_count, 1);
    assert_eq!(stats.manual_count, 0);
    assert_eq!(percent(stats.success_rate()), 75.0);
}

#[test]
fn skipping_and_aborting_end_at_once() {
    let manager = ErrorRecoveryManager::new(ErrorRecoveryConfig::default());
    let cancelled = FileOperationError::OperationCancelled("user".to_string());
    let session = manager.handle_error_at("op", &cancelled, &context(), 1);
    assert_eq!(session.stage, RecoveryStage::Finished);
    assert!(session.state.is_recovered);
    assert_eq!(session.state.recovery_message, Some("操作已跳过".to_string()));
    let result = session.outcome.unwrap().unwrap();
    assert!(result.success);
    assert_eq!(result.recovery_type, RecoveryType::Skip);
    assert_eq!(result.message, "操作已跳过，继续执行后续步骤");

    let missing = FileOperationError::PathNotFound("/x".to_string());
    let session = manager.handle_error_at("op", &missing, &context(), 1);
    assert_eq!(session.state.recovery_strategy, RecoveryStrategy::Retry(2));
    assert_eq!(session.stage, RecoveryStage::Retrying);
}
