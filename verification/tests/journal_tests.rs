use dir_mover::clock::{
    current_moment, format_compact, format_for_file, format_month, format_readable, moment_of,
    LocalMoment, FIRST_SECOND, LAST_SECOND,
};
use dir_mover::identifiers::fresh_id;
use dir_mover::logger::{
    cleanup_old_logs, get_log_directory, init_logger, is_log_file, LogFile, LogLevel, LoggerConfig,
};
use dir_mover::operation_logger::{
    export_logs_to_csv, select, summarize, write_csv_line, JournalError, LogFilter, OperationLog,
    OperationLogger, OperationStatistics, OperationStatus, OperationType,
};

fn moment() -> LocalMoment {
    LocalMoment { epoch_seconds: 1_700_000_000, year: 2023, month: 11, day: 4, hour: 9, minute: 5, second: 7 }
}

fn logger() -> OperationLogger {
    OperationLogger::new_at("/logs", "session-1".to_string(), "alice".to_string(), &moment(), false)
}

fn record(id: &str, timestamp: i64, kind: OperationType, status: OperationStatus) -> OperationLog {
    OperationLog::new_at(
        id.to_string(),
        timestamp,
        kind,
        "/src".to_string(),
        None,
        "alice".to_string(),
        "session-1".to_string(),
    )
    .with_status(status)
}

#[test]
fn the_journal_file_is_named_for_the_month() {
    let l = logger();
    assert_eq!(l.log_file().as_str(), "/logs/operations-2023-11.log");
    let now = OperationLogger::new("/logs", "s".to_string(), "u".to_string(), false);
    assert!(now.log_file().starts_with("/logs/operations-"));
    assert!(now.log_file().ends_with(".log"));
}

#[test]
fn an_operation_goes_from_start_to_one_end() {
    let mut l = logger();
    let mut log = l
        .log_operation_start_at(
            "op-1".to_string(),
            500,
            OperationType::Migrate,
            "/src".to_string(),
            Some("/dst".to_string()),
            "begin".to_string(),
        )
        .unwrap();
    assert_eq!(log.status, OperationStatus::Started);
    assert_eq!(log.user, "alice");
    assert_eq!(log.session_id, "session-1");
    assert_eq!(log.details, "begin");
    assert_eq!(l.update_operation_status(&mut log, OperationStatus::InProgress, None), Ok(()));
    assert_eq!(log.details, "begin");
    assert_eq!(
        l.update_operation_status(&mut log, OperationStatus::InProgress, Some("half".to_string())),
        Ok(())
    );
    assert_eq!(log.details, "half");
    assert_eq!(
        l.update_operation_status(&mut log, OperationStatus::Started, None),
        Err(JournalError::InvalidTransition)
    );
    assert_eq!(l.complete_operation(&mut log, 5, 1000, 250, Some("done".to_string())), Ok(()));
    assert_eq!(log.status, OperationStatus::Completed);
    assert_eq!(log.file_count, Some(5));
    assert_eq!(log.total_size, Some(1000));
    assert_eq!(log.duration_ms, Some(250));
    assert_eq!(log.id, "op-1");
    assert_eq!(log.timestamp, 500);
    // an ended operation is never rewritten
    assert_eq!(l.fail_operation(&mut log, "late".to_string(), None), Err(JournalError::InvalidTransition));
    assert_eq!(l.cancel_operation(&mut log, None), Err(JournalError::InvalidTransition));
    assert_eq!(
        l.update_operation_status(&mut log, OperationStatus::InProgress, None),
        Err(JournalError::InvalidTransition)
    );
    assert_eq!(log.status, OperationStatus::Completed);
    assert_eq!(log.error_message, None);
    assert_eq!(JournalError::InvalidTransition.message(), "operation status cannot change this way");
}

#[test]
fn records_of_one_operation_keep_their_moment() {
    let mut l = logger();
    let start = |l: &mut OperationLogger, id: &str, at: i64| {
        l.log_operation_start_at(
            id.to_string(),
            at,
            OperationType::Scan,
            "/src".to_string(),
            None,
            String::new(),
        )
    };
    let mut a = start(&mut l, "a", 100).unwrap();
    assert!(start(&mut l, "b", 50).is_ok());
    assert_eq!(start(&mut l, "a", 200).err(), Some(JournalError::ConflictingRecord));
    assert!(start(&mut l, "a", 100).is_ok());
    assert_eq!(l.fail_operation(&mut a, "boom".to_string(), None), Ok(()));
    assert_eq!(a.timestamp, 100);
    assert_eq!(a.error_message, Some("boom".to_string()));
    // a record of a known operation with another moment is refused
    let mut forged = record("b", 999, OperationType::Scan, OperationStatus::Started);
    assert_eq!(l.cancel_operation(&mut forged, None), Err(JournalError::ConflictingRecord));
    assert_eq!(forged.status, OperationStatus::Started);
    let fresh = l.log_operation_start(OperationType::Scan, "/s".to_string(), None, String::new()).unwrap();
    assert_eq!(fresh.id.len(), 36);
}

#[test]
fn statistics_sum_the_journal() {
    let l = logger();
    let mib = 1024 * 1024;
    let logs = vec![
        record("a", 1, OperationType::Migrate, OperationStatus::Started).complete().with_metrics(3, 10 * mib, 1000),
        record("b", 2, OperationType::Migrate, OperationStatus::Started).complete().with_metrics(5, 30 * mib, 3000),
    ];
    let stats = l.get_statistics(logs);
    assert_eq!(stats.total_operations, 2);
    assert_eq!(stats.completed_operations, 2);
    assert_eq!(stats.failed_operations, 0);
    assert_eq!(stats.total_bytes_transferred, 40 * mib);
    assert_eq!(stats.total_files_processed, 8);
    assert_eq!(stats.total_duration_ms, 4000);
    assert_eq!(stats.average_duration_ms, 2000);
    assert_eq!(stats.success_rate().whole_percent(), 100);
    assert_eq!(stats.whole_transfer_speed_mbps(), 10);
    let (bytes, time) = stats.average_transfer_speed_mbps();
    assert_eq!(bytes as f64 / time as f64, 10.0);

    let mixed = vec![
        record("a", 1, OperationType::Scan, OperationStatus::Failed),
        record("b", 2, OperationType::Scan, OperationStatus::Cancelled),
        record("c", 3, OperationType::Scan, OperationStatus::InProgress),
        record("d", 4, OperationType::Scan, OperationStatus::Completed).with_metrics(1, 1, 9),
    ];
    let stats = l.get_statistics(mixed);
    assert_eq!(stats.total_operations, 4);
    assert_eq!(stats.completed_operations, 1);
    assert_eq!(stats.failed_operations, 1);
    assert_eq!(stats.cancelled_operations, 1);
    assert_eq!(stats.average_duration_ms, 9);
    assert_eq!(stats.success_rate().whole_percent(), 25);
    assert_eq!(l.get_statistics(vec![]), OperationStatistics::default());
    assert_eq!(OperationStatistics::default().whole_transfer_speed_mbps(), 0);
}

#[test]
fn queries_return_the_most_recent_oldest_first() {
    let l = logger();
    let logs = || {
        vec![
            record("c", 30, OperationType::Scan, OperationStatus::Failed),
            record("a", 10, OperationType::Migrate, OperationStatus::Completed),
            record("d", 40, OperationType::Scan, OperationStatus::Completed),
            record("b", 20, OperationType::Migrate, OperationStatus::Failed),
        ]
    };
    let ids = |v: Vec<OperationLog>| v.into_iter().map(|l| l.id).collect::<Vec<_>>();
    assert_eq!(ids(l.get_recent_logs(logs(), 10)), vec!["a", "b", "c", "d"]);
    assert_eq!(ids(l.get_recent_logs(logs(), 2)), vec!["c", "d"]);
    assert_eq!(ids(l.get_recent_logs(logs(), 0)), Vec::<String>::new());
    assert_eq!(ids(l.get_logs_by_type(logs(), OperationType::Migrate, 10)), vec!["a", "b"]);
    assert_eq!(ids(l.get_logs_by_type(logs(), OperationType::Scan, 1)), vec!["c"]);
    assert_eq!(ids(l.get_failed_operations(logs(), 10)), vec!["b", "c"]);
    assert_eq!(ids(l.retain_since(&logs(), 20)), vec!["c", "d", "b"]);
    assert_eq!(ids(select(&logs(), LogFilter::Failed, 1)), vec!["c"]);
    let recent = l.cleanup_old_logs(&vec![record("old", 0, OperationType::Scan, OperationStatus::Started)], 30);
    assert!(recent.is_empty());
}

#[test]
fn the_table_has_one_line_for_each_record() {
    let log = OperationLog::new_at(
        "op-1".to_string(),
        0,
        OperationType::CreateSymlink,
        "/src".to_string(),
        Some("/dst".to_string()),
        "alice".to_string(),
        "s1".to_string(),
    )
    .with_details("a,b,c".to_string())
    .fail("boom".to_string())
    .with_metrics(3, 2048, 15);
    assert_eq!(
        write_csv_line(&log, "2023-11-04 09:05:07"),
        "op-1,2023-11-04 09:05:07,CreateSymlink,Failed,/src,/dst,a;b;c,boom,15,3,2048,alice,s1"
    );
    let bare = record("op-2", 0, OperationType::Scan, OperationStatus::Started);
    assert_eq!(write_csv_line(&bare, ""), "op-2,,Scan,Started,/src,,,,,,,alice,session-1");
    let text = export_logs_to_csv(&vec![log, bare]);
    let lines: Vec<&str> = text.lines().collect();
    assert_eq!(lines.len(), 3);
    assert_eq!(
        lines[0],
        "ID,Timestamp,Type,Status,Source,Target,Details,Error,Duration(ms),FileCount,TotalSize,User,Session"
    );
    assert!(lines[1].starts_with("op-1,19"));
    assert!(lines[1].ends_with(",CreateSymlink,Failed,/src,/dst,a;b;c,boom,15,3,2048,alice,s1"));
    assert!(text.ends_with('\n'));
}

#[test]
fn moments_are_written_with_leading_zeros() {
    let m = moment();
    assert_eq!(format_compact(&m), "20231104_090507");
    assert_eq!(format_readable(&m), "2023-11-04 09:05:07");
    assert_eq!(format_for_file(&m), "2023-11-04_09-05-07");
    assert_eq!(format_month(&m), "2023-11");
    let early = LocalMoment { epoch_seconds: 0, year: 987, month: 1, day: 2, hour: 0, minute: 0, second: 0 };
    assert_eq!(format_readable(&early), "0987-01-02 00:00:00");
    let ancient = LocalMoment { year: -5, ..early };
    assert_eq!(format_month(&ancient), "-0005-01");
    assert_eq!(format_month(&LocalMoment { year: -1, ..early }), "-0001-01");
    assert_eq!(format_month(&LocalMoment { year: -12345, ..early }), "-12345-01");
    assert_eq!(format_month(&LocalMoment { year: 0, ..early }), "0000-01");
    assert_eq!(format_month(&LocalMoment { year: 9999, ..early }), "9999-01");
    assert_eq!(format_month(&LocalMoment { year: 10000, ..early }), "+10000-01");
    assert_eq!(format_compact(&LocalMoment { year: 262142, ..early }), "+2621420102_000000");
}

#[test]
fn the_clock_and_the_identifiers_come_from_outside() {
    let now = current_moment();
    assert!(now.epoch_seconds > 1_600_000_000);
    assert!((1..=12).contains(&now.month));
    assert!((1..=31).contains(&now.day));
    assert!(now.hour < 24 && now.minute < 60 && now.second < 60);
    let at = moment_of(now.epoch_seconds).expect("now is on the calendar");
    assert_eq!(at.epoch_seconds, now.epoch_seconds);
    assert_eq!((at.year, at.month, at.day), (now.year, now.month, now.day));
    assert_eq!((at.hour, at.minute, at.second), (now.hour, now.minute, now.second));
    assert!(moment_of(i64::MAX).is_none());
    let a = fresh_id();
    let b = fresh_id();
    assert_eq!(a.len(), 36);
    assert_ne!(a, b);
    for (i, c) in a.chars().enumerate() {
        if i == 8 || i == 13 || i == 18 || i == 23 {
            assert_eq!(c, '-');
        } else {
            assert!(c.is_ascii_digit() || ('a'..='f').contains(&c));
        }
    }
}

#[test]
fn the_oldest_log_files_leave() {
    let file = |path: &str, modified: u64| LogFile { path: path.to_string(), modified };
    let files = vec![file("c", 30), file("a", 10), file("e", 50), file("b", 10), file("d", 40), file("f", 60), file("g", 70)];
    let leaving = cleanup_old_logs(files.clone(), 5);
    let paths: Vec<&str> = leaving.iter().map(|f| f.path.as_str()).collect();
    assert_eq!(paths, vec!["a", "b"]);
    assert!(cleanup_old_logs(files.clone(), 7).is_empty());
    assert!(cleanup_old_logs(files.clone(), 9).is_empty());
    assert_eq!(cleanup_old_logs(files, 0).len(), 7);
    assert_eq!(get_log_directory("/home/u/.local/share", false), "/home/u/.local/share/dir-mover/logs");
    let config = LoggerConfig::in_data_dir("C:\\Users\\u\\AppData\\Roaming", true);
    assert_eq!(config.log_dir, "C:\\Users\\u\\AppData\\Roaming\\dir-mover\\logs");
    assert_eq!(config.log_level, LogLevel::Info);
    assert_eq!(config.max_file_size, 10 * 1024 * 1024);
    assert_eq!(config.max_files, 5);
    assert_eq!(
        config.log_file_at(&moment(), true),
        "C:\\Users\\u\\AppData\\Roaming\\dir-mover\\logs\\dir-mover-2023-11-04_09-05-07.log"
    );
}

#[test]
fn the_log_is_set_up_for_the_build() {
    let setup = init_logger("/home/u/.local/share", false, &moment(), false);
    assert_eq!(setup.config.log_dir, "/home/u/.local/share/dir-mover/logs");
    assert_eq!(setup.config.log_level, LogLevel::Info);
    assert_eq!(setup.config.max_file_size, 10 * 1024 * 1024);
    assert_eq!(setup.config.max_files, 5);
    assert_eq!(setup.log_file, "/home/u/.local/share/dir-mover/logs/dir-mover-2023-11-04_09-05-07.log");
    let debug = init_logger("/home/u/.local/share", true, &moment(), false);
    assert_eq!(debug.config.log_level, LogLevel::Debug);
    assert_eq!(debug.log_file, setup.log_file);
}

#[test]
fn log_files_are_known_by_their_names() {
    assert!(is_log_file("dir-mover-2023-11-04_09-05-07.log"));
    assert!(is_log_file("a.log"));
    assert!(is_log_file("..log"));
    assert!(!is_log_file(".log"));
    assert!(!is_log_file("log"));
    assert!(!is_log_file("a.log.txt"));
    assert!(!is_log_file("a.LOG"));
    assert!(!is_log_file(""));
}

#[test]
fn the_calendar_holds_a_range_of_seconds() {
    for seconds in [FIRST_SECOND, FIRST_SECOND + 1, -1, 0, 1, 1_699_088_707, LAST_SECOND - 1, LAST_SECOND] {
        let m = moment_of(seconds).expect("the calendar holds the second");
        assert_eq!(m.epoch_seconds, seconds);
        assert!((1..=12).contains(&m.month) && (1..=31).contains(&m.day));
        assert!(m.hour < 24 && m.minute < 60 && m.second < 60);
    }
    for seconds in [i64::MIN, FIRST_SECOND - 86_400, FIRST_SECOND - 1, LAST_SECOND + 1, LAST_SECOND + 86_400, i64::MAX] {
        assert!(moment_of(seconds).is_none());
    }
    assert_eq!(FIRST_SECOND, -8_334_601_228_800);
    assert_eq!(LAST_SECOND, 8_210_266_876_799);
}

#[test]
fn journal_statistics_count_operations_not_records() {
    let mut l = logger();
    let mib = 1024 * 1024;
    let mut file: Vec<OperationLog> = Vec::new();
    for (size, duration) in [(10 * mib, 1000u64), (30 * mib, 3000u64)] {
        let mut log = l
            .log_operation_start(OperationType::Migrate, "/src".to_string(), Some("/dst".to_string()), String::new())
            .expect("a fresh identifier fits");
        file.push(log.duplicate());
        l.complete_operation(&mut log, 0, size, duration, None).expect("a started operation may complete");
        file.push(log.duplicate());
    }
    assert_eq!(file.len(), 4);
    let stats = l.get_statistics(file);
    assert_eq!(stats.total_operations, 2);
    assert_eq!(stats.completed_operations, 2);
    assert_eq!(stats.failed_operations, 0);
    assert_eq!(stats.cancelled_operations, 0);
    assert_eq!(stats.total_bytes_transferred, 40 * mib);
    assert_eq!(stats.total_duration_ms, 4000);
    assert_eq!(stats.average_duration_ms, 2000);
    assert_eq!(stats.success_rate().whole_percent(), 100);
    let (bytes, time) = stats.average_transfer_speed_mbps();
    assert_eq!(bytes as f64 / time as f64, 10.0);
    let rate = stats.success_rate();
    assert_eq!(rate.part as f64 / rate.whole as f64 * 100.0, 100.0);
}

#[test]
fn the_last_record_of_an_operation_decides() {
    let l = logger();
    let journal = vec![
        record("a", 1, OperationType::Migrate, OperationStatus::Started),
        record("b", 2, OperationType::Scan, OperationStatus::Started),
        record("a", 1, OperationType::Migrate, OperationStatus::InProgress).with_metrics(1, 5, 7),
        record("b", 2, OperationType::Scan, OperationStatus::Failed),
        record("c", 3, OperationType::Delete, OperationStatus::Started),
        record("a", 1, OperationType::Migrate, OperationStatus::Completed).with_metrics(4, 100, 50),
        record("d", 4, OperationType::Scan, OperationStatus::Started),
        record("d", 4, OperationType::Scan, OperationStatus::Cancelled),
    ];
    let stats = summarize(&journal);
    assert_eq!(stats.total_operations, 4);
    assert_eq!(stats.completed_operations, 1);
    assert_eq!(stats.failed_operations, 1);
    assert_eq!(stats.cancelled_operations, 1);
    assert_eq!(stats.total_files_processed, 4);
    assert_eq!(stats.total_bytes_transferred, 100);
    assert_eq!(stats.total_duration_ms, 50);
    assert_eq!(stats.average_duration_ms, 50);
    assert_eq!(stats.success_rate().whole_percent(), 25);
    assert_eq!(l.get_statistics(journal), stats);
}

#[test]
fn statistics_look_at_the_end_of_the_journal() {
    let l = logger();
    let mut journal: Vec<OperationLog> = Vec::new();
    journal.push(record("old", 1, OperationType::Scan, OperationStatus::Failed));
    for i in 0..5000 {
        let id = format!("{}-op", i);
        journal.push(record(&id, 10 + i, OperationType::Scan, OperationStatus::Started));
        journal.push(record(&id, 10 + i, OperationType::Scan, OperationStatus::Completed).with_metrics(1, 2, 3));
    }
    let stats = l.get_statistics(journal);
    assert_eq!(stats.total_operations, 5000);
    assert_eq!(stats.completed_operations, 5000);
    assert_eq!(stats.failed_operations, 0);
    assert_eq!(stats.total_bytes_transferred, 10000);
    assert_eq!(stats.average_duration_ms, 3);
}

#[test]
fn moments_are_written_as_the_calendar_crate_writes_them() {
    for year in [-262143, -12345, -1000, -999, -1, 0, 5, 42, 999, 1000, 2023, 9999, 10000, 99999, 262142] {
        for (month, day, hour, minute, second) in [(1, 1, 0, 0, 0), (3, 7, 4, 5, 6), (12, 31, 23, 59, 59)] {
            let at = chrono::NaiveDate::from_ymd_opt(year, month, day)
                .and_then(|d| d.and_hms_opt(hour, minute, second))
                .expect("a date of the calendar");
            let m = LocalMoment { epoch_seconds: 0, year, month, day, hour, minute, second };
            assert_eq!(format_readable(&m), at.format("%Y-%m-%d %H:%M:%S").to_string());
            assert_eq!(format_compact(&m), at.format("%Y%m%d_%H%M%S").to_string());
            assert_eq!(format_for_file(&m), at.format("%Y-%m-%d_%H-%M-%S").to_string());
            assert_eq!(format_month(&m), at.format("%Y-%m").to_string());
        }
    }
}
