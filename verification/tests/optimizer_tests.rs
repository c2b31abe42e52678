use dir_mover::commands::{
    configure_scan, get_appdata_path, get_available_drives, get_disk_info, get_scan_progress,
    migrate_appdata_items, scan_directory, stop_scan, validate_appdata_migration_options,
    validate_migration_path, ItemKind, ItemOutcome, ScanTarget,
};
use dir_mover::appdata_analyzer::AppDataMigrationOptions;
use dir_mover::directory_cache::{CachedDirectoryInfo, DirectoryCache};
use dir_mover::disk_analyzer::DiskAnalyzer;
use dir_mover::file_operations::MigrationPathFacts;
use dir_mover::migration_service::MigrationService;
use dir_mover::path_safety::PathProbe;
use dir_mover::performance_optimizer::{
    BatchItem, BatchProcessor, ConcurrencyManager, MemoryMonitor, MemoryOptimizedScanner,
    PerformanceConfig, PerformanceOptimizer,
};
use dir_mover::scan_model::{DirSnapshot, EntrySnapshot, Listing};
use dir_mover::smart_batch::{ProcessingRecord, SmartBatchItem, SmartBatchProcessor};

fn cached(path: &str, at: u64) -> CachedDirectoryInfo {
    CachedDirectoryInfo {
        path: path.to_string(),
        file_count: 100,
        total_size: 1024 * 1024,
        last_modified: at,
        is_large_folder: false,
    }
}

#[test]
fn test_performance_optimizer() {
    let config = PerformanceConfig::default();
    let optimizer = PerformanceOptimizer::new(config, 0);
    let stats = optimizer.get_performance_stats(0);
    assert_eq!(stats.cache_size, 0);
    assert_eq!(stats.cache_hit_rate.part, 0);
    assert_eq!(stats.batch_queue_size, 0);
}

#[test]
fn test_memory_monitor() {
    let mut monitor = MemoryMonitor::new(100, 200);

    monitor.record_usage(50 * 1024 * 1024);
    assert_eq!(monitor.get_current_usage(), 50 * 1024 * 1024);

    monitor.release_usage(20 * 1024 * 1024);
    assert_eq!(monitor.get_current_usage(), 30 * 1024 * 1024);
}

#[test]
fn test_directory_cache() {
    let mut cache = DirectoryCache::new(10);

    let test_info = cached("/test/path", 1000);

    cache.insert("/test/path".to_string(), test_info.clone());

    let found = cache.get("/test/path", 1000);
    assert!(found.is_some());

    let stats = cache.get_stats();
    assert_eq!(stats.size, 1);
}

#[test]
fn test_concurrency_manager() {
    let mut manager = ConcurrencyManager::new(3);

    manager.acquire_permit("op1");
    assert_eq!(manager.get_active_count(), 1);

    manager.release_permit("op1");

    assert_eq!(manager.get_active_count(), 0);
}

#[test]
fn test_smart_batch_processor() {
    let config = PerformanceConfig::default();
    let mut processor = SmartBatchProcessor::new(config);

    let item = SmartBatchItem {
        id: "test1".to_string(),
        operation_type: "copy".to_string(),
        source_path: "/source".to_string(),
        target_path: Some("/target".to_string()),
        estimated_size: 1024,
        priority: 1,
        dependencies: vec![],
    };

    processor.add_item(item).unwrap();

    let batch = processor.get_optimized_batch();
    assert_eq!(batch.len(), 1);
}

#[test]
fn the_memory_monitor_tracks_the_peak() {
    let mut monitor = MemoryMonitor::new(1, 2);
    assert!(!monitor.should_cleanup());
    monitor.record_usage(1024 * 1024);
    assert!(!monitor.should_cleanup());
    monitor.record_usage(1);
    assert!(monitor.should_cleanup());
    assert!(!monitor.is_critical());
    monitor.record_usage(2 * 1024 * 1024);
    assert!(monitor.is_critical());
    monitor.release_usage(usize::MAX);
    assert_eq!(monitor.get_current_usage(), 0);
    assert_eq!(monitor.get_peak_usage(), 3 * 1024 * 1024 + 1);
    monitor.record_usage(usize::MAX);
    monitor.record_usage(5);
    assert_eq!(monitor.get_current_usage(), usize::MAX);
    assert_eq!(monitor.get_peak_usage(), usize::MAX);
}

#[test]
fn the_cache_forgets_the_least_recently_used() {
    let mut cache = DirectoryCache::new(2);
    cache.insert("/a".to_string(), cached("/a", 0));
    cache.insert("/b".to_string(), cached("/b", 0));
    // looking /a up makes /b the least recently used
    assert!(cache.get("/a", 10).is_some());
    cache.insert("/c".to_string(), cached("/c", 0));
    assert!(cache.get("/b", 10).is_none());
    assert_eq!(cache.get("/a", 10).unwrap().path, "/a");
    assert_eq!(cache.get("/c", 10).unwrap().path, "/c");
    // an entry that is too old is a miss, and stays
    assert!(cache.get("/c", 300).is_none());
    assert!(cache.get("/c", 299).is_some());
    let stats = cache.get_stats();
    assert_eq!(stats.hit_count, 4);
    assert_eq!(stats.miss_count, 2);
    assert_eq!(stats.size, 2);
    assert_eq!(stats.hit_rate.part, 4);
    assert_eq!(stats.hit_rate.whole, 6);
    // putting a known key replaces its value
    let mut newer = cached("/a", 5);
    newer.total_size = 7;
    cache.insert("/a".to_string(), newer);
    assert_eq!(cache.get("/a", 10).unwrap().total_size, 7);
    assert_eq!(cache.get_stats().size, 2);
    cache.clear();
    assert_eq!(cache.get_stats().size, 0);
    assert_eq!(cache.get_stats().hit_count, 5);
    assert!(DirectoryCache::with_capacity(0).is_none());
    assert!(DirectoryCache::with_capacity(1).is_some());
}

#[test]
fn batches_come_first_in_first_out() {
    let config = PerformanceConfig { batch_size: 2, ..PerformanceConfig::default() };
    let mut queue = BatchProcessor::new(config);
    for name in ["a", "b", "c"] {
        queue
            .add_item(BatchItem {
                operation_type: "copy".to_string(),
                source_path: name.to_string(),
                target_path: None,
                priority: 0,
            })
            .unwrap();
    }
    assert_eq!(queue.queue_size(), 3);
    let first: Vec<String> = queue.get_next_batch().into_iter().map(|i| i.source_path).collect();
    assert_eq!(first, vec!["a", "b"]);
    let second: Vec<String> = queue.get_next_batch().into_iter().map(|i| i.source_path).collect();
    assert_eq!(second, vec!["c"]);
    assert!(queue.get_next_batch().is_empty());
    assert_eq!(queue.queue_size(), 0);
}

fn smart(id: &str, priority: u32, size: u64, deps: &[&str]) -> SmartBatchItem {
    SmartBatchItem {
        id: id.to_string(),
        operation_type: "copy".to_string(),
        source_path: format!("/{}", id),
        target_path: None,
        estimated_size: size,
        priority,
        dependencies: deps.iter().map(|d| d.to_string()).collect(),
    }
}

#[test]
fn smart_batches_honour_priority_budget_and_dependencies() {
    let config = PerformanceConfig { max_memory_usage_mb: 2, batch_size: 3, ..PerformanceConfig::default() };
    let mut p = SmartBatchProcessor::new(config);
    assert_eq!(p.budget(), 1024 * 1024);
    p.add_item(smart("low", 1, 10, &[])).unwrap();
    p.add_item(smart("high", 9, 10, &[])).unwrap();
    p.add_item(smart("mid", 5, 10, &[])).unwrap();
    p.add_item(smart("mid2", 5, 10, &[])).unwrap();
    p.add_item(smart("waits", 7, 10, &["high"])).unwrap();
    let ids = |v: Vec<SmartBatchItem>| v.into_iter().map(|i| i.id).collect::<Vec<_>>();
    assert_eq!(ids(p.get_optimized_batch()), vec!["high", "mid", "mid2"]);
    assert_eq!(ids(p.get_optimized_batch()), vec!["low"]);
    // only the item that waits for other work is left, and it is looked at once
    assert!(p.get_optimized_batch().is_empty());

    let mut q = SmartBatchProcessor::new(config);
    q.add_item(smart("a", 3, 600 * 1024, &[])).unwrap();
    q.add_item(smart("b", 2, 600 * 1024, &[])).unwrap();
    q.add_item(smart("c", 1, 1, &[])).unwrap();
    assert_eq!(ids(q.get_optimized_batch()), vec!["a"]);
    assert_eq!(ids(q.get_optimized_batch()), vec!["b", "c"]);
    assert!(q.check_dependencies(&smart("x", 0, 0, &[])));
    assert!(!q.check_dependencies(&smart("x", 0, 0, &["y"])));
}

#[test]
fn processing_results_are_summed() {
    let mut p = SmartBatchProcessor::new(PerformanceConfig::default());
    let record = |id: &str, ms: u64, ok: bool, size: u64| ProcessingRecord {
        item_id: id.to_string(),
        start_time: 0,
        duration_ms: ms,
        success: ok,
        size_processed: size,
    };
    p.record_processing_result(record("a", 100, true, 10));
    p.record_processing_result(record("b", 300, false, 20));
    p.record_processing_result(record("c", 200, true, 30));
    let stats = p.get_processing_stats();
    assert_eq!(stats.total_processed, 3);
    assert_eq!(stats.total_size_processed, 60);
    assert_eq!(stats.average_processing_time_ms.part, 600);
    assert_eq!(stats.average_processing_time_ms.whole, 3);
    assert_eq!(stats.average_processing_time_ms.whole_quotient(), 200);
    // the share of successes is taken before the last record came: one of two
    assert_eq!(stats.success_rate.part, 1);
    assert_eq!(stats.success_rate.whole, 2);
    assert_eq!(stats.processing_history.len(), 3);
    assert_eq!(stats.processing_history[2].item_id, "c");
    for i in 0..1000 {
        p.record_processing_result(record(&format!("r{}", i), 1, true, 1));
    }
    let stats = p.get_processing_stats();
    assert_eq!(stats.processing_history.len(), 1000);
    assert_eq!(stats.processing_history[0].item_id, "r0");
    assert_eq!(stats.total_processed, 1003);
}

#[test]
fn the_optimizer_counts_memory_and_cleans_up() {
    let config = PerformanceConfig { max_memory_usage_mb: 2, ..PerformanceConfig::default() };
    let mut optimizer = PerformanceOptimizer::new(config, 100);
    assert!(PerformanceOptimizer::try_new(PerformanceConfig { cache_size: 0, ..config }, 0).is_none());
    assert_eq!(optimizer.estimate_scan_memory_usage(Some(3)), 3 * 1024);
    assert_eq!(optimizer.estimate_scan_memory_usage(None), 1024);
    optimizer.optimize_scan_operation("/a", Some(1024), 100);
    let stats = optimizer.get_performance_stats(160);
    assert_eq!(stats.memory_usage_mb.part, 1024 * 1024);
    assert_eq!(stats.memory_usage_mb.whole, 1024 * 1024);
    assert_eq!(stats.last_cleanup_seconds_ago, 60);
    assert_eq!(stats.cache_hit_rate.whole, 1);
    assert!(!optimizer.optimize_migration_operation(170));
    optimizer.optimize_scan_operation("/a", None, 100);
    assert!(optimizer.optimize_migration_operation(170));
    assert_eq!(optimizer.get_performance_stats(175).last_cleanup_seconds_ago, 5);
    assert!(!optimizer.should_periodic_cleanup(470));
    assert!(optimizer.should_periodic_cleanup(471));
    optimizer.perform_cleanup(471);
    assert!(!optimizer.should_periodic_cleanup(471));
}

#[test]
fn entries_fall_into_chunks() {
    let scanner = MemoryOptimizedScanner::new(4);
    assert_eq!(scanner.scan_directory_in_chunks(10), vec![(0, 4), (4, 8), (8, 10)]);
    assert_eq!(scanner.scan_directory_in_chunks(8), vec![(0, 4), (4, 8)]);
    assert_eq!(scanner.scan_directory_in_chunks(0), vec![]);
    assert_eq!(MemoryOptimizedScanner::new(0).scan_directory_in_chunks(3), vec![(0, 3)]);
}

#[test]
fn operations_under_way_are_listed_in_order() {
    let mut manager = ConcurrencyManager::new(2);
    assert!(manager.has_free_permit());
    manager.acquire_permit("a");
    manager.acquire_permit("b");
    manager.acquire_permit("a");
    assert!(!manager.has_free_permit());
    assert_eq!(manager.get_active_operations(), vec!["a", "b", "a"]);
    manager.release_permit("a");
    assert_eq!(manager.get_active_operations(), vec!["b"]);
    manager.release_permit("zzz");
    assert_eq!(manager.get_active_count(), 1);
}

fn directory(path: &str, sizes: &[u64]) -> DirSnapshot {
    DirSnapshot {
        path: path.to_string(),
        name: Some("d".to_string()),
        cancel_seen: false,
        listing: Listing::Entries(
            sizes
                .iter()
                .map(|s| EntrySnapshot::File { cancel_seen: false, name: "f".to_string(), size: Ok(*s) })
                .collect(),
        ),
        last_modified: None,
    }
}

#[test]
fn commands_prepare_the_scanner() {
    let mut analyzer = DiskAnalyzer::new();
    analyzer.cancel_scan();
    assert_eq!(
        scan_directory(&mut analyzer, &ScanTarget::Missing, false, 0, 0).err(),
        Some("路径不存在".to_string())
    );
    assert_eq!(
        scan_directory(&mut analyzer, &ScanTarget::NotDirectory, false, 0, 0).err(),
        Some("路径不是目录".to_string())
    );
    assert!(analyzer.is_cancelled());
    let hundred_mib = 100 * 1024 * 1024;
    let info = scan_directory(
        &mut analyzer,
        &ScanTarget::Directory(directory("/d", &[hundred_mib])),
        false,
        5,
        9,
    )
    .unwrap();
    assert!(info.is_large_folder);
    assert!(!analyzer.is_cancelled());
    let system = scan_directory(
        &mut analyzer,
        &ScanTarget::Directory(directory("/d", &[hundred_mib])),
        true,
        5,
        9,
    )
    .unwrap();
    assert!(!system.is_large_folder);
    let progress = get_scan_progress(&analyzer);
    assert_eq!(progress.processed_files, 1);
    assert_eq!(progress.total_files, 1);
    assert_eq!(progress.current_path, "/d");
    stop_scan(&mut analyzer);
    assert!(analyzer.is_cancelled());
    configure_scan(&mut analyzer, false);
    assert!(!analyzer.is_cancelled());
    assert_eq!(get_scan_progress(&analyzer).processed_files, 0);
}

#[test]
fn commands_answer_with_plain_values() {
    let disks = get_disk_info();
    assert_eq!(disks.len(), 1);
    assert_eq!(disks[0].name, "C:");
    assert_eq!(disks[0].total_space, 256 << 30);
    assert_eq!(dir_mover::commands::format_size(1536), "1.50 KB");
    let mut present = vec![false; 24];
    present[0] = true;
    present[1] = true;
    present[23] = true;
    assert_eq!(get_available_drives(&present), vec!["C:\\", "D:\\", "Z:\\"]);
    assert_eq!(get_available_drives(&vec![true]), vec!["C:\\"]);
    assert!(get_available_drives(&vec![]).is_empty());
    assert_eq!(get_available_drives(&vec![true; 30]).len(), 24);
    assert_eq!(
        get_appdata_path(&Ok("C:\\Users\\u".to_string()), true, true),
        Ok("C:\\Users\\u\\AppData".to_string())
    );
    assert_eq!(
        get_appdata_path(&Err("unset".to_string()), true, true),
        Err("获取AppData路径失败: 无法获取用户目录: unset".to_string())
    );
    let service = MigrationService::new();
    let facts = MigrationPathFacts {
        source: PathProbe { path: "/a".to_string(), canonical: None, entry_names: None },
        target: PathProbe { path: "/a/b".to_string(), canonical: None, entry_names: None },
        source_exists: true,
        target_exists: false,
        target_parent_canonical: None,
        source_size: None,
        target_parent_known: false,
    };
    let verdict = validate_migration_path(&service, &facts, false);
    assert!(!verdict.valid);
    assert_eq!(verdict.message, "不能将目录迁移到其子目录中");
    assert!(verdict.suggestions.is_empty());
}

#[test]
fn appdata_migrations_are_summed_up() {
    let options = AppDataMigrationOptions {
        source_items: vec!["a".to_string(), "b".to_string(), "c".to_string()],
        target_drive: "D:".to_string(),
        create_symlink: true,
        delete_source: false,
    };
    let outcomes = vec![ItemOutcome::Migrated, ItemOutcome::Missing, ItemOutcome::Migrated];
    let result = migrate_appdata_items(&options, true, &outcomes).unwrap();
    assert!(!result.success);
    assert_eq!(result.message, "AppData迁移完成 - 成功: 2, 失败: 1, 总迁移大小: 2.00 GB");
    assert_eq!(result.source_path, "3个项目");
    assert_eq!(result.target_path, "D:");
    assert_eq!(result.symlink_path, Some("创建了2个符号链接".to_string()));
    let all = migrate_appdata_items(&options, true, &vec![ItemOutcome::Migrated; 3]).unwrap();
    assert!(all.success);
    assert_eq!(ItemOutcome::of_result(&Ok(all.clone())), ItemOutcome::Migrated);
    assert_eq!(ItemOutcome::of_result(&Ok(result.clone())), ItemOutcome::Failed);
    assert_eq!(ItemOutcome::of_result(&Err("源路径不能为空".to_string())), ItemOutcome::Refused);
    assert_eq!(
        migrate_appdata_items(&options, false, &outcomes).err(),
        Some("目标盘符不存在: D:".to_string())
    );

    let report = validate_appdata_migration_options(
        &options,
        true,
        &vec![ItemKind::Regular, ItemKind::Other],
    )
    .unwrap();
    assert!(!report.valid);
    assert_eq!(report.summary, "验证完成：1/3 个项目有效");
    assert_eq!(report.items.len(), 3);
    assert_eq!(report.items[0].message, "路径有效");
    assert_eq!(report.items[1].message, "路径既不是文件也不是目录");
    assert_eq!(report.items[2].message, "源路径不存在");
    assert_eq!(report.items[2].path, "c");
    assert!(report.target_drive_valid);
    assert!(validate_appdata_migration_options(&options, false, &vec![]).is_err());
}
