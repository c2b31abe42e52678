use dir_mover::appdata_analyzer::{
    select_large, sort_items, AppDataAnalyzer, AppDataBucket, AppDataConfig, AppDataFirstLevelItem,
    AppDataMigrationOptions, AppDataSnapshot, BucketSnapshot, ItemSnapshot, ScanEvent, SortOrder,
};
use dir_mover::ratio::Ratio;
use dir_mover::scan_model::{DirSnapshot, EntrySnapshot, Listing};
use std::path::Path;

fn share(percent: u64) -> Ratio {
    Ratio { part: percent, whole: 100 }
}

fn item(path: &str, name: &str, size: u64, kind: &str, parent: &str, large: bool, pct: u64) -> AppDataFirstLevelItem {
    AppDataFirstLevelItem {
        path: path.to_string(),
        name: name.to_string(),
        size,
        item_type: kind.to_string(),
        parent_type: parent.to_string(),
        is_large: large,
        size_percentage: share(pct),
    }
}

#[test]
fn appdata_analyzer_test_appdata_config_default() {
    let config = AppDataConfig::default();
    assert_eq!(config.min_size_threshold, 1024 * 1024 * 1024);
    assert_eq!(config.max_depth, 2);
    match config.sort_order {
        SortOrder::Desc => (),
        _ => panic!("默认排序应该是降序"),
    }
}

#[test]
fn appdata_analyzer_test_format_size() {
    assert_eq!(AppDataAnalyzer::format_size(0), "0 B");
    assert_eq!(AppDataAnalyzer::format_size(1024), "1.00 KB");
    assert_eq!(AppDataAnalyzer::format_size(1024 * 1024), "1.00 MB");
    assert_eq!(AppDataAnalyzer::format_size(1024 * 1024 * 1024), "1.00 GB");
}

#[test]
fn test_appdata_first_level_item() {
    let item = AppDataFirstLevelItem {
        path: "C:\\Users\\Test\\AppData\\Local\\TestApp".to_string(),
        name: "TestApp".to_string(),
        size: 2 * 1024 * 1024 * 1024,
        item_type: "directory".to_string(),
        parent_type: "Local".to_string(),
        is_large: true,
        size_percentage: share(50),
    };

    assert_eq!(item.name, "TestApp");
    assert_eq!(item.size, 2147483648);
    assert!(item.is_large);
    assert_eq!(item.parent_type, "Local");
}

#[test]
fn appdata_analyzer_test_get_appdata_path() {
    let result = AppDataAnalyzer::get_appdata_path(&Ok("C:\\Users\\Someone".to_string()), true, true);
    match result {
        Ok(path) => {
            assert!(path.contains("AppData"), "路径应该包含AppData");
        }
        Err(e) => {
            println!("获取AppData路径失败（这可能是预期的）: {}", e);
        }
    }
}

#[test]
fn appdata_analyzer_tests_test_get_appdata_path() {
    let result = AppDataAnalyzer::get_appdata_path(&Ok("C:\\Users\\Test".to_string()), true, true);
    match result {
        Ok(path) => {
            assert!(path.contains("AppData"), "路径应该包含AppData");
            assert_eq!(path, "C:\\Users\\Test\\AppData");
        }
        Err(e) => panic!("unexpected failure: {}", e),
    }
    let missing = AppDataAnalyzer::get_appdata_path(&Ok("/home/test".to_string()), false, false);
    assert_eq!(missing, Err("AppData目录不存在: /home/test/AppData".to_string()));
    let unset = AppDataAnalyzer::get_appdata_path(&Err("not set".to_string()), false, false);
    assert_eq!(unset, Err("无法获取用户目录: not set".to_string()));
}

#[test]
fn appdata_analyzer_tests_test_appdata_config_default() {
    let config = AppDataConfig::default();

    assert_eq!(config.min_size_threshold, 1024 * 1024 * 1024, "默认最小大小阈值应该是1GB");
    assert_eq!(config.max_depth, 2, "默认最大深度应该是2层");
    match config.sort_order {
        SortOrder::Desc => (),
        _ => panic!("默认排序应该是降序"),
    }
}

#[test]
fn test_appdata_analyzer_creation() {
    let _analyzer = AppDataAnalyzer::new();
}

#[test]
fn test_appdata_analyzer_config() {
    let mut analyzer = AppDataAnalyzer::new();

    let custom_config = AppDataConfig {
        min_size_threshold: 500 * 1024 * 1024,
        max_depth: 3,
        sort_order: SortOrder::Asc,
    };

    analyzer.set_config(custom_config.clone());
}

#[test]
fn appdata_analyzer_tests_test_format_size() {
    assert_eq!(AppDataAnalyzer::format_size(0), "0 B");
    assert_eq!(AppDataAnalyzer::format_size(1024), "1.00 KB");
    assert_eq!(AppDataAnalyzer::format_size(1024 * 1024), "1.00 MB");
    assert_eq!(AppDataAnalyzer::format_size(1024 * 1024 * 1024), "1.00 GB");
    assert_eq!(AppDataAnalyzer::format_size(5 * 1024 * 1024 * 1024), "5.00 GB");
}

#[test]
fn test_error_handling() {
    let non_existent_path = Path::new("/non/existent/path");
    assert!(!non_existent_path.exists(), "路径应该不存在");
}

#[test]
fn test_memory_usage() {
    let _analyzer = AppDataAnalyzer::new();

    for i in 0..100 {
        let config = AppDataConfig {
            min_size_threshold: i * 1024 * 1024,
            max_depth: (i % 10) as usize,
            sort_order: if i % 2 == 0 { SortOrder::Asc } else { SortOrder::Desc },
        };

        let mut test_analyzer = AppDataAnalyzer::new();
        test_analyzer.set_config(config);
    }
}

#[test]
fn test_dynamic_sorting_functionality() {
    let mut items = vec![
        item("path1", "SmallApp", 100 * 1024 * 1024, "directory", "Local", false, 10),
        item("path2", "LargeApp", 2 * 1024 * 1024 * 1024, "directory", "Roaming", true, 50),
        item("path3", "MediumApp", 500 * 1024 * 1024, "file", "LocalLow", false, 25),
    ];

    sort_items(&mut items, SortOrder::Desc);
    assert_eq!(items[0].name, "LargeApp", "降序排序：最大的项目应该在第一个");
    assert_eq!(items[1].name, "MediumApp", "降序排序：中等项目应该在第二个");
    assert_eq!(items[2].name, "SmallApp", "降序排序：最小项目应该在最后");

    sort_items(&mut items, SortOrder::Asc);
    assert_eq!(items[0].name, "SmallApp", "升序排序：最小项目应该在第一个");
    assert_eq!(items[1].name, "MediumApp", "升序排序：中等项目应该在第二个");
    assert_eq!(items[2].name, "LargeApp", "升序排序：最大项目应该在最后");

    items.sort_by(|a, b| a.name.cmp(&b.name));
    assert_eq!(items[0].name, "LargeApp", "按名称排序：LargeApp");
    assert_eq!(items[1].name, "MediumApp", "按名称排序：MediumApp");
    assert_eq!(items[2].name, "SmallApp", "按名称排序：SmallApp");
}

#[test]
fn test_migration_support() {
    let migration_options = AppDataMigrationOptions {
        source_items: vec![
            "C:\\Users\\Test\\AppData\\Local\\LargeApp".to_string(),
            "C:\\Users\\Test\\AppData\\Roaming\\ConfigApp".to_string(),
        ],
        target_drive: "D:".to_string(),
        create_symlink: true,
        delete_source: false,
    };

    assert_eq!(migration_options.source_items.len(), 2, "应该有两个源项目");
    assert_eq!(migration_options.target_drive, "D:", "目标盘符应该是D:");
    assert!(migration_options.create_symlink, "应该创建符号链接");
    assert!(!migration_options.delete_source, "不应该删除源文件");

    let empty_migration = AppDataMigrationOptions {
        source_items: vec![],
        target_drive: "E:".to_string(),
        create_symlink: false,
        delete_source: true,
    };

    assert_eq!(empty_migration.source_items.len(), 0, "空源项目列表");
}

#[test]
fn test_error_scenarios() {
    let non_existent_path = Path::new("/non/existent/path/that/should/not/exist");
    assert!(!non_existent_path.exists(), "路径应该不存在");

    let invalid_paths = vec!["", "   ", "///invalid///path///", "C:\\Windows\\System32\\..\\..\\..\\"];

    for invalid_path in invalid_paths {
        let path = Path::new(invalid_path);
        if path.exists() {
            println!("意外存在的路径: {}", invalid_path);
        }
    }

    let invalid_config = AppDataConfig {
        min_size_threshold: 0,
        max_depth: 0,
        sort_order: SortOrder::Desc,
    };

    assert_eq!(invalid_config.min_size_threshold, 0);
    assert_eq!(invalid_config.max_depth, 0);
}

#[test]
fn test_one_gb_filtering() {
    let items = vec![
        item("large_app", "LargeApp", 2 * 1024 * 1024 * 1024, "directory", "Local", true, 67),
        item("medium_app", "MediumApp", 500 * 1024 * 1024, "directory", "Roaming", false, 17),
        item("small_app", "SmallApp", 100 * 1024 * 1024, "file", "LocalLow", false, 3),
    ];

    let large_items = select_large(&items, 1024 * 1024 * 1024);

    assert_eq!(large_items.len(), 1, "应该只有1个大项目");
    assert_eq!(large_items[0].name, "LargeApp", "大项目应该是LargeApp");

    for item in &items {
        if item.size >= 1024 * 1024 * 1024 {
            assert!(item.is_large, "大于1GB的项目应该标记为is_large");
        } else {
            assert!(!item.is_large, "小于1GB的项目不应该标记为is_large");
        }
    }
}

#[test]
fn test_path_validation_and_security() {
    let malicious_paths = vec![
        "C:\\Users\\Test\\..\\..\\Windows\\System32",
        "C:\\Users\\Test\\AppData\\..\\..\\..\\",
        "C:\\Users\\Test\\AppData\\Local\\..\\..\\..\\Windows",
    ];

    for malicious_path in malicious_paths {
        let _path = Path::new(malicious_path);
        assert!(malicious_path.contains(".."), "恶意路径应该包含父目录引用");
    }

    let reserved_names = vec!["CON", "PRN", "AUX", "NUL", "COM1", "LPT1"];
    for reserved_name in reserved_names {
        assert!(reserved_name.len() <= 4, "保留名称通常较短");
    }
}

#[test]
fn test_performance_requirements_nfr2() {
    let start_time = std::time::Instant::now();

    let mut items = Vec::new();
    for i in 0..1000 {
        let size = (i as u64 + 1) * 10 * 1024 * 1024;
        let is_large = size >= 1024 * 1024 * 1024;

        items.push(AppDataFirstLevelItem {
            path: format!("path_{}", i),
            name: format!("App{}", i),
            size,
            item_type: if i % 2 == 0 { "directory".to_string() } else { "file".to_string() },
            parent_type: if i % 3 == 0 {
                "Local".to_string()
            } else if i % 3 == 1 {
                "Roaming".to_string()
            } else {
                "LocalLow".to_string()
            },
            is_large,
            size_percentage: Ratio { part: i as u64, whole: 1000 },
        });
    }

    let sort_start = std::time::Instant::now();
    items.sort_by(|a, b| b.size.cmp(&a.size));
    let sort_duration = sort_start.elapsed();

    let filter_start = std::time::Instant::now();
    let large_items: Vec<_> = items.iter().filter(|item| item.size >= 1024 * 1024 * 1024).collect();
    let filter_duration = filter_start.elapsed();

    let total_duration = start_time.elapsed();

    assert!(sort_duration.as_millis() < 100, "排序操作应该在100ms内完成");
    assert!(filter_duration.as_millis() < 50, "筛选操作应该在50ms内完成");
    assert!(total_duration.as_millis() < 500, "总体操作应该在500ms内完成");

    assert_eq!(large_items.len(), 898, "应该有898个大项目");
    assert_eq!(items[0].name, "App999", "最大的项目应该是App999");

    let expected_large_count = items.iter().filter(|item| item.is_large).count();
    assert_eq!(expected_large_count, 898, "应该有898个项目标记为is_large");
}

#[test]
fn test_memory_usage_limits() {
    let mut analyzer = AppDataAnalyzer::new();

    for i in 0..100 {
        let config = AppDataConfig {
            min_size_threshold: (i + 1) * 10 * 1024 * 1024,
            max_depth: (i as usize % 5) + 1,
            sort_order: if i % 2 == 0 { SortOrder::Asc } else { SortOrder::Desc },
        };

        analyzer.set_config(config);
    }

    let mut items = Vec::new();
    for i in 0..10000 {
        items.push(AppDataFirstLevelItem {
            path: format!("C:\\Users\\Test\\AppData\\Local\\App{}", i),
            name: format!("App{}", i),
            size: (i as u64 + 1) * 1024 * 1024,
            item_type: "directory".to_string(),
            parent_type: "Local".to_string(),
            is_large: i >= 1000,
            size_percentage: Ratio { part: i as u64, whole: 10000 },
        });
    }

    assert!(items.len() == 10000, "应该创建了10000个项目");

    let mut sorted_items = items.clone();
    sorted_items.sort_by(|a, b| b.size.cmp(&a.size));

    let filtered_items: Vec<_> = sorted_items.iter().filter(|item| item.is_large).collect();

    assert_eq!(filtered_items.len(), 9000, "应该有9000个大项目");
}

#[test]
fn test_code_coverage_sc4() {
    let _analyzer = AppDataAnalyzer::new();
    let config = AppDataConfig::default();

    assert_eq!(config.min_size_threshold, 1024 * 1024 * 1024);
    assert_eq!(config.max_depth, 2);

    assert_eq!(AppDataAnalyzer::format_size(0), "0 B");
    assert_eq!(AppDataAnalyzer::format_size(1024), "1.00 KB");
    assert_eq!(AppDataAnalyzer::format_size(1024 * 1024), "1.00 MB");
    assert_eq!(AppDataAnalyzer::format_size(1024 * 1024 * 1024), "1.00 GB");

    let item = AppDataFirstLevelItem {
        path: "test_path".to_string(),
        name: "test_name".to_string(),
        size: 1024,
        item_type: "directory".to_string(),
        parent_type: "Local".to_string(),
        is_large: false,
        size_percentage: share(50),
    };

    assert_eq!(item.name, "test_name");
    assert_eq!(item.size, 1024);
    assert!(!item.is_large);

    let migration_options = AppDataMigrationOptions {
        source_items: vec!["path1".to_string(), "path2".to_string()],
        target_drive: "D:".to_string(),
        create_symlink: true,
        delete_source: false,
    };

    assert_eq!(migration_options.source_items.len(), 2);
    assert_eq!(migration_options.target_drive, "D:");
}

const GIB: u64 = 1024 * 1024 * 1024;
const MIB: u64 = 1024 * 1024;

fn file_item(name: &str, size: u64) -> ItemSnapshot {
    ItemSnapshot {
        name: name.to_string(),
        entry: EntrySnapshot::File { cancel_seen: false, name: name.to_string(), size: Ok(size) },
    }
}

fn dir_item(bucket: &str, name: &str, size: u64) -> ItemSnapshot {
    let path = format!("{}/{}", bucket, name);
    ItemSnapshot {
        name: name.to_string(),
        entry: EntrySnapshot::Directory {
            cancel_seen: false,
            tree: DirSnapshot {
                path,
                name: Some(name.to_string()),
                cancel_seen: false,
                listing: Listing::Entries(vec![EntrySnapshot::File {
                    cancel_seen: false,
                    name: "data.dat".to_string(),
                    size: Ok(size),
                }]),
                last_modified: None,
            },
        },
    }
}

fn bucket(path: &str) -> BucketSnapshot {
    BucketSnapshot {
        path: path.to_string(),
        entries: Some(vec![
            file_item("small.bin", 50 * MIB),
            dir_item(path, "Huge", 2 * GIB),
            file_item("medium.bin", 500 * MIB),
        ]),
    }
}

fn three_buckets() -> AppDataSnapshot {
    AppDataSnapshot {
        local: bucket("/u/AppData/Local"),
        local_low: bucket("/u/AppData/LocalLow"),
        roaming: bucket("/u/AppData/Roaming"),
    }
}

#[test]
fn appdata_scan_reports_three_buckets() {
    let mut analyzer = AppDataAnalyzer::new();
    let info = analyzer.scan_appdata(&Ok(three_buckets()), 1000, 42, false).unwrap();
    assert_eq!(info.first_level_items.len(), 9);
    assert_eq!(info.large_items.len(), 3);
    for pair in info.first_level_items.windows(2) {
        assert!(pair[0].size >= pair[1].size);
    }
    for large in &info.large_items {
        assert_eq!(large.size, 2 * GIB);
        assert!(large.is_large);
        assert_eq!(large.item_type, "directory");
    }
    let bucket_size = 2 * GIB + 550 * MIB;
    assert_eq!(info.local_size, bucket_size);
    assert_eq!(info.local_low_size, bucket_size);
    assert_eq!(info.roaming_size, bucket_size);
    assert_eq!(info.total_size, 3 * bucket_size);
    assert_eq!(info.local_path, "/u/AppData/Local");
    assert_eq!(info.scan_time_ms, 42);
    // equal sizes keep the order Local, LocalLow, Roaming
    assert_eq!(info.first_level_items[0].parent_type, "Local");
    assert_eq!(info.first_level_items[1].parent_type, "LocalLow");
    assert_eq!(info.first_level_items[2].parent_type, "Roaming");
}

#[test]
fn every_item_belongs_to_its_bucket() {
    let mut analyzer = AppDataAnalyzer::new();
    let snapshot = three_buckets();
    let info = analyzer.scan_appdata(&Ok(three_buckets()), 1000, 0, false).unwrap();
    for item in &info.first_level_items {
        let bucket_path = match item.parent_type.as_str() {
            "Local" => &snapshot.local.path,
            "LocalLow" => &snapshot.local_low.path,
            "Roaming" => &snapshot.roaming.path,
            other => panic!("unexpected bucket {}", other),
        };
        assert!(item.path.starts_with(bucket_path.as_str()));
        assert_eq!(item.path, format!("{}/{}", bucket_path, item.name));
        assert_eq!(item.size_percentage.part, item.size);
        assert_eq!(item.size_percentage.whole, 2 * GIB + 550 * MIB);
    }
}

#[test]
fn ascending_order_is_honoured() {
    let mut analyzer = AppDataAnalyzer::new();
    analyzer.set_config(AppDataConfig {
        min_size_threshold: 100 * MIB,
        max_depth: 2,
        sort_order: SortOrder::Asc,
    });
    let info = analyzer.scan_appdata(&Ok(three_buckets()), 5, 0, false).unwrap();
    for pair in info.first_level_items.windows(2) {
        assert!(pair[0].size <= pair[1].size);
    }
    assert_eq!(info.large_items.len(), 6);
}

#[test]
fn kept_scan_is_reported_while_fresh() {
    let mut analyzer = AppDataAnalyzer::new();
    assert!(analyzer.cached_report(10).is_none());
    let first = analyzer.scan_appdata(&Ok(three_buckets()), 1000, 42, false).unwrap();
    let cached = analyzer.cached_report(1299).expect("fresh after 299 seconds");
    assert_eq!(cached.first_level_items.len(), 9);
    assert_eq!(cached.total_size, first.total_size);
    assert_eq!(cached.scan_time_ms, 0);
    assert_eq!(cached.local_path, "");
    assert_eq!(cached.large_items.len(), 3);
    assert!(analyzer.cached_report(1300).is_none());
    let again = analyzer.scan_appdata(&Err("gone".to_string()), 1100, 7, false).unwrap();
    assert_eq!(again.scan_time_ms, 0);
    let later = analyzer.scan_appdata(&Err("gone".to_string()), 1300, 7, false);
    assert_eq!(later.err(), Some("gone".to_string()));
}

#[test]
fn missing_bucket_and_unreadable_entries_are_passed_over() {
    let mut analyzer = AppDataAnalyzer::new();
    let snapshot = AppDataSnapshot {
        local: BucketSnapshot { path: "/a/Local".to_string(), entries: None },
        local_low: BucketSnapshot {
            path: "/a/LocalLow".to_string(),
            entries: Some(vec![
                ItemSnapshot {
                    name: "broken".to_string(),
                    entry: EntrySnapshot::Unreadable { cancel_seen: false, reason: "io".to_string() },
                },
                ItemSnapshot {
                    name: "nometa".to_string(),
                    entry: EntrySnapshot::File {
                        cancel_seen: false,
                        name: "nometa".to_string(),
                        size: Err("denied".to_string()),
                    },
                },
                file_item("ok", 7),
            ]),
        },
        roaming: BucketSnapshot { path: "/a/Roaming".to_string(), entries: Some(vec![]) },
    };
    let info = analyzer.scan_appdata(&Ok(snapshot), 0, 0, false).unwrap();
    assert_eq!(info.first_level_items.len(), 1);
    assert_eq!(info.first_level_items[0].name, "ok");
    assert_eq!(info.first_level_items[0].item_type, "file");
    assert_eq!(info.total_size, 7);
    assert_eq!(info.local_size, 0);
}

#[test]
fn streaming_scan_tells_items_then_buckets_then_the_whole() {
    let analyzer = AppDataAnalyzer::new();
    let events = analyzer.scan_appdata_streaming(&Ok(three_buckets()), false);
    assert_eq!(events.len(), 3 * 4 + 1);
    match &events[0] {
        ScanEvent::ItemFound(item) => assert_eq!(item.name, "Huge"),
        other => panic!("unexpected {:?}", other),
    }
    match &events[3] {
        ScanEvent::BucketDone { bucket, bytes, count } => {
            assert_eq!(bucket, "Local");
            assert_eq!(*bytes, 2 * GIB + 550 * MIB);
            assert_eq!(*count, 3);
        }
        other => panic!("unexpected {:?}", other),
    }
    match &events[12] {
        ScanEvent::ScanComplete { total_size, total_items } => {
            assert_eq!(*total_size, 3 * (2 * GIB + 550 * MIB));
            assert_eq!(*total_items, 9);
        }
        other => panic!("unexpected {:?}", other),
    }
    let failed = analyzer.scan_appdata_streaming(&Err("no root".to_string()), false);
    assert_eq!(failed.len(), 1);
    assert!(matches!(&failed[0], ScanEvent::ScanError(m) if m == "no root"));
}

#[test]
fn lenient_size_skips_what_cannot_be_read() {
    let tree = DirSnapshot {
        path: "/d".to_string(),
        name: Some("d".to_string()),
        cancel_seen: false,
        listing: Listing::Entries(vec![
            EntrySnapshot::File { cancel_seen: false, name: "a".to_string(), size: Ok(5) },
            EntrySnapshot::Unreadable { cancel_seen: false, reason: "x".to_string() },
            EntrySnapshot::Directory {
                cancel_seen: false,
                tree: DirSnapshot {
                    path: "/d/e".to_string(),
                    name: Some("e".to_string()),
                    cancel_seen: false,
                    listing: Listing::Denied("denied".to_string()),
                    last_modified: None,
                },
            },
        ]),
        last_modified: None,
    };
    assert_eq!(AppDataAnalyzer::get_directory_size_sync(&tree), Ok(5));
    let entry = EntrySnapshot::Directory { cancel_seen: false, tree };
    assert_eq!(AppDataAnalyzer::get_item_info_sync(&entry), Ok((5, "directory".to_string())));
    let unknown = EntrySnapshot::Unreadable { cancel_seen: false, reason: "?".to_string() };
    assert_eq!(AppDataAnalyzer::get_item_info_sync(&unknown), Err("未知项目类型".to_string()));
    let _ = AppDataBucket::Local;
}

#[test]
fn a_changed_configuration_drops_the_kept_scan() {
    let mut analyzer = AppDataAnalyzer::new();
    let first = analyzer.scan_appdata(&Ok(three_buckets()), 1000, 0, false).unwrap();
    assert_eq!(first.large_items.len(), 3);
    assert!(first.first_level_items.windows(2).all(|p| p[0].size >= p[1].size));

    analyzer.set_config(AppDataConfig::default());
    assert!(analyzer.cached_report(1001).is_some());

    let changed = AppDataConfig { min_size_threshold: 100 * MIB, max_depth: 2, sort_order: SortOrder::Asc };
    analyzer.set_config(changed);
    assert!(analyzer.cached_report(1001).is_none());
    assert_eq!(
        analyzer.scan_appdata(&Err("gone".to_string()), 1001, 0, false).err(),
        Some("gone".to_string())
    );
    let second = analyzer.scan_appdata(&Ok(three_buckets()), 1002, 0, false).unwrap();
    assert_eq!(second.large_items.len(), 6);
    assert!(second.first_level_items.windows(2).all(|p| p[0].size <= p[1].size));
    for item in &second.first_level_items {
        assert_eq!(item.is_large, item.size >= 100 * MIB);
    }
    let kept = analyzer.cached_report(1003).expect("kept under the same configuration");
    assert_eq!(kept.large_items.len(), 6);
    for item in &kept.first_level_items {
        assert_eq!(item.is_large, item.size >= 100 * MIB);
    }
}
