use dir_mover::disk_analyzer::{
    calculate_directory_size, format_file_size, get_size_percentage, scan_tree, DiskAnalyzer, Measured,
};
use dir_mover::scan_model::{DirSnapshot, EntrySnapshot, Listing, ScanSettings};

fn file(name: &str, size: u64) -> EntrySnapshot {
    EntrySnapshot::File { cancel_seen: false, name: name.to_string(), size: Ok(size) }
}

fn dir(path: &str, entries: Vec<EntrySnapshot>) -> DirSnapshot {
    let name = path.rsplit('/').next().unwrap_or("").to_string();
    DirSnapshot {
        path: path.to_string(),
        name: if name.is_empty() { None } else { Some(name) },
        cancel_seen: false,
        listing: Listing::Entries(entries),
        last_modified: Some(1_700_000_000),
    }
}

fn sub(tree: DirSnapshot) -> EntrySnapshot {
    EntrySnapshot::Directory { cancel_seen: false, tree }
}

fn sample_tree() -> DirSnapshot {
    dir(
        "/tmp/a",
        vec![file("f1", 100), file("f2", 100), sub(dir("/tmp/a/sub", vec![file("f3", 100)]))],
    )
}

fn generic(max_depth: usize, threshold: u64) -> ScanSettings {
    ScanSettings {
        max_depth,
        large_folder_threshold: threshold,
        guard_system_paths: false,
        reduced_root_limit: false,
    }
}

#[test]
fn test_format_file_size() {
    assert_eq!(format_file_size(0), "0 B");
    assert_eq!(format_file_size(1023), "1023 B");
    assert_eq!(format_file_size(1024), "1.00 KB");
    assert_eq!(format_file_size(1536), "1.50 KB");
    assert_eq!(format_file_size(1024 * 1024), "1.00 MB");
    assert_eq!(format_file_size(1024 * 1024 * 1024), "1.00 GB");
}

#[test]
fn test_get_size_percentage() {
    let percent = |size: u64, total: u64| {
        let r = get_size_percentage(size, total);
        if r.whole == 0 { 0.0 } else { (r.part as f64 / r.whole as f64) * 100.0 }
    };
    assert_eq!(percent(0, 100), 0.0);
    assert_eq!(percent(50, 100), 50.0);
    assert_eq!(percent(100, 100), 100.0);
    assert_eq!(percent(25, 100), 25.0);
    assert_eq!(percent(5, 0), 0.0);
}

#[test]
fn sizes_round_half_to_even_and_stop_at_pebibytes() {
    assert_eq!(format_file_size(1), "1 B");
    assert_eq!(format_file_size(1152), "1.12 KB");
    assert_eq!(format_file_size(1029), "1.00 KB");
    assert_eq!(format_file_size(1030), "1.01 KB");
    assert_eq!(format_file_size(1024 * 1024 - 1), "1024.00 KB");
    assert_eq!(format_file_size(1u64 << 40), "1.00 TB");
    assert_eq!(format_file_size(1u64 << 50), "1.00 PB");
    assert_eq!(format_file_size(u64::MAX), "16384.00 PB");
}

#[test]
fn basic_scan_sizes_the_tree() {
    let mut analyzer = DiskAnalyzer::new();
    analyzer.set_max_depth(3);
    let info = analyzer.scan_directory(&sample_tree(), 10, 12).unwrap();
    assert_eq!(info.path, "/tmp/a");
    assert_eq!(info.name, "a");
    assert_eq!(info.size, 300);
    // three files and one directory
    assert_eq!(info.file_count, 4);
    assert_eq!(info.subdirectories.len(), 1);
    assert_eq!(info.subdirectories[0].name, "sub");
    assert_eq!(info.subdirectories[0].size, 100);
    assert_eq!(info.subdirectories[0].file_count, 1);
    assert_eq!(info.subdirectories[0].size_percentage.part, 100);
    assert_eq!(info.subdirectories[0].size_percentage.whole, 300);
    assert_eq!(info.size_percentage.whole, 0);
    assert_eq!(info.last_modified, Some(1_700_000_000));
}

#[test]
fn directories_beyond_the_depth_limit_are_empty_leaves() {
    let mut analyzer = DiskAnalyzer::new();
    analyzer.set_max_depth(0);
    let info = analyzer.scan_directory(&sample_tree(), 0, 0).unwrap();
    assert_eq!(info.size, 200);
    assert_eq!(info.file_count, 3);
    assert_eq!(info.subdirectories.len(), 1);
    let leaf = &info.subdirectories[0];
    assert_eq!(leaf.name, "sub");
    assert_eq!(leaf.path, "/tmp/a/sub");
    assert_eq!(leaf.size, 0);
    assert_eq!(leaf.file_count, 0);
    assert!(leaf.subdirectories.is_empty());
    assert!(!leaf.is_large_folder);
    assert_eq!(leaf.last_modified, None);

    analyzer.set_max_depth(1);
    let deeper = analyzer.scan_directory(&sample_tree(), 0, 0).unwrap();
    assert_eq!(deeper.size, 300);
}

#[test]
fn depth_bound_holds_on_a_chain() {
    // a chain of five directories, each with one file of ten bytes
    let mut tree = dir("/r/1/2/3/4", vec![file("f", 10)]);
    for path in ["/r/1/2/3", "/r/1/2", "/r/1", "/r"] {
        tree = dir(path, vec![file("f", 10), sub(tree)]);
    }
    for k in 0..6usize {
        let info = scan_tree(&generic(k, u64::MAX), &tree, 0).unwrap();
        let mut node = &info;
        let mut level = 0usize;
        while !node.subdirectories.is_empty() {
            node = &node.subdirectories[0];
            level += 1;
        }
        assert!(level <= k + 1);
        if level == k + 1 {
            assert_eq!(node.size, 0);
            assert_eq!(node.file_count, 0);
        }
        let opened = std::cmp::min(k + 1, 5) as u64;
        assert_eq!(info.size, 10 * opened);
    }
}

#[test]
fn large_folders_are_flagged_and_counted() {
    let mut analyzer = DiskAnalyzer::new();
    analyzer.set_large_folder_threshold(150);
    let info = analyzer.scan_directory(&sample_tree(), 100, 160).unwrap();
    assert!(info.is_large_folder);
    assert!(!info.subdirectories[0].is_large_folder);
    let progress = analyzer.get_scan_progress();
    assert_eq!(progress.large_folders_found, 1);
    assert_eq!(progress.processed_files, 4);
    assert_eq!(progress.total_files, 4);
    assert_eq!(progress.progress.part, 4);
    assert_eq!(progress.progress.whole, 4);
    assert_eq!(progress.current_path, "/tmp/a");
    assert_eq!(progress.start_time, Some(100));
    assert_eq!(progress.scan_speed.part, 4);
    assert_eq!(progress.scan_speed.whole, 60);
}

#[test]
fn children_are_ordered_by_size_and_ties_keep_their_order() {
    let tree = dir(
        "/t",
        vec![
            sub(dir("/t/small", vec![file("a", 1)])),
            sub(dir("/t/first", vec![file("a", 5)])),
            sub(dir("/t/big", vec![file("a", 9)])),
            sub(dir("/t/second", vec![file("a", 5)])),
        ],
    );
    let info = scan_tree(&generic(3, 1000), &tree, 0).unwrap();
    let names: Vec<&str> = info.subdirectories.iter().map(|d| d.name.as_str()).collect();
    assert_eq!(names, vec!["big", "first", "second", "small"]);
    assert_eq!(info.size, 20);
    let sum: u64 = info.subdirectories.iter().map(|d| d.size).sum();
    assert_eq!(info.size, sum);
    for child in &info.subdirectories {
        assert_eq!(child.size_percentage.part, child.size);
        assert_eq!(child.size_percentage.whole, 20);
    }
}

#[test]
fn cancellation_seen_in_the_walk_ends_the_scan() {
    let mut files: Vec<EntrySnapshot> = (0..50).map(|i| file(&format!("f{}", i), 1)).collect();
    files.push(EntrySnapshot::File { cancel_seen: true, name: "late".to_string(), size: Ok(1) });
    let tree = dir("/big", files);
    let mut analyzer = DiskAnalyzer::new();
    let result = analyzer.scan_directory(&tree, 0, 1);
    assert_eq!(result.err(), Some("扫描已取消".to_string()));
    let progress = analyzer.get_scan_progress();
    assert_eq!(progress.processed_files, 0);
    assert_eq!(progress.start_time, Some(0));

    let nested = dir(
        "/n",
        vec![file("a", 1), EntrySnapshot::Directory { cancel_seen: false, tree: DirSnapshot {
            path: "/n/d".to_string(),
            name: Some("d".to_string()),
            cancel_seen: true,
            listing: Listing::Entries(vec![]),
            last_modified: None,
        } }],
    );
    assert_eq!(scan_tree(&generic(3, 10), &nested, 0).err(), Some("扫描已取消".to_string()));
}

#[test]
fn a_cancelled_scanner_refuses_until_it_is_reset() {
    let mut analyzer = DiskAnalyzer::new();
    analyzer.cancel_scan();
    assert!(analyzer.is_cancelled());
    assert_eq!(analyzer.scan_directory(&sample_tree(), 0, 0).err(), Some("扫描已取消".to_string()));
    assert_eq!(analyzer.scan_directory(&sample_tree(), 0, 0).err(), Some("扫描已取消".to_string()));
    analyzer.reset_cancel_flag();
    assert!(!analyzer.is_cancelled());
    assert_eq!(analyzer.get_scan_progress().start_time, None);
    assert!(analyzer.scan_directory(&sample_tree(), 0, 0).is_ok());
}

#[test]
fn unreadable_directories_become_empty_leaves_below_the_root() {
    let denied = DirSnapshot {
        path: "/x/denied".to_string(),
        name: Some("denied".to_string()),
        cancel_seen: false,
        listing: Listing::Denied("permission denied".to_string()),
        last_modified: Some(5),
    };
    let failed = DirSnapshot {
        path: "/x/failed".to_string(),
        name: Some("failed".to_string()),
        cancel_seen: false,
        listing: Listing::Failed("input/output error".to_string()),
        last_modified: Some(5),
    };
    let tree = dir(
        "/x",
        vec![
            sub(denied),
            sub(failed),
            EntrySnapshot::Unreadable { cancel_seen: false, reason: "gone".to_string() },
            EntrySnapshot::File { cancel_seen: false, name: "m".to_string(), size: Err("e".to_string()) },
            file("ok", 3),
        ],
    );
    let info = scan_tree(&generic(3, 10), &tree, 0).unwrap();
    assert_eq!(info.size, 3);
    assert_eq!(info.file_count, 3);
    assert_eq!(info.subdirectories.len(), 2);
    assert!(info.subdirectories.iter().all(|d| d.size == 0 && d.last_modified.is_none()));

    let root_failed = DirSnapshot {
        path: "/gone".to_string(),
        name: Some("gone".to_string()),
        cancel_seen: false,
        listing: Listing::Failed("no such directory".to_string()),
        last_modified: None,
    };
    assert_eq!(
        scan_tree(&generic(3, 10), &root_failed, 0).err(),
        Some("读取目录失败: no such directory".to_string())
    );
    let root_denied = DirSnapshot {
        path: "/secret".to_string(),
        name: None,
        cancel_seen: false,
        listing: Listing::Denied("permission denied".to_string()),
        last_modified: None,
    };
    let stub = scan_tree(&generic(3, 10), &root_denied, 0).unwrap();
    assert_eq!(stub.size, 0);
    assert_eq!(stub.name, "/secret");
}

#[test]
fn entry_limits_bound_what_is_processed() {
    let many: Vec<EntrySnapshot> = (0..1200).map(|i| file(&format!("f{}", i), 1)).collect();
    let tree = dir("C:\\data", many);
    let mut analyzer = DiskAnalyzer::new();
    let info = analyzer.scan_directory(&tree, 0, 0).unwrap();
    assert_eq!(info.size, 1000);
    assert_eq!(analyzer.entry_limit(0), 1000);
    analyzer.set_c_drive_mode(true);
    assert_eq!(analyzer.entry_limit(0), 100);
    assert_eq!(analyzer.entry_limit(1), 1000);
    let reduced = analyzer.scan_directory(&tree, 0, 0).unwrap();
    assert_eq!(reduced.size, 100);
    assert_eq!(reduced.file_count, 100);
}

#[test]
fn protected_system_paths_are_left_unopened_on_the_system_drive() {
    let windows = DirSnapshot {
        path: "c:\\windows\\System32".to_string(),
        name: Some("System32".to_string()),
        cancel_seen: false,
        listing: Listing::Entries(vec![file("kernel.dll", 500)]),
        last_modified: Some(1),
    };
    let tree = DirSnapshot {
        path: "C:\\".to_string(),
        name: None,
        cancel_seen: false,
        listing: Listing::Entries(vec![file("boot.ini", 10), sub(windows)]),
        last_modified: Some(1),
    };
    let mut analyzer = DiskAnalyzer::new();
    let info = analyzer.scan_directory(&tree, 0, 0).unwrap();
    assert_eq!(info.size, 10);
    assert_eq!(info.name, "C:\\");
    assert_eq!(info.subdirectories[0].size, 0);
    assert!(DiskAnalyzer::is_c_drive_path("c:\\Users"));
    assert!(!DiskAnalyzer::is_c_drive_path("D:\\Users"));
    assert_eq!(DiskAnalyzer::get_c_drive_path(), "C:\\");
    // the same tree in the generic profile is opened
    let opened = analyzer.scan_directory_recursive(&tree, 0).unwrap();
    assert_eq!(opened.size, 510);
}

#[test]
fn progress_never_runs_backwards() {
    let mut analyzer = DiskAnalyzer::new();
    analyzer.update_progress("/a", 300, 1000, 0);
    analyzer.update_progress("/b", 100, 1000, 0);
    let p = analyzer.get_scan_progress();
    assert_eq!(p.processed_files, 300);
    assert_eq!(p.total_files, 1000);
    assert_eq!(p.current_path, "/b");
    analyzer.update_progress("/c", 2000, 1000, 0);
    let p = analyzer.get_scan_progress();
    assert_eq!(p.processed_files, 2000);
    assert_eq!(p.total_files, 2000);
    assert_eq!(p.progress.whole_percent(), 100);
    analyzer.update_directory_progress("/c/d", 3, 10);
    analyzer.increment_large_folders_found();
    let p = analyzer.get_scan_progress();
    assert_eq!(p.current_directory, "/c/d");
    assert_eq!(p.processed_directories, 3);
    assert_eq!(p.total_directories, 10);
    assert_eq!(p.large_folders_found, 1);
    assert!(DiskAnalyzer::publishes_at(100));
    assert!(!DiskAnalyzer::publishes_at(101));
}

#[test]
fn remaining_time_follows_from_speed() {
    let mut analyzer = DiskAnalyzer::new();
    let tree = dir("/p", vec![]);
    analyzer.scan_directory(&tree, 1000, 1000).unwrap();
    analyzer.update_progress("/p", 200, 1000, 1010);
    let p = analyzer.get_scan_progress();
    assert_eq!(p.scan_speed.part, 200);
    assert_eq!(p.scan_speed.whole, 10);
    assert_eq!(p.scan_speed.whole_quotient(), 20);
    // 800 entries left at 20 entries a second
    assert_eq!(p.estimated_time_remaining, 40);
    assert_eq!(p.progress.whole_percent(), 20);
}

#[test]
fn whole_size_fails_on_the_first_thing_unread() {
    assert_eq!(calculate_directory_size(&sample_tree()), Ok(300));
    let broken = dir(
        "/b",
        vec![file("a", 1), EntrySnapshot::Unreadable { cancel_seen: false, reason: "bad".to_string() }],
    );
    assert_eq!(calculate_directory_size(&broken), Err("读取条目失败: bad".to_string()));
    let nometa = dir(
        "/b",
        vec![EntrySnapshot::File { cancel_seen: false, name: "x".to_string(), size: Err("m".to_string()) }],
    );
    assert_eq!(calculate_directory_size(&nometa), Err("获取文件元数据失败: m".to_string()));
    let saturating = dir("/s", vec![file("a", u64::MAX), file("b", 5)]);
    assert_eq!(calculate_directory_size(&saturating), Ok(u64::MAX));
}

#[test]
fn brief_information_holds_the_whole_size_only() {
    let mut analyzer = DiskAnalyzer::new();
    analyzer.set_large_folder_threshold(250);
    let info = analyzer.get_directory_info(&Measured::Directory(sample_tree())).unwrap();
    assert_eq!(info.size, 300);
    assert_eq!(info.file_count, 0);
    assert!(info.subdirectories.is_empty());
    assert!(info.is_large_folder);
    let file_info = analyzer
        .get_directory_info(&Measured::File {
            path: "/f.bin".to_string(),
            name: Some("f.bin".to_string()),
            length: 7,
            last_modified: Some(3),
        })
        .unwrap();
    assert_eq!(file_info.size, 7);
    assert!(!file_info.is_large_folder);
    let missing = analyzer.get_directory_info(&Measured::Unavailable("not found".to_string()));
    assert_eq!(missing.err(), Some("获取目录元数据失败: not found".to_string()));
    let copy = info.clone();
    assert_eq!(copy.size, info.size);
    assert_eq!(copy.path, info.path);
}

#[test]
fn cancellation_seen_deep_in_the_tree_ends_the_scan() {
    let cancelled = "扫描已取消".to_string();
    let many = |prefix: &str| -> Vec<EntrySnapshot> { (0..100).map(|i| file(&format!("{}{}", prefix, i), 1)).collect() };
    let mut deep_entries = many("x");
    deep_entries.push(EntrySnapshot::File { cancel_seen: true, name: "late".to_string(), size: Ok(1) });
    deep_entries.extend(many("y"));
    let deep = dir("/r/a/b/c", deep_entries);
    let mut level_b = many("b");
    level_b.push(sub(deep));
    let mut level_a = many("a");
    level_a.push(sub(dir("/r/a/b", level_b)));
    let mut top = many("t");
    top.push(sub(dir("/r/a", level_a)));
    top.extend(many("u"));
    let tree = dir("/r", top);

    let mut analyzer = DiskAnalyzer::new();
    assert_eq!(analyzer.scan_directory(&tree, 0, 1).err(), Some(cancelled.clone()));
    assert_eq!(analyzer.get_scan_progress().processed_files, 0);
    assert_eq!(scan_tree(&generic(3, 10), &tree, 0).err(), Some(cancelled.clone()));
    assert_eq!(scan_tree(&generic(10, 10), &tree, 0).err(), Some(cancelled));
    // Beyond the depth limit the directory is not opened, and what the walk saw in it is not looked at.
    let shallow = scan_tree(&generic(2, 10), &tree, 0).expect("the mark lies below the limit");
    assert_eq!(shallow.size, 400);
}
