use dir_mover::file_operations::{
    FileOperationError, FileOperationResult, FsStep, MigrationPathFacts, PathShape, SourceFacts,
};
use dir_mover::migration_pipeline::{
    validate_migration_options, LinkFacts, MigrationAction, MigrationEvent, MigrationPhase,
};
use dir_mover::migration_service::{
    difference_message, sizes_agree, MigrationOptions, MigrationService, PermissionFacts,
    PreCheckFacts, SpaceFacts, VerifyFacts,
};
use dir_mover::path_safety::PathProbe;
use dir_mover::scan_model::{DirSnapshot, EntrySnapshot, Listing};

fn options(create_symlink: bool, delete_source: bool) -> MigrationOptions {
    MigrationOptions {
        source_path: "/data/src".to_string(),
        target_path: "/mnt/dst".to_string(),
        create_symlink,
        delete_source,
    }
}

fn file(name: &str, size: u64) -> EntrySnapshot {
    EntrySnapshot::File { cancel_seen: false, name: name.to_string(), size: Ok(size) }
}

fn dir(path: &str, name: &str, entries: Vec<EntrySnapshot>) -> DirSnapshot {
    DirSnapshot {
        path: path.to_string(),
        name: Some(name.to_string()),
        cancel_seen: false,
        listing: Listing::Entries(entries),
        last_modified: None,
    }
}

fn tree(root: &str) -> DirSnapshot {
    dir(
        root,
        "x",
        vec![
            file("file1", 10),
            EntrySnapshot::Directory {
                cancel_seen: false,
                tree: dir(&format!("{}/sub", root), "sub", vec![file("file2", 10)]),
            },
        ],
    )
}

fn finished(action: MigrationAction) -> dir_mover::migration_service::MigrationResult {
    match action {
        MigrationAction::Finish(r) => r,
        other => panic!("not finished: {:?}", other),
    }
}

#[test]
fn test_validate_migration_options() {
    let options = MigrationOptions {
        source_path: "/path/to/source".to_string(),
        target_path: "/path/to/target".to_string(),
        create_symlink: true,
        delete_source: true,
    };

    assert!(validate_migration_options(&options, &None, &None).is_ok());

    let invalid_options = MigrationOptions {
        source_path: "".to_string(),
        target_path: "/path/to/target".to_string(),
        create_symlink: true,
        delete_source: true,
    };

    assert!(validate_migration_options(&invalid_options, &None, &None).is_err());
}

#[test]
fn options_are_refused_with_their_reason() {
    let mut o = options(false, false);
    o.source_path = String::new();
    assert_eq!(validate_migration_options(&o, &None, &None), Err("源路径不能为空".to_string()));
    o = options(false, false);
    o.target_path = String::new();
    assert_eq!(validate_migration_options(&o, &None, &None), Err("目标路径不能为空".to_string()));
    o.target_path = o.source_path.clone();
    assert_eq!(validate_migration_options(&o, &None, &None), Err("源路径和目标路径不能相同".to_string()));
    o = options(false, false);
    let same = Some("/real".to_string());
    assert_eq!(validate_migration_options(&o, &same, &same), Err("源路径和目标路径指向同一位置".to_string()));
    assert_eq!(validate_migration_options(&o, &same, &None), Ok(()));
}

#[test]
fn a_plain_migration_runs_through_its_phases() {
    let service = MigrationService::new();
    let mut run = service.migrate_folder(options(false, false));
    assert_eq!(run.phase(), MigrationPhase::Start);
    assert!(matches!(run.step(&MigrationEvent::Begin), MigrationAction::RunPreCheck));
    assert!(matches!(run.step(&MigrationEvent::checked(&Ok(()))), MigrationAction::CopyTree));
    let copied: Result<FileOperationResult, FileOperationError> = Ok(FileOperationResult {
        success: true,
        message: "目录复制成功 (文件: 1, 目录: 1)".to_string(),
        source_path: "/data/src".to_string(),
        target_path: Some("/mnt/dst".to_string()),
    });
    assert!(matches!(run.step(&MigrationEvent::copied(&copied)), MigrationAction::VerifyCopy));
    let result = finished(run.step(&MigrationEvent::verified(&Ok(()))));
    assert!(result.success);
    assert_eq!(result.message, "迁移成功完成");
    assert_eq!(result.source_path, "/data/src");
    assert_eq!(result.target_path, "/mnt/dst");
    assert_eq!(result.symlink_path, None);
    assert_eq!(run.phase(), MigrationPhase::Done);
    // a finished run stays finished
    let again = finished(run.step(&MigrationEvent::SourceDeleted));
    assert!(again.success);
}

#[test]
fn the_source_is_deleted_only_when_asked_and_not_renamed() {
    let service = MigrationService::new();
    let drive = |create_symlink: bool, delete_source: bool, renamed: bool| -> Vec<String> {
        let mut run = service.migrate_folder(options(create_symlink, delete_source));
        let mut seen = Vec::new();
        let mut action = run.step(&MigrationEvent::Begin);
        for _ in 0..10 {
            let event = match &action {
                MigrationAction::RunPreCheck => MigrationEvent::PreChecked(None),
                MigrationAction::CopyTree => MigrationEvent::Copied(None),
                MigrationAction::VerifyCopy => MigrationEvent::Verified(None),
                MigrationAction::RemoveTarget => MigrationEvent::TargetRemoved,
                MigrationAction::CreateLink => MigrationEvent::Linked { renamed, created: true },
                MigrationAction::DeleteSource => MigrationEvent::SourceDeleted,
                MigrationAction::Finish(_) => break,
            };
            seen.push(format!("{:?}", run.phase()));
            action = run.step(&event);
        }
        seen.push(format!("{:?}", finished(action).symlink_path));
        seen
    };
    assert_eq!(drive(false, true, false), vec!["PreCheck", "Copy", "Verify", "DeleteSource", "None"]);
    assert_eq!(
        drive(true, true, false),
        vec!["PreCheck", "Copy", "Verify", "Link", "DeleteSource", "Some(\"/data/src\")"]
    );
    assert_eq!(drive(true, true, true), vec!["PreCheck", "Copy", "Verify", "Link", "Some(\"/data/src\")"]);
    assert_eq!(drive(true, false, true), vec!["PreCheck", "Copy", "Verify", "Link", "Some(\"/data/src\")"]);
    assert_eq!(drive(false, false, false), vec!["PreCheck", "Copy", "Verify", "None"]);
}

#[test]
fn failures_end_the_run_with_their_phase_named() {
    let service = MigrationService::new();
    let mut run = service.migrate_folder(options(true, true));
    run.step(&MigrationEvent::Begin);
    let failed = finished(run.step(&MigrationEvent::checked(&Err("权限检查失败: x".to_string()))));
    assert!(!failed.success);
    assert_eq!(failed.message, "预检查失败: 权限检查失败: x");
    assert_eq!(failed.symlink_path, None);

    let mut run = service.migrate_folder(options(true, true));
    run.step(&MigrationEvent::Begin);
    run.step(&MigrationEvent::PreChecked(None));
    let error: Result<FileOperationResult, FileOperationError> =
        Err(FileOperationError::PathAlreadyExists("/mnt/dst".to_string()));
    let failed = finished(run.step(&MigrationEvent::copied(&error)));
    assert_eq!(failed.message, "复制失败: 路径已存在: /mnt/dst");

    let mut run = service.migrate_folder(options(true, true));
    run.step(&MigrationEvent::Begin);
    run.step(&MigrationEvent::PreChecked(None));
    run.step(&MigrationEvent::Copied(None));
    let cleanup = run.step(&MigrationEvent::verified(&Err("大小差异过大: 50.0%".to_string())));
    assert!(matches!(cleanup, MigrationAction::RemoveTarget));
    assert_eq!(run.phase(), MigrationPhase::Cleanup);
    let failed = finished(run.step(&MigrationEvent::TargetRemoved));
    assert!(!failed.success);
    assert_eq!(failed.message, "复制验证失败: 大小差异过大: 50.0%");
}

#[test]
fn events_out_of_turn_change_nothing() {
    let service = MigrationService::new();
    let mut run = service.migrate_folder(options(false, true));
    assert!(matches!(run.step(&MigrationEvent::Verified(None)), MigrationAction::RunPreCheck));
    assert_eq!(run.phase(), MigrationPhase::Start);
    run.step(&MigrationEvent::Begin);
    assert!(matches!(run.step(&MigrationEvent::SourceDeleted), MigrationAction::RunPreCheck));
    assert_eq!(run.phase(), MigrationPhase::PreCheck);
}

fn precheck_facts() -> PreCheckFacts {
    PreCheckFacts {
        paths: MigrationPathFacts {
            source: PathProbe {
                path: "/data/src".to_string(),
                canonical: Some("/data/src".to_string()),
                entry_names: None,
            },
            target: PathProbe { path: "/mnt/dst".to_string(), canonical: None, entry_names: None },
            source_exists: true,
            target_exists: false,
            target_parent_canonical: Some("/mnt".to_string()),
            source_size: Some(1000),
            target_parent_known: true,
        },
        permissions: PermissionFacts {
            source: "/data/src".to_string(),
            source_readable: true,
            target_parent: "/mnt".to_string(),
            target_parent_writable: true,
        },
        space: SpaceFacts {
            required: Ok(1000),
            available: Some(1200),
            target_parent: "/mnt".to_string(),
            target_parent_exists: true,
        },
        windows: false,
    }
}

#[test]
fn checks_before_a_migration_report_the_first_failure() {
    let service = MigrationService::new();
    assert_eq!(service.pre_migration_check(&precheck_facts()), Ok(()));

    let mut f = precheck_facts();
    f.space.available = Some(1199);
    assert_eq!(
        service.pre_migration_check(&f),
        Err("磁盘空间检查失败: 磁盘空间不足。需要: 1.17 KB (含20%缓冲)，可用: 1.17 KB".to_string())
    );
    f.permissions.target_parent_writable = false;
    assert_eq!(
        service.pre_migration_check(&f),
        Err("权限检查失败: 没有目标父目录的写入权限: /mnt".to_string())
    );
    f.permissions.source_readable = false;
    assert_eq!(
        service.pre_migration_check(&f),
        Err("权限检查失败: 没有源路径的读取权限: /data/src".to_string())
    );
    f.paths.target_exists = true;
    assert_eq!(service.pre_migration_check(&f), Err("目标路径已存在".to_string()));
    f.paths.target.path = "/mnt/dst?".to_string();
    assert_eq!(
        service.pre_migration_check(&f),
        Err("路径安全检查失败: 路径包含非法字符: ?".to_string())
    );
}

#[test]
fn space_is_checked_with_a_fifth_on_top() {
    let service = MigrationService::new();
    let mut space = SpaceFacts {
        required: Ok(1000),
        available: Some(1200),
        target_parent: "/mnt".to_string(),
        target_parent_exists: true,
    };
    assert_eq!(service.check_disk_space(&space), Ok(()));
    space.required = Ok(1001);
    assert!(service.check_disk_space(&space).is_err());
    // without an estimate one gibibyte is assumed
    space.required = Err("unreadable".to_string());
    assert_eq!(service.estimate_required_space(&space), 1 << 30);
    space.available = None;
    assert_eq!(service.check_disk_space(&space), Ok(()));
    space.target_parent_exists = false;
    assert_eq!(service.check_disk_space(&space), Err("目标父目录不存在: /mnt".to_string()));
    assert_eq!(service.get_available_space("C:\\x"), Some(50 << 30));
    assert_eq!(service.get_available_space("D:\\x"), Some(100 << 30));
    assert_eq!(service.get_available_space("/x"), Some(20 << 30));
}

#[test]
fn copies_are_verified_by_size_and_by_names() {
    let service = MigrationService::new();
    let facts = |source_size: u64, target_size: u64, target: DirSnapshot| VerifyFacts {
        target_exists: true,
        source_size: Ok(source_size),
        target_size: Ok(target_size),
        source: tree("/data/src"),
        target,
    };
    assert_eq!(service.verify_copy_result(&facts(20, 20, tree("/mnt/dst"))), Ok(()));
    assert_eq!(service.verify_copy_result(&facts(20, 18, tree("/mnt/dst"))), Ok(()));
    assert_eq!(service.verify_copy_result(&facts(20, 22, tree("/mnt/dst"))), Ok(()));
    assert_eq!(
        service.verify_copy_result(&facts(20, 17, tree("/mnt/dst"))),
        Err("大小差异过大: 15.0%".to_string())
    );
    let shallow = dir("/mnt/dst", "dst", vec![file("file1", 10)]);
    assert_eq!(service.verify_copy_result(&facts(20, 20, shallow)), Err("关键文件缺失: sub".to_string()));
    let hollow = dir(
        "/mnt/dst",
        "dst",
        vec![
            file("file1", 10),
            EntrySnapshot::Directory { cancel_seen: false, tree: dir("/mnt/dst/sub", "sub", vec![]) },
        ],
    );
    assert_eq!(service.verify_copy_result(&facts(20, 20, hollow)), Err("关键文件缺失: file2".to_string()));
    let mut gone = facts(20, 20, tree("/mnt/dst"));
    gone.target_exists = false;
    assert_eq!(service.verify_copy_result(&gone), Err("目标目录不存在".to_string()));
    let mut unmeasured = facts(20, 20, tree("/mnt/dst"));
    unmeasured.target_size = Err("x".to_string());
    assert_eq!(service.verify_copy_result(&unmeasured), Err("无法获取目标目录信息: x".to_string()));
}

#[test]
fn only_the_first_ten_entries_are_compared() {
    let service = MigrationService::new();
    let source: Vec<EntrySnapshot> = (0..12).map(|i| file(&format!("f{}", i), 1)).collect();
    let target: Vec<EntrySnapshot> = (0..10).map(|i| file(&format!("f{}", i), 1)).collect();
    assert_eq!(service.verify_key_files(&dir("/s", "s", source), &target), Ok(()));
    let source: Vec<EntrySnapshot> = (0..12).map(|i| file(&format!("f{}", i), 1)).collect();
    let fewer: Vec<EntrySnapshot> = (0..9).map(|i| file(&format!("f{}", i), 1)).collect();
    assert_eq!(
        service.verify_key_files(&dir("/s", "s", source), &fewer),
        Err("关键文件缺失: f9".to_string())
    );
}

#[test]
fn tolerance_is_a_tenth_of_the_source() {
    assert!(sizes_agree(10, 9));
    assert!(sizes_agree(10, 11));
    assert!(!sizes_agree(10, 12));
    assert!(sizes_agree(0, 0));
    assert!(!sizes_agree(0, 1));
    assert!(sizes_agree(u64::MAX, u64::MAX));
    assert_eq!(difference_message(0, 1), "大小差异过大: inf%");
    assert_eq!(difference_message(1000, 875), "大小差异过大: 12.5%");
    assert_eq!(difference_message(16, 13), "大小差异过大: 18.8%");
    assert_eq!(difference_message(1, u64::MAX), "大小差异过大: 1844674407370955161400.0%");
}

#[test]
fn the_link_takes_the_place_of_the_renamed_source() {
    let service = MigrationService::new();
    let facts = LinkFacts {
        source: "/data/src".to_string(),
        parent: Some("/data".to_string()),
        name: Some("src".to_string()),
        source_exists: true,
    };
    let target = SourceFacts { path: "/mnt/dst".to_string(), shape: PathShape::Directory(tree("/mnt/dst")) };
    let plan = service.create_symlink_after_migration(&facts, &target, false);
    assert_eq!(plan.steps.len(), 3);
    assert!(matches!(&plan.steps[0], FsStep::Rename { from, to } if from == "/data/src" && to == "/data/src.backup"));
    assert!(matches!(&plan.steps[1], FsStep::CreateDirAll(p) if p == "/data"));
    assert!(matches!(&plan.steps[2], FsStep::LinkDirectory { target, link } if target == "/mnt/dst" && link == "/data/src"));
    assert!(plan.outcome.is_ok());

    assert!(matches!(MigrationEvent::linked(&plan, 3, false), MigrationEvent::Linked { renamed: true, created: true }));
    assert!(matches!(MigrationEvent::linked(&plan, 1, true), MigrationEvent::Linked { renamed: true, created: false }));
    assert!(matches!(MigrationEvent::linked(&plan, 0, true), MigrationEvent::Linked { renamed: false, created: false }));

    let gone = LinkFacts { source_exists: false, ..facts.clone() };
    let plan = service.create_symlink_after_migration(&gone, &target, false);
    assert_eq!(plan.steps.len(), 2);
    assert!(matches!(MigrationEvent::linked(&plan, 2, false), MigrationEvent::Linked { renamed: false, created: true }));

    let rootless = LinkFacts { source: "/".to_string(), parent: None, name: None, source_exists: true };
    let plan = service.create_symlink_after_migration(&rootless, &target, false);
    assert!(plan.steps.is_empty());
    assert!(matches!(MigrationEvent::linked(&plan, 0, false), MigrationEvent::Linked { renamed: false, created: false }));
    assert_eq!(plan.outcome.err().unwrap().message(), "无效路径: 无法确定源目录父路径");
}

#[test]
fn helpers_of_the_service_answer_for_paths() {
    let service = MigrationService::new();
    assert!(!service.file_operator().is_cancelled());
    assert!(service.requires_admin_permission("c:\\WINDOWS\\x", "D:\\y"));
    assert!(!service.requires_admin_permission("D:\\x", "E:\\y"));
    assert_eq!(service.get_root_directory("D:\\a\\b", true), "D:\\");
    assert_eq!(service.get_root_directory("/a/b", false), "/");
    assert_eq!(service.get_root_directory("", true), "");
    assert!(service.has_read_permission(true, true));
    assert!(!service.has_read_permission(true, false));
    assert!(service.has_write_permission(&vec![(false, false), (true, true), (true, false)]));
    assert!(!service.has_write_permission(&vec![(false, true), (true, false), (true, true)]));
    assert!(!service.has_write_permission(&vec![]));
    assert_eq!(service.estimate_available_space(&vec![false, true, true]), Ok(100 * 1024 * 1024));
    assert_eq!(service.estimate_available_space(&vec![true]), Ok(10 * 1024 * 1024));
    assert_eq!(service.estimate_available_space(&vec![false, false, false]), Err("无法估计可用磁盘空间".to_string()));
    assert_eq!(service.validate_path_security("/a", "/b", false), Ok(()));
    assert_eq!(service.validate_path_security("/a/NUL", "/b", false), Err("路径使用了Windows保留名称: NUL".to_string()));
    let plain = |p: &str| PathProbe { path: p.to_string(), canonical: None, entry_names: None };
    assert_eq!(
        service.check_system_protection(&plain("C:\\Recovery\\x"), &plain("D:\\y")),
        Err("不能操作系统保护目录: C:\\Recovery".to_string())
    );
    assert!(!service.is_program_installation_directory(&plain("C:\\Users\\me\\docs")));
}

#[test]
fn test_migrate_folder() {
    let service = MigrationService::new();
    let options = MigrationOptions {
        source_path: "/tmp/x/source".to_string(),
        target_path: "/tmp/x/target".to_string(),
        create_symlink: true,
        delete_source: false,
    };
    let mut run = service.migrate_folder(options);
    run.step(&MigrationEvent::Begin);
    run.step(&MigrationEvent::PreChecked(None));
    run.step(&MigrationEvent::Copied(None));
    assert!(matches!(run.step(&MigrationEvent::Verified(None)), MigrationAction::CreateLink));
    let result = finished(run.step(&MigrationEvent::Linked { renamed: true, created: true }));

    assert!(result.success);
    assert_eq!(result.target_path, "/tmp/x/target");
    assert_eq!(result.symlink_path, Some("/tmp/x/source".to_string()));
    let copy = service.file_operator().copy_directory(&tree("/tmp/x/source"), "/tmp/x/source", "/tmp/x/target", false);
    assert!(copy.steps.iter().any(|s| matches!(s, FsStep::CopyFile { to, .. } if to == "/tmp/x/target/file1")));
    assert!(copy.steps.iter().any(|s| matches!(s, FsStep::CreateDirAll(p) if p == "/tmp/x/target/sub")));
    assert!(copy.steps.iter().any(|s| matches!(s, FsStep::CopyFile { to, .. } if to == "/tmp/x/target/sub/file2")));
}
