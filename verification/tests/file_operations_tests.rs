use dir_mover::file_operations::{
    FileOperationError, FileOperator, FsStep, IoKind, MigrationPathFacts, PathShape, SourceFacts,
    TargetFacts,
};
use dir_mover::path_safety::PathProbe;
use dir_mover::scan_model::{DirSnapshot, EntrySnapshot, Listing};

fn file(name: &str, size: u64) -> EntrySnapshot {
    EntrySnapshot::File { cancel_seen: false, name: name.to_string(), size: Ok(size) }
}

fn dir(path: &str, name: &str, entries: Vec<EntrySnapshot>) -> DirSnapshot {
    DirSnapshot {
        path: path.to_string(),
        name: Some(name.to_string()),
        cancel_seen: false,
        listing: Listing::Entries(entries),
        last_modified: None,
    }
}

fn source_tree() -> DirSnapshot {
    dir(
        "/s",
        "s",
        vec![
            file("file1.txt", 10),
            EntrySnapshot::Directory {
                cancel_seen: false,
                tree: dir("/s/subdir", "subdir", vec![file("file2.txt", 10)]),
            },
        ],
    )
}

fn target(path: &str, exists: bool, parent: Option<&str>) -> TargetFacts {
    TargetFacts { path: path.to_string(), exists, parent: parent.map(|p| p.to_string()) }
}

fn steps_text(steps: &[FsStep]) -> Vec<String> {
    steps
        .iter()
        .map(|s| match s {
            FsStep::CreateDirAll(p) => format!("mkdir {}", p),
            FsStep::CopyFile { from, to } => format!("copy {} {}", from, to),
            FsStep::RemoveFile(p) => format!("rm {}", p),
            FsStep::RemoveDir(p) => format!("rmdir {}", p),
            FsStep::RemoveTree(p) => format!("rmtree {}", p),
            FsStep::CopyAll { from, to } => format!("copyall {} {}", from, to),
            FsStep::Rename { from, to } => format!("mv {} {}", from, to),
            FsStep::LinkDirectory { target, link } => format!("lnd {} {}", target, link),
            FsStep::LinkFile { target, link } => format!("lnf {} {}", target, link),
        })
        .collect()
}

#[test]
fn copying_a_file_makes_the_parent_first() {
    let operator = FileOperator::new();
    let source = SourceFacts { path: "/a/source.txt".to_string(), shape: PathShape::File { length: Ok(3) } };
    let plan = operator.copy_path(&source, &target("/b/target.txt", false, Some("/b")), false);
    assert_eq!(steps_text(&plan.steps), vec!["mkdir /b", "copy /a/source.txt /b/target.txt"]);
    let result = plan.outcome.unwrap();
    assert!(result.success);
    assert_eq!(result.message, "文件复制成功");
    assert_eq!(result.source_path, "/a/source.txt");
    assert_eq!(result.target_path, Some("/b/target.txt".to_string()));
}

#[test]
fn copying_a_directory_walks_the_tree() {
    let operator = FileOperator::new();
    let source = SourceFacts { path: "/s".to_string(), shape: PathShape::Directory(source_tree()) };
    let plan = operator.copy_path(&source, &target("/t", false, Some("/")), false);
    assert_eq!(
        steps_text(&plan.steps),
        vec![
            "mkdir /t",
            "mkdir /t",
            "copy /s/file1.txt /t/file1.txt",
            "mkdir /t/subdir",
            "mkdir /t/subdir",
            "copy /s/subdir/file2.txt /t/subdir/file2.txt",
        ]
    );
    let result = plan.outcome.unwrap();
    assert_eq!(result.message, "目录复制成功 (文件: 1, 目录: 1)");
    assert_eq!(result.target_path, Some("/t".to_string()));
}

#[test]
fn copies_are_refused_in_a_fixed_order() {
    let mut operator = FileOperator::new();
    let file_source = |path: &str| SourceFacts { path: path.to_string(), shape: PathShape::File { length: Ok(1) } };
    let missing = SourceFacts { path: "/gone".to_string(), shape: PathShape::Missing };
    let refused = |plan: dir_mover::file_operations::FsPlan| {
        assert!(plan.steps.is_empty());
        plan.outcome.err().unwrap().message()
    };
    assert_eq!(refused(operator.copy_path(&file_source(""), &target("/t", false, None), false)), "无效路径: 路径不能为空");
    assert_eq!(
        refused(operator.copy_path(&file_source("/a/.../b"), &target("/t", false, None), false)),
        "无效路径: 路径包含非法字符"
    );
    assert_eq!(refused(operator.copy_path(&missing, &target("/t", true, None), false)), "路径不存在: /gone");
    assert_eq!(refused(operator.copy_path(&file_source("/a"), &target("/t", true, None), false)), "路径已存在: /t");
    operator.cancel_operation();
    assert!(operator.is_cancelled());
    assert_eq!(
        refused(operator.copy_path(&file_source("/a"), &target("/t", false, None), false)),
        "操作已取消: 复制操作已取消"
    );
    assert_eq!(refused(operator.copy_path(&missing, &target("/t", false, None), false)), "路径不存在: /gone");
}

#[test]
fn a_copy_ends_where_the_walk_saw_trouble() {
    let operator = FileOperator::new();
    let tree = dir(
        "/s",
        "s",
        vec![
            file("a", 1),
            EntrySnapshot::File { cancel_seen: true, name: "b".to_string(), size: Ok(1) },
            file("c", 1),
        ],
    );
    let plan = operator.copy_directory(&tree, "/s", "/t", false);
    assert_eq!(steps_text(&plan.steps), vec!["mkdir /t", "mkdir /t", "copy /s/a /t/a"]);
    assert_eq!(plan.outcome.err().unwrap().message(), "操作已取消: 复制操作已取消");

    let unreadable = DirSnapshot {
        path: "/s".to_string(),
        name: Some("s".to_string()),
        cancel_seen: false,
        listing: Listing::Denied("denied".to_string()),
        last_modified: None,
    };
    let plan = operator.copy_directory(&unreadable, "/s", "/t", false);
    assert_eq!(steps_text(&plan.steps), vec!["mkdir /t"]);
    match plan.outcome {
        Err(FileOperationError::IoError(f)) => {
            assert_eq!(f.kind, IoKind::PermissionDenied);
            assert_eq!(f.text, "denied");
        }
        other => panic!("unexpected {:?}", other),
    }
}

#[test]
fn deleting_removes_the_contents_before_the_directory() {
    let operator = FileOperator::new();
    let source = SourceFacts { path: "/s".to_string(), shape: PathShape::Directory(source_tree()) };
    let plan = operator.delete_path(&source, false);
    assert_eq!(
        steps_text(&plan.steps),
        vec!["rm /s/file1.txt", "rm /s/subdir/file2.txt", "rmdir /s/subdir", "rmdir /s"]
    );
    assert_eq!(plan.outcome.unwrap().message, "目录删除成功 (文件: 2, 目录: 2)");

    let one = SourceFacts { path: "/f".to_string(), shape: PathShape::File { length: Ok(1) } };
    let plan = operator.delete_path(&one, false);
    assert_eq!(steps_text(&plan.steps), vec!["rm /f"]);
    let result = plan.outcome.unwrap();
    assert_eq!(result.message, "文件删除成功");
    assert_eq!(result.target_path, None);

    let missing = SourceFacts { path: "/gone".to_string(), shape: PathShape::Missing };
    assert_eq!(operator.delete_path(&missing, false).outcome.err().unwrap().message(), "路径不存在: /gone");
}

#[test]
fn links_point_at_what_exists() {
    let operator = FileOperator::new();
    let directory = SourceFacts { path: "/real".to_string(), shape: PathShape::Directory(source_tree()) };
    let plan = operator.create_symlink(&directory, &target("/old/place", false, Some("/old")));
    assert_eq!(steps_text(&plan.steps), vec!["mkdir /old", "lnd /real /old/place"]);
    let result = plan.outcome.unwrap();
    assert_eq!(result.message, "符号链接创建成功");
    assert_eq!(result.source_path, "/real");
    assert_eq!(result.target_path, Some("/old/place".to_string()));

    let single = SourceFacts { path: "/real.txt".to_string(), shape: PathShape::File { length: Ok(1) } };
    let plan = operator.create_symlink(&single, &target("/l", false, None));
    assert_eq!(steps_text(&plan.steps), vec!["lnf /real.txt /l"]);

    let taken = operator.create_symlink(&single, &target("/l", true, None));
    assert_eq!(taken.outcome.err().unwrap().message(), "路径已存在: /l");
    let missing = SourceFacts { path: "/gone".to_string(), shape: PathShape::Missing };
    assert_eq!(
        operator.create_symlink(&missing, &target("/l", false, None)).outcome.err().unwrap().message(),
        "路径不存在: /gone"
    );
}

fn probe(path: &str, canonical: Option<&str>) -> PathProbe {
    PathProbe { path: path.to_string(), canonical: canonical.map(|c| c.to_string()), entry_names: None }
}

fn facts(source: &str, target: &str) -> MigrationPathFacts {
    MigrationPathFacts {
        source: probe(source, Some(source)),
        target: probe(target, None),
        source_exists: true,
        target_exists: false,
        target_parent_canonical: None,
        source_size: Some(20),
        target_parent_known: true,
    }
}

#[test]
fn test_validate_migration_path() {
    let operator = FileOperator::new();
    let mut f = facts("/tmp/x/source", "/tmp/x/target");
    f.target_parent_canonical = Some("/tmp/x".to_string());
    let (valid, message) = operator.validate_migration_path(&f, false);
    assert!(valid);
    assert_eq!(message, "路径验证通过");
}

#[test]
fn migration_into_the_own_subtree_is_refused() {
    let operator = FileOperator::new();
    let mut f = facts("/data/src", "/data/src/inside");
    f.target_parent_canonical = Some("/data/src".to_string());
    let (valid, message) = operator.validate_migration_path(&f, false);
    assert!(!valid);
    assert_eq!(message, "不能将目录迁移到其子目录中");

    // the given paths look unrelated, the canonical ones are not
    let mut linked = facts("/link", "/elsewhere/new");
    linked.source.canonical = Some("/real/src".to_string());
    linked.target_parent_canonical = Some("/real/src/deep".to_string());
    let (valid, message) = operator.validate_migration_path(&linked, false);
    assert!(!valid);
    assert_eq!(message, "不能将目录迁移到其子目录中");
}

#[test]
fn migration_paths_are_judged_in_order() {
    let operator = FileOperator::new();
    let mut f = facts("/a/../b", "/t");
    assert_eq!(operator.validate_migration_path(&f, false), (false, "路径包含非法的父目录引用".to_string()));
    f = facts("/a", "/t");
    f.source_exists = false;
    f.target_exists = true;
    assert_eq!(operator.validate_migration_path(&f, false), (false, "源路径不存在".to_string()));
    f.source_exists = true;
    assert_eq!(operator.validate_migration_path(&f, false), (false, "目标路径已存在".to_string()));
    f.target_exists = false;
    f.source_size = Some(100 * 1024 * 1024 * 1024 + 1);
    assert_eq!(
        operator.validate_migration_path(&f, false),
        (false, "源目录过大，可能需要更多磁盘空间".to_string())
    );
    f.source_size = Some(100 * 1024 * 1024 * 1024);
    assert_eq!(operator.validate_migration_path(&f, false), (true, "路径验证通过".to_string()));
}

#[test]
fn sizes_are_estimated_from_what_was_read() {
    let operator = FileOperator::new();
    let tree = SourceFacts { path: "/s".to_string(), shape: PathShape::Directory(source_tree()) };
    assert_eq!(operator.estimate_directory_size(&tree).ok(), Some(20));
    let one = SourceFacts { path: "/f".to_string(), shape: PathShape::File { length: Ok(9) } };
    assert_eq!(operator.estimate_directory_size(&one).ok(), Some(9));
    let missing = SourceFacts { path: "/gone".to_string(), shape: PathShape::Missing };
    assert_eq!(operator.estimate_directory_size(&missing).err().unwrap().message(), "路径不存在: /gone");
    assert!(operator.validate_path("/fine").is_ok());
    assert_eq!(operator.validate_path("").err().unwrap().message(), "无效路径: 路径不能为空");
}

#[test]
fn test_copy_file() {
    let operator = FileOperator::new();
    let plan = operator.copy_file("/tmp/x/source.txt", &target("/tmp/x/target.txt", false, Some("/tmp/x")));
    let result = plan.outcome.unwrap();

    assert!(result.success);
    assert!(matches!(plan.steps.last(), Some(FsStep::CopyFile { to, .. }) if to == "/tmp/x/target.txt"));
    assert_eq!(result.source_path, "/tmp/x/source.txt".to_string());
    assert_eq!(result.target_path, Some("/tmp/x/target.txt".to_string()));
}

#[test]
fn test_copy_directory() {
    let operator = FileOperator::new();
    let plan = operator.copy_directory(&source_tree(), "/s", "/t", false);
    let made = steps_text(&plan.steps);
    let result = plan.outcome.unwrap();

    assert!(result.success);
    assert!(made.contains(&"mkdir /t".to_string()));
    assert!(made.contains(&"copy /s/file1.txt /t/file1.txt".to_string()));
    assert!(made.contains(&"mkdir /t/subdir".to_string()));
    assert!(made.contains(&"copy /s/subdir/file2.txt /t/subdir/file2.txt".to_string()));
}
