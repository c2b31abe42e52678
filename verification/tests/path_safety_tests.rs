use dir_mover::path_safety::{describe, validate, PathProbe, Violation};

fn probe(path: &str) -> PathProbe {
    PathProbe { path: path.to_string(), canonical: None, entry_names: None }
}

fn verdict(source: &str, target: &str, windows: bool) -> Option<Violation> {
    validate(&probe(source), &probe(target), windows)
}

#[test]
fn safe_pairs_pass() {
    assert_eq!(verdict("/data/src", "/mnt/dst", false), None);
    assert_eq!(verdict("D:\\Games\\Big", "E:\\Games\\Big", true), None);
    assert_eq!(verdict("/data/a..b", "/mnt/dst", false), None);
}

#[test]
fn rules_are_tried_in_order() {
    assert_eq!(verdict("", "/x", false), Some(Violation::EmptyPath));
    assert_eq!(verdict("/x", "", false), Some(Violation::EmptyPath));
    assert_eq!(verdict("/a/../b", "/x", false), Some(Violation::ParentReference));
    assert_eq!(verdict("/a/b", "/x/..", false), Some(Violation::ParentReference));
    // a parent reference is reported before a forbidden character
    assert_eq!(verdict("/a/../b?", "/x", false), Some(Violation::ParentReference));
    assert_eq!(verdict("/a/b?", "/x<", false), Some(Violation::IllegalCharacter(0)));
    assert_eq!(verdict("/a/b|", "/x", false), Some(Violation::IllegalCharacter(5)));
    // a forbidden character is reported before a reserved name
    assert_eq!(verdict("/a/CON", "/x*", false), Some(Violation::IllegalCharacter(3)));
    assert_eq!(verdict("/a/con/b", "/x", false), Some(Violation::ReservedName(0)));
    assert_eq!(verdict("/a/b", "/x/Lpt9", false), Some(Violation::ReservedName(21)));
    assert_eq!(verdict("/a/CONSOLE", "/x", false), None);
}

#[test]
fn colon_is_the_drive_separator_on_windows_only() {
    assert_eq!(verdict("D:\\a", "E:\\b", true), None);
    assert_eq!(verdict("D:\\a", "E:\\b", false), Some(Violation::IllegalCharacter(2)));
    assert_eq!(verdict("D:\\a:b", "E:\\b", true), Some(Violation::IllegalCharacter(2)));
    assert_eq!(verdict(":D\\a", "E:\\b", true), Some(Violation::IllegalCharacter(2)));
}

#[test]
fn paths_of_more_than_260_characters_are_too_long() {
    let long = format!("/{}", "a".repeat(260));
    let just = format!("/{}", "a".repeat(259));
    assert_eq!(verdict(&long, "/x", false), Some(Violation::TooLong));
    assert_eq!(verdict("/x", &long, false), Some(Violation::TooLong));
    assert_eq!(verdict(&just, "/x", false), None);
    // characters are counted, not bytes
    let wide = format!("/{}", "路".repeat(259));
    assert_eq!(verdict(&wide, "/x", false), None);
}

#[test]
fn a_tree_may_not_go_into_itself() {
    assert_eq!(verdict("/data/src", "/data/src", false), Some(Violation::SameLocation));
    assert_eq!(verdict("/data/src", "/data/src/inside", false), Some(Violation::IntoOwnSubtree));
    assert_eq!(verdict("/data/src", "/data/srcs", false), None);
    let source = PathProbe {
        path: "/link/src".to_string(),
        canonical: Some("/real/src".to_string()),
        entry_names: None,
    };
    let target = PathProbe {
        path: "/other".to_string(),
        canonical: Some("/real/src/deep".to_string()),
        entry_names: None,
    };
    assert_eq!(validate(&source, &target, false), Some(Violation::IntoOwnSubtree));
}

#[test]
fn system_paths_and_files_are_protected() {
    assert_eq!(verdict("c:\\windows\\Temp", "D:\\t", true), Some(Violation::Protected(0)));
    assert_eq!(verdict("D:\\t", "C:\\Program Files (x86)\\App", true), Some(Violation::Protected(1)));
    assert_eq!(verdict("C:\\$RECYCLE.BIN\\x", "D:\\t", true), Some(Violation::Protected(6)));
    assert_eq!(verdict("D:\\PageFile.sys", "E:\\t", true), Some(Violation::SystemFile(0)));
    assert_eq!(verdict("D:\\a", "E:\\swapfile.sys", true), Some(Violation::SystemFile(2)));
    assert_eq!(verdict("D:\\pagefile.sys.bak", "E:\\t", true), None);
}

#[test]
fn program_directories_are_not_migrated() {
    let with_exe = PathProbe {
        path: "C:\\Users\\me\\Tool".to_string(),
        canonical: None,
        entry_names: Some(vec!["readme.txt".to_string(), "tool.exe".to_string()]),
    };
    let without = PathProbe {
        path: "C:\\Users\\me\\Docs".to_string(),
        canonical: None,
        entry_names: Some(vec!["readme.txt".to_string()]),
    };
    let elsewhere = PathProbe {
        path: "D:\\Tool".to_string(),
        canonical: None,
        entry_names: Some(vec!["tool.dll".to_string()]),
    };
    assert_eq!(validate(&with_exe, &probe("D:\\t"), true), Some(Violation::ProgramDirectory));
    assert_eq!(validate(&probe("D:\\t"), &with_exe, true), Some(Violation::ProgramDirectory));
    assert_eq!(validate(&without, &probe("D:\\t"), true), None);
    assert_eq!(validate(&elsewhere, &probe("E:\\t"), true), None);
}

#[test]
fn the_verdict_is_repeatable() {
    let source = probe("/a/../b");
    let target = probe("/x");
    assert_eq!(validate(&source, &target, false), validate(&source, &target, false));
    assert_eq!(verdict("/a", "/b", true), verdict("/a", "/b", true));
}

#[test]
fn every_violation_has_its_text() {
    assert_eq!(describe(Violation::EmptyPath), "路径不能为空");
    assert_eq!(describe(Violation::ParentReference), "路径包含非法的父目录引用");
    assert_eq!(describe(Violation::IllegalCharacter(4)), "路径包含非法字符: ?");
    assert_eq!(describe(Violation::IllegalCharacter(99)), "路径包含非法字符: ");
    assert_eq!(describe(Violation::ReservedName(4)), "路径使用了Windows保留名称: COM1");
    assert_eq!(describe(Violation::TooLong), "路径过长（超过260字符）");
    assert_eq!(describe(Violation::SameLocation), "源路径和目标路径指向同一位置");
    assert_eq!(describe(Violation::IntoOwnSubtree), "不能将目录迁移到其子目录中");
    assert_eq!(describe(Violation::Protected(3)), "不能操作系统保护目录: C:\\Users\\Default");
    assert_eq!(describe(Violation::SystemFile(1)), "不能操作系统文件: hiberfil.sys");
    assert_eq!(describe(Violation::ProgramDirectory), "不能迁移程序安装目录，可能导致程序无法运行");
}
