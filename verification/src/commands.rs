//! The commands of the user interface, as far as they decide anything.
//!
//! Each command takes what the caller observed and answers with the value
//! that goes back to the user interface, or with one line of error text.

use crate::appdata_analyzer::{
    is_fresh, items_of, join_path, joined, kept_under, marked_and_ordered, AppDataAnalyzer,
    AppDataConfig, AppDataInfo, AppDataMigrationOptions, AppDataSnapshot, CachedScanResult,
};
use crate::disk_analyzer::{format_file_size, outcome_is, DirectoryInfo, DiskAnalyzer};
use crate::file_operations::{migration_path_verdict, MigrationPathFacts};
use crate::migration_service::{MigrationResult, MigrationService, GIB};
use crate::ratio::saturated;
use crate::scan_model::{large_nodes, scan_dir, DirSnapshot, ScanSettings};
use crate::scan_progress::{after_large, after_report, after_start, blank};
use crate::size_format::size_text;
use crate::text::{decimal, decimal_string};
use crate::types::{DiskInfo, PathValidationResult};
use vstd::prelude::*;

verus! {

/// The depth to which a scan on behalf of the user interface goes.
pub const COMMAND_SCAN_DEPTH: usize = 5;

/// The size from which a directory is large in a scan of the system drive.
pub const SYSTEM_THRESHOLD: u64 = 0x4000_0000;

/// The size from which a directory is large in any other scan.
pub const GENERIC_THRESHOLD: u64 = 0x640_0000;

/// The threshold of a scan in the given mode.
pub open spec fn command_threshold(c_drive_mode: bool) -> u64 {
    if c_drive_mode {
        SYSTEM_THRESHOLD
    } else {
        GENERIC_THRESHOLD
    }
}

/// Makes the scanner ready for a scan on behalf of the user interface:
/// cancellation and progress are reset, the depth is five, and the
/// threshold is the one of the mode.
pub fn configure_scan(analyzer: &mut DiskAnalyzer, c_drive_mode: bool)
    ensures
        !final(analyzer).cancelled(),
        final(analyzer).progress() == blank(),
        final(analyzer).depth_limit() == COMMAND_SCAN_DEPTH,
        final(analyzer).system_mode() == c_drive_mode,
        final(analyzer).threshold() == command_threshold(c_drive_mode),
{
    analyzer.reset_cancel_flag();
    analyzer.set_max_depth(COMMAND_SCAN_DEPTH);
    analyzer.set_c_drive_mode(c_drive_mode);
    if c_drive_mode {
        analyzer.set_large_folder_threshold(SYSTEM_THRESHOLD);
    } else {
        analyzer.set_large_folder_threshold(GENERIC_THRESHOLD);
    }
}

/// What the path of a scan was found to be.
#[derive(Debug)]
pub enum ScanTarget {
    /// Nothing is at the path.
    Missing,
    /// Something other than a directory is at the path.
    NotDirectory,
    /// The directory, as it was walked.
    Directory(DirSnapshot),
}

/// The settings of a scan on behalf of the user interface.
pub open spec fn command_settings(c_drive_mode: bool, path: Seq<char>) -> ScanSettings {
    let system = c_drive_mode || crate::disk_analyzer::on_system_drive(path);
    ScanSettings {
        max_depth: COMMAND_SCAN_DEPTH,
        large_folder_threshold: command_threshold(c_drive_mode),
        guard_system_paths: system,
        reduced_root_limit: system && c_drive_mode,
    }
}

/// Scans a directory on behalf of the user interface. A path that is
/// missing or no directory is refused; else the scanner is made ready and
/// the walk is sized.
pub fn scan_directory(
    analyzer: &mut DiskAnalyzer,
    target: &ScanTarget,
    c_drive_mode: bool,
    started_at: u64,
    now: u64,
) -> (r: Result<DirectoryInfo, String>)
    ensures
        match *target {
            ScanTarget::Missing => r matches Err(e) && e@ == "路径不存在"@ && *final(analyzer) == *old(
                analyzer,
            ),
            ScanTarget::NotDirectory => r matches Err(e) && e@ == "路径不是目录"@ && *final(analyzer)
                == *old(analyzer),
            ScanTarget::Directory(snapshot) => {
                &&& outcome_is(r, scan_dir(command_settings(c_drive_mode, snapshot.path@), snapshot, 0))
                &&& !final(analyzer).cancelled()
                &&& final(analyzer).depth_limit() == COMMAND_SCAN_DEPTH
                &&& final(analyzer).system_mode() == c_drive_mode
                &&& final(analyzer).threshold() == command_threshold(c_drive_mode)
                &&& final(analyzer).progress() == (match r {
                    Ok(info) => after_large(
                        after_report(
                            after_start(blank(), snapshot.path@, started_at),
                            snapshot.path@,
                            info.file_count,
                            info.file_count,
                            now,
                        ),
                        large_nodes(info@),
                    ),
                    Err(_) => after_start(blank(), snapshot.path@, started_at),
                })
            },
        },
{
    match target {
        ScanTarget::Missing => Err(String::from_str("路径不存在")),
        ScanTarget::NotDirectory => Err(String::from_str("路径不是目录")),
        ScanTarget::Directory(snapshot) => {
            configure_scan(analyzer, c_drive_mode);
            analyzer.scan_directory(snapshot, started_at, now)
        },
    }
}

/// The progress of the scan, in the form in which the user interface takes it.
pub fn get_scan_progress(analyzer: &DiskAnalyzer) -> (p: crate::types::ScanProgress)
    ensures
        p.current_path@ == analyzer.progress().current_path,
        p.processed_files == analyzer.progress().processed_files,
        p.total_files == analyzer.progress().total_files,
        p.progress == analyzer.progress().progress,
        p.processed_directories == analyzer.progress().processed_directories,
        p.total_directories == analyzer.progress().total_directories,
        p.current_directory@ == analyzer.progress().current_directory,
        p.estimated_time_remaining == analyzer.progress().estimated_time_remaining,
        p.scan_speed == analyzer.progress().scan_speed,
        p.large_folders_found == analyzer.progress().large_folders_found,
        p.processed_files <= p.total_files,
{
    let progress = analyzer.get_scan_progress();
    crate::types::ScanProgress {
        current_path: progress.current_path,
        processed_files: progress.processed_files,
        total_files: progress.total_files,
        progress: progress.progress,
        processed_directories: progress.processed_directories,
        total_directories: progress.total_directories,
        current_directory: progress.current_directory,
        estimated_time_remaining: progress.estimated_time_remaining,
        scan_speed: progress.scan_speed,
        large_folders_found: progress.large_folders_found,
    }
}

/// Asks the scan to stop.
pub fn stop_scan(analyzer: &mut DiskAnalyzer)
    ensures
        final(analyzer).cancelled(),
        final(analyzer).progress() == old(analyzer).progress(),
{
    analyzer.cancel_scan();
}

/// Judges whether the source may be migrated to the target, without advice.
pub fn validate_migration_path(service: &MigrationService, facts: &MigrationPathFacts, windows: bool) -> (r:
    PathValidationResult)
    ensures
        r.valid == migration_path_verdict(*facts, windows).0,
        r.message@ == migration_path_verdict(*facts, windows).1,
        r.suggestions@.len() == 0,
{
    let (valid, message) = service.file_operator().validate_migration_path(facts, windows);
    PathValidationResult { valid, message, suggestions: Vec::new() }
}

/// The drives as they are reported where the system tells nothing: one
/// drive `C:` of 256 GiB, half of it free.
pub fn get_disk_info() -> (disks: Vec<DiskInfo>)
    ensures
        disks@.len() == 1,
        disks@[0].name@ == "C:"@,
        disks@[0].total_space == 256 * GIB,
        disks@[0].free_space == 128 * GIB,
        disks@[0].used_space == 128 * GIB,
{
    let mut disks: Vec<DiskInfo> = Vec::new();
    disks.push(
        DiskInfo {
            name: String::from_str("C:"),
            total_space: 256 * GIB,
            free_space: 128 * GIB,
            used_space: 128 * GIB,
        },
    );
    disks
}

/// Writes a size for the user interface.
pub fn format_size(size: u64) -> (s: String)
    ensures
        s@ == size_text(size as nat, 5, true),
{
    format_file_size(size)
}

/// The letters of the drives that are probed, in order.
pub open spec fn drive_letters() -> Seq<char> {
    seq![
        'C', 'D', 'E', 'F', 'G', 'H', 'I', 'J', 'K', 'L', 'M', 'N', 'O', 'P', 'Q', 'R', 'S', 'T', 'U', 'V',
        'W', 'X', 'Y', 'Z',
    ]
}

/// The root of the drive with a letter.
pub open spec fn drive_path(letter: char) -> Seq<char> {
    seq![letter, ':', '\\']
}

/// The roots of the drives among the first `n` letters that are present.
pub open spec fn present_drives(present: Seq<bool>, n: nat) -> Seq<Seq<char>>
    decreases n,
{
    if n == 0 || n > present.len() || n > drive_letters().len() {
        Seq::empty()
    } else if present[n - 1] {
        present_drives(present, (n - 1) as nat).push(drive_path(drive_letters()[n - 1]))
    } else {
        present_drives(present, (n - 1) as nat)
    }
}

/// The letters of the drives that are probed.
pub fn drive_letter_list() -> (letters: Vec<char>)
    ensures
        letters@ == drive_letters(),
{
    let letters = vec![
        'C', 'D', 'E', 'F', 'G', 'H', 'I', 'J', 'K', 'L', 'M', 'N', 'O', 'P', 'Q', 'R', 'S', 'T', 'U', 'V',
        'W', 'X', 'Y', 'Z',
    ];
    proof {
        assert(letters@ =~= drive_letters());
    }
    letters
}

/// The roots of the drives that are present. `present[i]` tells whether
/// the drive with letter `i` of `drive_letters` was found; letters for
/// which nothing is told count as absent.
pub fn get_available_drives(present: &Vec<bool>) -> (drives: Vec<String>)
    ensures
        drives@.map_values(|s: String| s@) == present_drives(
            present@,
            if present@.len() < 24 {
                present@.len()
            } else {
                24
            },
        ),
{
    let letters = drive_letter_list();
    let n = if present.len() < letters.len() {
        present.len()
    } else {
        letters.len()
    };
    let mut drives: Vec<String> = Vec::new();
    let mut i: usize = 0;
    proof {
        assert(drives@.map_values(|s: String| s@) =~= Seq::<Seq<char>>::empty());
    }
    while i < n
        invariant
            i <= n,
            n <= present@.len(),
            n <= letters@.len(),
            letters@ == drive_letters(),
            drives@.map_values(|s: String| s@) == present_drives(present@, i as nat),
        decreases n - i,
    {
        if present[i] {
            let mut path = String::new();
            path.push(letters[i]);
            path.push(':');
            path.push('\\');
            proof {
                assert(path@ =~= drive_path(drive_letters()[i as int]));
                assert(drives@.push(path).map_values(|s: String| s@) =~= drives@.map_values(
                    |s: String| s@,
                ).push(path@));
            }
            drives.push(path);
        }
        i += 1;
    }
    drives
}

/// How the migration of one application-data item went.
#[derive(Debug, Clone, Copy, PartialEq, Eq, Structural)]
pub enum ItemOutcome {
    /// The source was missing.
    Missing,
    /// The options of the migration were refused.
    Refused,
    /// The migration ran and succeeded.
    Migrated,
    /// The migration ran and failed.
    Failed,
}

impl ItemOutcome {
    /// How the migration of an item went, from what the pipeline answered:
    /// refused where it did not run, else migrated or failed by its result.
    pub fn of_result(result: &Result<MigrationResult, String>) -> (o: ItemOutcome)
        ensures
            o == (match *result {
                Err(_) => ItemOutcome::Refused,
                Ok(r) => if r.success {
                    ItemOutcome::Migrated
                } else {
                    ItemOutcome::Failed
                },
            }),
    {
        match result {
            Err(_) => ItemOutcome::Refused,
            Ok(r) => {
                if r.success {
                    ItemOutcome::Migrated
                } else {
                    ItemOutcome::Failed
                }
            },
        }
    }
}

/// The number of the first `n` outcomes that are successes.
pub open spec fn migrated_count(outcomes: Seq<ItemOutcome>, n: nat) -> nat
    decreases n,
{
    if n == 0 || n > outcomes.len() {
        0
    } else {
        migrated_count(outcomes, (n - 1) as nat) + if outcomes[n - 1] == ItemOutcome::Migrated {
            1nat
        } else {
            0nat
        }
    }
}

/// The summary of a migration of application-data items.
pub open spec fn migration_summary(successes: nat, failures: nat) -> Seq<char> {
    "AppData迁移完成 - 成功: "@ + decimal(successes) + ", 失败: "@ + decimal(failures) + ", 总迁移大小: "@
        + size_text(saturated(successes * GIB) as nat, 5, true)
}

/// The result of a migration of application-data items as a whole.
pub open spec fn appdata_migration_outcome(
    options: AppDataMigrationOptions,
    outcomes: Seq<ItemOutcome>,
) -> crate::migration_service::MigrationOutcome {
    let successes = migrated_count(outcomes, outcomes.len());
    let failures = (outcomes.len() - successes) as nat;
    crate::migration_service::MigrationOutcome {
        success: failures == 0,
        message: migration_summary(successes, failures),
        source_path: decimal(options.source_items@.len()) + "个项目"@,
        target_path: options.target_drive@,
        symlink_path: if options.create_symlink {
            Some("创建了"@ + decimal(successes) + "个符号链接"@)
        } else {
            None
        },
    }
}

/// Where an application-data item goes: below the target drive, under its own name.
pub fn appdata_item_target(target_drive: &str, item_name: &str, windows: bool) -> (path: String)
    ensures
        path@ == joined(target_drive@, item_name@, windows),
{
    join_path(target_drive, item_name, windows)
}

/// Sums the migration of application-data items up. A target drive that
/// is missing is refused. The whole succeeds where no item failed; every
/// success is taken to have moved one gibibyte.
pub fn migrate_appdata_items(
    options: &AppDataMigrationOptions,
    target_drive_exists: bool,
    outcomes: &Vec<ItemOutcome>,
) -> (r: Result<MigrationResult, String>)
    ensures
        !target_drive_exists ==> (r matches Err(e) && e@ == "目标盘符不存在: "@
            + options.target_drive@),
        target_drive_exists ==> (r matches Ok(result) && result@ == appdata_migration_outcome(
            *options,
            outcomes@,
        )),
{
    if !target_drive_exists {
        return Err(String::from_str("目标盘符不存在: ").concat(options.target_drive.as_str()));
    }
    let mut successes: usize = 0;
    let mut i: usize = 0;
    while i < outcomes.len()
        invariant
            i <= outcomes@.len(),
            successes == migrated_count(outcomes@, i as nat),
            successes <= i,
        decreases outcomes@.len() - i,
    {
        if outcomes[i] == ItemOutcome::Migrated {
            successes = successes + 1;
        }
        i += 1;
    }
    let failures = outcomes.len() - successes;
    let moved: u64 = if successes as u64 > u64::MAX / GIB {
        u64::MAX
    } else {
        successes as u64 * GIB
    };
    let mut message = String::from_str("AppData迁移完成 - 成功: ");
    message.append(decimal_string(successes as u64).as_str());
    message.append(", 失败: ");
    message.append(decimal_string(failures as u64).as_str());
    message.append(", 总迁移大小: ");
    message.append(format_file_size(moved).as_str());
    let mut source = decimal_string(options.source_items.len() as u64);
    source.append("个项目");
    let link = if options.create_symlink {
        let mut text = String::from_str("创建了");
        text.append(decimal_string(successes as u64).as_str());
        text.append("个符号链接");
        Some(text)
    } else {
        None
    };
    Ok(
        MigrationResult {
            success: failures == 0,
            message,
            source_path: source,
            target_path: options.target_drive.clone(),
            symlink_path: link,
        },
    )
}

/// What is at the path of an item that is to be migrated.
#[derive(Debug, Clone, Copy, PartialEq, Eq, Structural)]
pub enum ItemKind {
    /// Nothing.
    Missing,
    /// Something that is neither a file nor a directory.
    Other,
    /// A file or a directory.
    Regular,
}

/// The verdict on one item that is to be migrated.
#[derive(Debug, Clone)]
pub struct ItemValidation {
    pub path: String,
    pub valid: bool,
    pub message: String,
}

/// The verdict on all the items that are to be migrated.
#[derive(Debug, Clone)]
pub struct AppDataValidation {
    /// Whether every item is valid.
    pub valid: bool,
    pub items: Vec<ItemValidation>,
    pub summary: String,
    pub target_drive_valid: bool,
    pub target_drive: String,
}

/// The message of the verdict on an item.
pub open spec fn item_message(kind: ItemKind) -> Seq<char> {
    match kind {
        ItemKind::Missing => "源路径不存在"@,
        ItemKind::Other => "路径既不是文件也不是目录"@,
        ItemKind::Regular => "路径有效"@,
    }
}

/// What is told of item `i`; an item of which nothing is told counts as missing.
pub open spec fn kind_at(kinds: Seq<ItemKind>, i: int) -> ItemKind {
    if 0 <= i < kinds.len() {
        kinds[i]
    } else {
        ItemKind::Missing
    }
}

/// The number of the first `n` items that are valid.
pub open spec fn regular_count(kinds: Seq<ItemKind>, n: nat) -> nat
    decreases n,
{
    if n == 0 {
        0
    } else {
        regular_count(kinds, (n - 1) as nat) + if kind_at(kinds, n - 1) == ItemKind::Regular {
            1nat
        } else {
            0nat
        }
    }
}

/// The verdict on the items is the one that `kinds` gives for the paths.
pub open spec fn validation_is(v: AppDataValidation, options: AppDataMigrationOptions, kinds: Seq<ItemKind>) -> bool {
    let n = options.source_items@.len();
    &&& v.items@.len() == n
    &&& forall|i: int|
        0 <= i < n ==> (#[trigger] v.items@[i]).path@ == options.source_items@[i]@ && v.items@[i].valid
            == (kind_at(kinds, i) == ItemKind::Regular) && v.items@[i].message@ == item_message(
            kind_at(kinds, i),
        )
    &&& v.valid == (regular_count(kinds, n) == n)
    &&& v.summary@ == "验证完成："@ + decimal(regular_count(kinds, n)) + "/"@ + decimal(n)
        + " 个项目有效"@
    &&& v.target_drive_valid
    &&& v.target_drive@ == options.target_drive@
}

/// Judges the items that are to be migrated. `kinds[i]` tells what is at
/// the path of item `i`. A target drive that is missing is refused.
pub fn validate_appdata_migration_options(
    options: &AppDataMigrationOptions,
    target_drive_exists: bool,
    kinds: &Vec<ItemKind>,
) -> (r: Result<AppDataValidation, String>)
    ensures
        !target_drive_exists ==> (r matches Err(e) && e@ == "目标盘符不存在: "@
            + options.target_drive@),
        target_drive_exists ==> (r matches Ok(v) && validation_is(v, *options, kinds@)),
{
    if !target_drive_exists {
        return Err(String::from_str("目标盘符不存在: ").concat(options.target_drive.as_str()));
    }
    let n = options.source_items.len();
    let mut items: Vec<ItemValidation> = Vec::new();
    let mut valid_count: usize = 0;
    let mut i: usize = 0;
    while i < n
        invariant
            i <= n,
            n == options.source_items@.len(),
            items@.len() == i,
            valid_count == regular_count(kinds@, i as nat),
            valid_count <= i,
            forall|k: int|
                0 <= k < i ==> (#[trigger] items@[k]).path@ == options.source_items@[k]@
                    && items@[k].valid == (kind_at(kinds@, k) == ItemKind::Regular)
                    && items@[k].message@ == item_message(kind_at(kinds@, k)),
        decreases n - i,
    {
        let kind = if i < kinds.len() {
            kinds[i]
        } else {
            ItemKind::Missing
        };
        let (valid, message) = match kind {
            ItemKind::Missing => (false, String::from_str("源路径不存在")),
            ItemKind::Other => (false, String::from_str("路径既不是文件也不是目录")),
            ItemKind::Regular => (true, String::from_str("路径有效")),
        };
        if valid {
            valid_count = valid_count + 1;
        }
        items.push(ItemValidation { path: options.source_items[i].clone(), valid, message });
        i += 1;
    }
    let mut summary = String::from_str("验证完成：");
    summary.append(decimal_string(valid_count as u64).as_str());
    summary.append("/");
    summary.append(decimal_string(n as u64).as_str());
    summary.append(" 个项目有效");
    Ok(
        AppDataValidation {
            valid: valid_count == n,
            items,
            summary,
            target_drive_valid: true,
            target_drive: options.target_drive.clone(),
        },
    )
}

/// The application-data root for the user interface; a failure to find it is told as such.
pub fn get_appdata_path(user_profile: &Result<String, String>, exists: bool, windows: bool) -> (r: Result<
    String,
    String,
>)
    ensures
        match *user_profile {
            Err(e) => r matches Err(text) && text@ == "获取AppData路径失败: "@ + ("无法获取用户目录: "@
                + e@),
            Ok(profile) => if exists {
                r matches Ok(path) && path@ == crate::appdata_analyzer::appdata_root(profile@, windows)
            } else {
                r matches Err(text) && text@ == "获取AppData路径失败: "@ + ("AppData目录不存在: "@
                    + crate::appdata_analyzer::appdata_root(profile@, windows))
            },
        },
{
    match AppDataAnalyzer::get_appdata_path(user_profile, exists, windows) {
        Ok(path) => Ok(path),
        Err(e) => Err(String::from_str("获取AppData路径失败: ").concat(e.as_str())),
    }
}

/// The kept scan that a scan on behalf of the user interface finds: the
/// one of the scanner, unless a configuration is given that changes the
/// one in force.
pub open spec fn cache_for(analyzer: AppDataAnalyzer, config: Option<AppDataConfig>) -> Option<
    CachedScanResult,
> {
    match config {
        Some(c) => kept_under(analyzer.config_value(), analyzer.cache(), c),
        None => analyzer.cache(),
    }
}

/// Scans the application-data root for the user interface: a
/// configuration that is given is put in force first, which drops the
/// kept scan where it changes the configuration, and a failure is told as
/// such. The items of every report are marked and ordered by the
/// configuration in force.
pub fn scan_appdata(
    analyzer: &mut AppDataAnalyzer,
    config: Option<AppDataConfig>,
    root: &Result<AppDataSnapshot, String>,
    now: u64,
    scan_time_ms: u64,
    windows: bool,
) -> (r: Result<AppDataInfo, String>)
    ensures
        final(analyzer).config_value() == (match config {
            Some(c) => c,
            None => old(analyzer).config_value(),
        }),
        match (
            r,
            crate::appdata_analyzer::scan_outcome(
                final(analyzer).scanner(),
                final(analyzer).config_value(),
                cache_for(*old(analyzer), config),
                *root,
                now,
                scan_time_ms,
                windows,
            ),
        ) {
            (Ok(info), Ok(report)) => info@ == report,
            (Err(e), Err(text)) => e@ == "AppData扫描失败: "@ + text,
            _ => false,
        },
        r matches Ok(info) ==> marked_and_ordered(
            info@.first_level_items,
            final(analyzer).config_value(),
        ),
        ({
            let found = cache_for(*old(analyzer), config);
            let fresh = found matches Some(c) && is_fresh(c, now);
            &&& fresh || *root is Err ==> final(analyzer).cache() == found
            &&& !fresh && *root is Ok ==> (final(analyzer).cache() matches Some(kept) && items_of(
                kept.items@,
            ) == r->Ok_0@.first_level_items && kept.total_size == r->Ok_0.total_size && kept.timestamp
                == now)
        }),
{
    if let Some(c) = config {
        analyzer.set_config(c);
    }
    match analyzer.scan_appdata(root, now, scan_time_ms, windows) {
        Ok(info) => Ok(info),
        Err(e) => Err(String::from_str("AppData扫描失败: ").concat(e.as_str())),
    }
}

} // verus!
