//! The checks that a migration must pass before and after the copy.
//!
//! Each check judges plain observations and names the first failure in the
//! words that the user is shown.

use crate::disk_analyzer::{format_file_size, name_or_empty};
use crate::file_operations::{migration_path_verdict, FileOperator, MigrationPathFacts};
use crate::path_safety::{
    begins_with_any, begins_with_listed, check_protection, check_text, describe, holds_program,
    is_program_directory, protection_violation, texts, textual_violation, violation_text,
    PathProbe,
};
use crate::ratio::{add_saturating, saturated};
use crate::scan_model::{capped_name, entries_of, DirSnapshot, EntrySnapshot, Listing};
use crate::size_format::size_text;
use crate::text::{
    chars_of, decimal, decimal_chars_wide, digit_char, push_all, same_text, string_of,
};
use vstd::prelude::*;

verus! {

/// What is to be migrated, and how.
#[derive(Debug, Clone)]
pub struct MigrationOptions {
    pub source_path: String,
    pub target_path: String,
    /// Whether a link to the target is left where the source was.
    pub create_symlink: bool,
    /// Whether the source is deleted after the copy.
    pub delete_source: bool,
}

/// How a migration ended.
#[derive(Debug, Clone)]
pub struct MigrationResult {
    pub success: bool,
    pub message: String,
    pub source_path: String,
    pub target_path: String,
    /// The path of the link, where one was created.
    pub symlink_path: Option<String>,
}

/// How a migration ended, as a mathematical value.
pub struct MigrationOutcome {
    pub success: bool,
    pub message: Seq<char>,
    pub source_path: Seq<char>,
    pub target_path: Seq<char>,
    pub symlink_path: Option<Seq<char>>,
}

impl View for MigrationResult {
    type V = MigrationOutcome;

    open spec fn view(&self) -> MigrationOutcome {
        MigrationOutcome {
            success: self.success,
            message: self.message@,
            source_path: self.source_path@,
            target_path: self.target_path@,
            symlink_path: match self.symlink_path {
                Some(p) => Some(p@),
                None => None,
            },
        }
    }
}

/// One gibibyte.
pub const GIB: u64 = 0x4000_0000;

/// The free space that is assumed on a drive where the system tells none:
/// 50 GiB on `C:`, 100 GiB on `D:`, 20 GiB elsewhere.
pub open spec fn assumed_space(path: Seq<char>) -> u64 {
    if crate::text::starts_with(path, "C:\\"@) {
        (50 * GIB) as u64
    } else if crate::text::starts_with(path, "D:\\"@) {
        (100 * GIB) as u64
    } else {
        (20 * GIB) as u64
    }
}

/// The system paths that only an administrator may change.
pub open spec fn admin_paths() -> Seq<Seq<char>> {
    seq!["C:\\Windows"@, "C:\\Program Files"@, "C:\\Program Files (x86)"@]
}

/// The root of the drive of a path: on Windows the first character, a
/// colon and a backslash, or the path itself where it is empty; elsewhere
/// a slash.
pub open spec fn drive_root(path: Seq<char>, windows: bool) -> Seq<char> {
    if !windows {
        seq!['/']
    } else if path.len() == 0 {
        path
    } else {
        seq![path[0], ':', '\\']
    }
}

/// The space that a copy of `required` bytes is given: a fifth on top.
pub open spec fn with_headroom(required: u64) -> u64 {
    saturated(required + required / 5)
}

/// The text of a lack of space.
pub open spec fn space_text(needed: u64, available: u64) -> Seq<char> {
    "磁盘空间不足。需要: "@ + size_text(needed as nat, 5, true) + " (含20%缓冲)，可用: "@ + size_text(
        available as nat,
        5,
        true,
    )
}

/// What was observed about the space on the drive of the target.
#[derive(Debug)]
pub struct SpaceFacts {
    /// The estimated size of the source, or the text of the failure to estimate it.
    pub required: Result<u64, String>,
    /// The free space on the drive of the target, where the system tells it.
    pub available: Option<u64>,
    /// The parent of the target.
    pub target_parent: String,
    /// Whether the parent of the target exists.
    pub target_parent_exists: bool,
}

/// The bytes that the copy is taken to need: the estimate, or one gibibyte
/// where there is none.
pub open spec fn required_bytes(facts: SpaceFacts) -> u64 {
    match facts.required {
        Ok(n) => n,
        Err(_) => GIB,
    }
}

/// The failure of the check of space, if it fails: without a figure from
/// the system the parent of the target must exist, and ten gibibytes are
/// assumed; the need with headroom must not exceed what is available.
pub open spec fn space_failure(facts: SpaceFacts) -> Option<Seq<char>> {
    let needed = with_headroom(required_bytes(facts));
    match facts.available {
        None => if !facts.target_parent_exists {
            Some("目标父目录不存在: "@ + facts.target_parent@)
        } else if needed > 10 * GIB {
            Some(space_text(needed, (10 * GIB) as u64))
        } else {
            None
        },
        Some(available) => if needed > available {
            Some(space_text(needed, available))
        } else {
            None
        },
    }
}

/// What was observed about the right to read the source and to write to
/// the parent of the target.
#[derive(Debug, Clone)]
pub struct PermissionFacts {
    pub source: String,
    /// Whether the source exists and could be listed.
    pub source_readable: bool,
    pub target_parent: String,
    /// Whether a file could be created in the nearest existing ancestor of the target.
    pub target_parent_writable: bool,
}

/// The failure of the check of permissions, if it fails.
pub open spec fn permission_failure(facts: PermissionFacts) -> Option<Seq<char>> {
    if !facts.source_readable {
        Some("没有源路径的读取权限: "@ + facts.source@)
    } else if !facts.target_parent_writable {
        Some("没有目标父目录的写入权限: "@ + facts.target_parent@)
    } else {
        None
    }
}

/// All that the checks before a migration look at.
#[derive(Debug)]
pub struct PreCheckFacts {
    pub paths: MigrationPathFacts,
    pub permissions: PermissionFacts,
    pub space: SpaceFacts,
    pub windows: bool,
}

/// The text of a failed check of the text of the paths, if it fails.
pub open spec fn security_failure(source: Seq<char>, target: Seq<char>, windows: bool) -> Option<Seq<char>> {
    match textual_violation(source, target, windows) {
        Some(v) => Some(violation_text(v)),
        None => None,
    }
}

/// The text of a failed check of system protection, if it fails.
pub open spec fn protection_failure(source: PathProbe, target: PathProbe) -> Option<Seq<char>> {
    match protection_violation(source, target) {
        Some(v) => Some(violation_text(v)),
        None => None,
    }
}

/// The failure of the checks before a migration, if one fails. The checks
/// run in this order and the first failure is reported: the text of the
/// paths, the pair of paths, permissions, space, system protection.
pub open spec fn precheck_failure(facts: PreCheckFacts) -> Option<Seq<char>> {
    let security = security_failure(
        facts.paths.source.path@,
        facts.paths.target.path@,
        facts.windows,
    );
    let verdict = migration_path_verdict(facts.paths, facts.windows);
    let permissions = permission_failure(facts.permissions);
    let space = space_failure(facts.space);
    let protection = protection_failure(facts.paths.source, facts.paths.target);
    if security is Some {
        Some("路径安全检查失败: "@ + security->0)
    } else if !verdict.0 {
        Some(verdict.1)
    } else if permissions is Some {
        Some("权限检查失败: "@ + permissions->0)
    } else if space is Some {
        Some("磁盘空间检查失败: "@ + space->0)
    } else if protection is Some {
        Some("系统保护检查失败: "@ + protection->0)
    } else {
        None
    }
}

/// The result `r` fails exactly with the text `failure`.
pub open spec fn fails_with(r: Result<(), String>, failure: Option<Seq<char>>) -> bool {
    match (r, failure) {
        (Ok(_), None) => true,
        (Err(e), Some(text)) => e@ == text,
        _ => false,
    }
}

/// The sizes differ by no more than a tenth of the size of the source.
pub open spec fn within_tolerance(source: u64, target: u64) -> bool {
    let diff = if source > target {
        source - target
    } else {
        target - source
    };
    diff * 10 <= source
}

/// The difference of the sizes in tenths of a percent of the source,
/// rounded to the nearest; a tie goes to the even one.
pub open spec fn difference_tenths(source: u64, target: u64) -> nat {
    let diff = if source > target {
        source - target
    } else {
        target - source
    };
    let scaled = diff * 1000;
    let whole = scaled / (source as int);
    let rest = scaled % (source as int);
    if 2 * rest > source || (2 * rest == source && whole % 2 == 1) {
        (whole + 1) as nat
    } else {
        whole as nat
    }
}

/// The text of a difference that is too large.
pub open spec fn difference_text(source: u64, target: u64) -> Seq<char> {
    if source == 0 {
        "大小差异过大: inf%"@
    } else {
        "大小差异过大: "@ + decimal(difference_tenths(source, target) / 10).push('.').push(
            digit_char(difference_tenths(source, target) % 10),
        ).push('%')
    }
}

/// The name of an entry, where it has one.
pub open spec fn entry_name(e: EntrySnapshot) -> Option<Seq<char>> {
    match e {
        EntrySnapshot::Unreadable { .. } => None,
        EntrySnapshot::File { name, .. } => Some(name@),
        EntrySnapshot::Directory { tree, .. } => Some(capped_name(tree)),
    }
}

/// The index of the first of the first `n` entries that carries `name`.
pub open spec fn index_of_name(entries: Seq<EntrySnapshot>, name: Seq<char>, n: nat) -> Option<int>
    decreases n,
{
    if n == 0 || n > entries.len() {
        None
    } else {
        match index_of_name(entries, name, (n - 1) as nat) {
            Some(i) => Some(i),
            None => if entry_name(entries[n - 1]) == Some(name) {
                Some(n - 1)
            } else {
                None
            },
        }
    }
}

/// How many entries of a directory are compared after a copy.
pub const KEY_ENTRIES: usize = 10;

/// How far the comparison of two directories has come.
pub struct KeyCheck {
    /// The readable entries compared so far.
    pub taken: nat,
    /// The text of the first mismatch.
    pub failure: Option<Seq<char>>,
}

/// The entries of the directory at entry `i` of `target`, where that entry is a directory.
pub open spec fn subtree_at(target: Seq<EntrySnapshot>, i: int) -> Seq<EntrySnapshot> {
    match target[i] {
        EntrySnapshot::Directory { tree, .. } => entries_of(tree),
        _ => Seq::empty(),
    }
}

/// Compares `source` with the entries `target` found at the same place of
/// the copy: each of the first ten readable entries of the source must
/// have an entry of the same name in the target, and so on below every
/// directory among them. A source that cannot be listed fails.
pub open spec fn key_files_failure(source: DirSnapshot, target: Seq<EntrySnapshot>) -> Option<Seq<char>>
    decreases source, entries_of(source).len() + 1,
{
    match source.listing {
        Listing::Denied(reason) => Some("读取源目录失败: "@ + reason@),
        Listing::Failed(reason) => Some("读取源目录失败: "@ + reason@),
        Listing::Entries(_) => key_entries_check(source, target, entries_of(source).len()).failure,
    }
}

/// The comparison of the first `n` entries of `source`.
pub open spec fn key_entries_check(source: DirSnapshot, target: Seq<EntrySnapshot>, n: nat) -> KeyCheck
    decreases source, n,
{
    if n == 0 || n > entries_of(source).len() {
        KeyCheck { taken: 0, failure: None }
    } else {
        let before = key_entries_check(source, target, (n - 1) as nat);
        let e = entries_of(source)[n - 1];
        if before.failure is Some || before.taken >= KEY_ENTRIES || entry_name(e) is None {
            before
        } else {
            let name = entry_name(e)->0;
            let at = index_of_name(target, name, target.len());
            if at is None {
                KeyCheck { taken: before.taken + 1, failure: Some("关键文件缺失: "@ + name) }
            } else {
                match e {
                    EntrySnapshot::Directory { tree, .. } => KeyCheck {
                        taken: before.taken + 1,
                        failure: key_files_failure(tree, subtree_at(target, at->0)),
                    },
                    _ => KeyCheck { taken: before.taken + 1, failure: None },
                }
            }
        }
    }
}

/// What was measured after the copy.
#[derive(Debug)]
pub struct VerifyFacts {
    /// Whether the target exists.
    pub target_exists: bool,
    /// The size of the source, or the text of the failure to measure it.
    pub source_size: Result<u64, String>,
    /// The size of the target, or the text of the failure to measure it.
    pub target_size: Result<u64, String>,
    /// The source as it was read.
    pub source: DirSnapshot,
    /// The target as it was read.
    pub target: DirSnapshot,
}

/// The failure of the verification of a copy, if it fails: the target must
/// exist, both sizes must be known and differ by no more than a tenth of
/// the source, and the key entries of the source must be found in the target.
pub open spec fn verify_failure(facts: VerifyFacts) -> Option<Seq<char>> {
    if !facts.target_exists {
        Some("目标目录不存在"@)
    } else {
        match (facts.source_size, facts.target_size) {
            (Err(e), _) => Some("无法获取源目录信息: "@ + e@),
            (Ok(_), Err(e)) => Some("无法获取目标目录信息: "@ + e@),
            (Ok(s), Ok(t)) => if !within_tolerance(s, t) {
                Some(difference_text(s, t))
            } else {
                key_files_failure(facts.source, entries_of(facts.target))
            },
        }
    }
}

/// Writes the text of a lack of space.
pub fn space_message(needed: u64, available: u64) -> (s: String)
    ensures
        s@ == space_text(needed, available),
{
    let mut s = String::from_str("磁盘空间不足。需要: ");
    s.append(format_file_size(needed).as_str());
    s.append(" (含20%缓冲)，可用: ");
    s.append(format_file_size(available).as_str());
    s
}

/// Whether the sizes differ by no more than a tenth of the size of the source.
pub fn sizes_agree(source: u64, target: u64) -> (r: bool)
    ensures
        r == within_tolerance(source, target),
{
    let diff = if source > target {
        source - target
    } else {
        target - source
    };
    diff as u128 * 10 <= source as u128
}

/// Writes the text of a difference that is too large.
pub fn difference_message(source: u64, target: u64) -> (s: String)
    ensures
        s@ == difference_text(source, target),
{
    if source == 0 {
        return String::from_str("大小差异过大: inf%");
    }
    let diff = if source > target {
        source - target
    } else {
        target - source
    };
    let scaled: u128 = diff as u128 * 1000;
    let whole = scaled / (source as u128);
    let rest = scaled % (source as u128);
    let tenths: u128 = if 2 * rest > source as u128 || (2 * rest == source as u128 && whole % 2 == 1) {
        whole + 1
    } else {
        whole
    };
    let mut out = chars_of("大小差异过大: ");
    let head = tenths / 10;
    let digits = decimal_chars_wide(head);
    push_all(&mut out, &digits);
    out.push('.');
    out.push(((48 + tenths % 10) as u8) as char);
    out.push('%');
    string_of(&out)
}

/// Finds the first entry that carries `name`.
pub fn find_by_name(entries: &Vec<EntrySnapshot>, name: &str) -> (r: Option<usize>)
    ensures
        index_of_name(entries@, name@, entries@.len()) == (match r {
            Some(k) => Some(k as int),
            None => None,
        }),
        r matches Some(k) ==> k < entries@.len(),
{
    let mut i: usize = 0;
    while i < entries.len()
        invariant
            i <= entries@.len(),
            index_of_name(entries@, name@, i as nat) is None,
        decreases entries@.len() - i,
    {
        let hit = match &entries[i] {
            EntrySnapshot::Unreadable { .. } => false,
            EntrySnapshot::File { name: n, .. } => same_text(n.as_str(), name),
            EntrySnapshot::Directory { tree, .. } => {
                let n = name_or_empty(tree);
                same_text(n.as_str(), name)
            },
        };
        if hit {
            proof {
                assert(index_of_name(entries@, name@, (i + 1) as nat) == Some(i as int));
                lemma_found_stays(entries@, name@, (i + 1) as nat, entries@.len());
            }
            return Some(i);
        }
        i += 1;
    }
    None
}

/// Once a name is found, the entries behind it change nothing.
pub proof fn lemma_found_stays(entries: Seq<EntrySnapshot>, name: Seq<char>, k: nat, m: nat)
    requires
        index_of_name(entries, name, k) is Some,
        k <= m <= entries.len(),
    ensures
        index_of_name(entries, name, m) == index_of_name(entries, name, k),
    decreases m,
{
    if m > k {
        lemma_found_stays(entries, name, k, (m - 1) as nat);
    }
}

/// Once the comparison has failed, the entries behind change nothing.
pub proof fn lemma_key_failure_stays(source: DirSnapshot, target: Seq<EntrySnapshot>, k: nat, m: nat)
    requires
        key_entries_check(source, target, k).failure is Some,
        k <= m <= entries_of(source).len(),
    ensures
        key_entries_check(source, target, m) == key_entries_check(source, target, k),
    decreases m,
{
    if m > k {
        lemma_key_failure_stays(source, target, k, (m - 1) as nat);
    }
}

/// The migration service: the checks around a copy, and the operator that plans it.
pub struct MigrationService {
    file_operator: FileOperator,
}

impl MigrationService {
    /// The operator that plans the copy.
    pub closed spec fn operator(&self) -> FileOperator {
        self.file_operator
    }

    /// A service whose operator was not cancelled.
    pub fn new() -> (s: MigrationService)
        ensures
            !s.operator().cancelled(),
    {
        MigrationService { file_operator: FileOperator::new() }
    }

    /// The operator that plans the copy.
    pub fn file_operator(&self) -> (o: &FileOperator)
        ensures
            *o == self.operator(),
    {
        &self.file_operator
    }

    /// The free space that is assumed on the drive of `path` where the system tells none.
    pub fn get_available_space(&self, path: &str) -> (space: Option<u64>)
        ensures
            space == Some(assumed_space(path@)),
    {
        let p = chars_of(path);
        let c = chars_of("C:\\");
        let d = chars_of("D:\\");
        if crate::text::has_prefix(&p, &c) {
            Some(50 * GIB)
        } else if crate::text::has_prefix(&p, &d) {
            Some(100 * GIB)
        } else {
            Some(20 * GIB)
        }
    }

    /// Checks the text of the two paths: no empty path, no parent
    /// reference, no forbidden character, no reserved name, no path that is too long.
    pub fn validate_path_security(&self, source: &str, target: &str, windows: bool) -> (r: Result<
        (),
        String,
    >)
        ensures
            fails_with(r, security_failure(source@, target@, windows)),
    {
        match check_text(source, target, windows) {
            Some(v) => Err(describe(v)),
            None => Ok(()),
        }
    }

    /// Checks that neither path touches what the system protects.
    pub fn check_system_protection(&self, source: &PathProbe, target: &PathProbe) -> (r: Result<
        (),
        String,
    >)
        ensures
            fails_with(r, protection_failure(*source, *target)),
    {
        match check_protection(source, target) {
            Some(v) => Err(describe(v)),
            None => Ok(()),
        }
    }

    /// Whether one of the paths lies under a system path that only an
    /// administrator may change, ASCII case ignored.
    pub fn requires_admin_permission(&self, source: &str, target: &str) -> (r: bool)
        ensures
            r == (begins_with_any(source@, admin_paths()) || begins_with_any(target@, admin_paths())),
    {
        let mut list: Vec<Vec<char>> = Vec::new();
        list.push(chars_of("C:\\Windows"));
        list.push(chars_of("C:\\Program Files"));
        list.push(chars_of("C:\\Program Files (x86)"));
        proof {
            assert(texts(list@) =~= admin_paths());
        }
        let s = chars_of(source);
        let t = chars_of(target);
        begins_with_listed(&s, &list) || begins_with_listed(&t, &list)
    }

    /// Whether a program is installed in the directory.
    pub fn is_program_installation_directory(&self, path: &PathProbe) -> (r: bool)
        ensures
            r == is_program_directory(*path),
    {
        holds_program(path)
    }

    /// The root of the drive of a path.
    pub fn get_root_directory(&self, path: &str, windows: bool) -> (root: String)
        ensures
            root@ == drive_root(path@, windows),
    {
        if !windows {
            let mut root = String::new();
            root.push('/');
            proof {
                assert(root@ =~= seq!['/']);
            }
            return root;
        }
        let p = chars_of(path);
        if p.len() == 0 {
            return String::from_str(path);
        }
        let mut root = String::new();
        root.push(p[0]);
        root.push(':');
        root.push('\\');
        proof {
            assert(root@ =~= seq![path@[0], ':', '\\']);
        }
        root
    }

    /// Whether the source can be read.
    pub fn has_read_permission(&self, exists: bool, listable: bool) -> (r: bool)
        ensures
            r == (exists && listable),
    {
        exists && listable
    }

    /// Whether the target can be written to. `ancestors` lists, from the
    /// path upward, whether each ancestor exists and whether a file could
    /// be created in it: the nearest one that exists decides.
    pub fn has_write_permission(&self, ancestors: &Vec<(bool, bool)>) -> (r: bool)
        ensures
            r == (exists|i: int|
                0 <= i < ancestors@.len() && (#[trigger] ancestors@[i]).0 && ancestors@[i].1
                    && forall|j: int| 0 <= j < i ==> !(#[trigger] ancestors@[j]).0),
    {
        let mut i: usize = 0;
        while i < ancestors.len()
            invariant
                i <= ancestors@.len(),
                forall|j: int| 0 <= j < i ==> !(#[trigger] ancestors@[j]).0,
            decreases ancestors@.len() - i,
        {
            if ancestors[i].0 {
                let writable = ancestors[i].1;
                proof {
                    if !writable {
                        assert forall|k: int|
                            0 <= k < ancestors@.len() && (#[trigger] ancestors@[k]).0
                                && ancestors@[k].1 implies !(forall|j: int|
                            0 <= j < k ==> !(#[trigger] ancestors@[j]).0) by {
                            if k > i {
                                assert(ancestors@[i as int].0);
                            }
                        }
                    }
                }
                return writable;
            }
            i += 1;
        }
        false
    }

    /// Checks the right to read the source and to write to the parent of the target.
    pub fn check_permissions(&self, facts: &PermissionFacts) -> (r: Result<(), String>)
        ensures
            fails_with(r, permission_failure(*facts)),
    {
        if !facts.source_readable {
            return Err(String::from_str("没有源路径的读取权限: ").concat(facts.source.as_str()));
        }
        if !facts.target_parent_writable {
            return Err(
                String::from_str("没有目标父目录的写入权限: ").concat(facts.target_parent.as_str()),
            );
        }
        Ok(())
    }

    /// The bytes that the copy is taken to need.
    pub fn estimate_required_space(&self, facts: &SpaceFacts) -> (n: u64)
        ensures
            n == required_bytes(*facts),
    {
        match &facts.required {
            Ok(n) => *n,
            Err(_) => GIB,
        }
    }

    /// The space that is taken to be free where a write of `sizes[i]` bytes
    /// was tried for each `i` in turn: ten times the first size that could
    /// be written.
    pub fn estimate_available_space(&self, written: &Vec<bool>) -> (r: Result<u64, String>)
        ensures
            match r {
                Ok(n) => exists|i: int|
                    0 <= i < 3 && i < written@.len() && #[trigger] written@[i] && n == 10
                        * test_size(i) && forall|j: int| 0 <= j < i ==> !#[trigger] written@[j],
                Err(e) => e@ == "无法估计可用磁盘空间"@ && forall|j: int|
                    0 <= j < 3 && j < written@.len() ==> !#[trigger] written@[j],
            },
    {
        let mut i: usize = 0;
        while i < 3 && i < written.len()
            invariant
                i <= 3,
                i <= written@.len(),
                forall|j: int| 0 <= j < i ==> !#[trigger] written@[j],
            decreases 3 - i,
        {
            if written[i] {
                let size: u64 = if i == 0 {
                    0x10_0000
                } else if i == 1 {
                    0xa0_0000
                } else {
                    0x640_0000
                };
                return Ok(size * 10);
            }
            i += 1;
        }
        Err(String::from_str("无法估计可用磁盘空间"))
    }

    /// Checks that the drive of the target has room for the copy with a fifth on top.
    pub fn check_disk_space(&self, facts: &SpaceFacts) -> (r: Result<(), String>)
        ensures
            fails_with(r, space_failure(*facts)),
    {
        let required = self.estimate_required_space(facts);
        let needed = add_saturating(required, required / 5);
        let available = match facts.available {
            Some(n) => n,
            None => {
                if !facts.target_parent_exists {
                    return Err(
                        String::from_str("目标父目录不存在: ").concat(facts.target_parent.as_str()),
                    );
                }
                10 * GIB
            },
        };
        if needed > available {
            return Err(space_message(needed, available));
        }
        Ok(())
    }

    /// Runs the checks before a migration and reports the first failure.
    pub fn pre_migration_check(&self, facts: &PreCheckFacts) -> (r: Result<(), String>)
        ensures
            fails_with(r, precheck_failure(*facts)),
    {
        if let Err(e) = self.validate_path_security(
            facts.paths.source.path.as_str(),
            facts.paths.target.path.as_str(),
            facts.windows,
        ) {
            return Err(String::from_str("路径安全检查失败: ").concat(e.as_str()));
        }
        let (valid, message) = self.file_operator.validate_migration_path(&facts.paths, facts.windows);
        if !valid {
            return Err(message);
        }
        if let Err(e) = self.check_permissions(&facts.permissions) {
            return Err(String::from_str("权限检查失败: ").concat(e.as_str()));
        }
        if let Err(e) = self.check_disk_space(&facts.space) {
            return Err(String::from_str("磁盘空间检查失败: ").concat(e.as_str()));
        }
        if let Err(e) = self.check_system_protection(&facts.paths.source, &facts.paths.target) {
            return Err(String::from_str("系统保护检查失败: ").concat(e.as_str()));
        }
        Ok(())
    }

    /// Compares the key entries of the source with the target; see `key_files_failure`.
    pub fn verify_key_files(&self, source: &DirSnapshot, target: &Vec<EntrySnapshot>) -> (r: Result<
        (),
        String,
    >)
        ensures
            fails_with(r, key_files_failure(*source, target@)),
        decreases source,
    {
        match &source.listing {
            Listing::Denied(reason) => Err(String::from_str("读取源目录失败: ").concat(reason.as_str())),
            Listing::Failed(reason) => Err(String::from_str("读取源目录失败: ").concat(reason.as_str())),
            Listing::Entries(es) => {
                let mut taken: usize = 0;
                let mut i: usize = 0;
                while i < es.len() && taken < KEY_ENTRIES
                    invariant
                        source.listing == Listing::Entries(*es),
                        i <= es@.len(),
                        taken <= KEY_ENTRIES,
                        key_entries_check(*source, target@, i as nat) == (KeyCheck {
                            taken: taken as nat,
                            failure: None,
                        }),
                    decreases es@.len() - i,
                {
                    assert(entries_of(*source)[i as int] == es@[i as int]);
                    let name: Option<String> = match &es[i] {
                        EntrySnapshot::Unreadable { .. } => None,
                        EntrySnapshot::File { name, .. } => Some(name.clone()),
                        EntrySnapshot::Directory { tree, .. } => Some(name_or_empty(tree)),
                    };
                    if let Some(n) = name {
                        assert(entry_name(es@[i as int]) == Some(n@));
                        let ghost before = key_entries_check(*source, target@, i as nat);
                        let ghost now = key_entries_check(*source, target@, (i + 1) as nat);
                        let found = find_by_name(target, n.as_str());
                        let mut failure: Option<String> = None;
                        match found {
                            None => {
                                failure = Some(String::from_str("关键文件缺失: ").concat(n.as_str()));
                                assert(now.failure == Some("关键文件缺失: "@ + n@));
                            },
                            Some(at) => {
                                if let EntrySnapshot::Directory { tree, .. } = &es[i] {
                                    let empty: Vec<EntrySnapshot> = Vec::new();
                                    let mut below: Result<(), String> = Ok(());
                                    match &target[at] {
                                        EntrySnapshot::Directory { tree: copy, .. } => {
                                            match &copy.listing {
                                                Listing::Entries(inner) => {
                                                    assert(subtree_at(target@, at as int) == inner@);
                                                    below = self.verify_key_files(tree, inner);
                                                },
                                                _ => {
                                                    assert(subtree_at(target@, at as int) == empty@);
                                                    below = self.verify_key_files(tree, &empty);
                                                },
                                            }
                                        },
                                        _ => {
                                            assert(subtree_at(target@, at as int) == empty@);
                                            below = self.verify_key_files(tree, &empty);
                                        },
                                    }
                                    assert(fails_with(
                                        below,
                                        key_files_failure(*tree, subtree_at(target@, at as int)),
                                    ));
                                    assert(index_of_name(target@, n@, target@.len()) == Some(
                                        at as int,
                                    ));
                                    assert(es@[i as int] is Directory);
                                    assert(es@[i as int]->Directory_tree == *tree);
                                    assert(before.failure is None);
                                    assert(before.taken < KEY_ENTRIES);
                                    assert(now.failure == key_files_failure(
                                        *tree,
                                        subtree_at(target@, at as int),
                                    ));
                                    if let Err(e) = below {
                                        failure = Some(e);
                                    }
                                } else {
                                    assert(now.failure is None);
                                }
                            },
                        }
                        taken = taken + 1;
                        assert(now.taken == taken);
                        assert(match (failure, now.failure) {
                            (Some(e), Some(text)) => e@ == text,
                            (None, None) => true,
                            _ => false,
                        });
                        if let Some(text) = failure {
                            proof {
                                lemma_key_failure_stays(*source, target@, (i + 1) as nat, es@.len());
                            }
                            return Err(text);
                        }
                    } else {
                        assert(entry_name(es@[i as int]) is None);
                    }
                    i += 1;
                }
                proof {
                    if i < es@.len() {
                        lemma_key_full_stays(*source, target@, i as nat, es@.len());
                    }
                }
                Ok(())
            },
        }
    }

    /// Verifies a copy; see `verify_failure`.
    pub fn verify_copy_result(&self, facts: &VerifyFacts) -> (r: Result<(), String>)
        ensures
            fails_with(r, verify_failure(*facts)),
    {
        if !facts.target_exists {
            return Err(String::from_str("目标目录不存在"));
        }
        let source_size = match &facts.source_size {
            Ok(n) => *n,
            Err(e) => {
                return Err(String::from_str("无法获取源目录信息: ").concat(e.as_str()));
            },
        };
        let target_size = match &facts.target_size {
            Ok(n) => *n,
            Err(e) => {
                return Err(String::from_str("无法获取目标目录信息: ").concat(e.as_str()));
            },
        };
        if !sizes_agree(source_size, target_size) {
            return Err(difference_message(source_size, target_size));
        }
        match &facts.target.listing {
            Listing::Entries(es) => self.verify_key_files(&facts.source, es),
            _ => {
                let empty: Vec<EntrySnapshot> = Vec::new();
                self.verify_key_files(&facts.source, &empty)
            },
        }
    }
}

/// The size of the write that is tried at round `i` of the estimate of free space.
pub open spec fn test_size(i: int) -> int {
    if i == 0 {
        0x10_0000
    } else if i == 1 {
        0xa0_0000
    } else {
        0x640_0000
    }
}

/// Once ten entries are compared, the entries behind change nothing.
pub proof fn lemma_key_full_stays(source: DirSnapshot, target: Seq<EntrySnapshot>, k: nat, m: nat)
    requires
        key_entries_check(source, target, k).taken >= KEY_ENTRIES,
        k <= m <= entries_of(source).len(),
    ensures
        key_entries_check(source, target, m) == key_entries_check(source, target, k),
    decreases m,
{
    if m > k {
        lemma_key_full_stays(source, target, k, (m - 1) as nat);
    }
}

/// **A verified copy.** Where the verification of a copy does not fail,
/// the target exists, both sizes are known and differ by no more than a
/// tenth of the source, and the comparison of the key entries found nothing missing.
pub proof fn lemma_verified_copy(facts: VerifyFacts)
    requires
        verify_failure(facts) is None,
    ensures
        facts.target_exists,
        facts.source_size is Ok,
        facts.target_size is Ok,
        within_tolerance(facts.source_size->Ok_0, facts.target_size->Ok_0),
        key_files_failure(facts.source, entries_of(facts.target)) is None,
{
}

/// **Key entries are present.** Where the comparison of two directories
/// found nothing missing, each of the first ten readable entries of the
/// source has an entry of its name in the target.
pub proof fn lemma_key_names_present(source: DirSnapshot, target: Seq<EntrySnapshot>, k: int)
    requires
        key_files_failure(source, target) is None,
        0 <= k < entries_of(source).len(),
        entry_name(entries_of(source)[k]) is Some,
        key_entries_check(source, target, k as nat).taken < KEY_ENTRIES,
    ensures
        index_of_name(target, entry_name(entries_of(source)[k])->0, target.len()) is Some,
{
    let n = entries_of(source).len();
    if key_entries_check(source, target, (k + 1) as nat).failure is Some {
        lemma_key_failure_stays(source, target, (k + 1) as nat, n);
    }
    if key_entries_check(source, target, k as nat).failure is Some {
        lemma_key_failure_stays(source, target, k as nat, n);
    }
}

} // verus!
