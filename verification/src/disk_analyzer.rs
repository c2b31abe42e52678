//! The sized directory scanner.
//!
//! `scan_tree` turns the record of a walk into the sized tree: it stops on
//! the first cancellation that the record holds, leaves directories beyond
//! the depth limit and protected system paths unopened, processes no more
//! entries of a directory than the limit allows, orders the children of
//! every node by size and marks the large ones.

use crate::path_safety::{begins_with_listed, blocklist_entries, texts};
use crate::ratio::{add_saturating, saturated, Ratio};
use crate::scan_progress::{
    after_large, after_report, after_start, blank, consistent, ProgressState, ScanProgress,
};
use crate::size_format::{format_size_in, size_text};
use crate::scan_model::{
    arranged, cancelled_text, capped_name, entries_of, finished, guarded_extras, is_guarded,
    node_name, node_size, processed_entries, read_failed_text, scan_beyond, scan_dir, scan_entries,
    large_below, large_nodes, stub, with_share, DirSnapshot, DirectoryNode, EntrySnapshot, Listing,
    ScanSettings, Tally, ENTRY_LIMIT, ROOT_ENTRY_LIMIT,
};
use crate::scan_laws::{lemma_cancellation_anywhere, meets_cancellation};
use crate::sorting::{key_of, lemma_sort_commutes, lemma_stable_sort, sort_by_key, Keyed};
use crate::text::{chars_of, fold, has_prefix_folded, starts_with};
use vstd::prelude::*;

verus! {

/// The result of sizing a directory.
#[derive(Debug)]
pub struct DirectoryInfo {
    /// The path of the directory.
    pub path: String,
    /// Its last component.
    pub name: String,
    /// The bytes of the files found in it and below it.
    pub size: u64,
    /// The files and directories found below it.
    pub file_count: u64,
    /// The directories directly inside it, largest first.
    pub subdirectories: Vec<DirectoryInfo>,
    /// When it was last modified, in seconds since the epoch.
    pub last_modified: Option<u64>,
    /// Whether its size reaches the threshold.
    pub is_large_folder: bool,
    /// Its share of the size of its parent.
    pub size_percentage: Ratio,
}

/// The mathematical value of a sized tree.
pub open spec fn node_of(d: DirectoryInfo) -> DirectoryNode
    decreases d,
{
    DirectoryNode {
        path: d.path@,
        name: d.name@,
        size: d.size,
        file_count: d.file_count,
        subdirectories: Seq::new(
            d.subdirectories@.len(),
            |i: int|
                if 0 <= i < d.subdirectories@.len() {
                    node_of(d.subdirectories@[i])
                } else {
                    arbitrary()
                },
        ),
        last_modified: d.last_modified,
        is_large_folder: d.is_large_folder,
        size_percentage: d.size_percentage,
    }
}

impl View for DirectoryInfo {
    type V = DirectoryNode;

    open spec fn view(&self) -> DirectoryNode {
        node_of(*self)
    }
}

impl Clone for DirectoryInfo {
    /// A copy of the tree.
    fn clone(&self) -> (r: DirectoryInfo)
        ensures
            r@ == self@,
        decreases self,
    {
        let mut children: Vec<DirectoryInfo> = Vec::new();
        let mut i: usize = 0;
        while i < self.subdirectories.len()
            invariant
                i <= self.subdirectories@.len(),
                children@.len() == i,
                forall|k: int| 0 <= k < i ==> (#[trigger] children@[k])@ == self.subdirectories@[k]@,
            decreases self.subdirectories@.len() - i,
        {
            children.push(self.subdirectories[i].clone());
            i += 1;
        }
        let r = DirectoryInfo {
            path: self.path.clone(),
            name: self.name.clone(),
            size: self.size,
            file_count: self.file_count,
            subdirectories: children,
            last_modified: self.last_modified,
            is_large_folder: self.is_large_folder,
            size_percentage: self.size_percentage,
        };
        proof {
            reveal_with_fuel(node_of, 2);
            assert(r@.subdirectories =~= self@.subdirectories);
        }
        r
    }
}

impl Keyed for DirectoryInfo {
    open spec fn key(&self) -> u64 {
        self.size
    }

    fn key_value(&self) -> (k: u64) {
        self.size
    }
}

/// The function that takes a sized tree to its mathematical value.
pub open spec fn to_node() -> spec_fn(DirectoryInfo) -> DirectoryNode {
    |d: DirectoryInfo| d@
}

/// The mathematical values of a sequence of sized trees.
pub open spec fn nodes_of(v: Seq<DirectoryInfo>) -> Seq<DirectoryNode> {
    v.map_values(to_node())
}

/// The outcome `r` is the one that `o` describes.
pub open spec fn outcome_is(r: Result<DirectoryInfo, String>, o: Result<DirectoryNode, Seq<char>>) -> bool {
    match (r, o) {
        (Ok(info), Ok(node)) => info@ == node,
        (Err(e), Err(text)) => e@ == text,
        _ => false,
    }
}

/// The children of a node, as mathematical values.
pub proof fn lemma_children_view(info: DirectoryInfo)
    ensures
        info@.subdirectories == nodes_of(info.subdirectories@),
{
    reveal_with_fuel(node_of, 2);
    assert(info@.subdirectories =~= nodes_of(info.subdirectories@));
}

/// Once an entry has ended the scan, the entries behind it change nothing.
pub proof fn lemma_error_stays(cfg: ScanSettings, snap: DirSnapshot, k: nat, m: nat, depth: nat)
    requires
        scan_entries(cfg, snap, k, depth) is Err,
        k <= m <= entries_of(snap).len(),
    ensures
        scan_entries(cfg, snap, m, depth) == scan_entries(cfg, snap, k, depth),
    decreases m,
{
    if m > k {
        lemma_error_stays(cfg, snap, k, (m - 1) as nat, depth);
    }
}

/// The error text of a cancelled scan.
pub fn cancelled_message() -> (s: String)
    ensures
        s@ == cancelled_text(),
{
    String::from_str("扫描已取消")
}

/// The error text of a scan whose root could not be read.
pub fn read_failed_message(reason: &String) -> (s: String)
    ensures
        s@ == read_failed_text(reason@),
{
    String::from_str("读取目录失败: ").concat(reason.as_str())
}

/// A node for a directory that was not opened.
pub fn stub_info(path: &String, name: String) -> (info: DirectoryInfo)
    ensures
        info@ == stub(path@, name@),
{
    let info = DirectoryInfo {
        path: path.clone(),
        name,
        size: 0,
        file_count: 0,
        subdirectories: Vec::new(),
        last_modified: None,
        is_large_folder: false,
        size_percentage: Ratio::zero(),
    };
    proof {
        assert(info@.subdirectories =~= Seq::<DirectoryNode>::empty());
    }
    info
}

/// The last component of the path, or the path where it has none.
pub fn name_or_path(snap: &DirSnapshot) -> (name: String)
    ensures
        name@ == node_name(*snap),
{
    match &snap.name {
        Some(n) => n.clone(),
        None => snap.path.clone(),
    }
}

/// The last component of the path, or nothing where it has none.
pub fn name_or_empty(snap: &DirSnapshot) -> (name: String)
    ensures
        name@ == capped_name(*snap),
{
    match &snap.name {
        Some(n) => n.clone(),
        None => String::new(),
    }
}

/// Whether a guarded scan leaves the path unopened.
pub fn guards(path: &str) -> (r: bool)
    ensures
        r == is_guarded(path@),
{
    let p = chars_of(path);
    let blocked = blocklist_entries();
    if begins_with_listed(&p, &blocked) {
        return true;
    }
    let mut extras: Vec<Vec<char>> = Vec::new();
    extras.push(chars_of("C:\\Windows\\System32"));
    extras.push(chars_of("C:\\Windows\\SysWOW64"));
    extras.push(chars_of("C:\\Program Files\\Windows Defender"));
    proof {
        assert(texts(extras@) =~= guarded_extras());
    }
    begins_with_listed(&p, &extras)
}

/// The result for a directory that lies beyond the depth limit.
pub fn beyond_depth(snap: &DirSnapshot) -> (r: Result<DirectoryInfo, String>)
    ensures
        outcome_is(r, scan_beyond(*snap)),
{
    if snap.cancel_seen {
        Err(cancelled_message())
    } else {
        Ok(stub_info(&snap.path, name_or_empty(snap)))
    }
}

/// Orders the children by size, largest first, and gives each its share of `total`.
pub fn arrange(children: Vec<DirectoryInfo>, total: u64) -> (r: Vec<DirectoryInfo>)
    ensures
        nodes_of(r@) == arranged(nodes_of(children@), total),
{
    let ghost before = children@;
    let mut v = children;
    sort_by_key(&mut v, true);
    let ghost sorted = v@;
    proof {
        assert forall|a: DirectoryInfo| #[trigger]
            key_of::<DirectoryInfo>()(a) == node_size()(to_node()(a)) by {}
        lemma_sort_commutes(before, to_node(), key_of::<DirectoryInfo>(), node_size(), true);
        lemma_stable_sort(before, key_of::<DirectoryInfo>(), true);
    }
    let mut i: usize = 0;
    while i < v.len()
        invariant
            v@.len() == sorted.len(),
            i <= v@.len(),
            forall|j: int| 0 <= j < i ==> (#[trigger] v@[j])@ == with_share(sorted[j]@, total),
            forall|j: int| i <= j < v@.len() ==> #[trigger] v@[j] == sorted[j],
        decreases v@.len() - i,
    {
        let share = Ratio::new(v[i].size, total);
        v[i].size_percentage = share;
        i += 1;
    }
    proof {
        assert(nodes_of(v@) =~= arranged(nodes_of(before), total));
    }
    v
}

/// Sizes the directory `snap`, found at `depth` below the root of the scan.
pub fn scan_tree(cfg: &ScanSettings, snap: &DirSnapshot, depth: usize) -> (r: Result<
    DirectoryInfo,
    String,
>)
    ensures
        outcome_is(r, scan_dir(*cfg, *snap, depth as nat)),
    decreases snap,
{
    if depth > cfg.max_depth {
        return beyond_depth(snap);
    }
    if snap.cancel_seen {
        return Err(cancelled_message());
    }
    if cfg.guard_system_paths && guards(snap.path.as_str()) {
        return Ok(stub_info(&snap.path, name_or_path(snap)));
    }
    match &snap.listing {
        Listing::Denied(_) => Ok(stub_info(&snap.path, name_or_path(snap))),
        Listing::Failed(reason) => {
            if depth == 0 {
                Err(read_failed_message(reason))
            } else {
                Ok(stub_info(&snap.path, name_or_path(snap)))
            }
        },
        Listing::Entries(es) => {
            let limit: usize = if cfg.reduced_root_limit && depth == 0 {
                ROOT_ENTRY_LIMIT
            } else {
                ENTRY_LIMIT
            };
            let n: usize = if es.len() <= limit {
                es.len()
            } else {
                limit
            };
            let mut size: u64 = 0;
            let mut count: u64 = 0;
            let mut children: Vec<DirectoryInfo> = Vec::new();
            let mut i: usize = 0;
            proof {
                assert(nodes_of(children@) =~= Seq::<DirectoryNode>::empty());
            }
            while i < n
                invariant
                    snap.listing == Listing::Entries(*es),
                    depth <= cfg.max_depth,
                    scan_dir(*cfg, *snap, depth as nat) == (match scan_entries(
                        *cfg,
                        *snap,
                        n as nat,
                        depth as nat,
                    ) {
                        Ok(tally) => Ok::<DirectoryNode, Seq<char>>(finished(*cfg, *snap, tally)),
                        Err(e) => Err(e),
                    }),
                    i <= n,
                    n == processed_entries(*cfg, *snap, depth as nat),
                    n <= es@.len(),
                    scan_entries(*cfg, *snap, i as nat, depth as nat) == Ok::<Tally, Seq<char>>(
                        Tally { size, file_count: count, children: nodes_of(children@) },
                    ),
                decreases n - i,
            {
                let ghost tally = Tally { size, file_count: count, children: nodes_of(children@) };
                assert(entries_of(*snap)[i as int] == es@[i as int]);
                match &es[i] {
                    EntrySnapshot::Unreadable { cancel_seen, .. } => {
                        if *cancel_seen {
                            proof {
                                assert(scan_entries(*cfg, *snap, (i + 1) as nat, depth as nat) == Err::<
                                    Tally,
                                    Seq<char>,
                                >(cancelled_text()));
                                lemma_error_stays(*cfg, *snap, (i + 1) as nat, n as nat, depth as nat);
                            }
                            return Err(cancelled_message());
                        }
                    },
                    EntrySnapshot::File { cancel_seen, size: length, .. } => {
                        if *cancel_seen {
                            proof {
                                assert(scan_entries(*cfg, *snap, (i + 1) as nat, depth as nat) == Err::<
                                    Tally,
                                    Seq<char>,
                                >(cancelled_text()));
                                lemma_error_stays(*cfg, *snap, (i + 1) as nat, n as nat, depth as nat);
                            }
                            return Err(cancelled_message());
                        }
                        if let Ok(bytes) = length {
                            size = add_saturating(size, *bytes);
                            count = add_saturating(count, 1);
                        }
                    },
                    EntrySnapshot::Directory { cancel_seen, tree } => {
                        if *cancel_seen {
                            proof {
                                assert(scan_entries(*cfg, *snap, (i + 1) as nat, depth as nat) == Err::<
                                    Tally,
                                    Seq<char>,
                                >(cancelled_text()));
                                lemma_error_stays(*cfg, *snap, (i + 1) as nat, n as nat, depth as nat);
                            }
                            return Err(cancelled_message());
                        }
                        let sub = if depth == usize::MAX {
                            beyond_depth(tree)
                        } else {
                            scan_tree(cfg, tree, depth + 1)
                        };
                        match sub {
                            Err(e) => {
                                proof {
                                    assert(scan_entries(*cfg, *snap, (i + 1) as nat, depth as nat)
                                        == Err::<Tally, Seq<char>>(e@));
                                    lemma_error_stays(
                                        *cfg,
                                        *snap,
                                        (i + 1) as nat,
                                        n as nat,
                                        depth as nat,
                                    );
                                }
                                return Err(e);
                            },
                            Ok(child) => {
                                size = add_saturating(size, child.size);
                                count = add_saturating(add_saturating(count, child.file_count), 1);
                                proof {
                                    assert(nodes_of(children@.push(child)) =~= nodes_of(
                                        children@,
                                    ).push(child@));
                                }
                                children.push(child);
                            },
                        }
                    },
                }
                i += 1;
            }
            let large = size >= cfg.large_folder_threshold;
            let arranged_children = arrange(children, size);
            let info = DirectoryInfo {
                path: snap.path.clone(),
                name: name_or_path(snap),
                size,
                file_count: count,
                subdirectories: arranged_children,
                last_modified: snap.last_modified,
                is_large_folder: large,
                size_percentage: Ratio::zero(),
            };
            proof {
                lemma_children_view(info);
            }
            Ok(info)
        },
    }
}

/// The text of a failure to read the metadata of a file.
pub open spec fn metadata_failed_text(reason: Seq<char>) -> Seq<char> {
    "获取文件元数据失败: "@ + reason
}

/// The text of a failure to read an entry.
pub open spec fn entry_failed_text(reason: Seq<char>) -> Seq<char> {
    "读取条目失败: "@ + reason
}

/// The bytes of all the files in and below `snap`, or the text of the first
/// failure met. No limit of depth or of entries applies, and the sum stops
/// at the largest value that fits.
pub open spec fn whole_size(snap: DirSnapshot) -> Result<u64, Seq<char>>
    decreases snap, entries_of(snap).len() + 1,
{
    match snap.listing {
        Listing::Denied(reason) => Err(read_failed_text(reason@)),
        Listing::Failed(reason) => Err(read_failed_text(reason@)),
        Listing::Entries(_) => whole_size_of(snap, entries_of(snap).len()),
    }
}

/// The bytes of all the files in and below the first `n` entries of `snap`.
pub open spec fn whole_size_of(snap: DirSnapshot, n: nat) -> Result<u64, Seq<char>>
    decreases snap, n,
{
    if n == 0 || n > entries_of(snap).len() {
        Ok(0)
    } else {
        match whole_size_of(snap, (n - 1) as nat) {
            Err(e) => Err(e),
            Ok(sum) => match entries_of(snap)[n - 1] {
                EntrySnapshot::Unreadable { reason, .. } => Err(entry_failed_text(reason@)),
                EntrySnapshot::File { size: Err(reason), .. } => Err(metadata_failed_text(reason@)),
                EntrySnapshot::File { size: Ok(bytes), .. } => Ok(saturated(sum + bytes)),
                EntrySnapshot::Directory { tree, .. } => match whole_size(tree) {
                    Err(e) => Err(e),
                    Ok(below) => Ok(saturated(sum + below)),
                },
            },
        }
    }
}

/// The outcome `r` is the one that `o` describes.
pub open spec fn size_is(r: Result<u64, String>, o: Result<u64, Seq<char>>) -> bool {
    match (r, o) {
        (Ok(a), Ok(b)) => a == b,
        (Err(e), Err(text)) => e@ == text,
        _ => false,
    }
}

/// Once an entry has failed, the entries behind it change nothing.
pub proof fn lemma_failure_stays(snap: DirSnapshot, k: nat, m: nat)
    requires
        whole_size_of(snap, k) is Err,
        k <= m <= entries_of(snap).len(),
    ensures
        whole_size_of(snap, m) == whole_size_of(snap, k),
    decreases m,
{
    if m > k {
        lemma_failure_stays(snap, k, (m - 1) as nat);
    }
}

/// Sums the bytes of all the files in and below `snap`.
pub fn calculate_directory_size(snap: &DirSnapshot) -> (r: Result<u64, String>)
    ensures
        size_is(r, whole_size(*snap)),
    decreases snap,
{
    match &snap.listing {
        Listing::Denied(reason) => Err(read_failed_message(reason)),
        Listing::Failed(reason) => Err(read_failed_message(reason)),
        Listing::Entries(es) => {
            let n = es.len();
            let mut sum: u64 = 0;
            let mut i: usize = 0;
            while i < n
                invariant
                    snap.listing == Listing::Entries(*es),
                    n == es@.len(),
                    i <= n,
                    whole_size_of(*snap, i as nat) == Ok::<u64, Seq<char>>(sum),
                decreases n - i,
            {
                assert(entries_of(*snap)[i as int] == es@[i as int]);
                match &es[i] {
                    EntrySnapshot::Unreadable { reason, .. } => {
                        proof {
                            assert(whole_size_of(*snap, (i + 1) as nat) is Err);
                            lemma_failure_stays(*snap, (i + 1) as nat, n as nat);
                        }
                        return Err(String::from_str("读取条目失败: ").concat(reason.as_str()));
                    },
                    EntrySnapshot::File { size: length, .. } => {
                        match length {
                            Ok(bytes) => {
                                sum = add_saturating(sum, *bytes);
                            },
                            Err(reason) => {
                                proof {
                                    assert(whole_size_of(*snap, (i + 1) as nat) is Err);
                                    lemma_failure_stays(*snap, (i + 1) as nat, n as nat);
                                }
                                return Err(
                                    String::from_str("获取文件元数据失败: ").concat(reason.as_str()),
                                );
                            },
                        }
                    },
                    EntrySnapshot::Directory { tree, .. } => {
                        match calculate_directory_size(tree) {
                            Err(e) => {
                                proof {
                                    assert(whole_size_of(*snap, (i + 1) as nat) is Err);
                                    lemma_failure_stays(*snap, (i + 1) as nat, n as nat);
                                }
                                return Err(e);
                            },
                            Ok(below) => {
                                sum = add_saturating(sum, below);
                            },
                        }
                    },
                }
                i += 1;
            }
            Ok(sum)
        },
    }
}

/// What was found at a path that is to be measured.
#[derive(Debug)]
pub enum Measured {
    /// The metadata could not be read; the text of the error.
    Unavailable(String),
    /// A file: its path, its last component, its length and when it was last modified.
    File { path: String, name: Option<String>, length: u64, last_modified: Option<u64> },
    /// A directory, walked to its full depth.
    Directory(DirSnapshot),
}

/// The brief node of a path: its whole size, no count and no children.
pub open spec fn brief_node(threshold: u64, found: Measured) -> Result<DirectoryNode, Seq<char>> {
    match found {
        Measured::Unavailable(reason) => Err("获取目录元数据失败: "@ + reason@),
        Measured::File { path, name, length, last_modified } => Ok(
            DirectoryNode {
                path: path@,
                name: match name {
                    Some(n) => n@,
                    None => path@,
                },
                size: length,
                file_count: 0,
                subdirectories: Seq::empty(),
                last_modified,
                is_large_folder: length >= threshold,
                size_percentage: Ratio { part: 0, whole: 0 },
            },
        ),
        Measured::Directory(snap) => match whole_size(snap) {
            Err(e) => Err(e),
            Ok(size) => Ok(
                DirectoryNode {
                    path: snap.path@,
                    name: node_name(snap),
                    size,
                    file_count: 0,
                    subdirectories: Seq::empty(),
                    last_modified: snap.last_modified,
                    is_large_folder: size >= threshold,
                    size_percentage: Ratio { part: 0, whole: 0 },
                },
            ),
        },
    }
}

/// Writes a size with the units from bytes to pebibytes: whole bytes below
/// one kibibyte, two decimals above.
pub fn format_file_size(size: u64) -> (s: String)
    ensures
        s@ == size_text(size as nat, 5, true),
{
    format_size_in(size, 5, true)
}

/// The share of `size` in `total`; zero where `total` is zero.
pub fn get_size_percentage(size: u64, total: u64) -> (r: Ratio)
    ensures
        r == (Ratio { part: size, whole: total }),
{
    Ratio::new(size, total)
}

/// Counts the nodes in and below `info` that are marked large.
pub fn count_large(info: &DirectoryInfo) -> (c: u64)
    ensures
        c == saturated(large_nodes(info@) as int),
    decreases info,
{
    let mut c: u64 = if info.is_large_folder {
        1
    } else {
        0
    };
    let n = info.subdirectories.len();
    let mut i: usize = 0;
    proof {
        lemma_children_view(*info);
    }
    while i < n
        invariant
            n == info.subdirectories@.len(),
            i <= n,
            info@.subdirectories == nodes_of(info.subdirectories@),
            c == saturated(
                ((if info.is_large_folder {
                    1nat
                } else {
                    0nat
                }) + large_below(info@, i as nat)) as int,
            ),
        decreases n - i,
    {
        let below = count_large(&info.subdirectories[i]);
        assert(info@.subdirectories[i as int] == info.subdirectories@[i as int]@);
        c = add_saturating(c, below);
        i += 1;
    }
    c
}

/// The path lies on the system drive.
pub open spec fn on_system_drive(path: Seq<char>) -> bool {
    starts_with(fold(path), fold("C:\\"@))
}

/// The scanner: its knobs, its cancel flag and the progress of its scan.
pub struct DiskAnalyzer {
    max_depth: usize,
    cancel_flag: bool,
    progress_info: ScanProgress,
    large_folder_threshold: u64,
    is_c_drive_mode: bool,
}

impl DiskAnalyzer {
    #[verifier::type_invariant]
    spec fn well_formed(self) -> bool {
        consistent(self.progress_info@)
    }

    /// The depth beyond which directories are not opened.
    pub closed spec fn depth_limit(&self) -> usize {
        self.max_depth
    }

    /// The size from which a directory is large.
    pub closed spec fn threshold(&self) -> u64 {
        self.large_folder_threshold
    }

    /// Whether the scanner runs in system-drive mode.
    pub closed spec fn system_mode(&self) -> bool {
        self.is_c_drive_mode
    }

    /// Whether cancellation has been requested and not been reset.
    pub closed spec fn cancelled(&self) -> bool {
        self.cancel_flag
    }

    /// The progress of the scan.
    pub closed spec fn progress(&self) -> ProgressState {
        self.progress_info@
    }

    /// The settings of the generic profile.
    pub open spec fn generic_settings(&self) -> ScanSettings {
        ScanSettings {
            max_depth: self.depth_limit(),
            large_folder_threshold: self.threshold(),
            guard_system_paths: false,
            reduced_root_limit: false,
        }
    }

    /// The settings of the system-drive profile.
    pub open spec fn system_settings(&self) -> ScanSettings {
        ScanSettings {
            max_depth: self.depth_limit(),
            large_folder_threshold: self.threshold(),
            guard_system_paths: true,
            reduced_root_limit: self.system_mode(),
        }
    }

    /// The settings with which a tree rooted at `path` is scanned: the
    /// system-drive profile in system-drive mode and for every path on the
    /// system drive, else the generic one.
    pub open spec fn settings_for(&self, path: Seq<char>) -> ScanSettings {
        if self.system_mode() || on_system_drive(path) {
            self.system_settings()
        } else {
            self.generic_settings()
        }
    }

    /// What a scan of `snapshot` gives.
    pub open spec fn scan_outcome(&self, snapshot: DirSnapshot) -> Result<DirectoryNode, Seq<char>> {
        if self.cancelled() {
            Err(cancelled_text())
        } else {
            scan_dir(self.settings_for(snapshot.path@), snapshot, 0)
        }
    }

    /// A scanner with depth limit 3 and a threshold of one gibibyte, in generic mode.
    pub fn new() -> (a: DiskAnalyzer)
        ensures
            a.depth_limit() == 3,
            a.threshold() == 0x4000_0000,
            !a.system_mode(),
            !a.cancelled(),
            a.progress() == blank(),
    {
        DiskAnalyzer {
            max_depth: 3,
            cancel_flag: false,
            progress_info: ScanProgress::new(),
            large_folder_threshold: 0x4000_0000,
            is_c_drive_mode: false,
        }
    }

    /// Sets the depth beyond which directories are not opened.
    pub fn set_max_depth(&mut self, depth: usize)
        ensures
            final(self).depth_limit() == depth,
            final(self).threshold() == old(self).threshold(),
            final(self).system_mode() == old(self).system_mode(),
            final(self).cancelled() == old(self).cancelled(),
            final(self).progress() == old(self).progress(),
    {
        proof {
            use_type_invariant(&*self);
        }
        self.max_depth = depth;
    }

    /// Sets the size from which a directory is large.
    pub fn set_large_folder_threshold(&mut self, threshold: u64)
        ensures
            final(self).threshold() == threshold,
            final(self).depth_limit() == old(self).depth_limit(),
            final(self).system_mode() == old(self).system_mode(),
            final(self).cancelled() == old(self).cancelled(),
            final(self).progress() == old(self).progress(),
    {
        proof {
            use_type_invariant(&*self);
        }
        self.large_folder_threshold = threshold;
    }

    /// Switches system-drive mode on or off.
    pub fn set_c_drive_mode(&mut self, enabled: bool)
        ensures
            final(self).system_mode() == enabled,
            final(self).depth_limit() == old(self).depth_limit(),
            final(self).threshold() == old(self).threshold(),
            final(self).cancelled() == old(self).cancelled(),
            final(self).progress() == old(self).progress(),
    {
        proof {
            use_type_invariant(&*self);
        }
        self.is_c_drive_mode = enabled;
    }

    /// The root of the system drive.
    pub fn get_c_drive_path() -> (path: String)
        ensures
            path@ == "C:\\"@,
    {
        String::from_str("C:\\")
    }

    /// Whether the path lies on the system drive, ASCII case ignored.
    pub fn is_c_drive_path(path: &str) -> (r: bool)
        ensures
            r == on_system_drive(path@),
    {
        let p = chars_of(path);
        let root = chars_of("C:\\");
        has_prefix_folded(&p, &root)
    }

    /// Requests cancellation. The request stays until it is reset.
    pub fn cancel_scan(&mut self)
        ensures
            final(self).cancelled(),
            final(self).depth_limit() == old(self).depth_limit(),
            final(self).threshold() == old(self).threshold(),
            final(self).system_mode() == old(self).system_mode(),
            final(self).progress() == old(self).progress(),
    {
        proof {
            use_type_invariant(&*self);
        }
        self.cancel_flag = true;
    }

    /// Withdraws the request for cancellation and clears the progress.
    pub fn reset_cancel_flag(&mut self)
        ensures
            !final(self).cancelled(),
            final(self).progress() == blank(),
            final(self).depth_limit() == old(self).depth_limit(),
            final(self).threshold() == old(self).threshold(),
            final(self).system_mode() == old(self).system_mode(),
    {
        self.progress_info = ScanProgress::new();
        self.cancel_flag = false;
    }

    /// Whether cancellation has been requested.
    pub fn is_cancelled(&self) -> (r: bool)
        ensures
            r == self.cancelled(),
    {
        self.cancel_flag
    }

    /// A copy of the progress. It is consistent: no more is processed than
    /// there is in all.
    pub fn get_scan_progress(&self) -> (p: ScanProgress)
        ensures
            p@ == self.progress(),
            consistent(p@),
    {
        proof {
            use_type_invariant(self);
        }
        self.progress_info.snapshot()
    }

    /// Publishes `processed_files` out of `total_files` entries at `current_path`.
    pub fn update_progress(&mut self, current_path: &str, processed_files: u64, total_files: u64, now: u64)
        ensures
            final(self).progress() == after_report(
                old(self).progress(),
                current_path@,
                processed_files,
                total_files,
                now,
            ),
            final(self).depth_limit() == old(self).depth_limit(),
            final(self).threshold() == old(self).threshold(),
            final(self).system_mode() == old(self).system_mode(),
            final(self).cancelled() == old(self).cancelled(),
    {
        let mut progress = self.progress_info.snapshot();
        progress.report(current_path, processed_files, total_files, now);
        self.progress_info = progress;
    }

    /// Takes note of the directory that the walk enters.
    pub fn update_directory_progress(&mut self, current_directory: &str, processed_dirs: u64, total_dirs: u64)
        ensures
            final(self).progress() == crate::scan_progress::after_directory(
                old(self).progress(),
                current_directory@,
                processed_dirs,
                total_dirs,
            ),
            final(self).depth_limit() == old(self).depth_limit(),
            final(self).threshold() == old(self).threshold(),
            final(self).system_mode() == old(self).system_mode(),
            final(self).cancelled() == old(self).cancelled(),
    {
        proof {
            use_type_invariant(&*self);
        }
        let mut progress = self.progress_info.snapshot();
        progress.enter_directory(current_directory, processed_dirs, total_dirs);
        self.progress_info = progress;
    }

    /// Counts one more large folder.
    pub fn increment_large_folders_found(&mut self)
        ensures
            final(self).progress() == after_large(old(self).progress(), 1),
            final(self).depth_limit() == old(self).depth_limit(),
            final(self).threshold() == old(self).threshold(),
            final(self).system_mode() == old(self).system_mode(),
            final(self).cancelled() == old(self).cancelled(),
    {
        proof {
            use_type_invariant(&*self);
        }
        let mut progress = self.progress_info.snapshot();
        progress.add_large_folders(1);
        self.progress_info = progress;
    }

    /// Whether, after `processed_entries` entries of a directory, the progress is published.
    pub fn publishes_at(processed_entries: u64) -> (r: bool)
        ensures
            r == (processed_entries % 100 == 0),
    {
        processed_entries % 100 == 0
    }

    /// How many entries of a directory at `depth` are read at most.
    pub fn entry_limit(&self, depth: usize) -> (limit: usize)
        ensures
            limit == crate::scan_model::entry_limit(self.system_settings(), depth as nat),
    {
        if self.is_c_drive_mode && depth == 0 {
            ROOT_ENTRY_LIMIT
        } else {
            ENTRY_LIMIT
        }
    }

    /// The settings with which a tree rooted at `path` is scanned.
    pub fn settings(&self, path: &str) -> (cfg: ScanSettings)
        ensures
            cfg == self.settings_for(path@),
    {
        let system = self.is_c_drive_mode || Self::is_c_drive_path(path);
        ScanSettings {
            max_depth: self.max_depth,
            large_folder_threshold: self.large_folder_threshold,
            guard_system_paths: system,
            reduced_root_limit: system && self.is_c_drive_mode,
        }
    }

    /// Sizes a tree in the generic profile, from `depth` below the root.
    pub fn scan_directory_recursive(&self, snapshot: &DirSnapshot, depth: usize) -> (r: Result<
        DirectoryInfo,
        String,
    >)
        ensures
            outcome_is(r, scan_dir(self.generic_settings(), *snapshot, depth as nat)),
    {
        let cfg = ScanSettings {
            max_depth: self.max_depth,
            large_folder_threshold: self.large_folder_threshold,
            guard_system_paths: false,
            reduced_root_limit: false,
        };
        scan_tree(&cfg, snapshot, depth)
    }

    /// Sizes a tree in the system-drive profile, from `depth` below the root.
    pub fn scan_directory_optimized(&self, snapshot: &DirSnapshot, depth: usize) -> (r: Result<
        DirectoryInfo,
        String,
    >)
        ensures
            outcome_is(r, scan_dir(self.system_settings(), *snapshot, depth as nat)),
    {
        let cfg = ScanSettings {
            max_depth: self.max_depth,
            large_folder_threshold: self.large_folder_threshold,
            guard_system_paths: true,
            reduced_root_limit: self.is_c_drive_mode,
        };
        scan_tree(&cfg, snapshot, depth)
    }

    /// Sizes a tree on the system drive: a protected root is left unopened.
    pub fn scan_c_drive_directory(&self, snapshot: &DirSnapshot) -> (r: Result<DirectoryInfo, String>)
        ensures
            outcome_is(r, scan_dir(self.system_settings(), *snapshot, 0)),
    {
        self.scan_directory_optimized(snapshot, 0)
    }

    /// The brief information on a path: its whole size, without limits of
    /// depth or of entries, and whether that size is large.
    pub fn get_directory_info(&self, found: &Measured) -> (r: Result<DirectoryInfo, String>)
        ensures
            outcome_is(r, brief_node(self.threshold(), *found)),
    {
        match found {
            Measured::Unavailable(reason) => Err(
                String::from_str("获取目录元数据失败: ").concat(reason.as_str()),
            ),
            Measured::File { path, name, length, last_modified } => {
                let info = DirectoryInfo {
                    path: path.clone(),
                    name: match name {
                        Some(n) => n.clone(),
                        None => path.clone(),
                    },
                    size: *length,
                    file_count: 0,
                    subdirectories: Vec::new(),
                    last_modified: *last_modified,
                    is_large_folder: *length >= self.large_folder_threshold,
                    size_percentage: Ratio::zero(),
                };
                proof {
                    assert(info@.subdirectories =~= Seq::<DirectoryNode>::empty());
                }
                Ok(info)
            },
            Measured::Directory(snap) => match calculate_directory_size(snap) {
                Err(e) => Err(e),
                Ok(size) => {
                    let info = DirectoryInfo {
                        path: snap.path.clone(),
                        name: name_or_path(snap),
                        size,
                        file_count: 0,
                        subdirectories: Vec::new(),
                        last_modified: snap.last_modified,
                        is_large_folder: size >= self.large_folder_threshold,
                        size_percentage: Ratio::zero(),
                    };
                    proof {
                        assert(info@.subdirectories =~= Seq::<DirectoryNode>::empty());
                    }
                    Ok(info)
                },
            },
        }
    }

    /// Sizes the tree that `snapshot` records. `started_at` is when the walk
    /// began and `now` when it ended, in seconds since the epoch.
    ///
    /// A scanner on which cancellation was requested yields the cancelled
    /// error, and so does a walk that saw cancellation anywhere in the
    /// tree. Else the tree is sized in the profile that belongs to its
    /// root. On success the progress ends with every entry processed and
    /// the large folders of the tree counted; on failure only the start of
    /// the scan is recorded.
    pub fn scan_directory(&mut self, snapshot: &DirSnapshot, started_at: u64, now: u64) -> (r: Result<
        DirectoryInfo,
        String,
    >)
        ensures
            outcome_is(r, old(self).scan_outcome(*snapshot)),
            old(self).cancelled() || meets_cancellation(
                old(self).settings_for(snapshot.path@),
                *snapshot,
                0,
            ) ==> (r matches Err(e) && e@ == cancelled_text()),
            final(self).depth_limit() == old(self).depth_limit(),
            final(self).threshold() == old(self).threshold(),
            final(self).system_mode() == old(self).system_mode(),
            final(self).cancelled() == old(self).cancelled(),
            final(self).progress() == (match r {
                Ok(info) => after_large(
                    after_report(
                        after_start(old(self).progress(), snapshot.path@, started_at),
                        snapshot.path@,
                        info.file_count,
                        info.file_count,
                        now,
                    ),
                    large_nodes(info@),
                ),
                Err(_) => after_start(old(self).progress(), snapshot.path@, started_at),
            }),
    {
        proof {
            use_type_invariant(&*self);
            lemma_cancellation_anywhere(self.settings_for(snapshot.path@), *snapshot, 0);
        }
        let mut progress = self.progress_info.snapshot();
        progress.start_time = Some(started_at);
        progress.current_path = snapshot.path.clone();
        self.progress_info = progress.snapshot();
        if self.cancel_flag {
            return Err(cancelled_message());
        }
        let result = if self.is_c_drive_mode || Self::is_c_drive_path(snapshot.path.as_str()) {
            self.scan_c_drive_directory(snapshot)
        } else {
            self.scan_directory_recursive(snapshot, 0)
        };
        match result {
            Ok(info) => {
                progress.report(snapshot.path.as_str(), info.file_count, info.file_count, now);
                let found = count_large(&info);
                progress.add_large_folders(found);
                self.progress_info = progress;
                Ok(info)
            },
            Err(e) => Err(e),
        }
    }
}

} // verus!
