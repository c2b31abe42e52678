//! What a scan observes, and what it makes of it.
//!
//! A scan never touches the filesystem itself. The caller walks the tree and
//! records what it saw, in the order in which it saw it: each listing, each
//! length, and the state of the cancel flag at every boundary. The result of
//! the scan is defined here as a function of that record.

use crate::path_safety::{begins_with_any, blocklist};
use crate::ratio::{saturated, Ratio};
use crate::sorting::stable_sort;
use vstd::prelude::*;

verus! {

/// How reading a directory ended.
#[derive(Debug)]
pub enum Listing {
    /// The entries, in the order in which the filesystem gave them.
    Entries(Vec<EntrySnapshot>),
    /// Permission was denied; the text of the error.
    Denied(String),
    /// Another error, with its text.
    Failed(String),
}

/// A directory as the caller saw it.
#[derive(Debug)]
pub struct DirSnapshot {
    /// The path of the directory.
    pub path: String,
    /// Its last component, where the path has one.
    pub name: Option<String>,
    /// Whether cancellation had been requested when the directory was entered.
    pub cancel_seen: bool,
    /// What reading it gave.
    pub listing: Listing,
    /// When it was last modified, in seconds since the epoch, where known.
    pub last_modified: Option<u64>,
}

/// One entry of a directory as the caller saw it.
#[derive(Debug)]
pub enum EntrySnapshot {
    /// The entry could not be read; the text of the error.
    Unreadable { cancel_seen: bool, reason: String },
    /// A file: its name, and its length or the text of the error where the
    /// metadata could not be read.
    File { cancel_seen: bool, name: String, size: Result<u64, String> },
    /// A directory.
    Directory { cancel_seen: bool, tree: DirSnapshot },
}

/// The knobs of one scan.
#[derive(Debug, Clone, Copy, PartialEq, Eq, Structural)]
pub struct ScanSettings {
    /// Directories deeper than this are not opened.
    pub max_depth: usize,
    /// A directory of at least this many bytes is large.
    pub large_folder_threshold: u64,
    /// Protected system paths are not opened.
    pub guard_system_paths: bool,
    /// The root is read up to the reduced limit only.
    pub reduced_root_limit: bool,
}

/// The sized tree that a scan yields, as a mathematical value.
pub struct DirectoryNode {
    pub path: Seq<char>,
    pub name: Seq<char>,
    pub size: u64,
    pub file_count: u64,
    pub subdirectories: Seq<DirectoryNode>,
    pub last_modified: Option<u64>,
    pub is_large_folder: bool,
    pub size_percentage: Ratio,
}

/// What has been gathered from the entries of one directory.
pub struct Tally {
    pub size: u64,
    pub file_count: u64,
    pub children: Seq<DirectoryNode>,
}

/// The most entries of one directory that are processed.
pub const ENTRY_LIMIT: usize = 1000;

/// The most entries of the root that are processed under the reduced limit.
pub const ROOT_ENTRY_LIMIT: usize = 100;

/// The error of a scan that was cancelled.
pub open spec fn cancelled_text() -> Seq<char> {
    "扫描已取消"@
}

/// The error of a scan whose root could not be read.
pub open spec fn read_failed_text(reason: Seq<char>) -> Seq<char> {
    "读取目录失败: "@ + reason
}

/// The paths that a guarded scan does not open, beyond the migration blocklist.
pub open spec fn guarded_extras() -> Seq<Seq<char>> {
    seq![
        "C:\\Windows\\System32"@,
        "C:\\Windows\\SysWOW64"@,
        "C:\\Program Files\\Windows Defender"@,
    ]
}

/// The path is one that a guarded scan does not open.
pub open spec fn is_guarded(path: Seq<char>) -> bool {
    begins_with_any(path, blocklist()) || begins_with_any(path, guarded_extras())
}

/// The cancel flag as seen at the boundary of an entry.
pub open spec fn entry_cancelled(e: EntrySnapshot) -> bool {
    match e {
        EntrySnapshot::Unreadable { cancel_seen, .. } => cancel_seen,
        EntrySnapshot::File { cancel_seen, .. } => cancel_seen,
        EntrySnapshot::Directory { cancel_seen, .. } => cancel_seen,
    }
}

/// The entries that were listed; none where the listing failed.
pub open spec fn entries_of(snap: DirSnapshot) -> Seq<EntrySnapshot> {
    match snap.listing {
        Listing::Entries(v) => v@,
        _ => Seq::empty(),
    }
}

/// How many entries of a directory at `depth` are processed at most.
pub open spec fn entry_limit(cfg: ScanSettings, depth: nat) -> nat {
    if cfg.reduced_root_limit && depth == 0 {
        ROOT_ENTRY_LIMIT as nat
    } else {
        ENTRY_LIMIT as nat
    }
}

/// How many entries of `snap` are processed.
pub open spec fn processed_entries(cfg: ScanSettings, snap: DirSnapshot, depth: nat) -> nat {
    if entries_of(snap).len() <= entry_limit(cfg, depth) {
        entries_of(snap).len()
    } else {
        entry_limit(cfg, depth)
    }
}

/// The name of a node: the last component, or the whole path where there is none.
pub open spec fn node_name(snap: DirSnapshot) -> Seq<char> {
    match snap.name {
        Some(n) => n@,
        None => snap.path@,
    }
}

/// The name of a node beyond the depth limit: the last component, or nothing.
pub open spec fn capped_name(snap: DirSnapshot) -> Seq<char> {
    match snap.name {
        Some(n) => n@,
        None => Seq::empty(),
    }
}

/// A node that stands for a directory that was not opened.
pub open spec fn stub(path: Seq<char>, name: Seq<char>) -> DirectoryNode {
    DirectoryNode {
        path,
        name,
        size: 0,
        file_count: 0,
        subdirectories: Seq::empty(),
        last_modified: None,
        is_large_folder: false,
        size_percentage: Ratio { part: 0, whole: 0 },
    }
}

/// The size by which nodes are ordered.
pub open spec fn node_size() -> spec_fn(DirectoryNode) -> u64 {
    |n: DirectoryNode| n.size
}

/// `c` with its share of a parent of `total` bytes.
pub open spec fn with_share(c: DirectoryNode, total: u64) -> DirectoryNode {
    DirectoryNode { size_percentage: Ratio { part: c.size, whole: total }, ..c }
}

/// The children of a node: largest first, each with its share of the parent.
pub open spec fn arranged(children: Seq<DirectoryNode>, total: u64) -> Seq<DirectoryNode> {
    stable_sort(children, node_size(), true).map_values(|c: DirectoryNode| with_share(c, total))
}

/// The node of a directory whose entries gave `tally`.
pub open spec fn finished(cfg: ScanSettings, snap: DirSnapshot, tally: Tally) -> DirectoryNode {
    DirectoryNode {
        path: snap.path@,
        name: node_name(snap),
        size: tally.size,
        file_count: tally.file_count,
        subdirectories: arranged(tally.children, tally.size),
        last_modified: snap.last_modified,
        is_large_folder: tally.size >= cfg.large_folder_threshold,
        size_percentage: Ratio { part: 0, whole: 0 },
    }
}

/// The result of scanning a directory that lies beyond the depth limit.
pub open spec fn scan_beyond(snap: DirSnapshot) -> Result<DirectoryNode, Seq<char>> {
    if snap.cancel_seen {
        Err(cancelled_text())
    } else {
        Ok(stub(snap.path@, capped_name(snap)))
    }
}

/// The result of scanning the directory `snap`, found at `depth` below the root.
pub open spec fn scan_dir(cfg: ScanSettings, snap: DirSnapshot, depth: nat) -> Result<
    DirectoryNode,
    Seq<char>,
>
    decreases snap, entries_of(snap).len() + 1,
{
    if depth > cfg.max_depth {
        scan_beyond(snap)
    } else if snap.cancel_seen {
        Err(cancelled_text())
    } else if cfg.guard_system_paths && is_guarded(snap.path@) {
        Ok(stub(snap.path@, node_name(snap)))
    } else {
        match snap.listing {
            Listing::Denied(_) => Ok(stub(snap.path@, node_name(snap))),
            Listing::Failed(reason) => if depth == 0 {
                Err(read_failed_text(reason@))
            } else {
                Ok(stub(snap.path@, node_name(snap)))
            },
            Listing::Entries(_) => match scan_entries(
                cfg,
                snap,
                processed_entries(cfg, snap, depth),
                depth,
            ) {
                Ok(tally) => Ok(finished(cfg, snap, tally)),
                Err(e) => Err(e),
            },
        }
    }
}

/// What the first `n` entries of `snap` give.
pub open spec fn scan_entries(cfg: ScanSettings, snap: DirSnapshot, n: nat, depth: nat) -> Result<
    Tally,
    Seq<char>,
>
    decreases snap, n,
{
    if n == 0 || n > entries_of(snap).len() {
        Ok(Tally { size: 0, file_count: 0, children: Seq::empty() })
    } else {
        match scan_entries(cfg, snap, (n - 1) as nat, depth) {
            Err(e) => Err(e),
            Ok(tally) => {
                let e = entries_of(snap)[n - 1];
                if entry_cancelled(e) {
                    Err(cancelled_text())
                } else {
                    match e {
                        EntrySnapshot::Unreadable { .. } => Ok(tally),
                        EntrySnapshot::File { size: Err(_), .. } => Ok(tally),
                        EntrySnapshot::File { size: Ok(bytes), .. } => Ok(
                            Tally {
                                size: saturated(tally.size + bytes),
                                file_count: saturated(tally.file_count + 1),
                                children: tally.children,
                            },
                        ),
                        EntrySnapshot::Directory { tree, .. } => match scan_dir(cfg, tree, depth + 1) {
                            Err(e) => Err(e),
                            Ok(child) => Ok(
                                Tally {
                                    size: saturated(tally.size + child.size),
                                    file_count: saturated(
                                        saturated(tally.file_count + child.file_count) + 1,
                                    ),
                                    children: tally.children.push(child),
                                },
                            ),
                        },
                    }
                }
            },
        }
    }
}

/// The number of nodes in and below `n` that are marked large.
pub open spec fn large_nodes(n: DirectoryNode) -> nat
    decreases n, n.subdirectories.len() + 1,
{
    (if n.is_large_folder {
        1nat
    } else {
        0nat
    }) + large_below(n, n.subdirectories.len())
}

/// The number of nodes marked large in and below the first `k` children of `n`.
pub open spec fn large_below(n: DirectoryNode, k: nat) -> nat
    decreases n, k,
{
    if k == 0 || k > n.subdirectories.len() {
        0
    } else {
        large_below(n, (k - 1) as nat) + large_nodes(n.subdirectories[k - 1])
    }
}

} // verus!
