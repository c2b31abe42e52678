//! Copying, deleting and linking, as plans.
//!
//! The operator decides what is to be done and in which order; the caller
//! does it. A plan is the list of steps on the filesystem, and the result
//! that holds once every step has succeeded. Where a step fails, the
//! operation ends there with the error of that step.

use crate::appdata_analyzer::{join_path, joined};
use crate::ratio::{add_saturating, saturated};
use crate::scan_model::{capped_name, entries_of, entry_cancelled, DirSnapshot, EntrySnapshot, Listing};
use crate::disk_analyzer::{calculate_directory_size, whole_size};
use crate::path_safety::{
    describe, first_violation, is_within, lies_within, validate, violation_text, PathProbe,
};
use crate::text::{chars_of, contains, decimal, decimal_string, has_substring};
use vstd::prelude::*;

verus! {

/// The kinds of input-output failure that are told apart.
#[derive(Debug, Clone, Copy, PartialEq, Eq, Structural)]
pub enum IoKind {
    PermissionDenied,
    NotFound,
    AlreadyExists,
    Other,
}

/// A failure of the filesystem: its kind and its text.
#[derive(Debug, Clone)]
pub struct IoFailure {
    pub kind: IoKind,
    pub text: String,
}

/// Why a file operation failed.
#[derive(Debug, Clone)]
pub enum FileOperationError {
    IoError(IoFailure),
    PermissionDenied(String),
    PathNotFound(String),
    PathAlreadyExists(String),
    InvalidPath(String),
    OperationCancelled(String),
}

/// Why a file operation failed, as a mathematical value.
pub enum OperationFailure {
    IoError(IoKind, Seq<char>),
    PermissionDenied(Seq<char>),
    PathNotFound(Seq<char>),
    PathAlreadyExists(Seq<char>),
    InvalidPath(Seq<char>),
    OperationCancelled(Seq<char>),
}

impl View for FileOperationError {
    type V = OperationFailure;

    open spec fn view(&self) -> OperationFailure {
        match *self {
            FileOperationError::IoError(f) => OperationFailure::IoError(f.kind, f.text@),
            FileOperationError::PermissionDenied(s) => OperationFailure::PermissionDenied(s@),
            FileOperationError::PathNotFound(s) => OperationFailure::PathNotFound(s@),
            FileOperationError::PathAlreadyExists(s) => OperationFailure::PathAlreadyExists(s@),
            FileOperationError::InvalidPath(s) => OperationFailure::InvalidPath(s@),
            FileOperationError::OperationCancelled(s) => OperationFailure::OperationCancelled(s@),
        }
    }
}

/// The text that tells the user of a failure.
pub open spec fn failure_text(f: OperationFailure) -> Seq<char> {
    match f {
        OperationFailure::IoError(_, text) => "IO错误: "@ + text,
        OperationFailure::PermissionDenied(path) => "权限被拒绝: "@ + path,
        OperationFailure::PathNotFound(path) => "路径不存在: "@ + path,
        OperationFailure::PathAlreadyExists(path) => "路径已存在: "@ + path,
        OperationFailure::InvalidPath(path) => "无效路径: "@ + path,
        OperationFailure::OperationCancelled(text) => "操作已取消: "@ + text,
    }
}

impl FileOperationError {
    /// The error of a failure of the filesystem.
    pub fn from_io(kind: IoKind, text: String) -> (e: FileOperationError)
        ensures
            e@ == OperationFailure::IoError(kind, text@),
    {
        FileOperationError::IoError(IoFailure { kind, text })
    }

    /// Tells the user of the failure.
    pub fn message(&self) -> (s: String)
        ensures
            s@ == failure_text(self@),
    {
        match self {
            FileOperationError::IoError(f) => String::from_str("IO错误: ").concat(f.text.as_str()),
            FileOperationError::PermissionDenied(p) => String::from_str("权限被拒绝: ").concat(
                p.as_str(),
            ),
            FileOperationError::PathNotFound(p) => String::from_str("路径不存在: ").concat(p.as_str()),
            FileOperationError::PathAlreadyExists(p) => String::from_str("路径已存在: ").concat(
                p.as_str(),
            ),
            FileOperationError::InvalidPath(p) => String::from_str("无效路径: ").concat(p.as_str()),
            FileOperationError::OperationCancelled(p) => String::from_str("操作已取消: ").concat(
                p.as_str(),
            ),
        }
    }
}

/// What a file operation achieved.
#[derive(Debug, Clone)]
pub struct FileOperationResult {
    pub success: bool,
    pub message: String,
    pub source_path: String,
    pub target_path: Option<String>,
}

/// What a file operation achieved, as a mathematical value.
pub struct OperationSummary {
    pub success: bool,
    pub message: Seq<char>,
    pub source_path: Seq<char>,
    pub target_path: Option<Seq<char>>,
}

impl View for FileOperationResult {
    type V = OperationSummary;

    open spec fn view(&self) -> OperationSummary {
        OperationSummary {
            success: self.success,
            message: self.message@,
            source_path: self.source_path@,
            target_path: match self.target_path {
                Some(t) => Some(t@),
                None => None,
            },
        }
    }
}

/// One step on the filesystem.
#[derive(Debug, Clone)]
pub enum FsStep {
    /// Create the directory and every missing parent.
    CreateDirAll(String),
    /// Copy the bytes of one file.
    CopyFile { from: String, to: String },
    /// Remove one file.
    RemoveFile(String),
    /// Remove one empty directory.
    RemoveDir(String),
    /// Remove a directory with all that it holds.
    RemoveTree(String),
    /// Copy a file, or a directory with all that it holds.
    CopyAll { from: String, to: String },
    /// Give a path a new name.
    Rename { from: String, to: String },
    /// Create a link at `link` that points at the directory `target`.
    LinkDirectory { target: String, link: String },
    /// Create a link at `link` that points at the file `target`.
    LinkFile { target: String, link: String },
}

/// One step on the filesystem, as a mathematical value.
pub enum Step {
    CreateDirAll(Seq<char>),
    CopyFile { from: Seq<char>, to: Seq<char> },
    RemoveFile(Seq<char>),
    RemoveDir(Seq<char>),
    RemoveTree(Seq<char>),
    CopyAll { from: Seq<char>, to: Seq<char> },
    Rename { from: Seq<char>, to: Seq<char> },
    LinkDirectory { target: Seq<char>, link: Seq<char> },
    LinkFile { target: Seq<char>, link: Seq<char> },
}

impl View for FsStep {
    type V = Step;

    open spec fn view(&self) -> Step {
        match *self {
            FsStep::CreateDirAll(p) => Step::CreateDirAll(p@),
            FsStep::CopyFile { from, to } => Step::CopyFile { from: from@, to: to@ },
            FsStep::RemoveFile(p) => Step::RemoveFile(p@),
            FsStep::RemoveDir(p) => Step::RemoveDir(p@),
            FsStep::RemoveTree(p) => Step::RemoveTree(p@),
            FsStep::CopyAll { from, to } => Step::CopyAll { from: from@, to: to@ },
            FsStep::Rename { from, to } => Step::Rename { from: from@, to: to@ },
            FsStep::LinkDirectory { target, link } => Step::LinkDirectory {
                target: target@,
                link: link@,
            },
            FsStep::LinkFile { target, link } => Step::LinkFile { target: target@, link: link@ },
        }
    }
}

/// The function that takes a step to its mathematical value.
pub open spec fn to_step() -> spec_fn(FsStep) -> Step {
    |s: FsStep| s@
}

/// The mathematical values of a list of steps.
pub open spec fn steps_of(v: Seq<FsStep>) -> Seq<Step> {
    v.map_values(to_step())
}

/// What is to be done, and what holds once it is done.
#[derive(Debug)]
pub struct FsPlan {
    /// The steps, in the order in which they are taken.
    pub steps: Vec<FsStep>,
    /// The result once every step has succeeded.
    pub outcome: Result<FileOperationResult, FileOperationError>,
}

/// A plan as a mathematical value.
pub struct Plan {
    pub steps: Seq<Step>,
    pub outcome: Result<OperationSummary, OperationFailure>,
}

impl View for FsPlan {
    type V = Plan;

    open spec fn view(&self) -> Plan {
        Plan {
            steps: steps_of(self.steps@),
            outcome: match self.outcome {
                Ok(r) => Ok(r@),
                Err(e) => Err(e@),
            },
        }
    }
}

/// What is at a path.
#[derive(Debug)]
pub enum PathShape {
    /// Nothing.
    Missing,
    /// A file, with its length or the text of the failure to read it.
    File { length: Result<u64, String> },
    /// A directory, with what the caller saw in it.
    Directory(DirSnapshot),
}

/// The source of an operation as the caller saw it.
#[derive(Debug)]
pub struct SourceFacts {
    pub path: String,
    pub shape: PathShape,
}

/// The target of an operation as the caller saw it.
#[derive(Debug)]
pub struct TargetFacts {
    pub path: String,
    /// Whether anything is at the path.
    pub exists: bool,
    /// The path of its parent, where it has one.
    pub parent: Option<String>,
}

/// What gathering the steps for the entries of a directory has given so far.
pub struct Gathered {
    pub steps: Seq<Step>,
    pub files: u64,
    pub directories: u64,
    pub failure: Option<OperationFailure>,
}

/// The failure of reading a directory or an entry.
pub open spec fn listing_failure(listing: Listing) -> Option<OperationFailure> {
    match listing {
        Listing::Entries(_) => None,
        Listing::Denied(text) => Some(OperationFailure::IoError(IoKind::PermissionDenied, text@)),
        Listing::Failed(text) => Some(OperationFailure::IoError(IoKind::Other, text@)),
    }
}

/// The text of the cancellation of a copy.
pub open spec fn copy_cancelled() -> OperationFailure {
    OperationFailure::OperationCancelled("复制操作已取消"@)
}

/// The text of the cancellation of a deletion.
pub open spec fn delete_cancelled() -> OperationFailure {
    OperationFailure::OperationCancelled("删除操作已取消"@)
}

/// The steps that copy the directory `snap` to `target`, with the numbers
/// of files and directories directly inside it that were copied, and the
/// failure that ends the copy where there is one.
pub open spec fn copy_tree(snap: DirSnapshot, target: Seq<char>, windows: bool) -> Gathered
    decreases snap, entries_of(snap).len() + 1,
{
    let first = seq![Step::CreateDirAll(target)];
    match listing_failure(snap.listing) {
        Some(f) => Gathered { steps: first, files: 0, directories: 0, failure: Some(f) },
        None => {
            let inner = copy_entries(snap, entries_of(snap).len(), target, windows);
            Gathered { steps: first + inner.steps, ..inner }
        },
    }
}

/// The steps that copy the first `n` entries of `snap` into `target`.
pub open spec fn copy_entries(snap: DirSnapshot, n: nat, target: Seq<char>, windows: bool) -> Gathered
    decreases snap, n,
{
    if n == 0 || n > entries_of(snap).len() {
        Gathered { steps: Seq::empty(), files: 0, directories: 0, failure: None }
    } else {
        let before = copy_entries(snap, (n - 1) as nat, target, windows);
        let e = entries_of(snap)[n - 1];
        if before.failure is Some {
            before
        } else if entry_cancelled(e) {
            Gathered { failure: Some(copy_cancelled()), ..before }
        } else {
            match e {
                EntrySnapshot::Unreadable { reason, .. } => Gathered {
                    failure: Some(OperationFailure::IoError(IoKind::Other, reason@)),
                    ..before
                },
                EntrySnapshot::File { name, .. } => Gathered {
                    steps: before.steps.push(Step::CreateDirAll(target)).push(
                        Step::CopyFile {
                            from: joined(snap.path@, name@, windows),
                            to: joined(target, name@, windows),
                        },
                    ),
                    files: saturated(before.files + 1),
                    ..before
                },
                EntrySnapshot::Directory { tree, .. } => {
                    let below = copy_tree(tree, joined(target, capped_name(tree), windows), windows);
                    Gathered {
                        steps: before.steps + below.steps,
                        files: before.files,
                        directories: if below.failure is Some {
                            before.directories
                        } else {
                            saturated(before.directories + 1)
                        },
                        failure: below.failure,
                    }
                },
            }
        }
    }
}

/// The steps that empty the directory `snap`, with the numbers of files
/// and directories in and below it that are removed.
pub open spec fn delete_contents(snap: DirSnapshot, n: nat, windows: bool) -> Gathered
    decreases snap, n,
{
    if n == 0 || n > entries_of(snap).len() {
        Gathered { steps: Seq::empty(), files: 0, directories: 0, failure: None }
    } else {
        let before = delete_contents(snap, (n - 1) as nat, windows);
        let e = entries_of(snap)[n - 1];
        if before.failure is Some {
            before
        } else if entry_cancelled(e) {
            Gathered { failure: Some(delete_cancelled()), ..before }
        } else {
            match e {
                EntrySnapshot::Unreadable { reason, .. } => Gathered {
                    failure: Some(OperationFailure::IoError(IoKind::Other, reason@)),
                    ..before
                },
                EntrySnapshot::File { name, .. } => Gathered {
                    steps: before.steps.push(Step::RemoveFile(joined(snap.path@, name@, windows))),
                    files: saturated(before.files + 1),
                    ..before
                },
                EntrySnapshot::Directory { tree, .. } => {
                    let below = delete_tree(tree, windows);
                    if below.failure is Some {
                        Gathered {
                            steps: before.steps + below.steps,
                            files: saturated(before.files + below.files),
                            directories: saturated(before.directories + below.directories),
                            failure: below.failure,
                        }
                    } else {
                        Gathered {
                            steps: (before.steps + below.steps).push(Step::RemoveDir(tree.path@)),
                            files: saturated(before.files + below.files),
                            directories: saturated(
                                saturated(before.directories + below.directories) + 1,
                            ),
                            failure: None,
                        }
                    }
                },
            }
        }
    }
}

/// The steps that empty the directory `snap`.
pub open spec fn delete_tree(snap: DirSnapshot, windows: bool) -> Gathered
    decreases snap, entries_of(snap).len() + 1,
{
    match listing_failure(snap.listing) {
        Some(f) => Gathered { steps: Seq::empty(), files: 0, directories: 0, failure: Some(f) },
        None => delete_contents(snap, entries_of(snap).len(), windows),
    }
}

/// The text that counts what was copied or deleted.
pub open spec fn counted_text(head: Seq<char>, files: u64, directories: u64) -> Seq<char> {
    head + " (文件: "@ + decimal(files as nat) + ", 目录: "@ + decimal(directories as nat) + ")"@
}

/// The failure that reading a directory ended with, if it did.
pub fn failure_of_listing(listing: &Listing) -> (f: Option<FileOperationError>)
    ensures
        match (f, listing_failure(*listing)) {
            (Some(e), Some(expected)) => e@ == expected,
            (None, None) => true,
            _ => false,
        },
{
    match listing {
        Listing::Entries(_) => None,
        Listing::Denied(text) => Some(FileOperationError::from_io(IoKind::PermissionDenied, text.clone())),
        Listing::Failed(text) => Some(FileOperationError::from_io(IoKind::Other, text.clone())),
    }
}

/// `found` is what `expected` describes, with the steps added behind `before`.
pub open spec fn gathered_is(
    steps: Seq<FsStep>,
    before: Seq<FsStep>,
    found: (u64, u64, Option<FileOperationError>),
    expected: Gathered,
) -> bool {
    &&& steps_of(steps) == steps_of(before) + expected.steps
    &&& found.0 == expected.files
    &&& found.1 == expected.directories
    &&& match (found.2, expected.failure) {
        (Some(e), Some(f)) => e@ == f,
        (None, None) => true,
        _ => false,
    }
}

/// The value of a list with one more step.
pub proof fn lemma_steps_push(v: Seq<FsStep>, s: FsStep)
    ensures
        steps_of(v.push(s)) == steps_of(v).push(s@),
{
    assert(steps_of(v.push(s)) =~= steps_of(v).push(s@));
}

/// Once gathering has met a failure, the entries behind it change nothing.
pub proof fn lemma_copy_failure_stays(snap: DirSnapshot, k: nat, m: nat, target: Seq<char>, windows: bool)
    requires
        copy_entries(snap, k, target, windows).failure is Some,
        k <= m <= entries_of(snap).len(),
    ensures
        copy_entries(snap, m, target, windows) == copy_entries(snap, k, target, windows),
    decreases m,
{
    if m > k {
        lemma_copy_failure_stays(snap, k, (m - 1) as nat, target, windows);
    }
}

/// Once gathering has met a failure, the entries behind it change nothing.
pub proof fn lemma_delete_failure_stays(snap: DirSnapshot, k: nat, m: nat, windows: bool)
    requires
        delete_contents(snap, k, windows).failure is Some,
        k <= m <= entries_of(snap).len(),
    ensures
        delete_contents(snap, m, windows) == delete_contents(snap, k, windows),
    decreases m,
{
    if m > k {
        lemma_delete_failure_stays(snap, k, (m - 1) as nat, windows);
    }
}

/// Adds to `steps` the steps that copy the directory `snap` to `target`.
/// Returns the numbers of files and directories directly inside it that
/// are copied, and the failure that ends the copy where there is one.
pub fn plan_copy_tree(snap: &DirSnapshot, target: &str, windows: bool, steps: &mut Vec<FsStep>) -> (r: (
    u64,
    u64,
    Option<FileOperationError>,
))
    ensures
        gathered_is(final(steps)@, old(steps)@, r, copy_tree(*snap, target@, windows)),
    decreases snap,
{
    let ghost start = steps@;
    let made = FsStep::CreateDirAll(String::from_str(target));
    proof {
        assert(steps_of(steps@.push(made)) =~= steps_of(steps@) + seq![Step::CreateDirAll(target@)]);
    }
    steps.push(made);
    if let Some(f) = failure_of_listing(&snap.listing) {
        return (0, 0, Some(f));
    }
    match &snap.listing {
        Listing::Entries(es) => {
            let ghost first = steps@;
            let mut files: u64 = 0;
            let mut directories: u64 = 0;
            let mut i: usize = 0;
            proof {
                assert(steps_of(first) + Seq::<Step>::empty() =~= steps_of(first));
            }
            while i < es.len()
                invariant
                    snap.listing == Listing::Entries(*es),
                    i <= es@.len(),
                    start == old(steps)@,
                    steps_of(first) == steps_of(start) + seq![Step::CreateDirAll(target@)],
                    gathered_is(
                        steps@,
                        first,
                        (files, directories, None),
                        copy_entries(*snap, i as nat, target@, windows),
                    ),
                decreases es@.len() - i,
            {
                let ghost before = copy_entries(*snap, i as nat, target@, windows);
                let ghost now = copy_entries(*snap, (i + 1) as nat, target@, windows);
                assert(entries_of(*snap)[i as int] == es@[i as int]);
                let mut failure: Option<FileOperationError> = None;
                match &es[i] {
                    EntrySnapshot::Unreadable { cancel_seen, reason } => {
                        if *cancel_seen {
                            failure = Some(
                                FileOperationError::OperationCancelled(String::from_str("复制操作已取消")),
                            );
                        } else {
                            failure = Some(FileOperationError::from_io(IoKind::Other, reason.clone()));
                        }
                    },
                    EntrySnapshot::File { cancel_seen, name, .. } => {
                        if *cancel_seen {
                            failure = Some(
                                FileOperationError::OperationCancelled(String::from_str("复制操作已取消")),
                            );
                        } else {
                            let make = FsStep::CreateDirAll(String::from_str(target));
                            let copy = FsStep::CopyFile {
                                from: join_path(snap.path.as_str(), name.as_str(), windows),
                                to: join_path(target, name.as_str(), windows),
                            };
                            proof {
                                lemma_steps_push(steps@, make);
                                lemma_steps_push(steps@.push(make), copy);
                                assert(now.steps == before.steps.push(make@).push(copy@));
                                assert((steps_of(first) + before.steps).push(make@).push(copy@)
                                    =~= steps_of(first) + now.steps);
                            }
                            steps.push(make);
                            steps.push(copy);
                            files = add_saturating(files, 1);
                        }
                    },
                    EntrySnapshot::Directory { cancel_seen, tree } => {
                        if *cancel_seen {
                            failure = Some(
                                FileOperationError::OperationCancelled(String::from_str("复制操作已取消")),
                            );
                        } else {
                            let name = crate::disk_analyzer::name_or_empty(tree);
                            let below_target = join_path(target, name.as_str(), windows);
                            let ghost mid = steps@;
                            let below = plan_copy_tree(tree, below_target.as_str(), windows, steps);
                            proof {
                                let below_steps = copy_tree(*tree, below_target@, windows).steps;
                                assert(steps_of(mid) == steps_of(first) + before.steps);
                                assert(now.steps == before.steps + below_steps);
                                assert((steps_of(first) + before.steps) + below_steps =~= steps_of(
                                    first,
                                ) + now.steps);
                            }
                            match below.2 {
                                Some(f) => {
                                    failure = Some(f);
                                },
                                None => {
                                    directories = add_saturating(directories, 1);
                                },
                            }
                        }
                    },
                }
                assert(gathered_is(steps@, first, (files, directories, failure), now));
                if let Some(f) = failure {
                    proof {
                        assert(now.failure is Some);
                        lemma_copy_failure_stays(
                            *snap,
                            (i + 1) as nat,
                            es@.len(),
                            target@,
                            windows,
                        );
                        assert(steps_of(steps@) =~= steps_of(first) + now.steps);
                        assert(steps_of(steps@) =~= steps_of(start) + (seq![Step::CreateDirAll(target@)]
                            + now.steps));
                    }
                    return (files, directories, Some(f));
                }
                i += 1;
            }
            proof {
                let all = copy_entries(*snap, es@.len(), target@, windows);
                assert(steps_of(steps@) =~= steps_of(start) + (seq![Step::CreateDirAll(target@)]
                    + all.steps));
            }
            (files, directories, None)
        },
        _ => (0, 0, None),
    }
}

/// Adds to `steps` the steps that empty the directory `snap`. Returns the
/// numbers of files and directories in and below it that are removed, and
/// the failure that ends the deletion where there is one.
pub fn plan_delete_tree(snap: &DirSnapshot, windows: bool, steps: &mut Vec<FsStep>) -> (r: (
    u64,
    u64,
    Option<FileOperationError>,
))
    ensures
        gathered_is(final(steps)@, old(steps)@, r, delete_tree(*snap, windows)),
    decreases snap,
{
    let ghost start = steps@;
    proof {
        assert(steps_of(start) + Seq::<Step>::empty() =~= steps_of(start));
    }
    if let Some(f) = failure_of_listing(&snap.listing) {
        return (0, 0, Some(f));
    }
    match &snap.listing {
        Listing::Entries(es) => {
            let mut files: u64 = 0;
            let mut directories: u64 = 0;
            let mut i: usize = 0;
            while i < es.len()
                invariant
                    snap.listing == Listing::Entries(*es),
                    i <= es@.len(),
                    start == old(steps)@,
                    gathered_is(
                        steps@,
                        start,
                        (files, directories, None),
                        delete_contents(*snap, i as nat, windows),
                    ),
                decreases es@.len() - i,
            {
                let ghost before = delete_contents(*snap, i as nat, windows);
                let ghost now = delete_contents(*snap, (i + 1) as nat, windows);
                assert(entries_of(*snap)[i as int] == es@[i as int]);
                let mut failure: Option<FileOperationError> = None;
                match &es[i] {
                    EntrySnapshot::Unreadable { cancel_seen, reason } => {
                        if *cancel_seen {
                            failure = Some(
                                FileOperationError::OperationCancelled(String::from_str("删除操作已取消")),
                            );
                        } else {
                            failure = Some(FileOperationError::from_io(IoKind::Other, reason.clone()));
                        }
                    },
                    EntrySnapshot::File { cancel_seen, name, .. } => {
                        if *cancel_seen {
                            failure = Some(
                                FileOperationError::OperationCancelled(String::from_str("删除操作已取消")),
                            );
                        } else {
                            let remove = FsStep::RemoveFile(
                                join_path(snap.path.as_str(), name.as_str(), windows),
                            );
                            proof {
                                lemma_steps_push(steps@, remove);
                                assert(now.steps == before.steps.push(remove@));
                                assert((steps_of(start) + before.steps).push(remove@) =~= steps_of(
                                    start,
                                ) + now.steps);
                            }
                            steps.push(remove);
                            files = add_saturating(files, 1);
                        }
                    },
                    EntrySnapshot::Directory { cancel_seen, tree } => {
                        if *cancel_seen {
                            failure = Some(
                                FileOperationError::OperationCancelled(String::from_str("删除操作已取消")),
                            );
                        } else {
                            let ghost mid = steps@;
                            let below = plan_delete_tree(tree, windows, steps);
                            proof {
                                assert(steps_of(mid) == steps_of(start) + before.steps);
                            }
                            files = add_saturating(files, below.0);
                            directories = add_saturating(directories, below.1);
                            match below.2 {
                                Some(f) => {
                                    proof {
                                        let below_steps = delete_tree(*tree, windows).steps;
                                        assert((steps_of(start) + before.steps) + below_steps
                                            =~= steps_of(start) + now.steps);
                                    }
                                    failure = Some(f);
                                },
                                None => {
                                    let remove = FsStep::RemoveDir(tree.path.clone());
                                    proof {
                                        lemma_steps_push(steps@, remove);
                                        let below_steps = delete_tree(*tree, windows).steps;
                                        assert(now.steps == (before.steps + below_steps).push(
                                            remove@,
                                        ));
                                        assert(((steps_of(start) + before.steps) + below_steps).push(
                                            remove@,
                                        ) =~= steps_of(start) + now.steps);
                                    }
                                    steps.push(remove);
                                    directories = add_saturating(directories, 1);
                                },
                            }
                        }
                    },
                }
                assert(gathered_is(steps@, start, (files, directories, failure), now));
                if let Some(f) = failure {
                    proof {
                        assert(now.failure is Some);
                        lemma_delete_failure_stays(*snap, (i + 1) as nat, es@.len(), windows);
                    }
                    return (files, directories, Some(f));
                }
                i += 1;
            }
            (files, directories, None)
        },
        _ => (0, 0, None),
    }
}

/// Writes the text that counts what was copied or deleted.
pub fn counted_message(head: &str, files: u64, directories: u64) -> (s: String)
    ensures
        s@ == counted_text(head@, files, directories),
{
    let mut s = String::from_str(head);
    s.append(" (文件: ");
    s.append(decimal_string(files).as_str());
    s.append(", 目录: ");
    s.append(decimal_string(directories).as_str());
    s.append(")");
    s
}

/// What is wrong with a path as such: it is empty, or it holds three dots in a row.
pub open spec fn path_defect(path: Seq<char>) -> Option<OperationFailure> {
    if path.len() == 0 {
        Some(OperationFailure::InvalidPath("路径不能为空"@))
    } else if contains(path, ".."@) && contains(path, "..."@) {
        Some(OperationFailure::InvalidPath("路径包含非法字符"@))
    } else {
        None
    }
}

/// Whether something is at the source.
pub open spec fn is_present(shape: PathShape) -> bool {
    !(shape is Missing)
}

/// A result that reports success.
pub open spec fn done(message: Seq<char>, source: Seq<char>, target: Option<Seq<char>>) -> OperationSummary {
    OperationSummary { success: true, message, source_path: source, target_path: target }
}

/// A plan that takes no step and fails.
pub open spec fn refused(f: OperationFailure) -> Plan {
    Plan { steps: Seq::empty(), outcome: Err(f) }
}

/// The text of an optional string.
pub open spec fn text_of(s: Option<String>) -> Option<Seq<char>> {
    match s {
        Some(t) => Some(t@),
        None => None,
    }
}

/// The steps that make sure that the parent of a path is there.
pub open spec fn parent_steps(parent: Option<Seq<char>>) -> Seq<Step> {
    match parent {
        Some(p) => seq![Step::CreateDirAll(p)],
        None => Seq::empty(),
    }
}

/// The plan that copies one file.
pub open spec fn copy_file_plan(source: Seq<char>, target: TargetFacts) -> Plan {
    Plan {
        steps: parent_steps(text_of(target.parent)).push(
            Step::CopyFile { from: source, to: target.path@ },
        ),
        outcome: Ok(done("文件复制成功"@, source, Some(target.path@))),
    }
}

/// The plan that copies a directory with all that it holds.
pub open spec fn copy_directory_plan(snap: DirSnapshot, source: Seq<char>, target: Seq<char>, windows: bool) -> Plan {
    let g = copy_tree(snap, target, windows);
    Plan {
        steps: g.steps,
        outcome: match g.failure {
            Some(f) => Err(f),
            None => Ok(
                done(counted_text("目录复制成功"@, g.files, g.directories), source, Some(target)),
            ),
        },
    }
}

/// The plan of a copy: refused where a path is defective, the source is
/// missing, the target is there already or the operator was cancelled.
pub open spec fn copy_plan(cancelled: bool, source: SourceFacts, target: TargetFacts, windows: bool) -> Plan {
    if path_defect(source.path@) is Some {
        refused(path_defect(source.path@)->0)
    } else if path_defect(target.path@) is Some {
        refused(path_defect(target.path@)->0)
    } else if !is_present(source.shape) {
        refused(OperationFailure::PathNotFound(source.path@))
    } else if target.exists {
        refused(OperationFailure::PathAlreadyExists(target.path@))
    } else if cancelled {
        refused(copy_cancelled())
    } else {
        match source.shape {
            PathShape::Directory(snap) => copy_directory_plan(snap, source.path@, target.path@, windows),
            _ => copy_file_plan(source.path@, target),
        }
    }
}

/// The plan that deletes one file.
pub open spec fn delete_file_plan(path: Seq<char>) -> Plan {
    Plan { steps: seq![Step::RemoveFile(path)], outcome: Ok(done("文件删除成功"@, path, None)) }
}

/// The plan that deletes a directory with all that it holds.
pub open spec fn delete_directory_plan(snap: DirSnapshot, path: Seq<char>, windows: bool) -> Plan {
    let g = delete_tree(snap, windows);
    match g.failure {
        Some(f) => Plan { steps: g.steps, outcome: Err(f) },
        None => Plan {
            steps: g.steps.push(Step::RemoveDir(path)),
            outcome: Ok(
                done(counted_text("目录删除成功"@, g.files, saturated(g.directories + 1)), path, None),
            ),
        },
    }
}

/// The plan of a deletion: refused where the path is defective or
/// missing, or the operator was cancelled.
pub open spec fn delete_plan(cancelled: bool, source: SourceFacts, windows: bool) -> Plan {
    if path_defect(source.path@) is Some {
        refused(path_defect(source.path@)->0)
    } else if !is_present(source.shape) {
        refused(OperationFailure::PathNotFound(source.path@))
    } else if cancelled {
        refused(delete_cancelled())
    } else {
        match source.shape {
            PathShape::Directory(snap) => delete_directory_plan(snap, source.path@, windows),
            _ => delete_file_plan(source.path@),
        }
    }
}

/// A request for a link at `link` that points at `target`.
pub struct LinkRequest {
    pub target: Seq<char>,
    /// Whether anything is at the target.
    pub target_present: bool,
    /// Whether the target is a directory.
    pub target_is_directory: bool,
    pub link: Seq<char>,
    /// Whether anything is at the link path.
    pub link_exists: bool,
    /// The parent of the link path, where it has one.
    pub link_parent: Option<Seq<char>>,
}

/// The request that the observed target and link path make.
pub open spec fn link_request(target: SourceFacts, link: TargetFacts) -> LinkRequest {
    LinkRequest {
        target: target.path@,
        target_present: is_present(target.shape),
        target_is_directory: target.shape is Directory,
        link: link.path@,
        link_exists: link.exists,
        link_parent: text_of(link.parent),
    }
}

/// The plan that creates a link: refused where a path is defective, the
/// target is missing, the link path is taken or the operator was cancelled.
pub open spec fn link_plan(cancelled: bool, req: LinkRequest) -> Plan {
    if path_defect(req.target) is Some {
        refused(path_defect(req.target)->0)
    } else if path_defect(req.link) is Some {
        refused(path_defect(req.link)->0)
    } else if !req.target_present {
        refused(OperationFailure::PathNotFound(req.target))
    } else if req.link_exists {
        refused(OperationFailure::PathAlreadyExists(req.link))
    } else if cancelled {
        refused(OperationFailure::OperationCancelled("创建链接操作已取消"@))
    } else {
        Plan {
            steps: parent_steps(req.link_parent).push(
                if req.target_is_directory {
                    Step::LinkDirectory { target: req.target, link: req.link }
                } else {
                    Step::LinkFile { target: req.target, link: req.link }
                },
            ),
            outcome: Ok(done("符号链接创建成功"@, req.target, Some(req.link))),
        }
    }
}

/// What was observed about the two paths of a migration.
#[derive(Debug)]
pub struct MigrationPathFacts {
    pub source: PathProbe,
    pub target: PathProbe,
    pub source_exists: bool,
    pub target_exists: bool,
    /// The canonical form of the parent of the target, where it could be resolved.
    pub target_parent_canonical: Option<String>,
    /// The size of the source, where it could be estimated.
    pub source_size: Option<u64>,
    /// Whether the parent of the target could be inspected.
    pub target_parent_known: bool,
}

/// The largest source that is migrated without a warning about space.
pub const LARGE_SOURCE_BYTES: u64 = 0x19_0000_0000;

/// The verdict on the two paths of a migration and its reason. The rules
/// of path safety come first; then the source must exist, the target must
/// not, the parent of the target must not lie inside the source, and the
/// source must not be too large.
pub open spec fn migration_path_verdict(facts: MigrationPathFacts, windows: bool) -> (bool, Seq<char>) {
    let unsafe_pair = first_violation(facts.source, facts.target, windows);
    if unsafe_pair is Some {
        (false, violation_text(unsafe_pair->0))
    } else if !facts.source_exists {
        (false, "源路径不存在"@)
    } else if facts.target_exists {
        (false, "目标路径已存在"@)
    } else if facts.source.canonical is Some && facts.target_parent_canonical is Some && lies_within(
        facts.target_parent_canonical->0@,
        facts.source.canonical->0@,
    ) {
        (false, "不能将目录迁移到其子目录中"@)
    } else if facts.target_parent_known && facts.source_size is Some && facts.source_size->0
        > LARGE_SOURCE_BYTES {
        (false, "源目录过大，可能需要更多磁盘空间"@)
    } else {
        (true, "路径验证通过"@)
    }
}

/// The plan `p` is the one that `q` describes.
pub open spec fn plan_is(p: FsPlan, q: Plan) -> bool {
    p@ == q
}

/// The primitives of copying, deleting and linking, with a cancel flag.
pub struct FileOperator {
    cancel_flag: bool,
}

impl FileOperator {
    /// Whether cancellation has been requested.
    pub closed spec fn cancelled(&self) -> bool {
        self.cancel_flag
    }

    /// An operator on which nothing was cancelled.
    pub fn new() -> (o: FileOperator)
        ensures
            !o.cancelled(),
    {
        FileOperator { cancel_flag: false }
    }

    /// Requests cancellation. Every plan made afterwards is refused.
    pub fn cancel_operation(&mut self)
        ensures
            final(self).cancelled(),
    {
        self.cancel_flag = true;
    }

    /// Whether cancellation has been requested.
    pub fn is_cancelled(&self) -> (r: bool)
        ensures
            r == self.cancelled(),
    {
        self.cancel_flag
    }

    /// Checks a path as such.
    pub fn validate_path(&self, path: &str) -> (r: Result<(), FileOperationError>)
        ensures
            match r {
                Ok(_) => path_defect(path@) is None,
                Err(e) => path_defect(path@) == Some(e@),
            },
    {
        let p = chars_of(path);
        if p.len() == 0 {
            return Err(FileOperationError::InvalidPath(String::from_str("路径不能为空")));
        }
        let two = chars_of("..");
        let three = chars_of("...");
        if has_substring(&p, &two) && has_substring(&p, &three) {
            return Err(FileOperationError::InvalidPath(String::from_str("路径包含非法字符")));
        }
        Ok(())
    }

    fn refuse(e: FileOperationError) -> (p: FsPlan)
        ensures
            p@ == refused(e@),
    {
        let p = FsPlan { steps: Vec::new(), outcome: Err(e) };
        proof {
            assert(steps_of(p.steps@) =~= Seq::<Step>::empty());
        }
        p
    }

    fn succeed(message: String, source: &str, target: Option<String>) -> (r: FileOperationResult)
        ensures
            r@ == done(
                message@,
                source@,
                match target {
                    Some(t) => Some(t@),
                    None => None,
                },
            ),
    {
        FileOperationResult {
            success: true,
            message,
            source_path: String::from_str(source),
            target_path: target,
        }
    }

    fn parent_first(parent: &Option<String>) -> (steps: Vec<FsStep>)
        ensures
            steps_of(steps@) == parent_steps(text_of(*parent)),
    {
        let mut steps: Vec<FsStep> = Vec::new();
        if let Some(p) = parent {
            steps.push(FsStep::CreateDirAll(p.clone()));
        }
        proof {
            assert(steps_of(steps@) =~= parent_steps(text_of(*parent)));
        }
        steps
    }

    /// Plans the copy of one file.
    pub fn copy_file(&self, source: &str, target: &TargetFacts) -> (p: FsPlan)
        ensures
            p@ == copy_file_plan(source@, *target),
    {
        let mut steps = Self::parent_first(&target.parent);
        let step = FsStep::CopyFile { from: String::from_str(source), to: target.path.clone() };
        proof {
            lemma_steps_push(steps@, step);
        }
        steps.push(step);
        FsPlan {
            steps,
            outcome: Ok(
                Self::succeed(String::from_str("文件复制成功"), source, Some(target.path.clone())),
            ),
        }
    }

    /// Plans the copy of a directory with all that it holds.
    pub fn copy_directory(&self, snap: &DirSnapshot, source: &str, target: &str, windows: bool) -> (p:
        FsPlan)
        ensures
            p@ == copy_directory_plan(*snap, source@, target@, windows),
    {
        let mut steps: Vec<FsStep> = Vec::new();
        proof {
            assert(steps_of(steps@) =~= Seq::<Step>::empty());
        }
        let (files, directories, failure) = plan_copy_tree(snap, target, windows, &mut steps);
        proof {
            assert(Seq::<Step>::empty() + copy_tree(*snap, target@, windows).steps =~= copy_tree(
                *snap,
                target@,
                windows,
            ).steps);
        }
        match failure {
            Some(f) => FsPlan { steps, outcome: Err(f) },
            None => FsPlan {
                steps,
                outcome: Ok(
                    Self::succeed(
                        counted_message("目录复制成功", files, directories),
                        source,
                        Some(String::from_str(target)),
                    ),
                ),
            },
        }
    }

    /// Plans a copy.
    pub fn copy_path(&self, source: &SourceFacts, target: &TargetFacts, windows: bool) -> (p: FsPlan)
        ensures
            p@ == copy_plan(self.cancelled(), *source, *target, windows),
    {
        if let Err(e) = self.validate_path(source.path.as_str()) {
            return Self::refuse(e);
        }
        if let Err(e) = self.validate_path(target.path.as_str()) {
            return Self::refuse(e);
        }
        if let PathShape::Missing = &source.shape {
            return Self::refuse(FileOperationError::PathNotFound(source.path.clone()));
        }
        if target.exists {
            return Self::refuse(FileOperationError::PathAlreadyExists(target.path.clone()));
        }
        if self.cancel_flag {
            return Self::refuse(
                FileOperationError::OperationCancelled(String::from_str("复制操作已取消")),
            );
        }
        match &source.shape {
            PathShape::Directory(snap) => self.copy_directory(
                snap,
                source.path.as_str(),
                target.path.as_str(),
                windows,
            ),
            _ => self.copy_file(source.path.as_str(), target),
        }
    }

    /// Plans the deletion of one file.
    pub fn delete_file(&self, path: &str) -> (p: FsPlan)
        ensures
            p@ == delete_file_plan(path@),
    {
        let mut steps: Vec<FsStep> = Vec::new();
        let step = FsStep::RemoveFile(String::from_str(path));
        proof {
            assert(steps_of(steps@) =~= Seq::<Step>::empty());
            lemma_steps_push(steps@, step);
        }
        steps.push(step);
        FsPlan { steps, outcome: Ok(Self::succeed(String::from_str("文件删除成功"), path, None)) }
    }

    /// Adds to `steps` the steps that empty a directory, and counts what they remove.
    pub fn delete_directory_contents(
        &self,
        snap: &DirSnapshot,
        windows: bool,
        steps: &mut Vec<FsStep>,
    ) -> (r: (u64, u64, Option<FileOperationError>))
        ensures
            gathered_is(final(steps)@, old(steps)@, r, delete_tree(*snap, windows)),
    {
        plan_delete_tree(snap, windows, steps)
    }

    /// Plans the deletion of a directory with all that it holds.
    pub fn delete_directory(&self, snap: &DirSnapshot, path: &str, windows: bool) -> (p: FsPlan)
        ensures
            p@ == delete_directory_plan(*snap, path@, windows),
    {
        let mut steps: Vec<FsStep> = Vec::new();
        proof {
            assert(steps_of(steps@) =~= Seq::<Step>::empty());
        }
        let (files, directories, failure) = self.delete_directory_contents(snap, windows, &mut steps);
        proof {
            assert(Seq::<Step>::empty() + delete_tree(*snap, windows).steps =~= delete_tree(
                *snap,
                windows,
            ).steps);
        }
        match failure {
            Some(f) => FsPlan { steps, outcome: Err(f) },
            None => {
                let step = FsStep::RemoveDir(String::from_str(path));
                proof {
                    lemma_steps_push(steps@, step);
                }
                steps.push(step);
                FsPlan {
                    steps,
                    outcome: Ok(
                        Self::succeed(
                            counted_message("目录删除成功", files, add_saturating(directories, 1)),
                            path,
                            None,
                        ),
                    ),
                }
            },
        }
    }

    /// Plans a deletion.
    pub fn delete_path(&self, source: &SourceFacts, windows: bool) -> (p: FsPlan)
        ensures
            p@ == delete_plan(self.cancelled(), *source, windows),
    {
        if let Err(e) = self.validate_path(source.path.as_str()) {
            return Self::refuse(e);
        }
        if let PathShape::Missing = &source.shape {
            return Self::refuse(FileOperationError::PathNotFound(source.path.clone()));
        }
        if self.cancel_flag {
            return Self::refuse(
                FileOperationError::OperationCancelled(String::from_str("删除操作已取消")),
            );
        }
        match &source.shape {
            PathShape::Directory(snap) => self.delete_directory(snap, source.path.as_str(), windows),
            _ => self.delete_file(source.path.as_str()),
        }
    }

    /// Plans a link at `link` that points at `target`.
    pub fn create_symlink(&self, target: &SourceFacts, link: &TargetFacts) -> (p: FsPlan)
        ensures
            p@ == link_plan(self.cancelled(), link_request(*target, *link)),
    {
        if let Err(e) = self.validate_path(target.path.as_str()) {
            return Self::refuse(e);
        }
        if let Err(e) = self.validate_path(link.path.as_str()) {
            return Self::refuse(e);
        }
        if let PathShape::Missing = &target.shape {
            return Self::refuse(FileOperationError::PathNotFound(target.path.clone()));
        }
        if link.exists {
            return Self::refuse(FileOperationError::PathAlreadyExists(link.path.clone()));
        }
        if self.cancel_flag {
            return Self::refuse(
                FileOperationError::OperationCancelled(String::from_str("创建链接操作已取消")),
            );
        }
        let mut steps = Self::parent_first(&link.parent);
        let step = match &target.shape {
            PathShape::Directory(_) => FsStep::LinkDirectory {
                target: target.path.clone(),
                link: link.path.clone(),
            },
            _ => FsStep::LinkFile { target: target.path.clone(), link: link.path.clone() },
        };
        proof {
            lemma_steps_push(steps@, step);
        }
        steps.push(step);
        FsPlan {
            steps,
            outcome: Ok(
                Self::succeed(
                    String::from_str("符号链接创建成功"),
                    target.path.as_str(),
                    Some(link.path.clone()),
                ),
            ),
        }
    }

    /// Judges whether the source may be migrated to the target.
    pub fn validate_migration_path(&self, facts: &MigrationPathFacts, windows: bool) -> (r: (
        bool,
        String,
    ))
        ensures
            r.0 == migration_path_verdict(*facts, windows).0,
            r.1@ == migration_path_verdict(*facts, windows).1,
    {
        if let Some(v) = validate(&facts.source, &facts.target, windows) {
            return (false, describe(v));
        }
        if !facts.source_exists {
            return (false, String::from_str("源路径不存在"));
        }
        if facts.target_exists {
            return (false, String::from_str("目标路径已存在"));
        }
        if let Some(source) = &facts.source.canonical {
            if let Some(parent) = &facts.target_parent_canonical {
                let s = chars_of(source.as_str());
                let p = chars_of(parent.as_str());
                if is_within(&p, &s) {
                    return (false, String::from_str("不能将目录迁移到其子目录中"));
                }
            }
        }
        if facts.target_parent_known {
            if let Some(size) = facts.source_size {
                if size > LARGE_SOURCE_BYTES {
                    return (false, String::from_str("源目录过大，可能需要更多磁盘空间"));
                }
            }
        }
        (true, String::from_str("路径验证通过"))
    }

    /// The bytes of all the files at the source: the length of a file, the
    /// whole size of a directory.
    pub fn estimate_directory_size(&self, source: &SourceFacts) -> (r: Result<u64, FileOperationError>)
        ensures
            match source.shape {
                PathShape::Missing => r matches Err(e) && e@ == OperationFailure::PathNotFound(
                    source.path@,
                ),
                PathShape::File { length: Ok(n) } => r == Ok::<u64, FileOperationError>(n),
                PathShape::File { length: Err(text) } => r matches Err(e) && e@
                    == OperationFailure::IoError(IoKind::Other, text@),
                PathShape::Directory(snap) => match whole_size(snap) {
                    Ok(n) => r == Ok::<u64, FileOperationError>(n),
                    Err(text) => r matches Err(e) && e@ == OperationFailure::IoError(
                        IoKind::Other,
                        text,
                    ),
                },
            },
    {
        match &source.shape {
            PathShape::Missing => Err(FileOperationError::PathNotFound(source.path.clone())),
            PathShape::File { length } => match length {
                Ok(n) => Ok(*n),
                Err(text) => Err(FileOperationError::from_io(IoKind::Other, text.clone())),
            },
            PathShape::Directory(snap) => match calculate_directory_size(snap) {
                Ok(n) => Ok(n),
                Err(text) => Err(FileOperationError::from_io(IoKind::Other, text)),
            },
        }
    }
}

/// The steps hold a step that creates `target`, and a step that copies
/// each file in and below `snap` to its place in and below `target`.
pub open spec fn copies_all(snap: DirSnapshot, target: Seq<char>, steps: Seq<Step>, windows: bool) -> bool
    decreases snap,
{
    &&& steps.contains(Step::CreateDirAll(target))
    &&& forall|i: int|
        0 <= i < entries_of(snap).len() ==> match #[trigger] entries_of(snap)[i] {
            EntrySnapshot::File { name, .. } => steps.contains(
                Step::CopyFile {
                    from: joined(snap.path@, name@, windows),
                    to: joined(target, name@, windows),
                },
            ),
            EntrySnapshot::Directory { tree, .. } => copies_all(
                tree,
                joined(target, capped_name(tree), windows),
                steps,
                windows,
            ),
            EntrySnapshot::Unreadable { .. } => true,
        }
}

/// Every step of `a` is a step of `b`.
pub open spec fn included(a: Seq<Step>, b: Seq<Step>) -> bool {
    forall|i: int| 0 <= i < a.len() ==> b.contains(#[trigger] a[i])
}

/// What holds of some steps holds of every list that includes them.
pub proof fn lemma_copies_all_grows(
    snap: DirSnapshot,
    target: Seq<char>,
    a: Seq<Step>,
    b: Seq<Step>,
    windows: bool,
)
    requires
        copies_all(snap, target, a, windows),
        included(a, b),
    ensures
        copies_all(snap, target, b, windows),
    decreases snap,
{
    assert forall|x: Step| a.contains(x) implies b.contains(x) by {
        let i = choose|i: int| 0 <= i < a.len() && a[i] == x;
        assert(b.contains(a[i]));
    }
    assert forall|i: int| 0 <= i < entries_of(snap).len() implies match #[trigger] entries_of(snap)[i] {
        EntrySnapshot::File { name, .. } => b.contains(
            Step::CopyFile {
                from: joined(snap.path@, name@, windows),
                to: joined(target, name@, windows),
            },
        ),
        EntrySnapshot::Directory { tree, .. } => copies_all(
            tree,
            joined(target, capped_name(tree), windows),
            b,
            windows,
        ),
        EntrySnapshot::Unreadable { .. } => true,
    } by {
        match entries_of(snap)[i] {
            EntrySnapshot::Directory { tree, .. } => {
                lemma_copies_all_grows(
                    tree,
                    joined(target, capped_name(tree), windows),
                    a,
                    b,
                    windows,
                );
            },
            _ => {},
        }
    }
}

/// **A copy is complete.** The plan of a copy that does not end in a
/// failure creates the target and every directory below it, and copies
/// every file of the tree to its place below the target.
pub proof fn lemma_copy_is_complete(snap: DirSnapshot, target: Seq<char>, windows: bool)
    requires
        copy_tree(snap, target, windows).failure is None,
    ensures
        copies_all(snap, target, copy_tree(snap, target, windows).steps, windows),
    decreases snap, entries_of(snap).len() + 1,
{
    let all = copy_tree(snap, target, windows).steps;
    let n = entries_of(snap).len();
    let inner = copy_entries(snap, n, target, windows);
    assert(all[0] == Step::CreateDirAll(target));
    assert forall|i: int| 0 <= i < n implies match #[trigger] entries_of(snap)[i] {
        EntrySnapshot::File { name, .. } => all.contains(
            Step::CopyFile {
                from: joined(snap.path@, name@, windows),
                to: joined(target, name@, windows),
            },
        ),
        EntrySnapshot::Directory { tree, .. } => copies_all(
            tree,
            joined(target, capped_name(tree), windows),
            all,
            windows,
        ),
        EntrySnapshot::Unreadable { .. } => true,
    } by {
        lemma_entry_is_copied(snap, n, target, windows, i);
        let part = copy_entries(snap, n, target, windows).steps;
        assert forall|k: int| 0 <= k < part.len() implies all.contains(#[trigger] part[k]) by {
            assert(all[k + 1] == part[k]);
        }
        match entries_of(snap)[i] {
            EntrySnapshot::File { name, .. } => {
                let step = Step::CopyFile {
                    from: joined(snap.path@, name@, windows),
                    to: joined(target, name@, windows),
                };
                let k = choose|k: int| 0 <= k < part.len() && part[k] == step;
                assert(all.contains(part[k]));
            },
            EntrySnapshot::Directory { tree, .. } => {
                lemma_copies_all_grows(
                    tree,
                    joined(target, capped_name(tree), windows),
                    part,
                    all,
                    windows,
                );
            },
            _ => {},
        }
    }
}

/// What the steps for the first `n` entries hold for entry `i` among them,
/// where gathering them met no failure.
pub proof fn lemma_entry_is_copied(snap: DirSnapshot, n: nat, target: Seq<char>, windows: bool, i: int)
    requires
        n <= entries_of(snap).len(),
        copy_entries(snap, n, target, windows).failure is None,
        0 <= i < n,
    ensures
        match entries_of(snap)[i] {
            EntrySnapshot::File { name, .. } => copy_entries(snap, n, target, windows).steps.contains(
                Step::CopyFile {
                    from: joined(snap.path@, name@, windows),
                    to: joined(target, name@, windows),
                },
            ),
            EntrySnapshot::Directory { tree, .. } => copies_all(
                tree,
                joined(target, capped_name(tree), windows),
                copy_entries(snap, n, target, windows).steps,
                windows,
            ),
            EntrySnapshot::Unreadable { .. } => true,
        },
    decreases snap, n,
{
    let now = copy_entries(snap, n, target, windows);
    let before = copy_entries(snap, (n - 1) as nat, target, windows);
    let e = entries_of(snap)[n - 1];
    assert(before.failure is None);
    assert forall|k: int| 0 <= k < before.steps.len() implies now.steps.contains(
        #[trigger] before.steps[k],
    ) by {
        assert(now.steps[k] == before.steps[k]);
    }
    if i < n - 1 {
        lemma_entry_is_copied(snap, (n - 1) as nat, target, windows, i);
        match entries_of(snap)[i] {
            EntrySnapshot::File { name, .. } => {
                let step = Step::CopyFile {
                    from: joined(snap.path@, name@, windows),
                    to: joined(target, name@, windows),
                };
                let k = choose|k: int| 0 <= k < before.steps.len() && before.steps[k] == step;
                assert(now.steps.contains(before.steps[k]));
            },
            EntrySnapshot::Directory { tree, .. } => {
                lemma_copies_all_grows(
                    tree,
                    joined(target, capped_name(tree), windows),
                    before.steps,
                    now.steps,
                    windows,
                );
            },
            _ => {},
        }
    } else {
        match e {
            EntrySnapshot::File { name, .. } => {
                assert(now.steps[now.steps.len() - 1] == Step::CopyFile {
                    from: joined(snap.path@, name@, windows),
                    to: joined(target, name@, windows),
                });
            },
            EntrySnapshot::Directory { tree, .. } => {
                let below_target = joined(target, capped_name(tree), windows);
                let below = copy_tree(tree, below_target, windows);
                lemma_copy_is_complete(tree, below_target, windows);
                assert forall|k: int| 0 <= k < below.steps.len() implies now.steps.contains(
                    #[trigger] below.steps[k],
                ) by {
                    assert(now.steps[before.steps.len() + k] == below.steps[k]);
                }
                lemma_copies_all_grows(tree, below_target, below.steps, now.steps, windows);
            },
            _ => {},
        }
    }
}

} // verus!
