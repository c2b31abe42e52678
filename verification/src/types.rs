//! The values that cross the command boundary.

use crate::ratio::Ratio;
use vstd::prelude::*;

verus! {

/// A sized directory as the user interface shows it.
#[derive(Debug)]
pub struct DirectoryInfo {
    pub path: String,
    pub name: String,
    pub size: u64,
    pub file_count: u64,
    pub subdirectories: Vec<DirectoryInfo>,
}

/// The two trees hold the same paths, names, sizes and counts throughout.
pub open spec fn same_tree(a: DirectoryInfo, b: DirectoryInfo) -> bool
    decreases a,
{
    &&& a.path@ == b.path@
    &&& a.name@ == b.name@
    &&& a.size == b.size
    &&& a.file_count == b.file_count
    &&& a.subdirectories@.len() == b.subdirectories@.len()
    &&& forall|i: int|
        0 <= i < a.subdirectories@.len() ==> same_tree(
            #[trigger] a.subdirectories@[i],
            b.subdirectories@[i],
        )
}

impl Clone for DirectoryInfo {
    /// A copy of the tree.
    fn clone(&self) -> (r: DirectoryInfo)
        ensures
            same_tree(*self, r),
        decreases self,
    {
        let mut children: Vec<DirectoryInfo> = Vec::new();
        let mut i: usize = 0;
        while i < self.subdirectories.len()
            invariant
                i <= self.subdirectories@.len(),
                children@.len() == i,
                forall|k: int|
                    0 <= k < i ==> same_tree(#[trigger] self.subdirectories@[k], children@[k]),
            decreases self.subdirectories@.len() - i,
        {
            children.push(self.subdirectories[i].clone());
            i += 1;
        }
        DirectoryInfo {
            path: self.path.clone(),
            name: self.name.clone(),
            size: self.size,
            file_count: self.file_count,
            subdirectories: children,
        }
    }
}

/// The progress of a scan as the user interface shows it.
#[derive(Debug, Clone)]
pub struct ScanProgress {
    pub current_path: String,
    pub processed_files: u64,
    pub total_files: u64,
    pub progress: Ratio,
    pub processed_directories: u64,
    pub total_directories: u64,
    pub current_directory: String,
    pub estimated_time_remaining: u64,
    pub scan_speed: Ratio,
    pub large_folders_found: u64,
}

/// The space of a drive.
#[derive(Debug, Clone)]
pub struct DiskInfo {
    pub name: String,
    pub total_space: u64,
    pub free_space: u64,
    pub used_space: u64,
}

/// What is to be migrated, and how.
#[derive(Debug, Clone)]
pub struct MigrationOptions {
    pub source_path: String,
    pub target_path: String,
    pub create_symlink: bool,
    pub delete_source: bool,
}

/// How a migration ended.
#[derive(Debug, Clone)]
pub struct MigrationResult {
    pub success: bool,
    pub message: String,
    pub source_path: String,
    pub target_path: String,
    pub symlink_path: Option<String>,
}

/// What a file operation achieved.
#[derive(Debug, Clone)]
pub struct FileOperationResult {
    pub success: bool,
    pub message: String,
    pub source_path: String,
    pub target_path: Option<String>,
}

/// What is known of the machine.
#[derive(Debug, Clone)]
pub struct SystemInfo {
    pub os_name: String,
    pub os_version: String,
    pub total_memory: u64,
    pub available_memory: u64,
    pub cpu_count: usize,
}

/// The answer to a command: the data, or the error.
#[derive(Debug)]
pub struct ApiResponse<T> {
    pub success: bool,
    pub data: Option<T>,
    pub error: Option<String>,
}

impl<T> ApiResponse<T> {
    /// The answer that carries the data.
    pub fn success(data: T) -> (r: ApiResponse<T>)
        ensures
            r.success,
            r.data == Some(data),
            r.error is None,
    {
        ApiResponse { success: true, data: Some(data), error: None }
    }

    /// The answer that carries the error.
    pub fn error(error: String) -> (r: ApiResponse<T>)
        ensures
            !r.success,
            r.data is None,
            r.error == Some(error),
    {
        ApiResponse { success: false, data: None, error: Some(error) }
    }
}

/// An error with its code.
#[derive(Debug, Clone)]
pub struct ErrorInfo {
    pub code: String,
    pub message: String,
    pub details: Option<String>,
}

impl ErrorInfo {
    /// An error without details.
    pub fn new(code: &str, message: &str) -> (e: ErrorInfo)
        ensures
            e.code@ == code@,
            e.message@ == message@,
            e.details is None,
    {
        ErrorInfo { code: String::from_str(code), message: String::from_str(message), details: None }
    }

    /// The error with the details.
    pub fn with_details(self, details: &str) -> (e: ErrorInfo)
        ensures
            e.code == self.code,
            e.message == self.message,
            e.details matches Some(d) && d@ == details@,
    {
        let mut e = self;
        e.details = Some(String::from_str(details));
        e
    }
}

/// The progress of an operation.
#[derive(Debug, Clone)]
pub struct ProgressInfo {
    pub operation: String,
    pub current_item: String,
    pub processed: u64,
    pub total: u64,
    /// The part that is done: processed over total.
    pub percentage: Ratio,
    pub status: String,
}

impl ProgressInfo {
    /// The progress of an operation that has just begun.
    pub fn new(operation: &str, current_item: &str) -> (p: ProgressInfo)
        ensures
            p.operation@ == operation@,
            p.current_item@ == current_item@,
            p.processed == 0,
            p.total == 0,
            p.percentage == (Ratio { part: 0, whole: 0 }),
            p.status@ == "运行中"@,
    {
        ProgressInfo {
            operation: String::from_str(operation),
            current_item: String::from_str(current_item),
            processed: 0,
            total: 0,
            percentage: Ratio::zero(),
            status: String::from_str("运行中"),
        }
    }

    /// Takes the counts; the part that is done follows from them.
    pub fn update_progress(&mut self, processed: u64, total: u64)
        ensures
            final(self).processed == processed,
            final(self).total == total,
            final(self).percentage == (Ratio { part: processed, whole: total }),
            final(self).operation == old(self).operation,
            final(self).current_item == old(self).current_item,
            final(self).status == old(self).status,
    {
        self.processed = processed;
        self.total = total;
        self.percentage = Ratio::new(processed, total);
    }

    /// Replaces the status.
    pub fn set_status(&mut self, status: &str)
        ensures
            final(self).status@ == status@,
            final(self).processed == old(self).processed,
            final(self).total == old(self).total,
            final(self).percentage == old(self).percentage,
            final(self).operation == old(self).operation,
            final(self).current_item == old(self).current_item,
    {
        self.status = String::from_str(status);
    }
}

/// The verdict on a path, with advice.
#[derive(Debug, Clone)]
pub struct PathValidationResult {
    pub valid: bool,
    pub message: String,
    pub suggestions: Vec<String>,
}

impl PathValidationResult {
    /// The verdict that the path is valid.
    pub fn valid(message: &str) -> (r: PathValidationResult)
        ensures
            r.valid,
            r.message@ == message@,
            r.suggestions@.len() == 0,
    {
        PathValidationResult { valid: true, message: String::from_str(message), suggestions: Vec::new() }
    }

    /// The verdict that the path is not valid.
    pub fn invalid(message: &str) -> (r: PathValidationResult)
        ensures
            !r.valid,
            r.message@ == message@,
            r.suggestions@.len() == 0,
    {
        PathValidationResult {
            valid: false,
            message: String::from_str(message),
            suggestions: Vec::new(),
        }
    }

    /// The verdict with one more piece of advice.
    pub fn with_suggestion(self, suggestion: &str) -> (r: PathValidationResult)
        ensures
            r.valid == self.valid,
            r.message == self.message,
            r.suggestions@.len() == self.suggestions@.len() + 1,
            r.suggestions@.last()@ == suggestion@,
            r.suggestions@.drop_last() == self.suggestions@,
    {
        let mut r = self;
        r.suggestions.push(String::from_str(suggestion));
        proof {
            assert(r.suggestions@.drop_last() =~= self.suggestions@);
        }
        r
    }
}

/// A file or a directory in a listing.
#[derive(Debug, Clone)]
pub struct FileInfo {
    pub path: String,
    pub name: String,
    pub size: u64,
    pub is_directory: bool,
    /// In seconds since the epoch.
    pub modified_time: Option<u64>,
    /// In seconds since the epoch.
    pub created_time: Option<u64>,
    pub permissions: Option<String>,
}

/// The listing of a directory.
#[derive(Debug, Clone)]
pub struct DirectoryContent {
    pub path: String,
    pub files: Vec<FileInfo>,
    pub total_size: u64,
    pub file_count: u64,
    pub directory_count: u64,
}

/// How a listing is sorted.
#[derive(Debug, Clone)]
pub struct SortOptions {
    /// `name`, `size` or `modified_time`.
    pub field: String,
    /// `asc` or `desc`.
    pub order: String,
}

/// What a listing shows.
#[derive(Debug, Clone)]
pub struct FilterOptions {
    pub name_pattern: Option<String>,
    pub min_size: Option<u64>,
    pub max_size: Option<u64>,
    pub file_types: Option<Vec<String>>,
    pub show_hidden: bool,
    pub show_empty: bool,
}

/// Where a page stands among all pages.
#[derive(Debug, Clone, Copy, PartialEq, Eq, Structural)]
pub struct PaginationInfo {
    pub page: u32,
    pub page_size: u32,
    pub total: u64,
    pub total_pages: u32,
}

/// One page of items.
#[derive(Debug)]
pub struct PaginatedResponse<T> {
    pub items: Vec<T>,
    pub pagination: PaginationInfo,
}

/// The number of pages that `total` items fill: the quotient rounded up,
/// as far as thirty-two bits hold it. With pages of no items there is no
/// page for no items, and there are as many pages as can be counted for any.
pub open spec fn page_count(total: u64, page_size: u32) -> u32 {
    if page_size == 0 {
        if total == 0 {
            0
        } else {
            u32::MAX
        }
    } else {
        let pages = (total + page_size - 1) / (page_size as int);
        if pages > u32::MAX {
            u32::MAX
        } else {
            pages as u32
        }
    }
}

impl<T> PaginatedResponse<T> {
    /// The page with its place among all pages.
    pub fn new(items: Vec<T>, page: u32, page_size: u32, total: u64) -> (r: PaginatedResponse<T>)
        ensures
            r.items == items,
            r.pagination == (PaginationInfo {
                page,
                page_size,
                total,
                total_pages: page_count(total, page_size),
            }),
    {
        let total_pages: u32 = if page_size == 0 {
            if total == 0 {
                0
            } else {
                u32::MAX
            }
        } else {
            let pages = (total as u128 + page_size as u128 - 1) / (page_size as u128);
            if pages > u32::MAX as u128 {
                u32::MAX
            } else {
                pages as u32
            }
        };
        PaginatedResponse { items, pagination: PaginationInfo { page, page_size, total, total_pages } }
    }
}

} // verus!
