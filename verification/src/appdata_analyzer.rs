//! The scanner of the per-user application-data root.
//!
//! Only the entries directly inside the three buckets `Local`, `LocalLow`
//! and `Roaming` are reported. A directory is sized by the directory
//! scanner, a file by its length. The report lists the items of all three
//! buckets in the configured order, and apart the items that reach the size
//! threshold.

use crate::disk_analyzer::{read_failed_message, scan_tree, DiskAnalyzer};
use crate::ratio::{add_saturating, saturated, Ratio};
use crate::scan_model::{
    entries_of, read_failed_text, scan_dir, DirSnapshot, EntrySnapshot, Listing, ScanSettings,
};
use crate::size_format::{format_size_in, size_text};
use crate::sorting::{
    in_key_order, key_of, lemma_sort_commutes, lemma_sort_members, lemma_stable_sort, sort_by_key,
    stable_sort, Keyed,
};
use crate::text::{chars_of, push_all, starts_with, string_of};
use vstd::prelude::*;

verus! {

/// The order in which items are listed.
#[derive(Debug, Clone, Copy, PartialEq, Eq, Structural)]
pub enum SortOrder {
    /// Smallest first.
    Asc,
    /// Largest first.
    Desc,
}

/// The knobs of an application-data scan.
#[derive(Debug, Clone, Copy, PartialEq, Eq, Structural)]
pub struct AppDataConfig {
    /// An item of at least this many bytes is large.
    pub min_size_threshold: u64,
    /// The depth to which the directories inside a bucket are opened.
    pub max_depth: usize,
    /// The order of the items in the report.
    pub sort_order: SortOrder,
}

impl Default for AppDataConfig {
    /// A threshold of one gibibyte, depth 2, largest first.
    fn default() -> (c: AppDataConfig)
        ensures
            c == (AppDataConfig {
                min_size_threshold: 0x4000_0000,
                max_depth: 2,
                sort_order: SortOrder::Desc,
            }),
    {
        AppDataConfig { min_size_threshold: 0x4000_0000, max_depth: 2, sort_order: SortOrder::Desc }
    }
}

/// One of the three subtrees of the application-data root.
#[derive(Debug, Clone, Copy, PartialEq, Eq, Structural)]
pub enum AppDataBucket {
    Local,
    LocalLow,
    Roaming,
}

/// The name of a bucket, which is also the name of its directory.
pub open spec fn bucket_name(b: AppDataBucket) -> Seq<char> {
    match b {
        AppDataBucket::Local => "Local"@,
        AppDataBucket::LocalLow => "LocalLow"@,
        AppDataBucket::Roaming => "Roaming"@,
    }
}

/// The three bucket names differ from one another.
pub proof fn lemma_bucket_names_differ(a: AppDataBucket, b: AppDataBucket)
    ensures
        bucket_name(a) == bucket_name(b) <==> a == b,
{
    reveal_strlit("Local");
    reveal_strlit("LocalLow");
    reveal_strlit("Roaming");
    assert("Local"@.len() == 5);
    assert("LocalLow"@.len() == 8);
    assert("Roaming"@.len() == 7);
}

/// An entry directly inside a bucket.
#[derive(Debug, Clone)]
pub struct AppDataFirstLevelItem {
    /// The path of the item.
    pub path: String,
    /// Its last component.
    pub name: String,
    /// Its bytes: for a directory those of the files in and below it.
    pub size: u64,
    /// `directory` or `file`.
    pub item_type: String,
    /// The name of the bucket that holds it.
    pub parent_type: String,
    /// Whether its size reaches the threshold.
    pub is_large: bool,
    /// Its share of the size of its bucket.
    pub size_percentage: Ratio,
}

/// An entry directly inside a bucket, as a mathematical value.
pub struct FirstLevelItem {
    pub path: Seq<char>,
    pub name: Seq<char>,
    pub size: u64,
    pub item_type: Seq<char>,
    pub parent_type: Seq<char>,
    pub is_large: bool,
    pub size_percentage: Ratio,
}

impl View for AppDataFirstLevelItem {
    type V = FirstLevelItem;

    open spec fn view(&self) -> FirstLevelItem {
        FirstLevelItem {
            path: self.path@,
            name: self.name@,
            size: self.size,
            item_type: self.item_type@,
            parent_type: self.parent_type@,
            is_large: self.is_large,
            size_percentage: self.size_percentage,
        }
    }
}

impl Keyed for AppDataFirstLevelItem {
    open spec fn key(&self) -> u64 {
        self.size
    }

    fn key_value(&self) -> (k: u64) {
        self.size
    }
}

impl AppDataFirstLevelItem {
    /// A copy of the item.
    pub fn duplicate(&self) -> (r: AppDataFirstLevelItem)
        ensures
            r@ == self@,
    {
        AppDataFirstLevelItem {
            path: self.path.clone(),
            name: self.name.clone(),
            size: self.size,
            item_type: self.item_type.clone(),
            parent_type: self.parent_type.clone(),
            is_large: self.is_large,
            size_percentage: self.size_percentage,
        }
    }
}

/// What is to be migrated out of the application-data root.
#[derive(Debug, Clone)]
pub struct AppDataMigrationOptions {
    /// The paths of the items to migrate.
    pub source_items: Vec<String>,
    /// The drive to migrate to, such as `D:`.
    pub target_drive: String,
    /// Whether a link is left where each item was.
    pub create_symlink: bool,
    /// Whether each source is deleted after the copy.
    pub delete_source: bool,
}

/// The report of an application-data scan.
#[derive(Debug, Clone)]
pub struct AppDataInfo {
    pub local_path: String,
    pub local_low_path: String,
    pub roaming_path: String,
    pub local_size: u64,
    pub local_low_size: u64,
    pub roaming_size: u64,
    pub total_size: u64,
    /// The items of all three buckets, in the configured order.
    pub first_level_items: Vec<AppDataFirstLevelItem>,
    /// The items whose size reaches the threshold, in the same order.
    pub large_items: Vec<AppDataFirstLevelItem>,
    /// How long the scan took, in milliseconds.
    pub scan_time_ms: u64,
}

/// The report of an application-data scan, as a mathematical value.
pub struct AppDataReport {
    pub local_path: Seq<char>,
    pub local_low_path: Seq<char>,
    pub roaming_path: Seq<char>,
    pub local_size: u64,
    pub local_low_size: u64,
    pub roaming_size: u64,
    pub total_size: u64,
    pub first_level_items: Seq<FirstLevelItem>,
    pub large_items: Seq<FirstLevelItem>,
    pub scan_time_ms: u64,
}

/// The function that takes an item to its mathematical value.
pub open spec fn to_item() -> spec_fn(AppDataFirstLevelItem) -> FirstLevelItem {
    |i: AppDataFirstLevelItem| i@
}

/// The mathematical values of a sequence of items.
pub open spec fn items_of(v: Seq<AppDataFirstLevelItem>) -> Seq<FirstLevelItem> {
    v.map_values(to_item())
}

impl View for AppDataInfo {
    type V = AppDataReport;

    open spec fn view(&self) -> AppDataReport {
        AppDataReport {
            local_path: self.local_path@,
            local_low_path: self.local_low_path@,
            roaming_path: self.roaming_path@,
            local_size: self.local_size,
            local_low_size: self.local_low_size,
            roaming_size: self.roaming_size,
            total_size: self.total_size,
            first_level_items: items_of(self.first_level_items@),
            large_items: items_of(self.large_items@),
            scan_time_ms: self.scan_time_ms,
        }
    }
}

/// An entry of a bucket as the caller saw it.
#[derive(Debug)]
pub struct ItemSnapshot {
    /// The name of the entry.
    pub name: String,
    /// What the entry is and what was read of it.
    pub entry: EntrySnapshot,
}

/// A bucket as the caller saw it.
#[derive(Debug)]
pub struct BucketSnapshot {
    /// The path of the bucket.
    pub path: String,
    /// Its entries, in the order in which the filesystem gave them; `None`
    /// where the bucket is missing or could not be listed.
    pub entries: Option<Vec<ItemSnapshot>>,
}

/// The three buckets as the caller saw them.
#[derive(Debug)]
pub struct AppDataSnapshot {
    pub local: BucketSnapshot,
    pub local_low: BucketSnapshot,
    pub roaming: BucketSnapshot,
}

/// The items of the last scan, kept for a while.
#[derive(Debug, Clone)]
pub struct CachedScanResult {
    pub items: Vec<AppDataFirstLevelItem>,
    pub total_size: u64,
    /// When the scan ended, in seconds on the clock of the caller.
    pub timestamp: u64,
}

/// How long a kept scan may be used, in seconds.
pub const CACHE_SECONDS: u64 = 300;

/// The separator that joins the segments of a path.
pub open spec fn separator(windows: bool) -> char {
    if windows {
        '\\'
    } else {
        '/'
    }
}

/// `base` with the segment `name` behind it.
pub open spec fn joined(base: Seq<char>, name: Seq<char>, windows: bool) -> Seq<char> {
    if base.len() > 0 && (base.last() == '/' || base.last() == '\\') {
        base + name
    } else {
        base.push(separator(windows)) + name
    }
}

/// The size of a first-level entry, where it is reported: the length of a
/// file whose length was read, and the scanned size of a directory, which
/// is zero where its scan fails. Other entries are passed over.
pub open spec fn reported_size(cfg: ScanSettings, e: EntrySnapshot) -> Option<u64> {
    match e {
        EntrySnapshot::Unreadable { .. } => None,
        EntrySnapshot::File { size: Ok(bytes), .. } => Some(bytes),
        EntrySnapshot::File { size: Err(_), .. } => None,
        EntrySnapshot::Directory { tree, .. } => match scan_dir(cfg, tree, 0) {
            Ok(node) => Some(node.size),
            Err(_) => Some(0),
        },
    }
}

/// The kind of a first-level entry as it is reported.
pub open spec fn reported_kind(e: EntrySnapshot) -> Seq<char> {
    match e {
        EntrySnapshot::Directory { .. } => "directory"@,
        _ => "file"@,
    }
}

/// The size by which items are ordered.
pub open spec fn item_size() -> spec_fn(FirstLevelItem) -> u64 {
    |i: FirstLevelItem| i.size
}

/// The item that a first-level entry of `size` bytes gives, its share unset.
pub open spec fn item_for(
    cfg: AppDataConfig,
    bucket: BucketSnapshot,
    which: AppDataBucket,
    entry: ItemSnapshot,
    size: u64,
    windows: bool,
) -> FirstLevelItem {
    FirstLevelItem {
        path: joined(bucket.path@, entry.name@, windows),
        name: entry.name@,
        size,
        item_type: reported_kind(entry.entry),
        parent_type: bucket_name(which),
        is_large: size >= cfg.min_size_threshold,
        size_percentage: Ratio { part: 0, whole: 0 },
    }
}

/// The entries of a bucket; none where it is missing or could not be listed.
pub open spec fn bucket_entries(bucket: BucketSnapshot) -> Seq<ItemSnapshot> {
    match bucket.entries {
        Some(v) => v@,
        None => Seq::empty(),
    }
}

/// The items that the first `n` entries of a bucket give, in the order of
/// the listing, their shares unset.
pub open spec fn listed_items(
    da: DiskAnalyzer,
    cfg: AppDataConfig,
    bucket: BucketSnapshot,
    which: AppDataBucket,
    n: nat,
    windows: bool,
) -> Seq<FirstLevelItem>
    decreases n,
{
    if n == 0 || n > bucket_entries(bucket).len() {
        Seq::empty()
    } else {
        let before = listed_items(da, cfg, bucket, which, (n - 1) as nat, windows);
        let e = bucket_entries(bucket)[n - 1];
        match reported_size(entry_settings(da, e.entry), e.entry) {
            Some(size) => before.push(item_for(cfg, bucket, which, e, size, windows)),
            None => before,
        }
    }
}

/// The settings with which a first-level directory is sized.
pub open spec fn entry_settings(da: DiskAnalyzer, e: EntrySnapshot) -> ScanSettings {
    match e {
        EntrySnapshot::Directory { tree, .. } => da.settings_for(tree.path@),
        _ => da.generic_settings(),
    }
}

/// The sizes of the items, summed.
pub open spec fn sum_items(s: Seq<FirstLevelItem>) -> nat
    decreases s.len(),
{
    if s.len() == 0 {
        0
    } else {
        sum_items(s.drop_last()) + s.last().size as nat
    }
}

/// `i` with its share of a bucket of `total` bytes.
pub open spec fn with_bucket_share(i: FirstLevelItem, total: u64) -> FirstLevelItem {
    FirstLevelItem { size_percentage: Ratio { part: i.size, whole: total }, ..i }
}

/// The function that gives an item its share of a bucket of `total` bytes.
pub open spec fn sharing(total: u64) -> spec_fn(FirstLevelItem) -> FirstLevelItem {
    |i: FirstLevelItem| with_bucket_share(i, total)
}

/// Whether the order is largest first.
pub open spec fn descending(order: SortOrder) -> bool {
    order == SortOrder::Desc
}

/// The size of a bucket: the sizes of its items, summed.
pub open spec fn bucket_total(
    da: DiskAnalyzer,
    cfg: AppDataConfig,
    bucket: BucketSnapshot,
    which: AppDataBucket,
    windows: bool,
) -> u64 {
    saturated(
        sum_items(listed_items(da, cfg, bucket, which, bucket_entries(bucket).len(), windows)) as int,
    )
}

/// The items of a bucket, each with its share of the bucket, in the configured order.
pub open spec fn bucket_items(
    da: DiskAnalyzer,
    cfg: AppDataConfig,
    bucket: BucketSnapshot,
    which: AppDataBucket,
    windows: bool,
) -> Seq<FirstLevelItem> {
    stable_sort(
        listed_items(da, cfg, bucket, which, bucket_entries(bucket).len(), windows).map_values(
            sharing(bucket_total(da, cfg, bucket, which, windows)),
        ),
        item_size(),
        descending(cfg.sort_order),
    )
}

/// The items among the first `n` whose size reaches `threshold`, in order.
pub open spec fn large_among(items: Seq<FirstLevelItem>, n: nat, threshold: u64) -> Seq<FirstLevelItem>
    decreases n,
{
    if n == 0 || n > items.len() {
        Seq::empty()
    } else if items[n - 1].size >= threshold {
        large_among(items, (n - 1) as nat, threshold).push(items[n - 1])
    } else {
        large_among(items, (n - 1) as nat, threshold)
    }
}

/// The items of all three buckets, in the configured order.
pub open spec fn merged_items(
    da: DiskAnalyzer,
    cfg: AppDataConfig,
    snap: AppDataSnapshot,
    windows: bool,
) -> Seq<FirstLevelItem> {
    stable_sort(
        bucket_items(da, cfg, snap.local, AppDataBucket::Local, windows) + bucket_items(
            da,
            cfg,
            snap.local_low,
            AppDataBucket::LocalLow,
            windows,
        ) + bucket_items(da, cfg, snap.roaming, AppDataBucket::Roaming, windows),
        item_size(),
        descending(cfg.sort_order),
    )
}

/// The report of a scan of the three buckets.
pub open spec fn report_of(
    da: DiskAnalyzer,
    cfg: AppDataConfig,
    snap: AppDataSnapshot,
    windows: bool,
    scan_time_ms: u64,
) -> AppDataReport {
    let local = bucket_total(da, cfg, snap.local, AppDataBucket::Local, windows);
    let local_low = bucket_total(da, cfg, snap.local_low, AppDataBucket::LocalLow, windows);
    let roaming = bucket_total(da, cfg, snap.roaming, AppDataBucket::Roaming, windows);
    let merged = merged_items(da, cfg, snap, windows);
    AppDataReport {
        local_path: snap.local.path@,
        local_low_path: snap.local_low.path@,
        roaming_path: snap.roaming.path@,
        local_size: local,
        local_low_size: local_low,
        roaming_size: roaming,
        total_size: saturated(local + local_low + roaming),
        first_level_items: merged,
        large_items: large_among(merged, merged.len(), cfg.min_size_threshold),
        scan_time_ms,
    }
}

/// The report that a kept scan gives: its items and total, no bucket paths
/// or sizes, and no scan time.
pub open spec fn report_from_cache(cfg: AppDataConfig, cached: CachedScanResult) -> AppDataReport {
    AppDataReport {
        local_path: Seq::empty(),
        local_low_path: Seq::empty(),
        roaming_path: Seq::empty(),
        local_size: 0,
        local_low_size: 0,
        roaming_size: 0,
        total_size: cached.total_size,
        first_level_items: items_of(cached.items@),
        large_items: large_among(
            items_of(cached.items@),
            cached.items@.len(),
            cfg.min_size_threshold,
        ),
        scan_time_ms: 0,
    }
}

/// A kept scan may still be used at `now`.
pub open spec fn is_fresh(cached: CachedScanResult, now: u64) -> bool {
    cached.timestamp <= now && now - cached.timestamp < CACHE_SECONDS
}

/// The name of a bucket.
pub fn bucket_label(which: AppDataBucket) -> (s: String)
    ensures
        s@ == bucket_name(which),
{
    match which {
        AppDataBucket::Local => String::from_str("Local"),
        AppDataBucket::LocalLow => String::from_str("LocalLow"),
        AppDataBucket::Roaming => String::from_str("Roaming"),
    }
}

/// Puts the segment `name` behind `base`.
pub fn join_path(base: &str, name: &str, windows: bool) -> (s: String)
    ensures
        s@ == joined(base@, name@, windows),
{
    let mut out = chars_of(base);
    let tail = chars_of(name);
    let n = out.len();
    if !(n > 0 && (out[n - 1] == '/' || out[n - 1] == '\\')) {
        out.push(if windows {
            '\\'
        } else {
            '/'
        });
    }
    push_all(&mut out, &tail);
    string_of(&out)
}

/// Copies the items among `items` whose size reaches `threshold`.
pub fn select_large(items: &Vec<AppDataFirstLevelItem>, threshold: u64) -> (large: Vec<
    AppDataFirstLevelItem,
>)
    ensures
        items_of(large@) == large_among(items_of(items@), items@.len(), threshold),
{
    let mut large: Vec<AppDataFirstLevelItem> = Vec::new();
    let mut i: usize = 0;
    proof {
        assert(items_of(large@) =~= Seq::<FirstLevelItem>::empty());
    }
    while i < items.len()
        invariant
            i <= items@.len(),
            items_of(large@) == large_among(items_of(items@), i as nat, threshold),
        decreases items@.len() - i,
    {
        assert(items_of(items@)[i as int] == items@[i as int]@);
        if items[i].size >= threshold {
            let copy = items[i].duplicate();
            proof {
                assert(items_of(large@.push(copy)) =~= items_of(large@).push(copy@));
            }
            large.push(copy);
        }
        i += 1;
    }
    large
}

/// Copies a list of items.
pub fn duplicate_items(items: &Vec<AppDataFirstLevelItem>) -> (copy: Vec<AppDataFirstLevelItem>)
    ensures
        items_of(copy@) == items_of(items@),
{
    let mut copy: Vec<AppDataFirstLevelItem> = Vec::new();
    let mut i: usize = 0;
    while i < items.len()
        invariant
            i <= items@.len(),
            items_of(copy@) == items_of(items@).take(i as int),
        decreases items@.len() - i,
    {
        let c = items[i].duplicate();
        proof {
            assert(items_of(items@)[i as int] == items@[i as int]@);
            assert(items_of(items@).take(i + 1) =~= items_of(items@).take(i as int).push(c@));
            assert(items_of(copy@.push(c)) =~= items_of(copy@).push(c@));
        }
        copy.push(c);
        i += 1;
    }
    proof {
        assert(items_of(items@).take(items@.len() as int) =~= items_of(items@));
    }
    copy
}

/// Sorts items by size in the given order, stably.
pub fn sort_items(items: &mut Vec<AppDataFirstLevelItem>, order: SortOrder)
    ensures
        items_of(final(items)@) == stable_sort(items_of(old(items)@), item_size(), descending(order)),
{
    let desc = match order {
        SortOrder::Desc => true,
        SortOrder::Asc => false,
    };
    sort_by_key(items, desc);
    proof {
        assert forall|a: AppDataFirstLevelItem| #[trigger]
            key_of::<AppDataFirstLevelItem>()(a) == item_size()(to_item()(a)) by {}
        lemma_sort_commutes(
            old(items)@,
            to_item(),
            key_of::<AppDataFirstLevelItem>(),
            item_size(),
            desc,
        );
    }
}

/// The sizes of the items, summed, stopping at the largest value.
pub fn total_size_of(items: &Vec<AppDataFirstLevelItem>) -> (total: u64)
    ensures
        total == saturated(sum_items(items_of(items@)) as int),
{
    let mut total: u64 = 0;
    let mut i: usize = 0;
    while i < items.len()
        invariant
            i <= items@.len(),
            total == saturated(sum_items(items_of(items@).take(i as int)) as int),
        decreases items@.len() - i,
    {
        proof {
            let t = items_of(items@).take(i + 1);
            assert(t.drop_last() =~= items_of(items@).take(i as int));
            assert(t.last() == items@[i as int]@);
        }
        total = add_saturating(total, items[i].size);
        i += 1;
    }
    proof {
        assert(items_of(items@).take(items@.len() as int) =~= items_of(items@));
    }
    total
}

/// Sizes the entries directly inside one bucket. The items come in the
/// configured order, each with its share of the bucket; the second result
/// is the size of the bucket.
pub fn scan_first_level_items(
    da: &DiskAnalyzer,
    cfg: &AppDataConfig,
    bucket: &BucketSnapshot,
    which: AppDataBucket,
    windows: bool,
) -> (r: (Vec<AppDataFirstLevelItem>, u64))
    ensures
        items_of(r.0@) == bucket_items(*da, *cfg, *bucket, which, windows),
        r.1 == bucket_total(*da, *cfg, *bucket, which, windows),
{
    let mut items: Vec<AppDataFirstLevelItem> = Vec::new();
    proof {
        assert(items_of(items@) =~= Seq::<FirstLevelItem>::empty());
    }
    match &bucket.entries {
        None => {},
        Some(entries) => {
            let mut i: usize = 0;
            while i < entries.len()
                invariant
                    bucket.entries == Some(*entries),
                    i <= entries@.len(),
                    items_of(items@) == listed_items(*da, *cfg, *bucket, which, i as nat, windows),
                decreases entries@.len() - i,
            {
                let e = &entries[i];
                assert(bucket_entries(*bucket)[i as int] == *e);
                let size: Option<u64> = match &e.entry {
                    EntrySnapshot::Unreadable { .. } => None,
                    EntrySnapshot::File { size: length, .. } => match length {
                        Ok(bytes) => Some(*bytes),
                        Err(_) => None,
                    },
                    EntrySnapshot::Directory { tree, .. } => {
                        let settings = da.settings(tree.path.as_str());
                        match scan_tree(&settings, tree, 0) {
                            Ok(info) => Some(info.size),
                            Err(_) => Some(0),
                        }
                    },
                };
                if let Some(bytes) = size {
                    let kind = match &e.entry {
                        EntrySnapshot::Directory { .. } => String::from_str("directory"),
                        _ => String::from_str("file"),
                    };
                    let item = AppDataFirstLevelItem {
                        path: join_path(bucket.path.as_str(), e.name.as_str(), windows),
                        name: e.name.clone(),
                        size: bytes,
                        item_type: kind,
                        parent_type: bucket_label(which),
                        is_large: bytes >= cfg.min_size_threshold,
                        size_percentage: Ratio::zero(),
                    };
                    proof {
                        assert(items_of(items@.push(item)) =~= items_of(items@).push(item@));
                    }
                    items.push(item);
                }
                i += 1;
            }
        },
    }
    let ghost listed = items_of(items@);
    let total = total_size_of(&items);
    let mut k: usize = 0;
    while k < items.len()
        invariant
            k <= items@.len(),
            items@.len() == listed.len(),
            forall|j: int| 0 <= j < k ==> (#[trigger] items@[j])@ == with_bucket_share(listed[j], total),
            forall|j: int| k <= j < items@.len() ==> (#[trigger] items@[j])@ == listed[j],
        decreases items@.len() - k,
    {
        let share = Ratio::new(items[k].size, total);
        items[k].size_percentage = share;
        k += 1;
    }
    proof {
        assert(items_of(items@) =~= listed.map_values(sharing(total)));
    }
    sort_items(&mut items, cfg.sort_order);
    (items, total)
}

/// The bytes of the files in and below `snap` that could be read. Entries
/// and directories below the top that cannot be read count nothing; only a
/// top that cannot be listed is a failure.
pub open spec fn readable_size(snap: DirSnapshot) -> Result<u64, Seq<char>>
    decreases snap, entries_of(snap).len() + 1,
{
    match snap.listing {
        Listing::Denied(reason) => Err(read_failed_text(reason@)),
        Listing::Failed(reason) => Err(read_failed_text(reason@)),
        Listing::Entries(_) => Ok(readable_size_of(snap, entries_of(snap).len())),
    }
}

/// The bytes of the readable files in and below the first `n` entries of `snap`.
pub open spec fn readable_size_of(snap: DirSnapshot, n: nat) -> u64
    decreases snap, n,
{
    if n == 0 || n > entries_of(snap).len() {
        0
    } else {
        let sum = readable_size_of(snap, (n - 1) as nat);
        match entries_of(snap)[n - 1] {
            EntrySnapshot::File { size: Ok(bytes), .. } => saturated(sum + bytes),
            EntrySnapshot::Directory { tree, .. } => match readable_size(tree) {
                Ok(below) => saturated(sum + below),
                Err(_) => sum,
            },
            _ => sum,
        }
    }
}

/// The size and kind of a first-level entry: the length of a file, the
/// readable size of a directory, which is zero where it cannot be listed.
pub open spec fn item_info(e: EntrySnapshot) -> Result<(u64, Seq<char>), Seq<char>> {
    match e {
        EntrySnapshot::File { size: Ok(bytes), .. } => Ok((bytes, "file"@)),
        EntrySnapshot::File { size: Err(reason), .. } => Err("获取文件元数据失败: "@ + reason@),
        EntrySnapshot::Directory { tree, .. } => match readable_size(tree) {
            Ok(size) => Ok((size, "directory"@)),
            Err(_) => Ok((0, "directory"@)),
        },
        EntrySnapshot::Unreadable { .. } => Err("未知项目类型"@),
    }
}

/// What a scan gives at `now`: the kept scan while it is fresh, else the
/// failure to find the root, else the report of the buckets.
pub open spec fn scan_outcome(
    scanner: DiskAnalyzer,
    config: AppDataConfig,
    cache: Option<CachedScanResult>,
    root: Result<AppDataSnapshot, String>,
    now: u64,
    scan_time_ms: u64,
    windows: bool,
) -> Result<AppDataReport, Seq<char>> {
    if cache is Some && is_fresh(cache->Some_0, now) {
        Ok(report_from_cache(config, cache->Some_0))
    } else {
        match root {
            Err(e) => Err(e@),
            Ok(snap) => Ok(report_of(scanner, config, snap, windows, scan_time_ms)),
        }
    }
}

/// Every item is marked large exactly when its size reaches the threshold
/// of the configuration, and the items stand in its order.
pub open spec fn marked_and_ordered(items: Seq<FirstLevelItem>, cfg: AppDataConfig) -> bool {
    &&& forall|k: int| 0 <= k < items.len() ==> rightly_marked(#[trigger] items[k], cfg)
    &&& in_key_order(items, item_size(), descending(cfg.sort_order))
}

/// The scan that stays kept when the configuration `after` takes the
/// place of the configuration `before`: the kept scan where the two are
/// the same, else none.
pub open spec fn kept_under(
    before: AppDataConfig,
    cache: Option<CachedScanResult>,
    after: AppDataConfig,
) -> Option<CachedScanResult> {
    if after == before {
        cache
    } else {
        None
    }
}

/// The application-data root below a user profile.
pub open spec fn appdata_root(user_profile: Seq<char>, windows: bool) -> Seq<char> {
    joined(user_profile, "AppData"@, windows)
}

/// The scanner of the application-data root.
pub struct AppDataAnalyzer {
    disk_analyzer: DiskAnalyzer,
    config: AppDataConfig,
    scan_cache: Option<CachedScanResult>,
}

impl AppDataAnalyzer {
    /// The items of the kept scan are marked and ordered by the
    /// configuration in force.
    #[verifier::type_invariant]
    spec fn well_formed(self) -> bool {
        self.scan_cache matches Some(c) ==> marked_and_ordered(items_of(c.items@), self.config)
    }

    /// The directory scanner that sizes the directories inside the buckets.
    pub closed spec fn scanner(&self) -> DiskAnalyzer {
        self.disk_analyzer
    }

    /// The configuration in force.
    pub closed spec fn config_value(&self) -> AppDataConfig {
        self.config
    }

    /// The scan that is kept, if any.
    pub closed spec fn cache(&self) -> Option<CachedScanResult> {
        self.scan_cache
    }

    /// The kept scan may be used at `now`.
    pub open spec fn has_fresh_cache(&self, now: u64) -> bool {
        self.cache() matches Some(c) && is_fresh(c, now)
    }

    /// What a scan gives at `now`; see `scan_outcome`.
    pub open spec fn scan_result(
        &self,
        root: Result<AppDataSnapshot, String>,
        now: u64,
        scan_time_ms: u64,
        windows: bool,
    ) -> Result<AppDataReport, Seq<char>> {
        scan_outcome(
            self.scanner(),
            self.config_value(),
            self.cache(),
            root,
            now,
            scan_time_ms,
            windows,
        )
    }

    /// A scanner with the default configuration and nothing kept.
    pub fn new() -> (a: AppDataAnalyzer)
        ensures
            a.config_value() == (AppDataConfig {
                min_size_threshold: 0x4000_0000,
                max_depth: 2,
                sort_order: SortOrder::Desc,
            }),
            a.scanner().depth_limit() == 2,
            a.scanner().threshold() == 0x4000_0000,
            !a.scanner().system_mode(),
            !a.scanner().cancelled(),
            a.cache() is None,
    {
        let mut disk_analyzer = DiskAnalyzer::new();
        disk_analyzer.set_max_depth(2);
        AppDataAnalyzer {
            disk_analyzer,
            config: AppDataConfig {
                min_size_threshold: 0x4000_0000,
                max_depth: 2,
                sort_order: SortOrder::Desc,
            },
            scan_cache: None,
        }
    }

    /// Puts a configuration in force: the directory scanner takes over its
    /// depth and its threshold. Where the configuration changes, the kept
    /// scan is dropped: its items were sized, marked and ordered under the
    /// configuration before.
    pub fn set_config(&mut self, config: AppDataConfig)
        ensures
            final(self).config_value() == config,
            final(self).scanner().depth_limit() == config.max_depth,
            final(self).scanner().threshold() == config.min_size_threshold,
            final(self).scanner().system_mode() == old(self).scanner().system_mode(),
            final(self).scanner().cancelled() == old(self).scanner().cancelled(),
            final(self).cache() == kept_under(old(self).config_value(), old(self).cache(), config),
    {
        proof {
            use_type_invariant(&*self);
        }
        let mut scanner = DiskAnalyzer::new();
        std::mem::swap(&mut scanner, &mut self.disk_analyzer);
        scanner.set_max_depth(config.max_depth);
        scanner.set_large_folder_threshold(config.min_size_threshold);
        self.disk_analyzer = scanner;
        if config != self.config {
            self.scan_cache = None;
        }
        self.config = config;
    }

    /// The application-data root of the user. `user_profile` is the profile
    /// directory from the environment, or the text of the failure to read
    /// it; `exists` tells whether the root below it was found.
    pub fn get_appdata_path(user_profile: &Result<String, String>, exists: bool, windows: bool) -> (r:
        Result<String, String>)
        ensures
            match *user_profile {
                Err(e) => r matches Err(text) && text@ == "无法获取用户目录: "@ + e@,
                Ok(profile) => if exists {
                    r matches Ok(path) && path@ == appdata_root(profile@, windows)
                } else {
                    r matches Err(text) && text@ == "AppData目录不存在: "@ + appdata_root(
                        profile@,
                        windows,
                    )
                },
            },
    {
        match user_profile {
            Err(e) => Err(String::from_str("无法获取用户目录: ").concat(e.as_str())),
            Ok(profile) => {
                let path = join_path(profile.as_str(), "AppData", windows);
                if exists {
                    Ok(path)
                } else {
                    Err(String::from_str("AppData目录不存在: ").concat(path.as_str()))
                }
            },
        }
    }

    /// The report of the kept scan, while it is fresh.
    pub fn cached_report(&self, now: u64) -> (r: Option<AppDataInfo>)
        ensures
            match r {
                Some(info) => self.has_fresh_cache(now) && info@ == report_from_cache(
                    self.config_value(),
                    self.cache()->Some_0,
                ) && marked_and_ordered(info@.first_level_items, self.config_value()),
                None => !self.has_fresh_cache(now),
            },
    {
        proof {
            use_type_invariant(self);
        }
        match &self.scan_cache {
            None => None,
            Some(cached) => {
                if cached.timestamp <= now && now - cached.timestamp < CACHE_SECONDS {
                    Some(
                        AppDataInfo {
                            local_path: String::new(),
                            local_low_path: String::new(),
                            roaming_path: String::new(),
                            local_size: 0,
                            local_low_size: 0,
                            roaming_size: 0,
                            total_size: cached.total_size,
                            first_level_items: duplicate_items(&cached.items),
                            large_items: select_large(&cached.items, self.config.min_size_threshold),
                            scan_time_ms: 0,
                        },
                    )
                } else {
                    None
                }
            },
        }
    }

    /// Reports on the application-data root.
    ///
    /// While the kept scan is fresh it is reported and nothing changes.
    /// Else `root` decides: the failure to find the root is handed on, and
    /// the buckets are sized, reported and kept for later calls.
    pub fn scan_appdata(
        &mut self,
        root: &Result<AppDataSnapshot, String>,
        now: u64,
        scan_time_ms: u64,
        windows: bool,
    ) -> (r: Result<AppDataInfo, String>)
        ensures
            match (r, old(self).scan_result(*root, now, scan_time_ms, windows)) {
                (Ok(info), Ok(report)) => info@ == report,
                (Err(e), Err(text)) => e@ == text,
                _ => false,
            },
            final(self).config_value() == old(self).config_value(),
            final(self).scanner() == old(self).scanner(),
            old(self).has_fresh_cache(now) || *root is Err ==> final(self).cache() == old(self).cache(),
            !old(self).has_fresh_cache(now) && *root is Ok ==> (final(self).cache() matches Some(kept)
                && items_of(kept.items@) == r->Ok_0@.first_level_items && kept.total_size
                == r->Ok_0.total_size && kept.timestamp == now),
            r matches Ok(info) ==> marked_and_ordered(info@.first_level_items, old(self).config_value()),
    {
        proof {
            use_type_invariant(&*self);
        }
        if let Some(info) = self.cached_report(now) {
            return Ok(info);
        }
        match root {
            Err(e) => Err(e.clone()),
            Ok(snap) => {
                let (local_items, local_size) = scan_first_level_items(
                    &self.disk_analyzer,
                    &self.config,
                    &snap.local,
                    AppDataBucket::Local,
                    windows,
                );
                let (low_items, local_low_size) = scan_first_level_items(
                    &self.disk_analyzer,
                    &self.config,
                    &snap.local_low,
                    AppDataBucket::LocalLow,
                    windows,
                );
                let (roaming_items, roaming_size) = scan_first_level_items(
                    &self.disk_analyzer,
                    &self.config,
                    &snap.roaming,
                    AppDataBucket::Roaming,
                    windows,
                );
                let mut all = local_items;
                let mut low = low_items;
                let mut roam = roaming_items;
                let ghost a = items_of(all@);
                let ghost b = items_of(low@);
                let ghost c = items_of(roam@);
                all.append(&mut low);
                all.append(&mut roam);
                proof {
                    assert(items_of(all@) =~= a + b + c);
                }
                sort_items(&mut all, self.config.sort_order);
                let total = add_saturating(add_saturating(local_size, local_low_size), roaming_size);
                let large = select_large(&all, self.config.min_size_threshold);
                let kept = duplicate_items(&all);
                proof {
                    lemma_report_marked_and_ordered(
                        self.disk_analyzer,
                        self.config,
                        *snap,
                        windows,
                        scan_time_ms,
                    );
                    assert(items_of(kept@) == merged_items(self.disk_analyzer, self.config, *snap, windows));
                }
                self.scan_cache = Some(CachedScanResult { items: kept, total_size: total, timestamp: now });
                Ok(
                    AppDataInfo {
                        local_path: snap.local.path.clone(),
                        local_low_path: snap.local_low.path.clone(),
                        roaming_path: snap.roaming.path.clone(),
                        local_size,
                        local_low_size,
                        roaming_size,
                        total_size: total,
                        first_level_items: all,
                        large_items: large,
                        scan_time_ms,
                    },
                )
            },
        }
    }

    /// The size and kind of a first-level entry; see `item_info`.
    pub fn get_item_info_sync(entry: &EntrySnapshot) -> (r: Result<(u64, String), String>)
        ensures
            match (r, item_info(*entry)) {
                (Ok(found), Ok(expected)) => found.0 == expected.0 && found.1@ == expected.1,
                (Err(e), Err(text)) => e@ == text,
                _ => false,
            },
    {
        match entry {
            EntrySnapshot::File { size: length, .. } => match length {
                Ok(bytes) => Ok((*bytes, String::from_str("file"))),
                Err(reason) => Err(String::from_str("获取文件元数据失败: ").concat(reason.as_str())),
            },
            EntrySnapshot::Directory { tree, .. } => match Self::get_directory_size_sync(tree) {
                Ok(size) => Ok((size, String::from_str("directory"))),
                Err(_) => Ok((0, String::from_str("directory"))),
            },
            EntrySnapshot::Unreadable { .. } => Err(String::from_str("未知项目类型")),
        }
    }

    /// The bytes of the readable files in and below a directory; see `readable_size`.
    pub fn get_directory_size_sync(snap: &DirSnapshot) -> (r: Result<u64, String>)
        ensures
            match (r, readable_size(*snap)) {
                (Ok(found), Ok(expected)) => found == expected,
                (Err(e), Err(text)) => e@ == text,
                _ => false,
            },
        decreases snap,
    {
        match &snap.listing {
            Listing::Denied(reason) => Err(read_failed_message(reason)),
            Listing::Failed(reason) => Err(read_failed_message(reason)),
            Listing::Entries(es) => {
                let mut sum: u64 = 0;
                let mut i: usize = 0;
                while i < es.len()
                    invariant
                        snap.listing == Listing::Entries(*es),
                        i <= es@.len(),
                        sum == readable_size_of(*snap, i as nat),
                    decreases es@.len() - i,
                {
                    assert(entries_of(*snap)[i as int] == es@[i as int]);
                    match &es[i] {
                        EntrySnapshot::File { size: length, .. } => {
                            if let Ok(bytes) = length {
                                sum = add_saturating(sum, *bytes);
                            }
                        },
                        EntrySnapshot::Directory { tree, .. } => {
                            if let Ok(below) = Self::get_directory_size_sync(tree) {
                                sum = add_saturating(sum, below);
                            }
                        },
                        EntrySnapshot::Unreadable { .. } => {},
                    }
                    i += 1;
                }
                Ok(sum)
            },
        }
    }

    /// Writes a size with the units from bytes to tebibytes: whole bytes
    /// below one kibibyte, two decimals above.
    pub fn format_size(size: u64) -> (s: String)
        ensures
            s@ == size_text(size as nat, 4, true),
    {
        format_size_in(size, 4, true)
    }
}

/// The path of a bucket in what the caller saw.
pub open spec fn bucket_path(snap: AppDataSnapshot, which: AppDataBucket) -> Seq<char> {
    match which {
        AppDataBucket::Local => snap.local.path@,
        AppDataBucket::LocalLow => snap.local_low.path@,
        AppDataBucket::Roaming => snap.roaming.path@,
    }
}

/// The item carries the name of the bucket `which` and lies below `path`.
pub open spec fn belongs_to(item: FirstLevelItem, which: AppDataBucket, path: Seq<char>) -> bool {
    item.parent_type == bucket_name(which) && starts_with(item.path, path)
}

/// The item is marked large exactly when its size reaches the threshold.
pub open spec fn rightly_marked(item: FirstLevelItem, cfg: AppDataConfig) -> bool {
    item.is_large == (item.size >= cfg.min_size_threshold)
}

/// A joined path begins with its base.
pub proof fn lemma_joined_begins(base: Seq<char>, name: Seq<char>, windows: bool)
    ensures
        starts_with(joined(base, name, windows), base),
{
    assert(joined(base, name, windows).subrange(0, base.len() as int) =~= base);
}

/// Every item listed from a bucket belongs to that bucket.
pub proof fn lemma_listed_belong(
    da: DiskAnalyzer,
    cfg: AppDataConfig,
    bucket: BucketSnapshot,
    which: AppDataBucket,
    n: nat,
    windows: bool,
)
    ensures
        forall|k: int|
            0 <= k < listed_items(da, cfg, bucket, which, n, windows).len() ==> belongs_to(
                #[trigger] listed_items(da, cfg, bucket, which, n, windows)[k],
                which,
                bucket.path@,
            ) && rightly_marked(listed_items(da, cfg, bucket, which, n, windows)[k], cfg),
    decreases n,
{
    if n == 0 || n > bucket_entries(bucket).len() {
    } else {
        lemma_listed_belong(da, cfg, bucket, which, (n - 1) as nat, windows);
        lemma_joined_begins(bucket.path@, bucket_entries(bucket)[n - 1].name@, windows);
        let before = listed_items(da, cfg, bucket, which, (n - 1) as nat, windows);
        let now = listed_items(da, cfg, bucket, which, n, windows);
        assert forall|k: int| 0 <= k < now.len() implies belongs_to(
            #[trigger] now[k],
            which,
            bucket.path@,
        ) && rightly_marked(now[k], cfg) by {
            if k < before.len() {
                assert(now[k] == before[k]);
            }
        }
    }
}

/// Every item reported for a bucket belongs to that bucket.
pub proof fn lemma_bucket_items_belong(
    da: DiskAnalyzer,
    cfg: AppDataConfig,
    bucket: BucketSnapshot,
    which: AppDataBucket,
    windows: bool,
)
    ensures
        forall|k: int|
            0 <= k < bucket_items(da, cfg, bucket, which, windows).len() ==> belongs_to(
                #[trigger] bucket_items(da, cfg, bucket, which, windows)[k],
                which,
                bucket.path@,
            ) && rightly_marked(bucket_items(da, cfg, bucket, which, windows)[k], cfg),
{
    let listed = listed_items(da, cfg, bucket, which, bucket_entries(bucket).len(), windows);
    let total = bucket_total(da, cfg, bucket, which, windows);
    let shared = listed.map_values(sharing(total));
    lemma_listed_belong(da, cfg, bucket, which, bucket_entries(bucket).len(), windows);
    lemma_sort_members(shared, item_size(), descending(cfg.sort_order));
    let sorted = bucket_items(da, cfg, bucket, which, windows);
    assert forall|k: int| 0 <= k < sorted.len() implies belongs_to(
        #[trigger] sorted[k],
        which,
        bucket.path@,
    ) && rightly_marked(sorted[k], cfg) by {
        assert(shared.contains(sorted[k]));
        let j = choose|j: int| 0 <= j < shared.len() && shared[j] == sorted[k];
        assert(shared[j] == with_bucket_share(listed[j], total));
        assert(belongs_to(listed[j], which, bucket.path@));
        assert(rightly_marked(listed[j], cfg));
    }
}

/// **Bucket partition.** Every item of a report carries the name of exactly
/// one of the three buckets, and its path begins with the path of that
/// bucket. It is marked large exactly when its size reaches the threshold.
pub proof fn lemma_bucket_partition(
    da: DiskAnalyzer,
    cfg: AppDataConfig,
    snap: AppDataSnapshot,
    windows: bool,
    scan_time_ms: u64,
    i: int,
)
    requires
        0 <= i < report_of(da, cfg, snap, windows, scan_time_ms).first_level_items.len(),
    ensures
        exists|which: AppDataBucket| #[trigger]
            belongs_to(
                report_of(da, cfg, snap, windows, scan_time_ms).first_level_items[i],
                which,
                bucket_path(snap, which),
            ),
        forall|a: AppDataBucket, b: AppDataBucket|
            report_of(da, cfg, snap, windows, scan_time_ms).first_level_items[i].parent_type
                == #[trigger] bucket_name(a) && report_of(
                da,
                cfg,
                snap,
                windows,
                scan_time_ms,
            ).first_level_items[i].parent_type == #[trigger] bucket_name(b) ==> a == b,
        rightly_marked(report_of(da, cfg, snap, windows, scan_time_ms).first_level_items[i], cfg),
{
    let local = bucket_items(da, cfg, snap.local, AppDataBucket::Local, windows);
    let low = bucket_items(da, cfg, snap.local_low, AppDataBucket::LocalLow, windows);
    let roaming = bucket_items(da, cfg, snap.roaming, AppDataBucket::Roaming, windows);
    let all = local + low + roaming;
    let merged = merged_items(da, cfg, snap, windows);
    let item = merged[i];
    lemma_sort_members(all, item_size(), descending(cfg.sort_order));
    assert(all.contains(item));
    let j = choose|j: int| 0 <= j < all.len() && all[j] == item;
    lemma_bucket_items_belong(da, cfg, snap.local, AppDataBucket::Local, windows);
    lemma_bucket_items_belong(da, cfg, snap.local_low, AppDataBucket::LocalLow, windows);
    lemma_bucket_items_belong(da, cfg, snap.roaming, AppDataBucket::Roaming, windows);
    if j < local.len() {
        assert(all[j] == local[j]);
        assert(belongs_to(item, AppDataBucket::Local, bucket_path(snap, AppDataBucket::Local)));
    } else if j < local.len() + low.len() {
        assert(all[j] == low[j - local.len()]);
        assert(belongs_to(item, AppDataBucket::LocalLow, bucket_path(snap, AppDataBucket::LocalLow)));
    } else {
        assert(all[j] == roaming[j - local.len() - low.len()]);
        assert(belongs_to(item, AppDataBucket::Roaming, bucket_path(snap, AppDataBucket::Roaming)));
    }
    assert forall|a: AppDataBucket, b: AppDataBucket|
        item.parent_type == #[trigger] bucket_name(a) && item.parent_type == #[trigger] bucket_name(
            b,
        ) implies a == b by {
        lemma_bucket_names_differ(a, b);
    }
}

/// **Marks and order.** In every report of a scan each item is marked
/// large exactly when its size reaches the threshold of the configuration,
/// and the items stand in the order of the configuration.
pub proof fn lemma_report_marked_and_ordered(
    da: DiskAnalyzer,
    cfg: AppDataConfig,
    snap: AppDataSnapshot,
    windows: bool,
    scan_time_ms: u64,
)
    ensures
        marked_and_ordered(report_of(da, cfg, snap, windows, scan_time_ms).first_level_items, cfg),
{
    let items = report_of(da, cfg, snap, windows, scan_time_ms).first_level_items;
    assert forall|k: int| 0 <= k < items.len() implies rightly_marked(#[trigger] items[k], cfg) by {
        lemma_bucket_partition(da, cfg, snap, windows, scan_time_ms, k);
    }
    lemma_stable_sort(
        bucket_items(da, cfg, snap.local, AppDataBucket::Local, windows) + bucket_items(
            da,
            cfg,
            snap.local_low,
            AppDataBucket::LocalLow,
            windows,
        ) + bucket_items(da, cfg, snap.roaming, AppDataBucket::Roaming, windows),
        item_size(),
        descending(cfg.sort_order),
    );
}

/// **Large items.** An item is marked large exactly when its size reaches
/// the threshold, and the list of large items holds exactly the marked ones.
pub proof fn lemma_large_items(items: Seq<FirstLevelItem>, n: nat, threshold: u64)
    requires
        n <= items.len(),
    ensures
        forall|k: int|
            0 <= k < large_among(items, n, threshold).len() ==> (#[trigger] large_among(
                items,
                n,
                threshold,
            )[k]).size >= threshold && items.contains(large_among(items, n, threshold)[k]),
        forall|j: int|
            0 <= j < n && items[j].size >= threshold ==> large_among(items, n, threshold).contains(
                #[trigger] items[j],
            ),
    decreases n,
{
    if n > 0 {
        lemma_large_items(items, (n - 1) as nat, threshold);
        let before = large_among(items, (n - 1) as nat, threshold);
        let now = large_among(items, n, threshold);
        if items[n - 1].size >= threshold {
            assert(now[now.len() - 1] == items[n - 1]);
            assert forall|j: int| 0 <= j < n && items[j].size >= threshold implies now.contains(
                #[trigger] items[j],
            ) by {
                if j < n - 1 {
                    let k = choose|k: int| 0 <= k < before.len() && before[k] == items[j];
                    assert(now[k] == items[j]);
                }
            }
        }
    }
}

/// What a streaming scan tells while it runs.
#[derive(Debug, Clone)]
pub enum ScanEvent {
    /// An item was sized.
    ItemFound(AppDataFirstLevelItem),
    /// A bucket is done: its name, its bytes and the number of its items.
    BucketDone { bucket: String, bytes: u64, count: usize },
    /// The scan is done: the bytes and the number of items of all buckets.
    ScanComplete { total_size: u64, total_items: usize },
    /// The scan failed.
    ScanError(String),
}

/// What a streaming scan tells, as a mathematical value.
pub enum StreamEvent {
    ItemFound(FirstLevelItem),
    BucketDone { bucket: Seq<char>, bytes: u64, count: nat },
    ScanComplete { total_size: u64, total_items: nat },
    ScanError(Seq<char>),
}

impl View for ScanEvent {
    type V = StreamEvent;

    open spec fn view(&self) -> StreamEvent {
        match *self {
            ScanEvent::ItemFound(i) => StreamEvent::ItemFound(i@),
            ScanEvent::BucketDone { bucket, bytes, count } => StreamEvent::BucketDone {
                bucket: bucket@,
                bytes,
                count: count as nat,
            },
            ScanEvent::ScanComplete { total_size, total_items } => StreamEvent::ScanComplete {
                total_size,
                total_items: total_items as nat,
            },
            ScanEvent::ScanError(m) => StreamEvent::ScanError(m@),
        }
    }
}

/// The mathematical values of a list of events.
pub open spec fn events_of(v: Seq<ScanEvent>) -> Seq<StreamEvent> {
    v.map_values(|e: ScanEvent| e@)
}

/// The least number of milliseconds between two events.
pub const EVENT_INTERVAL_MS: u64 = 10;

/// The events of one bucket: one for each of its items, in their order, and one for the bucket.
pub open spec fn bucket_events(
    da: DiskAnalyzer,
    cfg: AppDataConfig,
    bucket: BucketSnapshot,
    which: AppDataBucket,
    windows: bool,
) -> Seq<StreamEvent> {
    bucket_items(da, cfg, bucket, which, windows).map_values(|i: FirstLevelItem| StreamEvent::ItemFound(i)).push(
        StreamEvent::BucketDone {
            bucket: bucket_name(which),
            bytes: bucket_total(da, cfg, bucket, which, windows),
            count: bucket_items(da, cfg, bucket, which, windows).len(),
        },
    )
}

/// The events of a streaming scan: those of the three buckets in turn,
/// and one for the whole with the bytes and the number of all items, as far
/// as it can be counted; or the one event of the failure to find the root.
pub open spec fn stream_of(
    da: DiskAnalyzer,
    cfg: AppDataConfig,
    root: Result<AppDataSnapshot, String>,
    windows: bool,
) -> Seq<StreamEvent> {
    match root {
        Err(e) => seq![StreamEvent::ScanError(e@)],
        Ok(snap) => {
            let report = report_of(da, cfg, snap, windows, 0);
            let count = bucket_items(da, cfg, snap.local, AppDataBucket::Local, windows).len()
                + bucket_items(da, cfg, snap.local_low, AppDataBucket::LocalLow, windows).len()
                + bucket_items(da, cfg, snap.roaming, AppDataBucket::Roaming, windows).len();
            (bucket_events(da, cfg, snap.local, AppDataBucket::Local, windows) + bucket_events(
                da,
                cfg,
                snap.local_low,
                AppDataBucket::LocalLow,
                windows,
            ) + bucket_events(da, cfg, snap.roaming, AppDataBucket::Roaming, windows)).push(
                StreamEvent::ScanComplete {
                    total_size: report.total_size,
                    total_items: if count > usize::MAX {
                        usize::MAX as nat
                    } else {
                        count
                    },
                },
            )
        },
    }
}

fn push_bucket_events(
    da: &DiskAnalyzer,
    cfg: &AppDataConfig,
    bucket: &BucketSnapshot,
    which: AppDataBucket,
    windows: bool,
    events: &mut Vec<ScanEvent>,
) -> (r: (u64, usize))
    ensures
        events_of(final(events)@) == events_of(old(events)@) + bucket_events(
            *da,
            *cfg,
            *bucket,
            which,
            windows,
        ),
        r.0 == bucket_total(*da, *cfg, *bucket, which, windows),
        r.1 == bucket_items(*da, *cfg, *bucket, which, windows).len(),
{
    let (items, total) = scan_first_level_items(da, cfg, bucket, which, windows);
    let ghost before = events_of(events@);
    let ghost listed = items_of(items@);
    let mut i: usize = 0;
    while i < items.len()
        invariant
            i <= items@.len(),
            items_of(items@) == listed,
            events_of(events@) == before + listed.take(i as int).map_values(
                |i: FirstLevelItem| StreamEvent::ItemFound(i),
            ),
        decreases items@.len() - i,
    {
        let e = ScanEvent::ItemFound(items[i].duplicate());
        proof {
            assert(listed[i as int] == items@[i as int]@);
            assert(events_of(events@.push(e)) =~= events_of(events@).push(e@));
            assert(before + listed.take(i + 1).map_values(
                |i: FirstLevelItem| StreamEvent::ItemFound(i),
            ) =~= (before + listed.take(i as int).map_values(
                |i: FirstLevelItem| StreamEvent::ItemFound(i),
            )).push(e@));
        }
        events.push(e);
        i += 1;
    }
    let done = ScanEvent::BucketDone { bucket: bucket_label(which), bytes: total, count: items.len() };
    proof {
        assert(listed.take(items@.len() as int) =~= listed);
        assert(events_of(events@.push(done)) =~= events_of(events@).push(done@));
        assert((before + listed.map_values(|i: FirstLevelItem| StreamEvent::ItemFound(i))).push(done@)
            =~= before + bucket_events(*da, *cfg, *bucket, which, windows));
    }
    events.push(done);
    (total, items.len())
}

impl AppDataAnalyzer {
    /// The events of a streaming scan, in the order in which they are
    /// told; see `stream_of`. The caller tells them no faster than one
    /// every `EVENT_INTERVAL_MS` milliseconds.
    pub fn scan_appdata_streaming(&self, root: &Result<AppDataSnapshot, String>, windows: bool) -> (events:
        Vec<ScanEvent>)
        ensures
            events_of(events@) == stream_of(self.scanner(), self.config_value(), *root, windows),
    {
        let mut events: Vec<ScanEvent> = Vec::new();
        proof {
            assert(events_of(events@) =~= Seq::<StreamEvent>::empty());
        }
        match root {
            Err(e) => {
                let failed = ScanEvent::ScanError(e.clone());
                proof {
                    assert(events_of(events@.push(failed)) =~= seq![failed@]);
                }
                events.push(failed);
            },
            Ok(snap) => {
                let (a, na) = push_bucket_events(
                    &self.disk_analyzer,
                    &self.config,
                    &snap.local,
                    AppDataBucket::Local,
                    windows,
                    &mut events,
                );
                let (b, nb) = push_bucket_events(
                    &self.disk_analyzer,
                    &self.config,
                    &snap.local_low,
                    AppDataBucket::LocalLow,
                    windows,
                    &mut events,
                );
                let (c, nc) = push_bucket_events(
                    &self.disk_analyzer,
                    &self.config,
                    &snap.roaming,
                    AppDataBucket::Roaming,
                    windows,
                    &mut events,
                );
                let total = add_saturating(add_saturating(a, b), c);
                let ab = if na > usize::MAX - nb {
                    usize::MAX
                } else {
                    na + nb
                };
                let count = if ab > usize::MAX - nc {
                    usize::MAX
                } else {
                    ab + nc
                };
                let done = ScanEvent::ScanComplete { total_size: total, total_items: count };
                proof {
                    assert(events_of(events@.push(done)) =~= events_of(events@).push(done@));
                    assert(Seq::<StreamEvent>::empty() + bucket_events(
                        self.scanner(),
                        self.config_value(),
                        snap.local,
                        AppDataBucket::Local,
                        windows,
                    ) =~= bucket_events(
                        self.scanner(),
                        self.config_value(),
                        snap.local,
                        AppDataBucket::Local,
                        windows,
                    ));
                }
                events.push(done);
            },
        }
        events
    }
}

} // verus!
