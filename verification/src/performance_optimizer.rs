//! Keeping a long scan or migration within its means: a count of the
//! memory in use, queues of work handed out in batches, and the list of
//! the operations under way.

use crate::directory_cache::{position_of, promoted, DirectoryCache};
use crate::ratio::Ratio;
use crate::text::same_text;
use std::collections::VecDeque;
use vstd::prelude::*;

verus! {

/// The knobs of the optimizer.
#[derive(Debug, Clone, Copy, PartialEq, Eq, Structural)]
pub struct PerformanceConfig {
    pub max_memory_usage_mb: usize,
    pub cache_size: usize,
    pub max_concurrent_operations: usize,
    pub batch_size: usize,
    pub cleanup_interval_seconds: u64,
    pub enable_memory_monitoring: bool,
    pub enable_caching: bool,
    pub enable_batch_processing: bool,
}

impl Default for PerformanceConfig {
    /// 500 MiB of memory, a cache of a thousand directories, five
    /// operations at a time, batches of a hundred, a cleanup every five
    /// minutes, everything switched on.
    fn default() -> (c: PerformanceConfig)
        ensures
            c == (PerformanceConfig {
                max_memory_usage_mb: 500,
                cache_size: 1000,
                max_concurrent_operations: 5,
                batch_size: 100,
                cleanup_interval_seconds: 300,
                enable_memory_monitoring: true,
                enable_caching: true,
                enable_batch_processing: true,
            }),
    {
        PerformanceConfig {
            max_memory_usage_mb: 500,
            cache_size: 1000,
            max_concurrent_operations: 5,
            batch_size: 100,
            cleanup_interval_seconds: 300,
            enable_memory_monitoring: true,
            enable_caching: true,
            enable_batch_processing: true,
        }
    }
}

/// The bytes of one mebibyte.
pub const MIB: usize = 0x10_0000;

/// A count of bytes as far as the machine word holds it.
pub open spec fn word(n: int) -> usize {
    if n > usize::MAX {
        usize::MAX
    } else if n < 0 {
        0
    } else {
        n as usize
    }
}

fn word_sum(a: usize, b: usize) -> (r: usize)
    ensures
        r == word(a + b),
{
    if a > usize::MAX - b {
        usize::MAX
    } else {
        a + b
    }
}

fn word_product(a: usize, b: usize) -> (r: usize)
    ensures
        r == word(a * b),
{
    if b != 0 && a > usize::MAX / b {
        proof {
            assert(a * b > usize::MAX) by (nonlinear_arith)
                requires
                    b > 0,
                    a > usize::MAX / b,
            ;
        }
        usize::MAX
    } else {
        proof {
            if b != 0 {
                assert(a * b <= usize::MAX) by (nonlinear_arith)
                    requires
                        b > 0,
                        a <= usize::MAX / b,
                ;
            } else {
                assert(a * b == 0) by (nonlinear_arith)
                    requires
                        b == 0,
                ;
            }
        }
        a * b
    }
}

/// The count of the memory in use, with its peak and the thresholds of warning.
pub struct MemoryMonitor {
    current_usage: usize,
    peak_usage: usize,
    warning_threshold: usize,
    critical_threshold: usize,
}

impl MemoryMonitor {
    #[verifier::type_invariant]
    spec fn well_formed(self) -> bool {
        self.current_usage <= self.peak_usage
    }

    /// The bytes in use.
    pub closed spec fn current(&self) -> usize {
        self.current_usage
    }

    /// The most bytes that were ever in use.
    pub closed spec fn peak(&self) -> usize {
        self.peak_usage
    }

    /// The bytes above which a cleanup is due.
    pub closed spec fn warning(&self) -> usize {
        self.warning_threshold
    }

    /// The bytes above which use is critical.
    pub closed spec fn critical(&self) -> usize {
        self.critical_threshold
    }

    /// A monitor with nothing in use and the thresholds given in mebibytes.
    pub fn new(warning_mb: usize, critical_mb: usize) -> (m: MemoryMonitor)
        ensures
            m.current() == 0,
            m.peak() == 0,
            m.warning() == word(warning_mb * MIB),
            m.critical() == word(critical_mb * MIB),
    {
        MemoryMonitor {
            current_usage: 0,
            peak_usage: 0,
            warning_threshold: word_product(warning_mb, MIB),
            critical_threshold: word_product(critical_mb, MIB),
        }
    }

    /// Counts `bytes` more in use. The peak follows where it is passed.
    pub fn record_usage(&mut self, bytes: usize)
        ensures
            final(self).current() == word(old(self).current() + bytes),
            final(self).peak() == (if final(self).current() > old(self).peak() {
                final(self).current()
            } else {
                old(self).peak()
            }),
            final(self).peak() >= final(self).current(),
            final(self).warning() == old(self).warning(),
            final(self).critical() == old(self).critical(),
    {
        proof {
            use_type_invariant(&*self);
        }
        let current = word_sum(self.current_usage, bytes);
        let peak = if current > self.peak_usage {
            current
        } else {
            self.peak_usage
        };
        *self = MemoryMonitor {
            current_usage: current,
            peak_usage: peak,
            warning_threshold: self.warning_threshold,
            critical_threshold: self.critical_threshold,
        };
    }

    /// Counts `bytes` less in use, down to nothing. The peak stays.
    pub fn release_usage(&mut self, bytes: usize)
        ensures
            final(self).current() == (if bytes > old(self).current() {
                0
            } else {
                (old(self).current() - bytes) as usize
            }),
            final(self).peak() == old(self).peak(),
            final(self).warning() == old(self).warning(),
            final(self).critical() == old(self).critical(),
    {
        proof {
            use_type_invariant(&*self);
        }
        let current = if bytes > self.current_usage {
            0
        } else {
            self.current_usage - bytes
        };
        *self = MemoryMonitor {
            current_usage: current,
            peak_usage: self.peak_usage,
            warning_threshold: self.warning_threshold,
            critical_threshold: self.critical_threshold,
        };
    }

    /// The bytes in use.
    pub fn get_current_usage(&self) -> (n: usize)
        ensures
            n == self.current(),
            n <= self.peak(),
    {
        proof {
            use_type_invariant(self);
        }
        self.current_usage
    }

    /// The most bytes that were ever in use.
    pub fn get_peak_usage(&self) -> (n: usize)
        ensures
            n == self.peak(),
            n >= self.current(),
    {
        proof {
            use_type_invariant(self);
        }
        self.peak_usage
    }

    /// Whether more is in use than the threshold of warning allows.
    pub fn should_cleanup(&self) -> (r: bool)
        ensures
            r == (self.current() > self.warning()),
    {
        self.current_usage > self.warning_threshold
    }

    /// Whether more is in use than the critical threshold allows.
    pub fn is_critical(&self) -> (r: bool)
        ensures
            r == (self.current() > self.critical()),
    {
        self.current_usage > self.critical_threshold
    }
}

/// One piece of work in a queue.
#[derive(Debug, Clone)]
pub struct BatchItem {
    pub operation_type: String,
    pub source_path: String,
    pub target_path: Option<String>,
    pub priority: u32,
}

/// A queue of work that is handed out in batches, first come first served.
pub struct BatchProcessor {
    config: PerformanceConfig,
    pending_items: VecDeque<BatchItem>,
}

impl BatchProcessor {
    /// The items that wait, first in front.
    pub closed spec fn pending(&self) -> Seq<BatchItem> {
        self.pending_items@
    }

    /// The size of a batch.
    pub closed spec fn batch_size(&self) -> usize {
        self.config.batch_size
    }

    /// An empty queue.
    pub fn new(config: PerformanceConfig) -> (p: BatchProcessor)
        ensures
            p.pending().len() == 0,
            p.batch_size() == config.batch_size,
    {
        BatchProcessor { config, pending_items: VecDeque::new() }
    }

    /// Puts an item at the end of the queue.
    pub fn add_item(&mut self, item: BatchItem) -> (r: Result<(), String>)
        ensures
            r is Ok,
            final(self).pending() == old(self).pending().push(item),
            final(self).batch_size() == old(self).batch_size(),
    {
        self.pending_items.push_back(item);
        Ok(())
    }

    /// Takes the next batch from the front of the queue: as many items as
    /// a batch holds, or all that wait where they are fewer.
    pub fn get_next_batch(&mut self) -> (batch: Vec<BatchItem>)
        ensures
            batch@.len() == (if old(self).batch_size() < old(self).pending().len() {
                old(self).batch_size() as int
            } else {
                old(self).pending().len() as int
            }),
            batch@ == old(self).pending().take(batch@.len() as int),
            final(self).pending() == old(self).pending().skip(batch@.len() as int),
            final(self).batch_size() == old(self).batch_size(),
    {
        let n = if self.config.batch_size < self.pending_items.len() {
            self.config.batch_size
        } else {
            self.pending_items.len()
        };
        let mut batch: Vec<BatchItem> = Vec::new();
        let mut i: usize = 0;
        while i < n
            invariant
                i <= n <= old(self).pending().len(),
                self.config == old(self).config,
                batch@ == old(self).pending().take(i as int),
                self.pending_items@ == old(self).pending().skip(i as int),
            decreases n - i,
        {
            let item = self.pending_items.pop_front();
            match item {
                Some(it) => {
                    proof {
                        assert(old(self).pending().skip(i as int)[0] == old(self).pending()[i as int]);
                        assert(old(self).pending().take(i + 1) =~= old(self).pending().take(
                            i as int,
                        ).push(it));
                        assert(old(self).pending().skip(i as int).skip(1) =~= old(self).pending().skip(
                            i + 1,
                        ));
                    }
                    batch.push(it);
                },
                None => {},
            }
            i += 1;
        }
        batch
    }

    /// The number of items that wait.
    pub fn queue_size(&self) -> (n: usize)
        ensures
            n == self.pending().len(),
    {
        self.pending_items.len()
    }
}

/// A scanner that takes the entries of a directory in chunks.
pub struct MemoryOptimizedScanner {
    chunk_size: usize,
}

impl MemoryOptimizedScanner {
    /// The number of entries in a chunk.
    pub closed spec fn size(&self) -> usize {
        self.chunk_size
    }

    /// A scanner with chunks of `chunk_size` entries.
    pub fn new(chunk_size: usize) -> (s: MemoryOptimizedScanner)
        ensures
            s.size() == chunk_size,
    {
        MemoryOptimizedScanner { chunk_size }
    }

    /// The chunks into which `total` entries fall, as pairs of the first
    /// index and the index behind the last: they follow one another
    /// without a gap, each is full but the last, and together they cover
    /// all entries. A chunk size of zero gives one chunk with everything.
    pub fn scan_directory_in_chunks(&self, total: usize) -> (chunks: Vec<(usize, usize)>)
        ensures
            total == 0 ==> chunks@.len() == 0,
            total > 0 ==> chunks@.len() > 0 && chunks@[0].0 == 0 && chunks@.last().1 == total,
            forall|i: int|
                0 <= i < chunks@.len() ==> (#[trigger] chunks@[i]).0 < chunks@[i].1 && chunks@[i].1
                    <= total,
            forall|i: int|
                0 <= i < chunks@.len() - 1 ==> (#[trigger] chunks@[i]).1 == chunks@[i + 1].0
                    && chunks@[i].1 - chunks@[i].0 == self.size(),
            forall|i: int|
                0 <= i < chunks@.len() && self.size() > 0 ==> (#[trigger] chunks@[i]).1
                    - chunks@[i].0 <= self.size(),
    {
        let mut chunks: Vec<(usize, usize)> = Vec::new();
        if total == 0 {
            return chunks;
        }
        if self.chunk_size == 0 {
            chunks.push((0, total));
            return chunks;
        }
        let mut start: usize = 0;
        while start < total
            invariant
                start <= total,
                self.chunk_size > 0,
                chunks@.len() == 0 ==> start == 0,
                chunks@.len() > 0 ==> chunks@[0].0 == 0 && chunks@.last().1 == start,
                forall|i: int|
                    0 <= i < chunks@.len() ==> (#[trigger] chunks@[i]).0 < chunks@[i].1
                        && chunks@[i].1 <= total && chunks@[i].1 - chunks@[i].0 == self.chunk_size
                        || (i == chunks@.len() - 1 && chunks@[i].0 < chunks@[i].1 && chunks@[i].1
                        <= total && chunks@[i].1 - chunks@[i].0 <= self.chunk_size),
                forall|i: int|
                    0 <= i < chunks@.len() - 1 ==> (#[trigger] chunks@[i]).1 == chunks@[i + 1].0
                        && chunks@[i].1 - chunks@[i].0 == self.chunk_size,
                start < total ==> forall|i: int|
                    0 <= i < chunks@.len() ==> (#[trigger] chunks@[i]).1 - chunks@[i].0
                        == self.chunk_size,
            decreases total - start,
        {
            let end = if total - start > self.chunk_size {
                start + self.chunk_size
            } else {
                total
            };
            chunks.push((start, end));
            start = end;
        }
        chunks
    }
}

/// The operations under way, each under its name.
pub struct ConcurrencyManager {
    max_concurrent: usize,
    active_operations: Vec<String>,
}

/// The names without every occurrence of `name`, among the first `n`.
pub open spec fn without_name(names: Seq<Seq<char>>, name: Seq<char>, n: nat) -> Seq<Seq<char>>
    decreases n,
{
    if n == 0 || n > names.len() {
        Seq::empty()
    } else if names[n - 1] == name {
        without_name(names, name, (n - 1) as nat)
    } else {
        without_name(names, name, (n - 1) as nat).push(names[n - 1])
    }
}

/// The characters of each string.
pub open spec fn names_of(v: Seq<String>) -> Seq<Seq<char>> {
    v.map_values(|s: String| s@)
}

impl ConcurrencyManager {
    /// The names of the operations under way, in the order in which they began.
    pub closed spec fn active(&self) -> Seq<Seq<char>> {
        names_of(self.active_operations@)
    }

    /// The number of operations that may be under way at a time.
    pub closed spec fn limit(&self) -> usize {
        self.max_concurrent
    }

    /// A manager with nothing under way.
    pub fn new(max_concurrent: usize) -> (m: ConcurrencyManager)
        ensures
            m.active().len() == 0,
            m.limit() == max_concurrent,
    {
        let m = ConcurrencyManager { max_concurrent, active_operations: Vec::new() };
        proof {
            assert(m.active() =~= Seq::<Seq<char>>::empty());
        }
        m
    }

    /// Whether another operation may begin without waiting.
    pub fn has_free_permit(&self) -> (r: bool)
        ensures
            r == (self.active().len() < self.limit()),
    {
        self.active_operations.len() < self.max_concurrent
    }

    /// Notes that the operation has begun.
    pub fn acquire_permit(&mut self, operation_id: &str)
        ensures
            final(self).active() == old(self).active().push(operation_id@),
            final(self).limit() == old(self).limit(),
    {
        let name = String::from_str(operation_id);
        proof {
            assert(names_of(self.active_operations@.push(name)) =~= names_of(
                self.active_operations@,
            ).push(operation_id@));
        }
        self.active_operations.push(name);
    }

    /// Notes that the operation has ended: its name leaves the list wherever it stands.
    pub fn release_permit(&mut self, operation_id: &str)
        ensures
            final(self).active() == without_name(
                old(self).active(),
                operation_id@,
                old(self).active().len(),
            ),
            final(self).limit() == old(self).limit(),
    {
        let mut kept: Vec<String> = Vec::new();
        let mut i: usize = 0;
        proof {
            assert(names_of(kept@) =~= Seq::<Seq<char>>::empty());
        }
        while i < self.active_operations.len()
            invariant
                i <= self.active_operations@.len(),
                self.active_operations@ == old(self).active_operations@,
                self.max_concurrent == old(self).max_concurrent,
                names_of(kept@) == without_name(old(self).active(), operation_id@, i as nat),
            decreases self.active_operations@.len() - i,
        {
            assert(old(self).active()[i as int] == self.active_operations@[i as int]@);
            if !same_text(self.active_operations[i].as_str(), operation_id) {
                let name = self.active_operations[i].clone();
                proof {
                    assert(names_of(kept@.push(name)) =~= names_of(kept@).push(name@));
                }
                kept.push(name);
            }
            i += 1;
        }
        self.active_operations = kept;
    }

    /// The number of operations under way.
    pub fn get_active_count(&self) -> (n: usize)
        ensures
            n == self.active().len(),
    {
        self.active_operations.len()
    }

    /// The names of the operations under way.
    pub fn get_active_operations(&self) -> (names: Vec<String>)
        ensures
            names_of(names@) == self.active(),
    {
        let mut names: Vec<String> = Vec::new();
        let mut i: usize = 0;
        while i < self.active_operations.len()
            invariant
                i <= self.active_operations@.len(),
                names_of(names@) == self.active().take(i as int),
            decreases self.active_operations@.len() - i,
        {
            let name = self.active_operations[i].clone();
            proof {
                assert(self.active()[i as int] == name@);
                assert(names_of(names@.push(name)) =~= names_of(names@).push(name@));
                assert(self.active().take(i + 1) =~= self.active().take(i as int).push(name@));
            }
            names.push(name);
            i += 1;
        }
        proof {
            assert(self.active().take(self.active().len() as int) =~= self.active());
        }
        names
    }
}

/// A look at the optimizer.
#[derive(Debug, Clone, Copy, PartialEq, Eq, Structural)]
pub struct PerformanceStats {
    /// The memory in use, in bytes over the bytes of a mebibyte.
    pub memory_usage_mb: Ratio,
    /// The peak of the memory in use, in bytes over the bytes of a mebibyte.
    pub memory_peak_mb: Ratio,
    pub cache_hit_rate: Ratio,
    pub cache_size: usize,
    pub batch_queue_size: usize,
    pub last_cleanup_seconds_ago: u64,
}

/// The memory that a scan of a directory is taken to need: a kibibyte for
/// each entry, or one kibibyte where the directory cannot be listed.
pub open spec fn scan_memory(entries: Option<usize>) -> usize {
    match entries {
        Some(n) => word(n * 1024),
        None => 1024,
    }
}

/// The optimizer: a memory monitor, a cache of directories and a queue of batches.
pub struct PerformanceOptimizer {
    config: PerformanceConfig,
    memory_monitor: MemoryMonitor,
    directory_cache: DirectoryCache,
    batch_processor: BatchProcessor,
    last_cleanup: u64,
}

impl PerformanceOptimizer {
    /// The configuration in force.
    pub closed spec fn config_value(&self) -> PerformanceConfig {
        self.config
    }

    /// The memory monitor.
    pub closed spec fn monitor(&self) -> MemoryMonitor {
        self.memory_monitor
    }

    /// The cache of directories.
    pub closed spec fn cache(&self) -> DirectoryCache {
        self.directory_cache
    }

    /// The queue of batches.
    pub closed spec fn batches(&self) -> BatchProcessor {
        self.batch_processor
    }

    /// When the last cleanup took place, in seconds on the clock of the caller.
    pub closed spec fn cleaned_at(&self) -> u64 {
        self.last_cleanup
    }

    /// An optimizer made at the moment `now`: it warns at half of the
    /// memory that may be used and is critical at four fifths of it.
    pub fn new(config: PerformanceConfig, now: u64) -> (o: PerformanceOptimizer)
        requires
            config.cache_size > 0,
        ensures
            o.config_value() == config,
            o.monitor().current() == 0,
            o.monitor().peak() == 0,
            o.monitor().warning() == word((config.max_memory_usage_mb / 2) * MIB),
            o.monitor().critical() == word(word(config.max_memory_usage_mb * 8) / 10 * MIB),
            o.cache().entries().len() == 0,
            o.cache().limit() == config.cache_size,
            o.batches().pending().len() == 0,
            o.cleaned_at() == now,
    {
        let memory_monitor = MemoryMonitor::new(
            config.max_memory_usage_mb / 2,
            word_product(config.max_memory_usage_mb, 8) / 10,
        );
        PerformanceOptimizer {
            config,
            memory_monitor,
            directory_cache: DirectoryCache::new(config.cache_size),
            batch_processor: BatchProcessor::new(config),
            last_cleanup: now,
        }
    }

    /// An optimizer made at the moment `now`; `None` for a cache of no entries.
    pub fn try_new(config: PerformanceConfig, now: u64) -> (o: Option<PerformanceOptimizer>)
        ensures
            o is Some <==> config.cache_size > 0,
            o matches Some(p) ==> {
                &&& p.config_value() == config
                &&& p.cleaned_at() == now
                &&& p.monitor().current() == 0
                &&& p.monitor().peak() == 0
                &&& p.monitor().warning() == word((config.max_memory_usage_mb / 2) * MIB)
                &&& p.monitor().critical() == word(word(config.max_memory_usage_mb * 8) / 10 * MIB)
                &&& p.cache().entries().len() == 0
                &&& p.cache().limit() == config.cache_size
                &&& p.batches().pending().len() == 0
            },
    {
        if config.cache_size > 0 {
            Some(Self::new(config, now))
        } else {
            None
        }
    }

    /// The memory that a scan of a directory is taken to need.
    pub fn estimate_scan_memory_usage(&self, entries: Option<usize>) -> (n: usize)
        ensures
            n == scan_memory(entries),
    {
        match entries {
            Some(n) => word_product(n, 1024),
            None => 1024,
        }
    }

    /// Takes note of a scan of `path` at the moment `now`: with caching on
    /// the directory is looked up in the cache, and the memory that the
    /// scan is taken to need is counted as in use.
    pub fn optimize_scan_operation(&mut self, path: &str, entries: Option<usize>, now: u64)
        ensures
            final(self).config_value() == old(self).config_value(),
            final(self).cleaned_at() == old(self).cleaned_at(),
            final(self).batches() == old(self).batches(),
            final(self).monitor().current() == word(
                old(self).monitor().current() + scan_memory(entries),
            ),
            !old(self).config_value().enable_caching ==> final(self).cache() == old(self).cache(),
            old(self).config_value().enable_caching ==> final(self).cache().entries() == (
            match position_of(
                old(self).cache().entries(),
                path@,
                old(self).cache().entries().len(),
            ) {
                Some(i) => promoted(old(self).cache().entries(), i),
                None => old(self).cache().entries(),
            }),
    {
        if self.config.enable_caching {
            let _ = self.directory_cache.get(path, now);
        }
        let estimated = self.estimate_scan_memory_usage(entries);
        self.memory_monitor.record_usage(estimated);
    }

    /// Cleans up at the moment `now`: with caching on the cache is emptied.
    pub fn perform_cleanup(&mut self, now: u64)
        ensures
            final(self).config_value() == old(self).config_value(),
            final(self).cleaned_at() == now,
            final(self).monitor() == old(self).monitor(),
            final(self).batches() == old(self).batches(),
            old(self).config_value().enable_caching ==> final(self).cache().entries().len() == 0,
            !old(self).config_value().enable_caching ==> final(self).cache() == old(self).cache(),
    {
        if self.config.enable_caching {
            self.directory_cache.clear();
        }
        self.last_cleanup = now;
    }

    /// Before a piece of a migration is taken up: cleans up where more
    /// memory is in use than the threshold of warning allows. Tells whether it did.
    pub fn optimize_migration_operation(&mut self, now: u64) -> (cleaned: bool)
        ensures
            cleaned == (old(self).monitor().current() > old(self).monitor().warning()),
            final(self).config_value() == old(self).config_value(),
            final(self).monitor() == old(self).monitor(),
            final(self).batches() == old(self).batches(),
            cleaned ==> final(self).cleaned_at() == now,
            !cleaned ==> final(self).cleaned_at() == old(self).cleaned_at() && final(self).cache()
                == old(self).cache(),
    {
        if self.memory_monitor.should_cleanup() {
            self.perform_cleanup(now);
            true
        } else {
            false
        }
    }

    /// A look at the optimizer at the moment `now`.
    pub fn get_performance_stats(&self, now: u64) -> (stats: PerformanceStats)
        ensures
            stats.memory_usage_mb == (Ratio {
                part: self.monitor().current() as u64,
                whole: MIB as u64,
            }),
            stats.memory_peak_mb == (Ratio { part: self.monitor().peak() as u64, whole: MIB as u64 }),
            stats.cache_size == self.cache().entries().len(),
            stats.batch_queue_size == self.batches().pending().len(),
            stats.last_cleanup_seconds_ago == (if now > self.cleaned_at() {
                (now - self.cleaned_at()) as u64
            } else {
                0
            }),
    {
        let cache_stats = self.directory_cache.get_stats();
        PerformanceStats {
            memory_usage_mb: Ratio::new(self.memory_monitor.get_current_usage() as u64, MIB as u64),
            memory_peak_mb: Ratio::new(self.memory_monitor.get_peak_usage() as u64, MIB as u64),
            cache_hit_rate: cache_stats.hit_rate,
            cache_size: cache_stats.size,
            batch_queue_size: self.batch_processor.queue_size(),
            last_cleanup_seconds_ago: if now > self.last_cleanup {
                now - self.last_cleanup
            } else {
                0
            },
        }
    }

    /// Whether the last cleanup is longer ago than the interval allows.
    pub fn should_periodic_cleanup(&self, now: u64) -> (r: bool)
        ensures
            r == (now > self.cleaned_at() && now - self.cleaned_at()
                > self.config_value().cleanup_interval_seconds),
    {
        now > self.last_cleanup && now - self.last_cleanup > self.config.cleanup_interval_seconds
    }
}

} // verus!
