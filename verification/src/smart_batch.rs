//! A queue of work ordered by priority, handed out in batches that stay
//! within a budget of bytes, with a record of how the work went.

use crate::performance_optimizer::PerformanceConfig;
use crate::ratio::{add_saturating, saturated, Ratio};
use std::collections::VecDeque;
use vstd::prelude::*;

verus! {

/// One piece of work with its size, its priority and what it waits for.
#[derive(Debug, Clone)]
pub struct SmartBatchItem {
    pub id: String,
    pub operation_type: String,
    pub source_path: String,
    pub target_path: Option<String>,
    /// The bytes that the work is expected to move.
    pub estimated_size: u64,
    /// The higher, the sooner.
    pub priority: u32,
    /// The identifiers of the work that must be done before.
    pub dependencies: Vec<String>,
}

/// How one piece of work went.
#[derive(Debug, Clone)]
pub struct ProcessingRecord {
    pub item_id: String,
    /// When the work began, in milliseconds on the clock of the caller.
    pub start_time: u64,
    /// How long it took, in milliseconds.
    pub duration_ms: u64,
    pub success: bool,
    pub size_processed: u64,
}

/// Sums over the work that was done.
#[derive(Debug, Clone)]
pub struct ProcessingStats {
    pub total_processed: usize,
    pub total_size_processed: u64,
    /// The milliseconds spent on all the work over the number of pieces.
    pub average_processing_time_ms: Ratio,
    /// The share of successes among the records kept before the last one came.
    pub success_rate: Ratio,
    /// The last records, oldest first.
    pub processing_history: VecDeque<ProcessingRecord>,
}

/// How many records are kept.
pub const HISTORY_LIMIT: usize = 1000;

/// The index at which an item of `priority` enters the queue: in front of
/// the first of the first `n` items whose priority is lower, else at `n`.
pub open spec fn entry_index(queue: Seq<SmartBatchItem>, priority: u32, n: nat) -> nat
    decreases n,
{
    if n == 0 || n > queue.len() {
        0
    } else {
        let before = entry_index(queue, priority, (n - 1) as nat);
        if before < n - 1 {
            before
        } else if queue[n - 1].priority < priority {
            (n - 1) as nat
        } else {
            n
        }
    }
}

/// No item stands behind one of lower priority.
pub open spec fn by_priority(queue: Seq<SmartBatchItem>) -> bool {
    forall|i: int, j: int|
        0 <= i < j < queue.len() ==> (#[trigger] queue[i]).priority >= (#[trigger] queue[j]).priority
}

/// What the index of entry is: every item in front of it has at least the
/// priority, and the item at it, if there is one, has less.
pub proof fn lemma_entry_index(queue: Seq<SmartBatchItem>, priority: u32, n: nat)
    requires
        n <= queue.len(),
    ensures
        entry_index(queue, priority, n) <= n,
        forall|k: int|
            0 <= k < entry_index(queue, priority, n) ==> (#[trigger] queue[k]).priority >= priority,
        entry_index(queue, priority, n) < n ==> queue[entry_index(queue, priority, n) as int].priority
            < priority,
    decreases n,
{
    if n > 0 {
        lemma_entry_index(queue, priority, (n - 1) as nat);
    }
}

/// **Priority order.** A queue in the order of priority stays in it when
/// an item enters at its index of entry.
pub proof fn lemma_insert_keeps_order(queue: Seq<SmartBatchItem>, item: SmartBatchItem)
    requires
        by_priority(queue),
    ensures
        by_priority(queue.insert(entry_index(queue, item.priority, queue.len()) as int, item)),
{
    let at = entry_index(queue, item.priority, queue.len()) as int;
    lemma_entry_index(queue, item.priority, queue.len());
    let after = queue.insert(at, item);
    assert forall|i: int, j: int| 0 <= i < j < after.len() implies (#[trigger] after[i]).priority >= (
    #[trigger] after[j]).priority by {
        if j == at {
            assert(after[i] == queue[i]);
        } else if i == at {
            assert(after[j] == queue[j - 1]);
            assert(queue[at].priority >= queue[j - 1].priority || at == j - 1);
        } else {
            let a = if i < at {
                i
            } else {
                i - 1
            };
            let b = if j < at {
                j
            } else {
                j - 1
            };
            assert(after[i] == queue[a]);
            assert(after[j] == queue[b]);
        }
    }
}

/// The bytes that a batch may hold: half of the memory that may be used.
pub open spec fn batch_budget(cfg: PerformanceConfig) -> u64 {
    (saturated(cfg.max_memory_usage_mb * 0x10_0000) / 2) as u64
}

/// How far the filling of a batch has come.
pub struct Filling {
    /// The items that still wait.
    pub queue: Seq<SmartBatchItem>,
    /// The items taken into the batch.
    pub batch: Seq<SmartBatchItem>,
    /// The bytes of the batch.
    pub total: u64,
    /// Whether the batch is closed.
    pub closed: bool,
}

/// The filling after at most `rounds` more items have been looked at. An
/// item that waits for other work goes to the end of the queue. An item
/// that would take the batch over its budget stays in front and closes
/// the batch. Every other item enters the batch, which closes when it is full.
pub open spec fn filled(f: Filling, rounds: nat, cfg: PerformanceConfig) -> Filling
    decreases rounds,
{
    if rounds == 0 || f.closed || f.queue.len() == 0 {
        f
    } else {
        let item = f.queue[0];
        let rest = f.queue.skip(1);
        if item.dependencies@.len() > 0 {
            filled(Filling { queue: rest.push(item), ..f }, (rounds - 1) as nat, cfg)
        } else if f.total + item.estimated_size > batch_budget(cfg) {
            Filling { closed: true, ..f }
        } else {
            filled(
                Filling {
                    queue: rest,
                    batch: f.batch.push(item),
                    total: (f.total + item.estimated_size) as u64,
                    closed: f.batch.len() + 1 >= cfg.batch_size,
                },
                (rounds - 1) as nat,
                cfg,
            )
        }
    }
}

/// The number of successes among the first `n` records.
pub open spec fn successes(history: Seq<ProcessingRecord>, n: nat) -> nat
    decreases n,
{
    if n == 0 || n > history.len() {
        0
    } else {
        successes(history, (n - 1) as nat) + if history[n - 1].success {
            1nat
        } else {
            0nat
        }
    }
}

/// The queue of work by priority, with the sums over the work done.
pub struct SmartBatchProcessor {
    config: PerformanceConfig,
    item_queue: VecDeque<SmartBatchItem>,
    total_processed: usize,
    total_size_processed: u64,
    total_duration_ms: u64,
    success_rate: Ratio,
    history: VecDeque<ProcessingRecord>,
}

impl SmartBatchProcessor {
    /// The configuration in force.
    pub closed spec fn config_value(&self) -> PerformanceConfig {
        self.config
    }

    /// The items that wait, first in front.
    pub closed spec fn queue(&self) -> Seq<SmartBatchItem> {
        self.item_queue@
    }

    /// The records kept, oldest first.
    pub closed spec fn records(&self) -> Seq<ProcessingRecord> {
        self.history@
    }

    /// The number of pieces of work done.
    pub closed spec fn processed(&self) -> usize {
        self.total_processed
    }

    /// The bytes of the work done.
    pub closed spec fn processed_bytes(&self) -> u64 {
        self.total_size_processed
    }

    /// The milliseconds spent on the work done.
    pub closed spec fn processed_ms(&self) -> u64 {
        self.total_duration_ms
    }

    /// The share of successes as it was last taken.
    pub closed spec fn rate(&self) -> Ratio {
        self.success_rate
    }

    /// A processor with nothing waiting and nothing done.
    pub fn new(config: PerformanceConfig) -> (p: SmartBatchProcessor)
        ensures
            p.config_value() == config,
            p.queue().len() == 0,
            p.records().len() == 0,
            p.processed() == 0,
            p.processed_bytes() == 0,
            p.processed_ms() == 0,
    {
        SmartBatchProcessor {
            config,
            item_queue: VecDeque::new(),
            total_processed: 0,
            total_size_processed: 0,
            total_duration_ms: 0,
            success_rate: Ratio::zero(),
            history: VecDeque::new(),
        }
    }

    /// Puts an item into the queue, in front of the first item of lower priority.
    pub fn add_item(&mut self, item: SmartBatchItem) -> (r: Result<(), String>)
        ensures
            r is Ok,
            final(self).queue() == old(self).queue().insert(
                entry_index(old(self).queue(), item.priority, old(self).queue().len()) as int,
                item,
            ),
            by_priority(old(self).queue()) ==> by_priority(final(self).queue()),
            final(self).config_value() == old(self).config_value(),
            final(self).records() == old(self).records(),
    {
        let n = self.item_queue.len();
        let mut at: usize = n;
        let mut i: usize = 0;
        while i < n
            invariant
                i <= n,
                n == self.item_queue@.len(),
                self.item_queue@ == old(self).item_queue@,
                at <= n,
                at < n ==> at < i,
                at as nat == (if entry_index(self.item_queue@, item.priority, i as nat) < i {
                    entry_index(self.item_queue@, item.priority, i as nat)
                } else {
                    n as nat
                }),
            decreases n - i,
        {
            if at == n && self.item_queue[i].priority < item.priority {
                at = i;
            }
            i += 1;
        }
        proof {
            lemma_entry_index(self.item_queue@, item.priority, n as nat);
            if by_priority(self.item_queue@) {
                lemma_insert_keeps_order(self.item_queue@, item);
            }
        }
        self.item_queue.insert(at, item);
        Ok(())
    }

    /// Whether the work that an item waits for is done: it is where the item waits for none.
    pub fn check_dependencies(&self, item: &SmartBatchItem) -> (r: bool)
        ensures
            r == (item.dependencies@.len() == 0),
    {
        item.dependencies.len() == 0
    }

    /// The bytes that a batch may hold.
    pub fn budget(&self) -> (b: u64)
        ensures
            b == batch_budget(self.config_value()),
    {
        let mb = self.config.max_memory_usage_mb as u64;
        let bytes = if mb > u64::MAX / 0x10_0000 {
            u64::MAX
        } else {
            mb * 0x10_0000
        };
        bytes / 2
    }

    /// Takes the next batch; see `filled`. Every item that waits is looked at once at most.
    pub fn get_optimized_batch(&mut self) -> (batch: Vec<SmartBatchItem>)
        ensures
            batch@ == filled(
                Filling {
                    queue: old(self).queue(),
                    batch: Seq::empty(),
                    total: 0,
                    closed: false,
                },
                old(self).queue().len(),
                old(self).config_value(),
            ).batch,
            final(self).queue() == filled(
                Filling {
                    queue: old(self).queue(),
                    batch: Seq::empty(),
                    total: 0,
                    closed: false,
                },
                old(self).queue().len(),
                old(self).config_value(),
            ).queue,
            final(self).config_value() == old(self).config_value(),
            final(self).records() == old(self).records(),
    {
        let ghost start = Filling {
            queue: self.item_queue@,
            batch: Seq::empty(),
            total: 0,
            closed: false,
        };
        let ghost cfg = self.config;
        let ghost all = self.item_queue@.len();
        let budget = self.budget();
        let mut batch: Vec<SmartBatchItem> = Vec::new();
        let mut total: u64 = 0;
        let mut closed = false;
        let mut rounds: usize = self.item_queue.len();
        while rounds > 0 && !closed && self.item_queue.len() > 0
            invariant
                self.config == cfg,
                self.history == old(self).history,
                budget == batch_budget(cfg),
                total <= budget,
                filled(start, all, cfg) == filled(
                    Filling { queue: self.item_queue@, batch: batch@, total, closed },
                    rounds as nat,
                    cfg,
                ),
            decreases rounds,
        {
            let ghost before = Filling { queue: self.item_queue@, batch: batch@, total, closed };
            let item = self.item_queue.pop_front().unwrap();
            assert(item == before.queue[0]);
            assert(self.item_queue@ =~= before.queue.skip(1));
            if item.dependencies.len() > 0 {
                self.item_queue.push_back(item);
            } else if item.estimated_size > budget - total {
                self.item_queue.push_front(item);
                assert(self.item_queue@ =~= before.queue);
                closed = true;
            } else {
                total = total + item.estimated_size;
                batch.push(item);
                closed = batch.len() >= self.config.batch_size;
            }
            rounds -= 1;
        }
        batch
    }

    /// Takes note of how a piece of work went. The share of successes is
    /// taken over the records kept before this one; of the records only
    /// the last thousand are kept.
    pub fn record_processing_result(&mut self, record: ProcessingRecord)
        ensures
            final(self).processed() == (if old(self).processed() == usize::MAX {
                usize::MAX
            } else {
                (old(self).processed() + 1) as usize
            }),
            final(self).processed_bytes() == saturated(
                old(self).processed_bytes() + record.size_processed,
            ),
            final(self).processed_ms() == saturated(old(self).processed_ms() + record.duration_ms),
            final(self).rate() == (Ratio {
                part: successes(old(self).records(), old(self).records().len()) as u64,
                whole: if old(self).records().len() == 0 {
                    1
                } else {
                    old(self).records().len() as u64
                },
            }),
            final(self).records() == (if old(self).records().len() >= HISTORY_LIMIT {
                old(self).records().push(record).skip(1)
            } else {
                old(self).records().push(record)
            }),
            final(self).queue() == old(self).queue(),
            final(self).config_value() == old(self).config_value(),
    {
        if self.total_processed < usize::MAX {
            self.total_processed = self.total_processed + 1;
        }
        self.total_size_processed = add_saturating(self.total_size_processed, record.size_processed);
        self.total_duration_ms = add_saturating(self.total_duration_ms, record.duration_ms);
        let n = self.history.len();
        let mut good: usize = 0;
        let mut i: usize = 0;
        while i < n
            invariant
                i <= n,
                n == self.history@.len(),
                self.history@ == old(self).history@,
                good == successes(self.history@, i as nat),
                good <= i,
            decreases n - i,
        {
            if self.history[i].success {
                good = good + 1;
            }
            i += 1;
        }
        self.success_rate = Ratio::new(
            good as u64,
            if n == 0 {
                1
            } else {
                n as u64
            },
        );
        self.history.push_back(record);
        if self.history.len() > HISTORY_LIMIT {
            let _ = self.history.pop_front();
            proof {
                assert(self.history@ =~= old(self).history@.push(record).skip(1));
            }
        }
    }

    /// The sums over the work done.
    pub fn get_processing_stats(&self) -> (stats: ProcessingStats)
        ensures
            stats.total_processed == self.processed(),
            stats.total_size_processed == self.processed_bytes(),
            stats.average_processing_time_ms == (Ratio {
                part: self.processed_ms(),
                whole: self.processed() as u64,
            }),
            stats.success_rate == self.rate(),
            stats.processing_history@.len() == self.records().len(),
            forall|i: int|
                0 <= i < self.records().len() ==> {
                    &&& (#[trigger] stats.processing_history@[i]).item_id@ == self.records()[i].item_id@
                    &&& stats.processing_history@[i].start_time == self.records()[i].start_time
                    &&& stats.processing_history@[i].duration_ms == self.records()[i].duration_ms
                    &&& stats.processing_history@[i].success == self.records()[i].success
                    &&& stats.processing_history@[i].size_processed
                        == self.records()[i].size_processed
                },
    {
        let mut copy: VecDeque<ProcessingRecord> = VecDeque::new();
        let mut i: usize = 0;
        while i < self.history.len()
            invariant
                i <= self.history@.len(),
                copy@.len() == i,
                forall|k: int|
                    0 <= k < i ==> {
                        &&& (#[trigger] copy@[k]).item_id@ == self.history@[k].item_id@
                        &&& copy@[k].start_time == self.history@[k].start_time
                        &&& copy@[k].duration_ms == self.history@[k].duration_ms
                        &&& copy@[k].success == self.history@[k].success
                        &&& copy@[k].size_processed == self.history@[k].size_processed
                    },
            decreases self.history@.len() - i,
        {
            let r = &self.history[i];
            copy.push_back(
                ProcessingRecord {
                    item_id: r.item_id.clone(),
                    start_time: r.start_time,
                    duration_ms: r.duration_ms,
                    success: r.success,
                    size_processed: r.size_processed,
                },
            );
            i += 1;
        }
        ProcessingStats {
            total_processed: self.total_processed,
            total_size_processed: self.total_size_processed,
            average_processing_time_ms: Ratio::new(self.total_duration_ms, self.total_processed as u64),
            success_rate: self.success_rate,
            processing_history: copy,
        }
    }
}

} // verus!
