//! What holds of every tree that a scan yields.

use crate::ratio::saturated;
use crate::disk_analyzer::{whole_size, whole_size_of};
use crate::scan_model::{
    arranged, cancelled_text, entries_of, entry_cancelled, entry_limit, is_guarded, node_size,
    processed_entries, scan_dir, scan_entries, with_share, DirSnapshot, DirectoryNode,
    EntrySnapshot, ScanSettings,
};
use crate::sorting::{insert_by_key, lemma_stable_sort, stable_sort, stays_before};
use vstd::prelude::*;

verus! {

/// The sizes of the nodes, summed.
pub open spec fn sum_sizes(s: Seq<DirectoryNode>) -> nat
    decreases s.len(),
{
    if s.len() == 0 {
        0
    } else {
        sum_sizes(s.drop_last()) + s.last().size as nat
    }
}

/// What the nodes add to the count of their parent: each its own count, and one for itself.
pub open spec fn sum_counts(s: Seq<DirectoryNode>) -> nat
    decreases s.len(),
{
    if s.len() == 0 {
        0
    } else {
        sum_counts(s.drop_last()) + s.last().file_count as nat + 1
    }
}

/// The length of an entry where it is a file whose length was read, else zero.
pub open spec fn file_length(e: EntrySnapshot) -> nat {
    match e {
        EntrySnapshot::File { size: Ok(bytes), .. } => bytes as nat,
        _ => 0,
    }
}

/// One where the entry is a file whose length was read, else zero.
pub open spec fn file_unit(e: EntrySnapshot) -> nat {
    match e {
        EntrySnapshot::File { size: Ok(_), .. } => 1,
        _ => 0,
    }
}

/// The lengths of the files among the first `n` entries, summed.
pub open spec fn file_bytes(entries: Seq<EntrySnapshot>, n: nat) -> nat
    decreases n,
{
    if n == 0 || n > entries.len() {
        0
    } else {
        file_bytes(entries, (n - 1) as nat) + file_length(entries[n - 1])
    }
}

/// The number of files among the first `n` entries.
pub open spec fn file_units(entries: Seq<EntrySnapshot>, n: nat) -> nat
    decreases n,
{
    if n == 0 || n > entries.len() {
        0
    } else {
        file_units(entries, (n - 1) as nat) + file_unit(entries[n - 1])
    }
}

/// The directory was opened and its entries were processed.
pub open spec fn was_opened(cfg: ScanSettings, snap: DirSnapshot, depth: nat) -> bool {
    &&& depth <= cfg.max_depth
    &&& !(cfg.guard_system_paths && is_guarded(snap.path@))
    &&& snap.listing is Entries
}

/// The bytes of the files that were counted directly in the directory.
pub open spec fn direct_bytes(cfg: ScanSettings, snap: DirSnapshot, depth: nat) -> nat {
    if was_opened(cfg, snap, depth) {
        file_bytes(entries_of(snap), processed_entries(cfg, snap, depth))
    } else {
        0
    }
}

/// The number of files that were counted directly in the directory.
pub open spec fn direct_files(cfg: ScanSettings, snap: DirSnapshot, depth: nat) -> nat {
    if was_opened(cfg, snap, depth) {
        file_units(entries_of(snap), processed_entries(cfg, snap, depth))
    } else {
        0
    }
}

/// The node stands for a directory that was not opened: it is an empty leaf.
pub open spec fn is_unopened(n: DirectoryNode) -> bool {
    &&& n.size == 0
    &&& n.file_count == 0
    &&& n.subdirectories.len() == 0
    &&& !n.is_large_folder
    &&& n.last_modified is None
}

/// Every node that lies `levels` below `n` is an empty leaf.
pub open spec fn unopened_at(n: DirectoryNode, levels: nat) -> bool
    decreases levels,
{
    if levels == 0 {
        is_unopened(n)
    } else {
        forall|i: int|
            0 <= i < n.subdirectories.len() ==> unopened_at(
                #[trigger] n.subdirectories[i],
                (levels - 1) as nat,
            )
    }
}

/// In `n` and in every node below it, the children stand largest first.
pub open spec fn largest_first(n: DirectoryNode) -> bool
    decreases n,
{
    &&& forall|i: int, j: int|
        0 <= i < j < n.subdirectories.len() ==> (#[trigger] n.subdirectories[i]).size >= (
        #[trigger] n.subdirectories[j]).size
    &&& forall|i: int|
        0 <= i < n.subdirectories.len() ==> largest_first(#[trigger] n.subdirectories[i])
}

/// In `n` and in every node below it, the share of each child is its size
/// over the size of its parent.
pub open spec fn shares_of_parent(n: DirectoryNode) -> bool
    decreases n,
{
    forall|i: int|
        0 <= i < n.subdirectories.len() ==> {
            &&& (#[trigger] n.subdirectories[i]).size_percentage.part == n.subdirectories[i].size
            &&& n.subdirectories[i].size_percentage.whole == n.size
            &&& shares_of_parent(n.subdirectories[i])
        }
}

/// Inserting a node adds its size and its count to the sums.
pub proof fn lemma_insert_sums(s: Seq<DirectoryNode>, x: DirectoryNode)
    ensures
        sum_sizes(insert_by_key(s, x, node_size(), true)) == sum_sizes(s) + x.size as nat,
        sum_counts(insert_by_key(s, x, node_size(), true)) == sum_counts(s) + x.file_count as nat + 1,
    decreases s.len(),
{
    if s.len() == 0 {
        assert(seq![x].drop_last() =~= s);
    } else if stays_before(node_size()(s.last()), node_size()(x), true) {
        assert(s.push(x).drop_last() =~= s);
    } else {
        lemma_insert_sums(s.drop_last(), x);
        let r = insert_by_key(s.drop_last(), x, node_size(), true);
        assert(r.push(s.last()).drop_last() =~= r);
    }
}

/// Arranging the children changes neither the sum of their sizes nor that of their counts.
pub proof fn lemma_arranged_sums(s: Seq<DirectoryNode>, total: u64)
    ensures
        sum_sizes(arranged(s, total)) == sum_sizes(s),
        sum_counts(arranged(s, total)) == sum_counts(s),
        arranged(s, total).len() == s.len(),
    decreases s.len(),
{
    lemma_sorted_sums(s);
    lemma_shares_keep_sums(stable_sort(s, node_size(), true), total);
    lemma_stable_sort(s, node_size(), true);
}

/// Sorting changes neither sum.
pub proof fn lemma_sorted_sums(s: Seq<DirectoryNode>)
    ensures
        sum_sizes(stable_sort(s, node_size(), true)) == sum_sizes(s),
        sum_counts(stable_sort(s, node_size(), true)) == sum_counts(s),
    decreases s.len(),
{
    if s.len() > 0 {
        lemma_sorted_sums(s.drop_last());
        lemma_insert_sums(stable_sort(s.drop_last(), node_size(), true), s.last());
    }
}

/// Giving every node its share changes neither sum.
pub proof fn lemma_shares_keep_sums(s: Seq<DirectoryNode>, total: u64)
    ensures
        sum_sizes(s.map_values(|c: DirectoryNode| with_share(c, total))) == sum_sizes(s),
        sum_counts(s.map_values(|c: DirectoryNode| with_share(c, total))) == sum_counts(s),
    decreases s.len(),
{
    let f = |c: DirectoryNode| with_share(c, total);
    if s.len() > 0 {
        lemma_shares_keep_sums(s.drop_last(), total);
        assert(s.map_values(f).drop_last() =~= s.drop_last().map_values(f));
    }
}

/// Every arranged child is one of the children, with its share.
pub proof fn lemma_arranged_member(s: Seq<DirectoryNode>, total: u64, i: int)
    requires
        0 <= i < arranged(s, total).len(),
    ensures
        exists|k: int| 0 <= k < s.len() && arranged(s, total)[i] == with_share(#[trigger] s[k], total),
{
    broadcast use vstd::seq_lib::group_to_multiset_ensures;

    lemma_stable_sort(s, node_size(), true);
    let sorted = stable_sort(s, node_size(), true);
    assert(sorted.to_multiset().count(sorted[i]) > 0);
    assert(s.contains(sorted[i]));
    let k = choose|k: int| 0 <= k < s.len() && s[k] == sorted[i];
    assert(arranged(s, total)[i] == with_share(s[k], total));
}

/// **Size additivity.** The size of a node is the bytes of the files counted
/// directly in its directory plus the sizes of its children, and its count
/// is the number of those files plus, for each child, the count of the child
/// and one. Both stop at the largest value that fits.
pub proof fn lemma_size_additivity(cfg: ScanSettings, snap: DirSnapshot, depth: nat)
    requires
        scan_dir(cfg, snap, depth) is Ok,
    ensures
        scan_dir(cfg, snap, depth)->Ok_0.size == saturated(
            (direct_bytes(cfg, snap, depth) + sum_sizes(
                scan_dir(cfg, snap, depth)->Ok_0.subdirectories,
            )) as int,
        ),
        scan_dir(cfg, snap, depth)->Ok_0.file_count == saturated(
            (direct_files(cfg, snap, depth) + sum_counts(
                scan_dir(cfg, snap, depth)->Ok_0.subdirectories,
            )) as int,
        ),
{
    if was_opened(cfg, snap, depth) {
        let n = processed_entries(cfg, snap, depth);
        lemma_tally_additive(cfg, snap, n, depth);
        let tally = scan_entries(cfg, snap, n, depth)->Ok_0;
        lemma_arranged_sums(tally.children, tally.size);
    }
}

/// The tally of the first `n` entries is the sum of what they gave.
pub proof fn lemma_tally_additive(cfg: ScanSettings, snap: DirSnapshot, n: nat, depth: nat)
    requires
        scan_entries(cfg, snap, n, depth) is Ok,
    ensures
        scan_entries(cfg, snap, n, depth)->Ok_0.size == saturated(
            (file_bytes(entries_of(snap), n) + sum_sizes(
                scan_entries(cfg, snap, n, depth)->Ok_0.children,
            )) as int,
        ),
        scan_entries(cfg, snap, n, depth)->Ok_0.file_count == saturated(
            (file_units(entries_of(snap), n) + sum_counts(
                scan_entries(cfg, snap, n, depth)->Ok_0.children,
            )) as int,
        ),
    decreases n,
{
    if n == 0 || n > entries_of(snap).len() {
    } else {
        lemma_tally_additive(cfg, snap, (n - 1) as nat, depth);
        let before = scan_entries(cfg, snap, (n - 1) as nat, depth)->Ok_0;
        let after = scan_entries(cfg, snap, n, depth)->Ok_0;
        match entries_of(snap)[n - 1] {
            EntrySnapshot::Directory { tree, .. } => {
                let child = scan_dir(cfg, tree, depth + 1)->Ok_0;
                assert(after.children.drop_last() =~= before.children);
            },
            _ => {},
        }
    }
}

/// **Depth bound.** Below a scan with depth limit `k`, every node that lies
/// `k + 1` levels under the root is an empty leaf: no directory deeper than
/// `k` was opened.
pub proof fn lemma_depth_bound(cfg: ScanSettings, snap: DirSnapshot, depth: nat)
    requires
        scan_dir(cfg, snap, depth) is Ok,
        depth <= cfg.max_depth + 1,
    ensures
        unopened_at(scan_dir(cfg, snap, depth)->Ok_0, (cfg.max_depth + 1 - depth) as nat),
    decreases snap, entries_of(snap).len() + 1,
{
    let node = scan_dir(cfg, snap, depth)->Ok_0;
    let levels = (cfg.max_depth + 1 - depth) as nat;
    if depth > cfg.max_depth {
    } else if was_opened(cfg, snap, depth) {
        let n = processed_entries(cfg, snap, depth);
        lemma_depth_bound_entries(cfg, snap, n, depth);
        let tally = scan_entries(cfg, snap, n, depth)->Ok_0;
        assert forall|i: int| 0 <= i < node.subdirectories.len() implies unopened_at(
            #[trigger] node.subdirectories[i],
            (levels - 1) as nat,
        ) by {
            lemma_arranged_member(tally.children, tally.size, i);
            let k = choose|k: int|
                0 <= k < tally.children.len() && arranged(tally.children, tally.size)[i] == with_share(
                    #[trigger] tally.children[k],
                    tally.size,
                );
            lemma_share_keeps_bound(tally.children[k], tally.size, (levels - 1) as nat);
        }
    } else {
        assert(node.subdirectories.len() == 0);
    }
}

/// The share of a node does not change what lies below it.
pub proof fn lemma_share_keeps_bound(c: DirectoryNode, total: u64, levels: nat)
    requires
        unopened_at(c, levels),
    ensures
        unopened_at(with_share(c, total), levels),
{
    if levels > 0 {
        assert forall|i: int| 0 <= i < with_share(c, total).subdirectories.len() implies unopened_at(
            #[trigger] with_share(c, total).subdirectories[i],
            (levels - 1) as nat,
        ) by {
            assert(with_share(c, total).subdirectories[i] == c.subdirectories[i]);
        }
    }
}

/// The children gathered from the first `n` entries obey the depth bound.
pub proof fn lemma_depth_bound_entries(cfg: ScanSettings, snap: DirSnapshot, n: nat, depth: nat)
    requires
        scan_entries(cfg, snap, n, depth) is Ok,
        depth <= cfg.max_depth,
    ensures
        forall|k: int|
            0 <= k < scan_entries(cfg, snap, n, depth)->Ok_0.children.len() ==> unopened_at(
                #[trigger] scan_entries(cfg, snap, n, depth)->Ok_0.children[k],
                (cfg.max_depth - depth) as nat,
            ),
    decreases snap, n,
{
    if n == 0 || n > entries_of(snap).len() {
    } else {
        lemma_depth_bound_entries(cfg, snap, (n - 1) as nat, depth);
        match entries_of(snap)[n - 1] {
            EntrySnapshot::Directory { tree, .. } => {
                lemma_depth_bound(cfg, tree, depth + 1);
            },
            _ => {},
        }
    }
}

/// **Sort invariant.** In every node of a scanned tree the children stand
/// largest first, and each carries its share of the size of its parent.
pub proof fn lemma_sorted_by_size(cfg: ScanSettings, snap: DirSnapshot, depth: nat)
    requires
        scan_dir(cfg, snap, depth) is Ok,
    ensures
        largest_first(scan_dir(cfg, snap, depth)->Ok_0),
        shares_of_parent(scan_dir(cfg, snap, depth)->Ok_0),
    decreases snap, entries_of(snap).len() + 1,
{
    let node = scan_dir(cfg, snap, depth)->Ok_0;
    if was_opened(cfg, snap, depth) && !snap.cancel_seen {
        let n = processed_entries(cfg, snap, depth);
        lemma_sorted_entries(cfg, snap, n, depth);
        let tally = scan_entries(cfg, snap, n, depth)->Ok_0;
        let sorted = stable_sort(tally.children, node_size(), true);
        lemma_stable_sort(tally.children, node_size(), true);
        assert forall|i: int, j: int| 0 <= i < j < node.subdirectories.len() implies (
        #[trigger] node.subdirectories[i]).size >= (#[trigger] node.subdirectories[j]).size by {
            assert(stays_before(node_size()(sorted[i]), node_size()(sorted[j]), true));
        }
        assert forall|i: int| 0 <= i < node.subdirectories.len() implies largest_first(
            #[trigger] node.subdirectories[i],
        ) && shares_of_parent(node.subdirectories[i]) by {
            lemma_arranged_member(tally.children, tally.size, i);
            let k = choose|k: int|
                0 <= k < tally.children.len() && arranged(tally.children, tally.size)[i] == with_share(
                    #[trigger] tally.children[k],
                    tally.size,
                );
            lemma_share_keeps_order(tally.children[k], tally.size);
        }
    } else {
        assert(node.subdirectories.len() == 0);
    }
}

/// The share of a node does not change the order below it.
pub proof fn lemma_share_keeps_order(c: DirectoryNode, total: u64)
    requires
        largest_first(c),
        shares_of_parent(c),
    ensures
        largest_first(with_share(c, total)),
        shares_of_parent(with_share(c, total)),
{
    let w = with_share(c, total);
    assert(w.subdirectories == c.subdirectories);
    assert forall|i: int| 0 <= i < w.subdirectories.len() implies largest_first(
        #[trigger] w.subdirectories[i],
    ) by {
        assert(largest_first(c.subdirectories[i]));
    }
    assert forall|i: int| 0 <= i < w.subdirectories.len() implies {
        &&& (#[trigger] w.subdirectories[i]).size_percentage.part == w.subdirectories[i].size
        &&& w.subdirectories[i].size_percentage.whole == w.size
        &&& shares_of_parent(w.subdirectories[i])
    } by {
        assert(c.subdirectories[i].size_percentage.whole == c.size);
    }
}

/// The children gathered from the first `n` entries are ordered within.
pub proof fn lemma_sorted_entries(cfg: ScanSettings, snap: DirSnapshot, n: nat, depth: nat)
    requires
        scan_entries(cfg, snap, n, depth) is Ok,
    ensures
        forall|k: int|
            0 <= k < scan_entries(cfg, snap, n, depth)->Ok_0.children.len() ==> largest_first(
                #[trigger] scan_entries(cfg, snap, n, depth)->Ok_0.children[k],
            ) && shares_of_parent(scan_entries(cfg, snap, n, depth)->Ok_0.children[k]),
    decreases snap, n,
{
    if n == 0 || n > entries_of(snap).len() {
    } else {
        lemma_sorted_entries(cfg, snap, (n - 1) as nat, depth);
        match entries_of(snap)[n - 1] {
            EntrySnapshot::Directory { tree, .. } => {
                lemma_sorted_by_size(cfg, tree, depth + 1);
            },
            _ => {},
        }
    }
}

/// A node is marked large exactly when it was opened and its size reaches the threshold.
pub proof fn lemma_large_flag(cfg: ScanSettings, snap: DirSnapshot, depth: nat)
    requires
        scan_dir(cfg, snap, depth) is Ok,
    ensures
        scan_dir(cfg, snap, depth)->Ok_0.is_large_folder == (was_opened(cfg, snap, depth) && scan_dir(
            cfg,
            snap,
            depth,
        )->Ok_0.size >= cfg.large_folder_threshold),
{
}

/// **Cancellation ends the scan.** A scan ends with the cancelled error
/// as soon as the walk has seen cancellation: on entering the directory,
/// or at the boundary of any entry that is processed.
pub proof fn lemma_cancellation_ends_scan(cfg: ScanSettings, snap: DirSnapshot, depth: nat, k: int)
    requires
        snap.cancel_seen || (was_opened(cfg, snap, depth) && 0 <= k < processed_entries(
            cfg,
            snap,
            depth,
        ) && entry_cancelled(entries_of(snap)[k])),
    ensures
        scan_dir(cfg, snap, depth) == Err::<DirectoryNode, Seq<char>>(cancelled_text()),
{
    if !snap.cancel_seen {
        let n = processed_entries(cfg, snap, depth);
        lemma_entries_fail_by_cancellation(cfg, snap, (k + 1) as nat, depth);
        assert(scan_entries(cfg, snap, (k + 1) as nat, depth) is Err) by {
            if scan_entries(cfg, snap, k as nat, depth) is Ok {
            }
        }
        crate::disk_analyzer::lemma_error_stays(cfg, snap, (k + 1) as nat, n, depth);
    }
}

/// The walk saw cancellation where the scan looks: on entering the
/// directory, or, where the directory is opened, at the boundary of one of
/// the entries that are processed or anywhere in a directory among them.
pub open spec fn meets_cancellation(cfg: ScanSettings, snap: DirSnapshot, depth: nat) -> bool
    decreases snap, entries_of(snap).len() + 1,
{
    snap.cancel_seen || (was_opened(cfg, snap, depth) && meets_cancellation_among(
        cfg,
        snap,
        processed_entries(cfg, snap, depth),
        depth,
    ))
}

/// The walk saw cancellation at or in one of the first `n` entries of `snap`.
pub open spec fn meets_cancellation_among(cfg: ScanSettings, snap: DirSnapshot, n: nat, depth: nat) -> bool
    decreases snap, n,
{
    if n == 0 || n > entries_of(snap).len() {
        false
    } else {
        let e = entries_of(snap)[n - 1];
        meets_cancellation_among(cfg, snap, (n - 1) as nat, depth) || entry_cancelled(e) || match e {
            EntrySnapshot::Directory { tree, .. } => meets_cancellation(cfg, tree, depth + 1),
            _ => false,
        }
    }
}

/// **Cancellation anywhere ends the scan.** Wherever in the tree the walk
/// saw cancellation, at whatever depth, the scan ends with the cancelled
/// error and with no tree. And a scan below the root, or of a root that
/// could be listed, fails in no other case: without cancellation it yields
/// its tree.
pub proof fn lemma_cancellation_anywhere(cfg: ScanSettings, snap: DirSnapshot, depth: nat)
    ensures
        meets_cancellation(cfg, snap, depth) ==> scan_dir(cfg, snap, depth) == Err::<
            DirectoryNode,
            Seq<char>,
        >(cancelled_text()),
        depth > 0 || !(snap.listing is Failed) ==> (scan_dir(cfg, snap, depth) is Err
            <==> meets_cancellation(cfg, snap, depth)),
    decreases snap, entries_of(snap).len() + 1,
{
    if was_opened(cfg, snap, depth) && !snap.cancel_seen {
        lemma_cancellation_among(cfg, snap, processed_entries(cfg, snap, depth), depth);
    }
    if scan_dir(cfg, snap, depth) is Err && (depth > 0 || !(snap.listing is Failed)) {
        lemma_fails_by_cancellation(cfg, snap, depth);
    }
}

/// The first `n` entries of a directory fail exactly where the walk saw
/// cancellation at or in one of them.
pub proof fn lemma_cancellation_among(cfg: ScanSettings, snap: DirSnapshot, n: nat, depth: nat)
    requires
        n <= entries_of(snap).len(),
    ensures
        scan_entries(cfg, snap, n, depth) is Err <==> meets_cancellation_among(cfg, snap, n, depth),
    decreases snap, n,
{
    if n > 0 {
        lemma_cancellation_among(cfg, snap, (n - 1) as nat, depth);
        match entries_of(snap)[n - 1] {
            EntrySnapshot::Directory { tree, .. } => {
                lemma_cancellation_anywhere(cfg, tree, depth + 1);
            },
            _ => {},
        }
    }
}

/// A scan below the root, or of a root that could be listed, fails by cancellation only.
pub proof fn lemma_fails_by_cancellation(cfg: ScanSettings, snap: DirSnapshot, depth: nat)
    requires
        scan_dir(cfg, snap, depth) is Err,
        depth > 0 || !(snap.listing is Failed),
    ensures
        scan_dir(cfg, snap, depth) == Err::<DirectoryNode, Seq<char>>(cancelled_text()),
    decreases snap, entries_of(snap).len() + 1,
{
    if was_opened(cfg, snap, depth) && !snap.cancel_seen {
        lemma_entries_fail_by_cancellation(cfg, snap, processed_entries(cfg, snap, depth), depth);
    }
}

/// The entries of a directory fail by cancellation only.
pub proof fn lemma_entries_fail_by_cancellation(cfg: ScanSettings, snap: DirSnapshot, n: nat, depth: nat)
    ensures
        scan_entries(cfg, snap, n, depth) is Err ==> scan_entries(cfg, snap, n, depth)->Err_0
            == cancelled_text(),
    decreases snap, n,
{
    if n == 0 || n > entries_of(snap).len() {
    } else {
        lemma_entries_fail_by_cancellation(cfg, snap, (n - 1) as nat, depth);
        match entries_of(snap)[n - 1] {
            EntrySnapshot::Directory { tree, .. } => {
                if scan_dir(cfg, tree, depth + 1) is Err {
                    lemma_fails_by_cancellation(cfg, tree, depth + 1);
                }
            },
            _ => {},
        }
    }
}

/// The walk met nothing that a scan treats specially: no cancellation, no
/// directory beyond the depth limit, no protected path, no directory that
/// could not be listed, and no directory with more entries than are processed.
pub open spec fn plainly_walked(cfg: ScanSettings, snap: DirSnapshot, depth: nat) -> bool
    decreases snap,
{
    &&& was_opened(cfg, snap, depth)
    &&& !snap.cancel_seen
    &&& entries_of(snap).len() <= entry_limit(cfg, depth)
    &&& forall|i: int|
        0 <= i < entries_of(snap).len() ==> !entry_cancelled(#[trigger] entries_of(snap)[i]) && (
        entries_of(snap)[i] matches EntrySnapshot::Directory { tree, .. } ==> plainly_walked(
            cfg,
            tree,
            depth + 1,
        ))
}

/// **The size is the size of the tree.** Where the walk met nothing that a
/// scan treats specially and every entry could be read, the size of the
/// node is the sum of the lengths of all files in and below the directory.
pub proof fn lemma_size_is_whole_size(cfg: ScanSettings, snap: DirSnapshot, depth: nat)
    requires
        plainly_walked(cfg, snap, depth),
        whole_size(snap) is Ok,
    ensures
        scan_dir(cfg, snap, depth) is Ok,
        scan_dir(cfg, snap, depth)->Ok_0.size == whole_size(snap)->Ok_0,
    decreases snap, entries_of(snap).len() + 1,
{
    lemma_tally_is_whole_size(cfg, snap, entries_of(snap).len(), depth);
}

/// The tally of the first `n` entries of a plainly walked directory sums their whole sizes.
pub proof fn lemma_tally_is_whole_size(cfg: ScanSettings, snap: DirSnapshot, n: nat, depth: nat)
    requires
        plainly_walked(cfg, snap, depth),
        whole_size_of(snap, n) is Ok,
        n <= entries_of(snap).len(),
    ensures
        scan_entries(cfg, snap, n, depth) is Ok,
        scan_entries(cfg, snap, n, depth)->Ok_0.size == whole_size_of(snap, n)->Ok_0,
    decreases snap, n,
{
    if n > 0 {
        lemma_tally_is_whole_size(cfg, snap, (n - 1) as nat, depth);
        let e = entries_of(snap)[n - 1];
        assert(!entry_cancelled(e));
        match e {
            EntrySnapshot::Directory { tree, .. } => {
                assert(plainly_walked(cfg, tree, depth + 1));
                lemma_size_is_whole_size(cfg, tree, depth + 1);
            },
            _ => {},
        }
    }
}

} // verus!
