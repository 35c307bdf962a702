//! The items a treemap shows for one directory: its subdirectories and the files directly in
//! it, largest first, with the smallest folded into one "other" item when there are too many.
use vstd::prelude::*;
use crate::model::{node_records, spec_path_label, text_less, DirectoryRecord, DirectoryTree, ScanStats};
use crate::order::{key_lt, lemma_key_order};
use crate::sorted::{is_sorted, merge_sort, strict_weak};
use crate::text::{chars_of, string_from_chars};
use crate::winpath::{comps, parent, parent_chars, path_starts_with, path_starts_with_chars};

verus! {

/// What a treemap item stands for.
#[derive(Debug, Clone, Copy, PartialEq, Eq, Structural)]
pub enum TreemapItemKind {
    /// A subdirectory, which can be entered.
    Directory,
    /// The files directly in the directory shown.
    DirectFiles { file_count: u64 },
    /// The items too small to be shown one by one.
    Other { item_count: usize },
}

/// One rectangle of a treemap.
#[derive(Debug, Clone)]
pub struct TreemapItem {
    pub label: String,
    pub path: String,
    pub size: u64,
    pub kind: TreemapItemKind,
}

/// Label of the item that stands for the files directly in a directory.
pub open spec fn direct_files_label() -> Seq<char> {
    "[当前目录文件]"@
}

/// Label of the item that gathers the hidden items.
pub open spec fn other_label() -> Seq<char> {
    "[其他]"@
}

impl TreemapItem {
    /// A subdirectory.
    pub fn directory(label: String, path: String, size: u64) -> (r: Self)
        ensures
            r.label == label,
            r.path == path,
            r.size == size,
            r.kind == TreemapItemKind::Directory,
    {
        TreemapItem { label, path, size, kind: TreemapItemKind::Directory }
    }

    /// The `file_count` files directly in the directory at `path`.
    pub fn direct_files(path: String, file_count: u64, size: u64) -> (r: Self)
        ensures
            r.label@ == direct_files_label(),
            r.path == path,
            r.size == size,
            r.kind == (TreemapItemKind::DirectFiles { file_count }),
    {
        proof {
            reveal_strlit("[当前目录文件]");
        }
        TreemapItem { label: String::from_str("[当前目录文件]"), path, size, kind: TreemapItemKind::DirectFiles { file_count } }
    }

    /// The `item_count` hidden items of the directory at `path`.
    pub fn other(path: String, item_count: usize, size: u64) -> (r: Self)
        ensures
            r.label@ == other_label(),
            r.path == path,
            r.size == size,
            r.kind == (TreemapItemKind::Other { item_count }),
    {
        proof {
            reveal_strlit("[其他]");
        }
        TreemapItem { label: String::from_str("[其他]"), path, size, kind: TreemapItemKind::Other { item_count } }
    }

    fn copy(&self) -> (r: Self)
        ensures
            r == *self,
    {
        TreemapItem { label: self.label.clone(), path: self.path.clone(), size: self.size, kind: self.kind }
    }
}

/// Larger items first, then by label.
pub open spec fn item_order() -> spec_fn(TreemapItem, TreemapItem) -> bool {
    |a: TreemapItem, b: TreemapItem| key_lt((-(a.size as int), 0, a.label@), (-(b.size as int), 0, b.label@))
}

/// Sum of the sizes, capped at `u64::MAX` at each step.
pub open spec fn capped_size_sum(items: Seq<TreemapItem>) -> u64
    decreases items.len(),
{
    if items.len() == 0 {
        0
    } else {
        let s = capped_size_sum(items.drop_last()) + items.last().size;
        if s > u64::MAX {
            u64::MAX
        } else {
            s as u64
        }
    }
}

/// The child positions that name a node of the tree.
pub open spec fn live_children(t: DirectoryTree, cs: Seq<usize>) -> Seq<usize> {
    cs.filter(|c: usize| c < t.nodes@.len())
}

/// The unsorted items of node `k`: one per child position that names a node (with its
/// label, path and total size), then the direct files when they have a size.
pub open spec fn node_items_ok(t: DirectoryTree, k: int, items: Seq<TreemapItem>) -> bool {
    let node = t.nodes@[k];
    let kids = live_children(t, node.children@);
    let n = kids.len() as int;
    &&& items.len() == n + if node.record.direct_file_size > 0 { 1int } else { 0 }
    &&& forall|j: int| 0 <= j < n ==> {
        let child = #[trigger] t.nodes@[kids[j] as int].record;
        &&& items[j].label@ == spec_path_label(child.path@)
        &&& items[j].path == child.path
        &&& items[j].size == child.total_size
        &&& items[j].kind == TreemapItemKind::Directory
    }
    &&& node.record.direct_file_size > 0 ==> {
        &&& items[n].label@ == direct_files_label()
        &&& items[n].path == node.record.path
        &&& items[n].size == node.record.direct_file_size
        &&& items[n].kind == (TreemapItemKind::DirectFiles { file_count: node.record.direct_file_count })
    }
}

/// The items of the node at `node_index`: its subdirectories and its direct files (when
/// they have a size), larger first, then by label.
pub fn treemap_items_for_node(tree: &DirectoryTree, node_index: usize) -> (r: Vec<TreemapItem>)
    requires
        node_index < tree.nodes@.len(),
    ensures
        exists|items: Seq<TreemapItem>| node_items_ok(*tree, node_index as int, items)
            && #[trigger] r@.to_multiset() == items.to_multiset(),
        is_sorted(r@, item_order()),
{
    let node = &tree.nodes[node_index];
    let ghost kids_all = node.children@;
    let mut items: Vec<TreemapItem> = Vec::new();
    let mut i: usize = 0;
    while i < node.children.len()
        invariant
            node_index < tree.nodes@.len(),
            node == tree.nodes@[node_index as int],
            kids_all == node.children@,
            i <= kids_all.len(),
            items@.len() == live_children(*tree, kids_all.take(i as int)).len(),
            forall|j: int| 0 <= j < items@.len() ==> {
                let child = tree.nodes@[live_children(*tree, kids_all.take(i as int))[j] as int].record;
                &&& (#[trigger] items@[j]).label@ == spec_path_label(child.path@)
                &&& items@[j].path == child.path
                &&& items@[j].size == child.total_size
                &&& items@[j].kind == TreemapItemKind::Directory
            },
        decreases node.children.len() - i,
    {
        let c = node.children[i];
        let ghost before = live_children(*tree, kids_all.take(i as int));
        proof {
            assert(kids_all.take(i as int + 1).drop_last() =~= kids_all.take(i as int));
            reveal(Seq::filter);
            assert(kids_all.take(i as int + 1).last() == c);
        }
        if c < tree.nodes.len() {
            let child = &tree.nodes[c].record;
            let item = TreemapItem::directory(child.name(), child.path.clone(), child.total_size);
            items.push(item);
        }
        i = i + 1;
    }
    proof {
        assert(kids_all.take(i as int) =~= kids_all);
    }
    if node.record.direct_file_size > 0 {
        items.push(TreemapItem::direct_files(node.record.path.clone(), node.record.direct_file_count, node.record.direct_file_size));
    }
    let ghost unsorted = items@;
    proof {
        assert(node_items_ok(*tree, node_index as int, unsorted));
    }
    let less = |a: &TreemapItem, b: &TreemapItem| -> (r: bool)
        ensures
            r == item_order()(*a, *b),
        {
            if a.size != b.size {
                a.size > b.size
            } else {
                text_less(&a.label, &b.label)
            }
        };
    proof {
        lemma_key_order(item_order(), |x: TreemapItem| (-(x.size as int), 0int, x.label@));
    }
    let r = merge_sort(items, &less, Ghost(item_order()));
    proof {
        assert(node_items_ok(*tree, node_index as int, unsorted) && r@.to_multiset() == unsorted.to_multiset());
    }
    r
}

/// The items as shown with at most `limit` rectangles: unchanged when they fit (or when the
/// limit is below two); else the first `limit - 1`, then one "other" item for the rest with
/// their count and capped total size, left out when that size is zero.
pub fn treemap_items_with_other(items: Vec<TreemapItem>, dir: String, limit: usize) -> (r: Vec<TreemapItem>)
    ensures
        items@.len() <= limit || limit < 2 ==> r@ == items@,
        items@.len() > limit && limit >= 2 ==> {
            let hidden = items@.skip(limit - 1);
            let size = capped_size_sum(hidden);
            &&& r@.take(limit - 1) == items@.take(limit - 1)
            &&& size == 0 ==> r@.len() == limit - 1
            &&& size > 0 ==> r@.len() == limit && r@[limit - 1].label@ == other_label()
                && r@[limit - 1].path == dir && r@[limit - 1].size == size
                && r@[limit - 1].kind == (TreemapItemKind::Other { item_count: hidden.len() as usize })
        },
{
    if items.len() <= limit || limit < 2 {
        return items;
    }
    let ghost all = items@;
    let mut kept = items;
    let hidden = kept.split_off(limit - 1);
    assert(hidden@ =~= all.skip(limit - 1));
    assert(kept@ =~= all.take(limit - 1));
    let mut size: u64 = 0;
    let mut i: usize = 0;
    while i < hidden.len()
        invariant
            i <= hidden@.len(),
            size == capped_size_sum(hidden@.take(i as int)),
        decreases hidden.len() - i,
    {
        assert(hidden@.take(i as int + 1).drop_last() =~= hidden@.take(i as int));
        size = size.saturating_add(hidden[i].size);
        i = i + 1;
    }
    assert(hidden@.take(i as int) =~= hidden@);
    if size > 0 {
        kept.push(TreemapItem::other(dir, hidden.len(), size));
    }
    assert(kept@.take(limit - 1) =~= all.take(limit - 1));
    kept
}

/// How many rectangles a treemap shows.
pub const TREEMAP_DISPLAY_LIMIT: usize = 36;

/// The records among `dirs` that hold something, in order.
pub open spec fn nonempty_dirs(dirs: Seq<DirectoryRecord>) -> Seq<DirectoryRecord>
    decreases dirs.len(),
{
    if dirs.len() == 0 {
        Seq::empty()
    } else if dirs.last().total_size > 0 {
        nonempty_dirs(dirs.drop_last()).push(dirs.last())
    } else {
        nonempty_dirs(dirs.drop_last())
    }
}

/// The directories a treemap shows while a scan runs (before there is a tree): the
/// top-level directories when one of them holds something, else the largest directories
/// among the first `TREEMAP_DISPLAY_LIMIT` listed that hold something.
pub open spec fn scanning_dirs(stats: ScanStats) -> Seq<DirectoryRecord> {
    if exists|i: int| 0 <= i < stats.top_level_dirs@.len() && (#[trigger] stats.top_level_dirs@[i]).total_size > 0 {
        stats.top_level_dirs@
    } else {
        let n = if stats.largest_dirs@.len() < TREEMAP_DISPLAY_LIMIT {
            stats.largest_dirs@.len() as int
        } else {
            TREEMAP_DISPLAY_LIMIT as int
        };
        nonempty_dirs(stats.largest_dirs@.take(n))
    }
}

/// `item` is the treemap rectangle of directory `d`.
pub open spec fn directory_item(d: DirectoryRecord, item: TreemapItem) -> bool {
    &&& item.label@ == spec_path_label(d.path@)
    &&& item.path == d.path
    &&& item.size == d.total_size
    &&& item.kind == TreemapItemKind::Directory
}

/// The rectangles of the directories a treemap shows while a scan runs, in order.
pub fn scanning_treemap_items(stats: &ScanStats) -> (r: Vec<TreemapItem>)
    ensures
        r@.len() == scanning_dirs(*stats).len(),
        forall|i: int| 0 <= i < r@.len() ==> directory_item(scanning_dirs(*stats)[i], #[trigger] r@[i]),
{
    let top = &stats.top_level_dirs;
    let mut any = false;
    let mut i: usize = 0;
    while i < top.len()
        invariant
            i <= top@.len(),
            any == exists|j: int| 0 <= j < i && (#[trigger] top@[j]).total_size > 0,
        decreases top.len() - i,
    {
        if top[i].total_size > 0 {
            any = true;
        }
        i = i + 1;
    }
    let mut r: Vec<TreemapItem> = Vec::new();
    if any {
        let mut k: usize = 0;
        while k < top.len()
            invariant
                k <= top@.len(),
                any,
                scanning_dirs(*stats) == top@,
                r@.len() == k,
                forall|j: int| 0 <= j < k ==> directory_item(top@[j], #[trigger] r@[j]),
            decreases top.len() - k,
        {
            let d = &top[k];
            r.push(TreemapItem::directory(d.name(), d.path.clone(), d.total_size));
            k = k + 1;
        }
    } else {
        let largest = &stats.largest_dirs;
        let n = if largest.len() < TREEMAP_DISPLAY_LIMIT {
            largest.len()
        } else {
            TREEMAP_DISPLAY_LIMIT
        };
        let ghost firsts = largest@.take(n as int);
        let mut k: usize = 0;
        while k < n
            invariant
                n <= largest@.len(),
                k <= n,
                firsts == largest@.take(n as int),
                r@.len() == nonempty_dirs(firsts.take(k as int)).len(),
                forall|j: int| 0 <= j < r@.len() ==> directory_item(nonempty_dirs(firsts.take(k as int))[j], #[trigger] r@[j]),
            decreases n - k,
        {
            assert(firsts.take(k as int + 1).drop_last() =~= firsts.take(k as int));
            assert(firsts.take(k as int + 1).last() == largest@[k as int]);
            let d = &largest[k];
            if d.total_size > 0 {
                r.push(TreemapItem::directory(d.name(), d.path.clone(), d.total_size));
            }
            k = k + 1;
        }
        assert(firsts.take(n as int) =~= firsts);
    }
    r
}

/// The same path, component by component.
pub open spec fn same_path(a: Seq<char>, b: Seq<char>) -> bool {
    comps(a) == comps(b)
}

/// The directory one level up from `current` in a treemap rooted at `root`: the root itself
/// at the root, else the parent when it lies inside the root, else the root.
pub open spec fn spec_treemap_parent_dir(root: Seq<char>, current: Seq<char>) -> Seq<char> {
    if same_path(current, root) {
        root
    } else {
        match parent(current) {
            Some(p) => if path_starts_with(p, root) {
                p
            } else {
                root
            },
            None => root,
        }
    }
}

/// The directory one level up from `current` in a treemap rooted at `root`.
pub fn treemap_parent_dir(root: &str, current: &str) -> (r: String)
    ensures
        r@ == spec_treemap_parent_dir(root@, current@),
{
    let rv = chars_of(root);
    let cv = chars_of(current);
    if path_starts_with_chars(cv.as_slice(), rv.as_slice()) && path_starts_with_chars(rv.as_slice(), cv.as_slice()) {
        assert(comps(cv@) =~= comps(rv@));
        return String::from_str(root);
    }
    match parent_chars(cv.as_slice()) {
        Some(p) => {
            if path_starts_with_chars(p.as_slice(), rv.as_slice()) {
                string_from_chars(p.as_slice())
            } else {
                String::from_str(root)
            }
        },
        None => String::from_str(root),
    }
}

} // verus!
