//! Duplicate files: candidates of one size are grouped by content hash, one copy of each
//! group is kept and the others are counted as reclaimable unless they are protected.
use std::sync::Arc;
use vstd::prelude::*;
use crate::cleanup::{is_protected_path, sat_add, spec_is_protected, truncated};
use crate::grouping::{group_by_size, group_by_text, keep_shared, keep_shared_groups, partitions};
use crate::order::{compare_text_chars, key_lt, lemma_key_order, text_lt};
use crate::sorted::{
    insert_pos, insert_sorted, is_sorted, lemma_insert_pos, lemma_insert_sorted_sorted, merge_sort,
    strict_weak,
};
use crate::text::{chars_of, copy_strings};
use crate::winpath::{path_order_chars, path_order_text};

verus! {

/// The smallest file size looked at by default.
pub const DEFAULT_MIN_DUPLICATE_SIZE: u64 = 1;

/// How many groups a preview keeps.
pub const RETAINED_GROUP_LIMIT: usize = 200;

/// How many error messages a preview keeps.
pub const RETAINED_ERROR_LIMIT: usize = 300;

/// Where to look for duplicates, and the smallest size that counts.
#[derive(Debug, Clone)]
pub struct DuplicatePreviewOptions {
    pub root: String,
    pub min_size: u64,
}

impl Default for DuplicatePreviewOptions {
    fn default() -> (r: Self)
        ensures
            r.root@ == Seq::<char>::empty(),
            r.min_size == DEFAULT_MIN_DUPLICATE_SIZE,
    {
        DuplicatePreviewOptions { root: String::new(), min_size: DEFAULT_MIN_DUPLICATE_SIZE }
    }
}

/// Progress or completion of a duplicate search.
#[derive(Debug, Clone)]
pub enum DuplicatePreviewEvent {
    Progress(DuplicatePreviewProgress),
    Finished(DuplicatePreviewFinished),
}

#[derive(Debug, Clone)]
pub struct DuplicatePreviewProgress {
    pub preview: Arc<DuplicatePreview>,
    pub current_path: Option<String>,
    pub phase: DuplicatePreviewPhase,
    pub finished: bool,
    pub cancelled: bool,
}

#[derive(Debug, Clone)]
pub struct DuplicatePreviewFinished {
    pub preview: Arc<DuplicatePreview>,
    pub cancelled: bool,
}

/// The stage a duplicate search is in.
#[derive(Debug, Clone, Copy, PartialEq, Eq, Structural)]
pub enum DuplicatePreviewPhase {
    CollectingSizes,
    HashingCandidates,
    Finished,
}

impl DuplicatePreviewPhase {
    /// The name shown for the stage.
    pub open spec fn spec_label(self) -> Seq<char> {
        match self {
            DuplicatePreviewPhase::CollectingSizes => "收集同大小候选"@,
            DuplicatePreviewPhase::HashingCandidates => "计算候选哈希"@,
            DuplicatePreviewPhase::Finished => "完成"@,
        }
    }

    pub fn label(self) -> (r: &'static str)
        ensures
            r@ == self.spec_label(),
    {
        match self {
            DuplicatePreviewPhase::CollectingSizes => "收集同大小候选",
            DuplicatePreviewPhase::HashingCandidates => "计算候选哈希",
            DuplicatePreviewPhase::Finished => "完成",
        }
    }
}

/// The outcome of a duplicate search.
#[derive(Debug, Clone)]
pub struct DuplicatePreview {
    pub root: String,
    pub min_size: u64,
    pub scanned_file_count: u64,
    pub hashed_file_count: u64,
    pub duplicate_group_count: u64,
    pub duplicate_file_count: u64,
    pub duplicate_size: u64,
    pub reclaimable_size: u64,
    pub protected_size: u64,
    pub error_count: u64,
    pub groups: Vec<DuplicateGroup>,
    pub errors: Vec<String>,
}

/// Files with one size and one content hash.
#[derive(Debug, Clone)]
pub struct DuplicateGroup {
    pub size: u64,
    pub hash: String,
    /// The file that is kept comes first.
    pub files: Vec<DuplicateFile>,
    pub keep_path: String,
    pub duplicate_count: u64,
    pub duplicate_size: u64,
    pub reclaimable_size: u64,
    pub protected_size: u64,
}

/// One member of a duplicate group.
#[derive(Debug, Clone)]
pub struct DuplicateFile {
    pub path: String,
    pub size: u64,
    /// Modification time in seconds since the epoch.
    pub modified: Option<u64>,
    pub protected: bool,
    pub keep: bool,
}

/// A file that may have duplicates.
#[derive(Debug, Clone)]
pub struct CandidateFile {
    pub path: String,
    pub size: u64,
    /// Modification time in seconds since the epoch.
    pub modified: Option<u64>,
}

impl CandidateFile {
    /// A copy of the candidate.
    pub fn copy(&self) -> (r: CandidateFile)
        ensures
            r == *self,
    {
        CandidateFile { path: self.path.clone(), size: self.size, modified: self.modified }
    }
}

impl DuplicateFile {
    /// The candidate this member was made from.
    pub open spec fn candidate(self) -> CandidateFile {
        CandidateFile { path: self.path, size: self.size, modified: self.modified }
    }

    /// A copy of the member.
    pub fn copy(&self) -> (r: DuplicateFile)
        ensures
            r == *self,
    {
        DuplicateFile {
            path: self.path.clone(),
            size: self.size,
            modified: self.modified,
            protected: self.protected,
            keep: self.keep,
        }
    }
}

/// Whether a file of `size` bytes is looked at when the smallest size is `min_size`.
pub fn is_duplicate_candidate(size: u64, min_size: u64) -> (r: bool)
    ensures
        r == (size >= min_size && size > 0),
{
    size >= min_size && size > 0
}

// ---------------------------------------------------------------------------------------
// Content hashing

#[verifier::external_type_specification]
#[verifier::external_body]
pub struct ExBlake3Hasher(blake3::Hasher);

/// The bytes a BLAKE3 hasher has been fed since it was made.
pub uninterp spec fn hasher_input(hasher: blake3::Hasher) -> Seq<u8>;

/// The BLAKE3 hash of `input`, as lowercase hexadecimal.
pub uninterp spec fn blake3_hex(input: Seq<u8>) -> Seq<char>;

/// A lowercase hexadecimal digit.
pub open spec fn is_hex_digit(c: char) -> bool {
    ('0' <= c && c <= '9') || ('a' <= c && c <= 'f')
}

/// `blake3::Hasher::new`: a hasher that has been fed nothing.
#[verifier::external_body]
fn blake3_new() -> (h: blake3::Hasher)
    ensures
        hasher_input(h) == Seq::<u8>::empty(),
{
    blake3::Hasher::new()
}

/// `blake3::Hasher::update`: the hasher has then been fed `data` after what it had before.
#[verifier::external_body]
fn blake3_update(h: &mut blake3::Hasher, data: &[u8])
    ensures
        hasher_input(*final(h)) == hasher_input(*old(h)) + data@,
{
    h.update(data);
}

/// `blake3::Hasher::finalize` followed by `Hash::to_hex`: the hash of everything fed so
/// far, as 64 lowercase hexadecimal digits.
#[verifier::external_body]
fn blake3_finalize_hex(h: &blake3::Hasher) -> (hex: String)
    ensures
        hex@ == blake3_hex(hasher_input(*h)),
        hex@.len() == 64,
        forall|i: int| 0 <= i < 64 ==> is_hex_digit(#[trigger] hex@[i]),
{
    h.finalize().to_hex().to_string()
}

/// An incremental content hasher: the hash of everything fed, in order.
pub struct ContentHasher {
    inner: blake3::Hasher,
}

impl ContentHasher {
    /// The bytes fed so far.
    pub closed spec fn input(&self) -> Seq<u8> {
        hasher_input(self.inner)
    }

    pub fn new() -> (r: Self)
        ensures
            r.input() == Seq::<u8>::empty(),
    {
        ContentHasher { inner: blake3_new() }
    }

    /// Feeds `data` after what was fed before.
    pub fn update(&mut self, data: &[u8])
        ensures
            final(self).input() == old(self).input() + data@,
    {
        blake3_update(&mut self.inner, data);
    }

    /// The hash of everything fed so far.
    pub fn finalize_hex(&self) -> (hex: String)
        ensures
            hex@ == blake3_hex(self.input()),
            hex@.len() == 64,
            forall|i: int| 0 <= i < 64 ==> is_hex_digit(#[trigger] hex@[i]),
    {
        blake3_finalize_hex(&self.inner)
    }
}

/// The content hash of `data`.
pub fn content_hash(data: &[u8]) -> (hex: String)
    ensures
        hex@ == blake3_hex(data@),
        hex@.len() == 64,
{
    let mut h = ContentHasher::new();
    h.update(data);
    assert(Seq::<u8>::empty() + data@ =~= data@);
    h.finalize_hex()
}

// ---------------------------------------------------------------------------------------
// Choosing the copy to keep

/// Sort key of a modification time: unknown times come first.
pub open spec fn modified_key(m: Option<u64>) -> int {
    match m {
        Some(t) => t as int,
        None => -1,
    }
}

/// `a` is preferred over `b` as the copy to keep: older first, then by path, component by
/// component.
pub open spec fn keep_before(a: CandidateFile, b: CandidateFile) -> bool {
    key_lt(
        (modified_key(a.modified), 0, path_order_text(a.path@)),
        (modified_key(b.modified), 0, path_order_text(b.path@)),
    )
}

pub open spec fn keep_order() -> spec_fn(CandidateFile, CandidateFile) -> bool {
    |a: CandidateFile, b: CandidateFile| keep_before(a, b)
}

/// Keep preference is a strict weak order.
pub proof fn lemma_keep_order()
    ensures
        strict_weak(keep_order()),
{
    lemma_key_order(keep_order(), |c: CandidateFile| (modified_key(c.modified), 0int, path_order_text(c.path@)));
}

fn keep_before_exec(a: &CandidateFile, b: &CandidateFile) -> (r: bool)
    ensures
        r == keep_before(*a, *b),
{
    match (a.modified, b.modified) {
        (None, Some(_)) => {
            return true;
        },
        (Some(_), None) => {
            return false;
        },
        (Some(x), Some(y)) => {
            if x != y {
                return x < y;
            }
        },
        (None, None) => {},
    }
    let pa = chars_of(a.path.as_str());
    let pb = chars_of(b.path.as_str());
    let ka = path_order_chars(pa.as_slice());
    let kb = path_order_chars(pb.as_slice());
    compare_text_chars(ka.as_slice(), kb.as_slice()) < 0
}

/// Saturating sum of the sizes of the members that `pick` selects.
pub open spec fn picked_size(files: Seq<DuplicateFile>, pick: spec_fn(DuplicateFile) -> bool) -> u64
    decreases files.len(),
{
    if files.len() == 0 {
        0
    } else {
        sat_add(
            picked_size(files.drop_last(), pick),
            if pick(files.last()) {
                files.last().size
            } else {
                0
            },
        )
    }
}

pub open spec fn is_duplicate() -> spec_fn(DuplicateFile) -> bool {
    |f: DuplicateFile| !f.keep
}

pub open spec fn is_protected_duplicate() -> spec_fn(DuplicateFile) -> bool {
    |f: DuplicateFile| !f.keep && f.protected
}

pub open spec fn is_reclaimable_duplicate() -> spec_fn(DuplicateFile) -> bool {
    |f: DuplicateFile| !f.keep && !f.protected
}

/// `g` is the group made of `candidates` with content hash `hash`: its members are the
/// candidates ordered by keep preference, the first is kept, each is marked protected when
/// its path is, and the totals count the members that are not kept.
pub open spec fn group_built(hash: Seq<char>, candidates: Seq<CandidateFile>, g: DuplicateGroup) -> bool {
    let files = g.files@;
    let order = files.map_values(|f: DuplicateFile| f.candidate());
    &&& files.len() == candidates.len()
    &&& files.len() > 0
    &&& order.to_multiset() == candidates.to_multiset()
    &&& is_sorted(order, keep_order())
    &&& forall|i: int| 0 <= i < files.len() ==> (#[trigger] files[i]).keep == (i == 0)
    &&& forall|i: int| 0 <= i < files.len() ==> (#[trigger] files[i]).protected == spec_is_protected(files[i].path@)
    &&& g.hash@ == hash
    &&& g.keep_path == files[0].path
    &&& g.size == files[0].size
    &&& g.duplicate_count == files.len() - 1
    &&& g.duplicate_size == picked_size(files, is_duplicate())
    &&& g.protected_size == picked_size(files, is_protected_duplicate())
    &&& g.reclaimable_size == picked_size(files, is_reclaimable_duplicate())
}

/// The duplicate group of `candidates`, which share the content hash `hash`.
pub fn duplicate_group_from_candidates(hash: String, candidates: Vec<CandidateFile>) -> (g: DuplicateGroup)
    requires
        candidates@.len() > 0,
    ensures
        group_built(hash@, candidates@, g),
{
    let ghost original = candidates@;
    let less = |a: &CandidateFile, b: &CandidateFile| -> (r: bool)
        ensures
            r == keep_before(*a, *b),
        { keep_before_exec(a, b) };
    proof {
        lemma_keep_order();
    }
    let sorted = merge_sort(candidates, &less, Ghost(keep_order()));
    proof {
        sorted@.to_multiset_ensures();
        original.to_multiset_ensures();
    }
    let keep_path = sorted[0].path.clone();
    let size = sorted[0].size;
    let mut duplicate_size: u64 = 0;
    let mut reclaimable_size: u64 = 0;
    let mut protected_size: u64 = 0;
    let mut duplicate_count: u64 = 0;
    let mut files: Vec<DuplicateFile> = Vec::new();
    let mut i: usize = 0;
    while i < sorted.len()
        invariant
            i <= sorted@.len(),
            sorted@.len() == original.len(),
            files@.len() == i,
            forall|k: int| 0 <= k < i ==> (#[trigger] files@[k]).candidate() == sorted@[k],
            forall|k: int| 0 <= k < i ==> (#[trigger] files@[k]).keep == (k == 0),
            forall|k: int| 0 <= k < i ==> (#[trigger] files@[k]).protected == spec_is_protected(files@[k].path@),
            duplicate_count == if i == 0 { 0 } else { i - 1 },
            duplicate_size == picked_size(files@, is_duplicate()),
            protected_size == picked_size(files@, is_protected_duplicate()),
            reclaimable_size == picked_size(files@, is_reclaimable_duplicate()),
        decreases sorted.len() - i,
    {
        let c = &sorted[i];
        let keep = i == 0;
        let protected = is_protected_path(c.path.as_str());
        let f = DuplicateFile { path: c.path.clone(), size: c.size, modified: c.modified, protected, keep };
        if !keep {
            duplicate_count = duplicate_count + 1;
            duplicate_size = duplicate_size.saturating_add(c.size);
            if protected {
                protected_size = protected_size.saturating_add(c.size);
            } else {
                reclaimable_size = reclaimable_size.saturating_add(c.size);
            }
        }
        let ghost before_push = files@;
        files.push(f);
        proof {
            assert(files@.drop_last() =~= before_push);
        }
        i = i + 1;
    }
    proof {
        let order = files@.map_values(|f: DuplicateFile| f.candidate());
        assert(order =~= sorted@);
    }
    DuplicateGroup {
        size,
        hash,
        files,
        keep_path,
        duplicate_count,
        duplicate_size,
        reclaimable_size,
        protected_size,
    }
}

// ---------------------------------------------------------------------------------------
// Grouping candidates

/// The sizes of the candidates.
pub open spec fn candidate_sizes(files: Seq<CandidateFile>) -> Seq<u64> {
    files.map_values(|c: CandidateFile| c.size)
}

/// The texts of the strings.
pub open spec fn texts(hashes: Seq<String>) -> Seq<Seq<char>> {
    hashes.map_values(|h: String| h@)
}

pub open spec fn views(groups: Seq<Vec<usize>>) -> Seq<Seq<usize>> {
    groups.map_values(|v: Vec<usize>| v@)
}

/// Positions of the candidates grouped by size, keeping only sizes that at least two
/// candidates share.
pub fn duplicate_size_buckets(files: &[CandidateFile]) -> (buckets: Vec<Vec<usize>>)
    ensures
        exists|all: Seq<Seq<usize>>|
            #[trigger] partitions(all, candidate_sizes(files@)) && views(buckets@) == keep_shared(all),
{
    let mut sizes: Vec<u64> = Vec::new();
    let mut i: usize = 0;
    while i < files.len()
        invariant
            i <= files@.len(),
            sizes@ == candidate_sizes(files@).take(i as int),
        decreases files.len() - i,
    {
        sizes.push(files[i].size);
        i = i + 1;
        assert(sizes@ =~= candidate_sizes(files@).take(i as int));
    }
    assert(sizes@ =~= candidate_sizes(files@));
    let all = group_by_size(sizes.as_slice());
    let buckets = keep_shared_groups(all);
    assert(partitions(views(all@), candidate_sizes(files@)));
    buckets
}

/// The members of `files` at the positions `group`.
pub open spec fn members(files: Seq<CandidateFile>, group: Seq<usize>) -> Seq<CandidateFile> {
    group.map_values(|i: usize| files[i as int])
}

/// The groups that `groups` describes.
pub open spec fn hash_groups_built(
    files: Seq<CandidateFile>,
    hashes: Seq<String>,
    shared: Seq<Seq<usize>>,
    groups: Seq<DuplicateGroup>,
) -> bool {
    &&& groups.len() == shared.len()
    &&& forall|k: int| 0 <= k < groups.len() ==> group_built(
        hashes[shared[k][0] as int]@,
        members(files, shared[k]),
        #[trigger] groups[k],
    )
}

fn copy_members(files: &[CandidateFile], group: &Vec<usize>) -> (r: Vec<CandidateFile>)
    requires
        forall|a: int| 0 <= a < group@.len() ==> (#[trigger] group@[a]) < files@.len(),
    ensures
        r@ == members(files@, group@),
{
    let mut r: Vec<CandidateFile> = Vec::new();
    let mut a: usize = 0;
    while a < group.len()
        invariant
            a <= group@.len(),
            forall|b: int| 0 <= b < group@.len() ==> (#[trigger] group@[b]) < files@.len(),
            r@ == members(files@, group@).take(a as int),
        decreases group.len() - a,
    {
        r.push(files[group[a]].copy());
        a = a + 1;
        assert(r@ =~= members(files@, group@).take(a as int));
    }
    assert(r@ =~= members(files@, group@));
    r
}

/// The duplicate groups among candidates of one size whose content hashes are `hashes`:
/// candidates with equal hashes form a group when there are at least two of them.
pub fn duplicate_groups_by_hash(files: &[CandidateFile], hashes: &[String]) -> (groups: Vec<DuplicateGroup>)
    requires
        files@.len() == hashes@.len(),
    ensures
        exists|all: Seq<Seq<usize>>|
            #[trigger] partitions(all, texts(hashes@))
                && hash_groups_built(files@, hashes@, keep_shared(all), groups@),
{
    let mut owned: Vec<String> = Vec::new();
    let mut i: usize = 0;
    while i < hashes.len()
        invariant
            i <= hashes@.len(),
            owned@ == hashes@.take(i as int),
        decreases hashes.len() - i,
    {
        owned.push(hashes[i].clone());
        i = i + 1;
        assert(owned@ =~= hashes@.take(i as int));
    }
    assert(owned@ =~= hashes@);
    let all = group_by_text(owned.as_slice());
    let ghost all_view = views(all@);
    assert(partitions(all_view, texts(hashes@)));
    let shared = keep_shared_groups(all);
    let ghost sh = views(shared@);
    proof {
        lemma_keep_shared_members(all_view, texts(hashes@));
    }
    let mut groups: Vec<DuplicateGroup> = Vec::new();
    let mut k: usize = 0;
    while k < shared.len()
        invariant
            k <= shared@.len(),
            sh == views(shared@),
            sh == keep_shared(all_view),
            files@.len() == hashes@.len(),
            forall|g: int| 0 <= g < sh.len() ==> (#[trigger] sh[g]).len() >= 2
                && forall|a: int| 0 <= a < sh[g].len() ==> (#[trigger] sh[g][a]) < files@.len(),
            hash_groups_built(files@, hashes@, sh.take(k as int), groups@),
        decreases shared.len() - k,
    {
        let group = &shared[k];
        assert(group@ == sh[k as int]);
        let cands = copy_members(files, group);
        let first = group[0];
        let g = duplicate_group_from_candidates(hashes[first].clone(), cands);
        let ghost before = groups@;
        groups.push(g);
        k = k + 1;
        proof {
            assert forall|j: int| 0 <= j < groups@.len() implies group_built(
                hashes@[sh.take(k as int)[j][0] as int]@,
                members(files@, sh.take(k as int)[j]),
                #[trigger] groups@[j],
            ) by {
                if j < before.len() {
                    assert(sh.take(k as int)[j] == sh.take(k as int - 1)[j]);
                }
            }
        }
    }
    assert(sh.take(k as int) =~= sh);
    groups
}

/// The groups kept by `keep_shared` are groups of the partition with at least two members.
proof fn lemma_keep_shared_members<K>(all: Seq<Seq<usize>>, keys: Seq<K>)
    requires
        partitions(all, keys),
    ensures
        forall|g: int| 0 <= g < keep_shared(all).len() ==> (#[trigger] keep_shared(all)[g]).len() >= 2
            && forall|a: int| 0 <= a < keep_shared(all)[g].len() ==> (#[trigger] keep_shared(all)[g][a]) < keys.len(),
{
    lemma_keep_shared_members_aux(all, keys);
}

proof fn lemma_keep_shared_members_aux<K>(all: Seq<Seq<usize>>, keys: Seq<K>)
    requires
        forall|g: int, a: int| 0 <= g < all.len() && 0 <= a < all[g].len() ==> (#[trigger] all[g][a]) < keys.len(),
    ensures
        forall|g: int| 0 <= g < keep_shared(all).len() ==> (#[trigger] keep_shared(all)[g]).len() >= 2
            && forall|a: int| 0 <= a < keep_shared(all)[g].len() ==> (#[trigger] keep_shared(all)[g][a]) < keys.len(),
    decreases all.len(),
{
    if all.len() > 0 {
        let rest = all.drop_last();
        assert forall|g: int, a: int| 0 <= g < rest.len() && 0 <= a < rest[g].len() implies (#[trigger] rest[g][a]) < keys.len() by {
            assert(rest[g] == all[g]);
        }
        lemma_keep_shared_members_aux(rest, keys);
        let ks = keep_shared(rest);
        if all.last().len() >= 2 {
            assert(keep_shared(all) == ks.push(all.last()));
            assert forall|g: int| 0 <= g < keep_shared(all).len() implies (#[trigger] keep_shared(all)[g]).len() >= 2
                && forall|a: int| 0 <= a < keep_shared(all)[g].len() ==> (#[trigger] keep_shared(all)[g][a]) < keys.len() by {
                if g < ks.len() {
                    assert(keep_shared(all)[g] == ks[g]);
                } else {
                    assert(keep_shared(all)[g] == all[all.len() - 1]);
                }
            }
        }
    }
}

// ---------------------------------------------------------------------------------------
// Accumulating a preview

/// `a` is ranked before `b`: more reclaimable space first, then more duplicated space,
/// then by the path of the kept file, component by component.
pub open spec fn group_before(a: DuplicateGroup, b: DuplicateGroup) -> bool {
    key_lt(
        (-(a.reclaimable_size as int), -(a.duplicate_size as int), path_order_text(a.keep_path@)),
        (-(b.reclaimable_size as int), -(b.duplicate_size as int), path_order_text(b.keep_path@)),
    )
}

pub open spec fn group_order() -> spec_fn(DuplicateGroup, DuplicateGroup) -> bool {
    |a: DuplicateGroup, b: DuplicateGroup| group_before(a, b)
}

/// The ranking of groups is a strict weak order.
pub proof fn lemma_group_order()
    ensures
        strict_weak(group_order()),
{
    lemma_key_order(
        group_order(),
        |g: DuplicateGroup| (-(g.reclaimable_size as int), -(g.duplicate_size as int), path_order_text(g.keep_path@)),
    );
}

fn group_before_exec(a: &DuplicateGroup, b: &DuplicateGroup) -> (r: bool)
    ensures
        r == group_before(*a, *b),
{
    if a.reclaimable_size != b.reclaimable_size {
        return a.reclaimable_size > b.reclaimable_size;
    }
    if a.duplicate_size != b.duplicate_size {
        return a.duplicate_size > b.duplicate_size;
    }
    let pa = chars_of(a.keep_path.as_str());
    let pb = chars_of(b.keep_path.as_str());
    let ka = path_order_chars(pa.as_slice());
    let kb = path_order_chars(pb.as_slice());
    compare_text_chars(ka.as_slice(), kb.as_slice()) < 0
}

/// Running totals of a duplicate search.
#[derive(Debug, Clone)]
pub struct DuplicatePreviewAccumulator {
    pub root: String,
    pub min_size: u64,
    pub scanned_file_count: u64,
    pub hashed_file_count: u64,
    pub duplicate_group_count: u64,
    pub duplicate_file_count: u64,
    pub duplicate_size: u64,
    pub reclaimable_size: u64,
    pub protected_size: u64,
    pub error_count: u64,
    pub groups: Vec<DuplicateGroup>,
    pub errors: Vec<String>,
}

impl DuplicateGroup {
    /// `self` and `other` hold the same values.
    pub open spec fn same(self, other: DuplicateGroup) -> bool {
        &&& self.size == other.size
        &&& self.hash == other.hash
        &&& self.files@ == other.files@
        &&& self.keep_path == other.keep_path
        &&& self.duplicate_count == other.duplicate_count
        &&& self.duplicate_size == other.duplicate_size
        &&& self.reclaimable_size == other.reclaimable_size
        &&& self.protected_size == other.protected_size
    }

    /// A copy of the group.
    pub fn copy(&self) -> (r: DuplicateGroup)
        ensures
            r.same(*self),
    {
        let mut files: Vec<DuplicateFile> = Vec::new();
        let mut i: usize = 0;
        while i < self.files.len()
            invariant
                i <= self.files@.len(),
                files@ == self.files@.take(i as int),
            decreases self.files.len() - i,
        {
            files.push(self.files[i].copy());
            i = i + 1;
            assert(files@ =~= self.files@.take(i as int));
        }
        assert(files@ =~= self.files@);
        DuplicateGroup {
            size: self.size,
            hash: self.hash.clone(),
            files,
            keep_path: self.keep_path.clone(),
            duplicate_count: self.duplicate_count,
            duplicate_size: self.duplicate_size,
            reclaimable_size: self.reclaimable_size,
            protected_size: self.protected_size,
        }
    }
}

/// Two lists of groups hold the same values.
pub open spec fn same_groups(a: Seq<DuplicateGroup>, b: Seq<DuplicateGroup>) -> bool {
    a.len() == b.len() && forall|i: int| 0 <= i < a.len() ==> (#[trigger] a[i]).same(b[i])
}

fn copy_groups(v: &Vec<DuplicateGroup>) -> (r: Vec<DuplicateGroup>)
    ensures
        same_groups(r@, v@),
{
    let mut r: Vec<DuplicateGroup> = Vec::new();
    let mut i: usize = 0;
    while i < v.len()
        invariant
            i <= v@.len(),
            r@.len() == i,
            forall|k: int| 0 <= k < i ==> (#[trigger] r@[k]).same(v@[k]),
        decreases v.len() - i,
    {
        r.push(v[i].copy());
        i = i + 1;
    }
    r
}

impl DuplicatePreviewAccumulator {
    /// Retained groups are ranked and bounded; retained errors are bounded.
    pub open spec fn wf(self) -> bool {
        &&& is_sorted(self.groups@, group_order())
        &&& self.groups@.len() <= RETAINED_GROUP_LIMIT
        &&& self.errors@.len() <= RETAINED_ERROR_LIMIT
    }

    /// An empty accumulator for a search under `root` for files of at least `min_size` bytes.
    pub fn new(root: &str, min_size: u64) -> (r: Self)
        ensures
            r.wf(),
            r.root@ == root@,
            r.min_size == min_size,
            r.scanned_file_count == 0,
            r.hashed_file_count == 0,
            r.duplicate_group_count == 0,
            r.duplicate_file_count == 0,
            r.duplicate_size == 0,
            r.reclaimable_size == 0,
            r.protected_size == 0,
            r.error_count == 0,
            r.groups@.len() == 0,
            r.errors@.len() == 0,
    {
        DuplicatePreviewAccumulator {
            root: String::from_str(root),
            min_size,
            scanned_file_count: 0,
            hashed_file_count: 0,
            duplicate_group_count: 0,
            duplicate_file_count: 0,
            duplicate_size: 0,
            reclaimable_size: 0,
            protected_size: 0,
            error_count: 0,
            groups: Vec::new(),
            errors: Vec::new(),
        }
    }

    /// Counts a group into the totals; the group joins the ranked list, which keeps the
    /// 200 best.
    pub fn record_group(&mut self, group: DuplicateGroup)
        requires
            old(self).wf(),
            old(self).duplicate_group_count < u64::MAX,
        ensures
            final(self).wf(),
            final(self).duplicate_group_count == old(self).duplicate_group_count + 1,
            final(self).duplicate_file_count == sat_add(old(self).duplicate_file_count, group.duplicate_count),
            final(self).duplicate_size == sat_add(old(self).duplicate_size, group.duplicate_size),
            final(self).reclaimable_size == sat_add(old(self).reclaimable_size, group.reclaimable_size),
            final(self).protected_size == sat_add(old(self).protected_size, group.protected_size),
            final(self).groups@ == truncated(
                insert_sorted(old(self).groups@, group, group_order()),
                RETAINED_GROUP_LIMIT as int,
            ),
            final(self).root == old(self).root,
            final(self).min_size == old(self).min_size,
            final(self).scanned_file_count == old(self).scanned_file_count,
            final(self).hashed_file_count == old(self).hashed_file_count,
            final(self).error_count == old(self).error_count,
            final(self).errors == old(self).errors,
    {
        self.duplicate_group_count = self.duplicate_group_count + 1;
        self.duplicate_file_count = self.duplicate_file_count.saturating_add(group.duplicate_count);
        self.duplicate_size = self.duplicate_size.saturating_add(group.duplicate_size);
        self.reclaimable_size = self.reclaimable_size.saturating_add(group.reclaimable_size);
        self.protected_size = self.protected_size.saturating_add(group.protected_size);
        let ghost old_list = self.groups@;
        let mut k: usize = 0;
        let mut found = false;
        while k < self.groups.len() && !found
            invariant
                k <= self.groups@.len(),
                self.groups@ == old_list,
                forall|j: int| 0 <= j < k ==> !group_order()(group, #[trigger] old_list[j]),
                found ==> k < old_list.len() && group_order()(group, old_list[k as int]),
            decreases self.groups.len() - k, if found { 0int } else { 1int },
        {
            if group_before_exec(&group, &self.groups[k]) {
                found = true;
            } else {
                k = k + 1;
            }
        }
        proof {
            lemma_insert_pos(old_list, group, group_order(), k as int);
            lemma_group_order();
            lemma_insert_sorted_sorted(old_list, group, group_order());
        }
        self.groups.insert(k, group);
        assert(self.groups@ =~= insert_sorted(old_list, group, group_order()));
        if self.groups.len() > RETAINED_GROUP_LIMIT {
            self.groups.truncate(RETAINED_GROUP_LIMIT);
        }
    }

    /// Counts an error; the first 300 messages are kept.
    pub fn record_error(&mut self, message: String)
        requires
            old(self).wf(),
            old(self).error_count < u64::MAX,
        ensures
            final(self).wf(),
            final(self).error_count == old(self).error_count + 1,
            old(self).errors@.len() < RETAINED_ERROR_LIMIT ==> final(self).errors@ == old(self).errors@.push(message),
            old(self).errors@.len() >= RETAINED_ERROR_LIMIT ==> final(self).errors@ == old(self).errors@,
            final(self).groups == old(self).groups,
            final(self).root == old(self).root,
            final(self).min_size == old(self).min_size,
            final(self).scanned_file_count == old(self).scanned_file_count,
            final(self).hashed_file_count == old(self).hashed_file_count,
            final(self).duplicate_group_count == old(self).duplicate_group_count,
            final(self).duplicate_file_count == old(self).duplicate_file_count,
            final(self).duplicate_size == old(self).duplicate_size,
            final(self).reclaimable_size == old(self).reclaimable_size,
            final(self).protected_size == old(self).protected_size,
    {
        self.error_count = self.error_count + 1;
        if self.errors.len() < RETAINED_ERROR_LIMIT {
            self.errors.push(message);
        }
    }

    /// The preview so far.
    pub fn snapshot(&self) -> (r: DuplicatePreview)
        ensures
            r.root == self.root,
            r.min_size == self.min_size,
            r.scanned_file_count == self.scanned_file_count,
            r.hashed_file_count == self.hashed_file_count,
            r.duplicate_group_count == self.duplicate_group_count,
            r.duplicate_file_count == self.duplicate_file_count,
            r.duplicate_size == self.duplicate_size,
            r.reclaimable_size == self.reclaimable_size,
            r.protected_size == self.protected_size,
            r.error_count == self.error_count,
            same_groups(r.groups@, self.groups@),
            r.errors@ == self.errors@,
    {
        DuplicatePreview {
            root: self.root.clone(),
            min_size: self.min_size,
            scanned_file_count: self.scanned_file_count,
            hashed_file_count: self.hashed_file_count,
            duplicate_group_count: self.duplicate_group_count,
            duplicate_file_count: self.duplicate_file_count,
            duplicate_size: self.duplicate_size,
            reclaimable_size: self.reclaimable_size,
            protected_size: self.protected_size,
            error_count: self.error_count,
            groups: copy_groups(&self.groups),
            errors: copy_strings(&self.errors),
        }
    }
}

} // verus!
