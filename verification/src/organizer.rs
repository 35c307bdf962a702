//! Moving personal folders (desktop, documents, downloads, ...) to another drive: the
//! preview of what would move, the choice of target for each item, and the tally of a
//! transfer that copies, checks and only then removes the source.
use vstd::prelude::*;
use crate::text::{chars_of, decimal, decimal_chars, push_all, push_lit, string_from_chars};
use crate::winpath::{
    comps, components_of, file_name, file_name_chars, is_sep, name_extension, name_extension_chars,
    name_stem, name_stem_chars, parent, parent_chars, path_starts_with, path_starts_with_chars,
};

verus! {

/// Personal data folders under the user profile.
#[derive(Debug, Clone, Copy, PartialEq, Eq, Hash, Structural)]
pub enum PersonalFolder {
    Desktop,
    Documents,
    Downloads,
    Pictures,
    Videos,
    Music,
    Favorites,
}

impl Default for PersonalFolder {
    fn default() -> (r: Self)
        ensures
            r == PersonalFolder::Desktop,
    {
        PersonalFolder::Desktop
    }
}

impl PersonalFolder {
    pub fn label(self) -> (r: &'static str)
        ensures
            r@ == (match self {
                PersonalFolder::Desktop => "桌面"@,
                PersonalFolder::Documents => "文档"@,
                PersonalFolder::Downloads => "下载"@,
                PersonalFolder::Pictures => "图片"@,
                PersonalFolder::Videos => "视频"@,
                PersonalFolder::Music => "音乐"@,
                PersonalFolder::Favorites => "收藏夹"@,
            }),
    {
        match self {
            PersonalFolder::Desktop => "桌面",
            PersonalFolder::Documents => "文档",
            PersonalFolder::Downloads => "下载",
            PersonalFolder::Pictures => "图片",
            PersonalFolder::Videos => "视频",
            PersonalFolder::Music => "音乐",
            PersonalFolder::Favorites => "收藏夹",
        }
    }

    /// The folder's name under the target root.
    pub fn default_folder_name(self) -> (r: &'static str)
        ensures
            r@ == self.spec_folder_name(),
    {
        match self {
            PersonalFolder::Desktop => "Desktop",
            PersonalFolder::Documents => "Documents",
            PersonalFolder::Downloads => "Downloads",
            PersonalFolder::Pictures => "Pictures",
            PersonalFolder::Videos => "Videos",
            PersonalFolder::Music => "Music",
            PersonalFolder::Favorites => "Favorites",
        }
    }

    pub open spec fn spec_folder_name(self) -> Seq<char> {
        match self {
            PersonalFolder::Desktop => "Desktop"@,
            PersonalFolder::Documents => "Documents"@,
            PersonalFolder::Downloads => "Downloads"@,
            PersonalFolder::Pictures => "Pictures"@,
            PersonalFolder::Videos => "Videos"@,
            PersonalFolder::Music => "Music"@,
            PersonalFolder::Favorites => "Favorites"@,
        }
    }

    pub fn icon(self) -> (r: &'static str)
        ensures
            r@ == (match self {
                PersonalFolder::Desktop => "🖥"@,
                PersonalFolder::Documents => "📄"@,
                PersonalFolder::Downloads => "📥"@,
                PersonalFolder::Pictures => "🖼"@,
                PersonalFolder::Videos => "🎬"@,
                PersonalFolder::Music => "🎵"@,
                PersonalFolder::Favorites => "⭐"@,
            }),
    {
        match self {
            PersonalFolder::Desktop => "🖥",
            PersonalFolder::Documents => "📄",
            PersonalFolder::Downloads => "📥",
            PersonalFolder::Pictures => "🖼",
            PersonalFolder::Videos => "🎬",
            PersonalFolder::Music => "🎵",
            PersonalFolder::Favorites => "⭐",
        }
    }

    /// The folders moved unless the user chooses otherwise: all but favorites.
    pub fn default_enabled() -> (r: Vec<PersonalFolder>)
        ensures
            r@ == seq![
                PersonalFolder::Desktop,
                PersonalFolder::Documents,
                PersonalFolder::Downloads,
                PersonalFolder::Pictures,
                PersonalFolder::Videos,
                PersonalFolder::Music,
            ],
    {
        let r = vec![
            PersonalFolder::Desktop,
            PersonalFolder::Documents,
            PersonalFolder::Downloads,
            PersonalFolder::Pictures,
            PersonalFolder::Videos,
            PersonalFolder::Music,
        ];
        assert(r@ =~= seq![
            PersonalFolder::Desktop,
            PersonalFolder::Documents,
            PersonalFolder::Downloads,
            PersonalFolder::Pictures,
            PersonalFolder::Videos,
            PersonalFolder::Music,
        ]);
        r
    }
}

/// What to do with a file that already exists at the destination.
#[derive(Debug, Clone, Copy, PartialEq, Eq, Structural)]
pub enum ConflictStrategy {
    /// Skip the file and leave the source untouched.
    Skip,
    /// Overwrite the destination.
    Overwrite,
    /// Give the new file a numbered name such as `file (1).txt`.
    RenameNew,
    /// Move the file only when it is newer than the destination.
    KeepNewer,
}

impl Default for ConflictStrategy {
    fn default() -> (r: Self)
        ensures
            r == ConflictStrategy::Skip,
    {
        ConflictStrategy::Skip
    }
}

impl ConflictStrategy {
    pub fn label(self) -> (r: &'static str)
        ensures
            r@ == (match self {
                ConflictStrategy::Skip => "跳过已有文件"@,
                ConflictStrategy::Overwrite => "覆盖已有文件"@,
                ConflictStrategy::RenameNew => "重命名新文件"@,
                ConflictStrategy::KeepNewer => "保留较新文件"@,
            }),
    {
        match self {
            ConflictStrategy::Skip => "跳过已有文件",
            ConflictStrategy::Overwrite => "覆盖已有文件",
            ConflictStrategy::RenameNew => "重命名新文件",
            ConflictStrategy::KeepNewer => "保留较新文件",
        }
    }
}

/// Whether the destination of an item already exists.
#[derive(Debug, Clone, Copy, PartialEq, Eq, Structural)]
pub enum ConflictStatus {
    /// Nothing is at the destination.
    NoConflict,
    Exists,
}

/// One file or directory inside a personal folder.
#[derive(Debug, Clone)]
pub struct OrganizerItem {
    pub folder: PersonalFolder,
    pub source_path: String,
    pub target_path: String,
    pub size: u64,
    /// Modification time in seconds since the epoch.
    pub modified: Option<u64>,
    pub is_directory: bool,
    pub conflict: ConflictStatus,
}

impl OrganizerItem {
    pub fn display_source(&self) -> (r: String)
        ensures
            r@ == self.source_path@,
    {
        self.source_path.clone()
    }

    pub fn display_target(&self) -> (r: String)
        ensures
            r@ == self.target_path@,
    {
        self.target_path.clone()
    }
}

/// Totals of one personal folder.
#[derive(Debug, Clone)]
pub struct FolderCandidateStats {
    pub folder: PersonalFolder,
    pub source_path: String,
    pub target_path: String,
    pub total_items: u64,
    pub total_size: u64,
    pub directory_count: u64,
    pub file_count: u64,
    pub conflict_count: u64,
}

impl Default for FolderCandidateStats {
    fn default() -> (r: Self)
        ensures
            r.folder == PersonalFolder::Desktop,
            r.source_path@.len() == 0,
            r.target_path@.len() == 0,
            r.total_items == 0,
            r.total_size == 0,
            r.directory_count == 0,
            r.file_count == 0,
            r.conflict_count == 0,
    {
        FolderCandidateStats {
            folder: PersonalFolder::Desktop,
            source_path: String::new(),
            target_path: String::new(),
            total_items: 0,
            total_size: 0,
            directory_count: 0,
            file_count: 0,
            conflict_count: 0,
        }
    }
}

/// What a transfer would move, for the user to review.
#[derive(Debug, Clone)]
pub struct OrganizerPreview {
    pub target_root: String,
    pub conflict_strategy: ConflictStrategy,
    pub folders: Vec<FolderCandidateStats>,
    pub items: Vec<OrganizerItem>,
    pub total_items: u64,
    pub total_size: u64,
    pub total_conflicts: u64,
}

/// Number of the folders that hold something.
pub open spec fn folders_with_items(folders: Seq<FolderCandidateStats>) -> int
    decreases folders.len(),
{
    if folders.len() == 0 {
        0
    } else {
        folders_with_items(folders.drop_last()) + if folders.last().total_items > 0 {
            1int
        } else {
            0
        }
    }
}

/// The count of folders that hold something lies between none and all of them: none
/// exactly when every folder is empty, all exactly when every folder holds something.
pub proof fn lemma_folders_with_items_bounds(folders: Seq<FolderCandidateStats>)
    ensures
        0 <= folders_with_items(folders) <= folders.len(),
        folders_with_items(folders) == 0 <==> forall|i: int| 0 <= i < folders.len() ==> (#[trigger] folders[i]).total_items
            == 0,
        folders_with_items(folders) == folders.len() <==> forall|i: int| 0 <= i < folders.len() ==> (
        #[trigger] folders[i]).total_items > 0,
    decreases folders.len(),
{
    if folders.len() > 0 {
        let rest = folders.drop_last();
        lemma_folders_with_items_bounds(rest);
        let last = folders.len() - 1;
        assert forall|i: int| 0 <= i < rest.len() implies #[trigger] rest[i] == folders[i] by {}
        if forall|i: int| 0 <= i < folders.len() ==> (#[trigger] folders[i]).total_items == 0 {
            assert(folders[last].total_items == 0);
            assert forall|i: int| 0 <= i < rest.len() implies (#[trigger] rest[i]).total_items == 0 by {
                assert(rest[i] == folders[i]);
            }
        }
        if folders_with_items(folders) == 0 {
            assert forall|i: int| 0 <= i < folders.len() implies (#[trigger] folders[i]).total_items == 0 by {
                if i < last {
                    assert(rest[i] == folders[i]);
                }
            }
        }
        if forall|i: int| 0 <= i < folders.len() ==> (#[trigger] folders[i]).total_items > 0 {
            assert(folders[last].total_items > 0);
            assert forall|i: int| 0 <= i < rest.len() implies (#[trigger] rest[i]).total_items > 0 by {
                assert(rest[i] == folders[i]);
            }
        }
        if folders_with_items(folders) == folders.len() {
            assert forall|i: int| 0 <= i < folders.len() implies (#[trigger] folders[i]).total_items > 0 by {
                if i < last {
                    assert(rest[i] == folders[i]);
                }
            }
        }
    }
}

impl OrganizerPreview {
    /// Every listed folder holds something: what a preview built by `empty`,
    /// `record_entry` and `finish_folder` keeps.
    pub open spec fn only_folders_with_items(self) -> bool {
        forall|i: int| 0 <= i < self.folders@.len() ==> (#[trigger] self.folders@[i]).total_items > 0
    }
}

impl OrganizerPreview {
    /// Number of the folders that hold something.
    pub fn enabled_folder_count(&self) -> (r: usize)
        ensures
            r == folders_with_items(self.folders@),
            r <= self.folders@.len(),
            self.only_folders_with_items() ==> r == self.folders@.len(),
    {
        proof {
            lemma_folders_with_items_bounds(self.folders@);
        }
        let mut n: usize = 0;
        let mut i: usize = 0;
        while i < self.folders.len()
            invariant
                i <= self.folders@.len(),
                n == folders_with_items(self.folders@.take(i as int)),
                n <= i,
            decreases self.folders.len() - i,
        {
            assert(self.folders@.take(i as int + 1).drop_last() =~= self.folders@.take(i as int));
            if self.folders[i].total_items > 0 {
                n = n + 1;
            }
            i = i + 1;
        }
        assert(self.folders@.take(i as int) =~= self.folders@);
        n
    }
}

/// Progress or completion of a transfer.
#[derive(Debug, Clone)]
pub enum OrganizerEvent {
    Progress(OrganizerProgress),
    Finished(OrganizerFinished),
}

#[derive(Debug, Clone)]
pub struct OrganizerProgress {
    pub processed_items: u64,
    pub processed_bytes: u64,
    pub total_items: u64,
    pub total_bytes: u64,
    pub current_source: String,
    pub current_target: String,
    pub success_count: u64,
    pub skipped_count: u64,
    pub error_count: u64,
    pub finished: bool,
    pub cancelled: bool,
}

#[derive(Debug, Clone)]
pub struct OrganizerFinished {
    pub success_count: u64,
    pub skipped_count: u64,
    pub error_count: u64,
    pub moved_bytes: u64,
    pub errors: Vec<OrganizerError>,
    pub cancelled: bool,
}

/// An item that could not be moved (or whose source could not be removed).
#[derive(Debug, Clone)]
pub struct OrganizerError {
    pub source: String,
    pub target: String,
    pub message: String,
}

/// What to move, where, and how.
pub struct OrganizerOptions {
    pub target_root: String,
    pub enabled_folders: Vec<PersonalFolder>,
    pub conflict_strategy: ConflictStrategy,
    /// How many items a preview lists at most.
    pub preview_item_cap: usize,
}

/// How many items a preview lists by default.
pub const DEFAULT_PREVIEW_ITEM_CAP: usize = 2000;

impl Default for OrganizerOptions {
    fn default() -> (r: Self)
        ensures
            r.target_root@.len() == 0,
            r.enabled_folders@.len() == 6,
            r.conflict_strategy == ConflictStrategy::Skip,
            r.preview_item_cap == DEFAULT_PREVIEW_ITEM_CAP,
    {
        OrganizerOptions {
            target_root: String::new(),
            enabled_folders: PersonalFolder::default_enabled(),
            conflict_strategy: ConflictStrategy::default(),
            preview_item_cap: DEFAULT_PREVIEW_ITEM_CAP,
        }
    }
}

// ---------------------------------------------------------------------------------------
// Paths

/// `base` joined with the relative path `name`, with one separator between them.
pub open spec fn join_path(base: Seq<char>, name: Seq<char>) -> Seq<char> {
    if base.len() == 0 {
        name
    } else if is_sep(base.last()) {
        base + name
    } else {
        base + seq!['\\'] + name
    }
}

pub(crate) fn join_chars(base: &[char], name: &[char]) -> (r: Vec<char>)
    ensures
        r@ == join_path(base@, name@),
{
    let mut r: Vec<char> = Vec::new();
    push_all(&mut r, base);
    if base.len() > 0 && !crate::winpath::is_separator(base[base.len() - 1]) {
        r.push('\\');
    }
    push_all(&mut r, name);
    assert(r@ =~= join_path(base@, name@));
    r
}

/// The components joined by `\`.
pub open spec fn joined(parts: Seq<Seq<char>>) -> Seq<char>
    decreases parts.len(),
{
    if parts.len() == 0 {
        Seq::empty()
    } else if parts.len() == 1 {
        parts[0]
    } else {
        joined(parts.drop_last()) + seq!['\\'] + parts.last()
    }
}

/// The path of a folder's copy under the target root.
pub fn folder_target(target_root: &str, folder: PersonalFolder) -> (r: String)
    ensures
        r@ == join_path(target_root@, folder.spec_folder_name()),
{
    let base = chars_of(target_root);
    let name = chars_of(folder.default_folder_name());
    let r = join_chars(base.as_slice(), name.as_slice());
    string_from_chars(r.as_slice())
}

/// Where an entry found under `source` goes under `target_base`: the components below the
/// source, joined onto the target. Entries outside `source` have no target.
pub open spec fn spec_organizer_target(source: Seq<char>, target_base: Seq<char>, entry: Seq<char>) -> Option<Seq<char>> {
    if path_starts_with(entry, source) {
        Some(join_path(target_base, joined(comps(entry).skip(comps(source).len() as int))))
    } else {
        None
    }
}

/// Where an entry found under `source` goes under `target_base`.
pub fn organizer_target(source: &str, target_base: &str, entry: &str) -> (r: Option<String>)
    ensures
        r is Some == spec_organizer_target(source@, target_base@, entry@) is Some,
        r matches Some(t) ==> Some(t@) == spec_organizer_target(source@, target_base@, entry@),
{
    let sv = chars_of(source);
    let ev = chars_of(entry);
    if !path_starts_with_chars(ev.as_slice(), sv.as_slice()) {
        return None;
    }
    let sc = components_of(sv.as_slice());
    let ec = components_of(ev.as_slice());
    let ghost rest = comps(ev@).skip(comps(sv@).len() as int);
    let mut rel: Vec<char> = Vec::new();
    let mut k: usize = sc.len();
    while k < ec.len()
        invariant
            sc@.len() == comps(sv@).len(),
            ec@.len() == comps(ev@).len(),
            forall|j: int| 0 <= j < ec@.len() ==> (#[trigger] ec@[j])@ == comps(ev@)[j],
            sc@.len() <= k <= ec@.len(),
            rest == comps(ev@).skip(comps(sv@).len() as int),
            rel@ == joined(rest.take(k - sc@.len())),
        decreases ec.len() - k,
    {
        let ghost before = rest.take(k - sc@.len());
        if k > sc.len() {
            rel.push('\\');
        }
        push_all(&mut rel, ec[k].as_slice());
        k = k + 1;
        proof {
            let now = rest.take(k - sc@.len());
            assert(now.drop_last() =~= before);
            assert(now.last() == ec@[k - 1]@);
            assert(rel@ =~= joined(now));
        }
    }
    assert(rest.take(rest.len() as int) =~= rest);
    let tb = chars_of(target_base);
    let out = join_chars(tb.as_slice(), rel.as_slice());
    Some(string_from_chars(out.as_slice()))
}

/// The name `stem (k).ext` (or `stem (k)` without an extension) next to `path`.
pub open spec fn spec_suffixed(path: Seq<char>, k: nat) -> Option<Seq<char>> {
    match (parent(path), file_name(path)) {
        (Some(p), Some(name)) => {
            let base = name_stem(name) + seq![' ', '('] + decimal(k) + seq![')'];
            Some(join_path(p, match name_extension(name) {
                Some(e) => base + seq!['.'] + e,
                None => base,
            }))
        },
        _ => None,
    }
}

/// The `k`-th numbered name next to `path`.
pub fn suffixed_candidate(path: &str, k: u64) -> (r: Option<String>)
    ensures
        r is Some == spec_suffixed(path@, k as nat) is Some,
        r matches Some(t) ==> Some(t@) == spec_suffixed(path@, k as nat),
{
    let v = chars_of(path);
    let p = match parent_chars(v.as_slice()) {
        Some(p) => p,
        None => {
            return None;
        },
    };
    let name = match file_name_chars(v.as_slice()) {
        Some(n) => n,
        None => {
            return None;
        },
    };
    let stem = name_stem_chars(name.as_slice());
    let mut base: Vec<char> = Vec::new();
    push_all(&mut base, stem.as_slice());
    base.push(' ');
    base.push('(');
    let digits = decimal_chars(k);
    push_all(&mut base, digits.as_slice());
    base.push(')');
    match name_extension_chars(name.as_slice()) {
        Some(e) => {
            base.push('.');
            push_all(&mut base, e.as_slice());
        },
        None => {},
    }
    let out = join_chars(p.as_slice(), base.as_slice());
    proof {
        let b0 = name_stem(name@) + seq![' ', '('] + decimal(k as nat) + seq![')'];
        match name_extension(name@) {
            Some(e) => assert(base@ =~= b0 + seq!['.'] + e),
            None => assert(base@ =~= b0),
        }
    }
    Some(string_from_chars(out.as_slice()))
}

/// How many numbered names are tried before giving up.
pub const RENAME_ATTEMPT_LIMIT: u64 = 10000;

/// `is_taken` has reported the name `name` as taken.
pub open spec fn reported_taken<F: Fn(&String) -> bool>(is_taken: F, name: Option<Seq<char>>) -> bool {
    exists|s: String| Some(s@) == name && #[trigger] is_taken.ensures((&s,), true)
}

/// The first numbered name next to `path`, from `stem (1)` on, that `is_taken` reports as
/// free; `None` when the path has no parent or file name, or when every name up to the
/// attempt limit is taken.
pub fn rename_with_suffix<F: Fn(&String) -> bool>(path: &str, is_taken: &F) -> (r: Option<String>)
    requires
        forall|s: &String| #[trigger] is_taken.requires((s,)),
    ensures
        r matches Some(t) ==> exists|k: nat|
            1 <= k <= RENAME_ATTEMPT_LIMIT && spec_suffixed(path@, k) == Some(t@)
                && #[trigger] is_taken.ensures((&t,), false)
                && forall|j: nat| 1 <= j < k ==> #[trigger] reported_taken(*is_taken, spec_suffixed(path@, j)),
        r is None ==> spec_suffixed(path@, 1) is None || forall|j: nat|
            1 <= j <= RENAME_ATTEMPT_LIMIT ==> #[trigger] reported_taken(*is_taken, spec_suffixed(path@, j)),
        spec_suffixed(path@, 1) is None ==> r is None,
{
    let mut counter: u64 = 1;
    loop
        invariant
            1 <= counter <= RENAME_ATTEMPT_LIMIT,
            forall|s: &String| #[trigger] is_taken.requires((s,)),
            forall|j: nat| 1 <= j < counter ==> #[trigger] reported_taken(*is_taken, spec_suffixed(path@, j)),
            spec_suffixed(path@, 1) is Some || counter == 1,
        decreases RENAME_ATTEMPT_LIMIT - counter,
    {
        let candidate = match suffixed_candidate(path, counter) {
            Some(c) => c,
            None => {
                proof {
                    assert(spec_suffixed(path@, counter as nat) is None);
                    assert(spec_suffixed(path@, 1) is None);
                }
                return None;
            },
        };
        let taken = is_taken(&candidate);
        if !taken {
            proof {
                assert(is_taken.ensures((&candidate,), false));
            }
            return Some(candidate);
        }
        proof {
            assert(is_taken.ensures((&candidate,), true));
            assert(reported_taken(*is_taken, spec_suffixed(path@, counter as nat)));
        }
        counter = counter + 1;
        if counter > RENAME_ATTEMPT_LIMIT {
            return None;
        }
    }
}

/// The destination of an item under a conflict strategy: the planned target when nothing
/// is there; otherwise nothing for `Skip`, the target for `Overwrite`, the free numbered
/// name for `RenameNew`, and the target for `KeepNewer` only when the item is newer than
/// what is there (`target_modified`).
pub open spec fn spec_resolve_conflict(
    item: OrganizerItem,
    strategy: ConflictStrategy,
    target_modified: Option<u64>,
    free_name: Option<String>,
) -> Option<String> {
    if item.conflict == ConflictStatus::NoConflict {
        Some(item.target_path)
    } else {
        match strategy {
            ConflictStrategy::Skip => None,
            ConflictStrategy::Overwrite => Some(item.target_path),
            ConflictStrategy::RenameNew => free_name,
            ConflictStrategy::KeepNewer => match (item.modified, target_modified) {
                (Some(m), Some(t)) => if m > t {
                    Some(item.target_path)
                } else {
                    None
                },
                _ => None,
            },
        }
    }
}

/// The destination of an item under a conflict strategy, given the modification time of
/// what is at the target and the free numbered name next to it.
pub fn resolve_conflict(
    item: &OrganizerItem,
    strategy: ConflictStrategy,
    target_modified: Option<u64>,
    free_name: Option<String>,
) -> (r: Option<String>)
    ensures
        r == spec_resolve_conflict(*item, strategy, target_modified, free_name),
{
    if item.conflict == ConflictStatus::NoConflict {
        return Some(item.target_path.clone());
    }
    match strategy {
        ConflictStrategy::Skip => None,
        ConflictStrategy::Overwrite => Some(item.target_path.clone()),
        ConflictStrategy::RenameNew => free_name,
        ConflictStrategy::KeepNewer => match (item.modified, target_modified) {
            (Some(m), Some(t)) => {
                if m > t {
                    Some(item.target_path.clone())
                } else {
                    None
                }
            },
            _ => None,
        },
    }
}

// ---------------------------------------------------------------------------------------
// Building a preview

/// The entry found at `source_path` as an item: directories count no size, and the item
/// conflicts when something is at its target.
pub fn organizer_item(
    folder: PersonalFolder,
    source_path: String,
    target_path: String,
    is_directory: bool,
    len: u64,
    modified: Option<u64>,
    target_exists: bool,
) -> (r: OrganizerItem)
    ensures
        r.folder == folder,
        r.source_path == source_path,
        r.target_path == target_path,
        r.is_directory == is_directory,
        r.size == if is_directory { 0 } else { len },
        r.modified == modified,
        r.conflict == if target_exists { ConflictStatus::Exists } else { ConflictStatus::NoConflict },
{
    OrganizerItem {
        folder,
        source_path,
        target_path,
        size: if is_directory { 0 } else { len },
        modified,
        is_directory,
        conflict: if target_exists { ConflictStatus::Exists } else { ConflictStatus::NoConflict },
    }
}

impl FolderCandidateStats {
    /// The totals of a folder before any entry is seen.
    pub fn start(folder: PersonalFolder, source_path: String, target_path: String) -> (r: Self)
        ensures
            r.folder == folder,
            r.source_path == source_path,
            r.target_path == target_path,
            r.total_items == 0,
            r.total_size == 0,
            r.directory_count == 0,
            r.file_count == 0,
            r.conflict_count == 0,
    {
        FolderCandidateStats {
            folder,
            source_path,
            target_path,
            total_items: 0,
            total_size: 0,
            directory_count: 0,
            file_count: 0,
            conflict_count: 0,
        }
    }
}

impl OrganizerPreview {
    /// A preview with nothing in it yet.
    pub fn empty(target_root: String, conflict_strategy: ConflictStrategy) -> (r: Self)
        ensures
            r.target_root == target_root,
            r.conflict_strategy == conflict_strategy,
            r.folders@.len() == 0,
            r.items@.len() == 0,
            r.total_items == 0,
            r.total_size == 0,
            r.total_conflicts == 0,
            r.only_folders_with_items(),
    {
        OrganizerPreview {
            target_root,
            conflict_strategy,
            folders: Vec::new(),
            items: Vec::new(),
            total_items: 0,
            total_size: 0,
            total_conflicts: 0,
        }
    }

    /// Counts an entry into its folder's totals and the preview's; the entry is listed
    /// while fewer than `cap` items are.
    pub fn record_entry(&mut self, stats: &mut FolderCandidateStats, item: OrganizerItem, cap: usize)
        requires
            old(stats).total_items < u64::MAX,
            old(stats).total_size + item.size <= u64::MAX,
            old(stats).directory_count < u64::MAX,
            old(stats).file_count < u64::MAX,
            old(stats).conflict_count < u64::MAX,
            old(self).total_items < u64::MAX,
            old(self).total_size + item.size <= u64::MAX,
            old(self).total_conflicts < u64::MAX,
        ensures
            final(stats).total_items == old(stats).total_items + 1,
            final(stats).total_size == old(stats).total_size + item.size,
            final(stats).directory_count == old(stats).directory_count + if item.is_directory { 1int } else { 0 },
            final(stats).file_count == old(stats).file_count + if item.is_directory { 0int } else { 1 },
            final(stats).conflict_count == old(stats).conflict_count + if item.conflict == ConflictStatus::Exists { 1int } else { 0 },
            final(stats).folder == old(stats).folder,
            final(stats).source_path == old(stats).source_path,
            final(stats).target_path == old(stats).target_path,
            final(self).total_items == old(self).total_items + 1,
            final(self).total_size == old(self).total_size + item.size,
            final(self).total_conflicts == old(self).total_conflicts + if item.conflict == ConflictStatus::Exists { 1int } else { 0 },
            old(self).items@.len() < cap ==> final(self).items@ == old(self).items@.push(item),
            old(self).items@.len() >= cap ==> final(self).items@ == old(self).items@,
            final(self).folders@ == old(self).folders@,
            final(self).target_root == old(self).target_root,
            final(self).conflict_strategy == old(self).conflict_strategy,
    {
        stats.total_items = stats.total_items + 1;
        stats.total_size = stats.total_size + item.size;
        if item.is_directory {
            stats.directory_count = stats.directory_count + 1;
        } else {
            stats.file_count = stats.file_count + 1;
        }
        if item.conflict == ConflictStatus::Exists {
            stats.conflict_count = stats.conflict_count + 1;
            self.total_conflicts = self.total_conflicts + 1;
        }
        self.total_items = self.total_items + 1;
        self.total_size = self.total_size + item.size;
        if self.items.len() < cap {
            self.items.push(item);
        }
    }

    /// Lists a folder once all its entries are counted, when it holds something.
    pub fn finish_folder(&mut self, stats: FolderCandidateStats)
        ensures
            stats.total_items > 0 ==> final(self).folders@ == old(self).folders@.push(stats),
            stats.total_items == 0 ==> final(self).folders@ == old(self).folders@,
            old(self).only_folders_with_items() ==> final(self).only_folders_with_items(),
            final(self).items@ == old(self).items@,
            final(self).total_items == old(self).total_items,
            final(self).total_size == old(self).total_size,
            final(self).total_conflicts == old(self).total_conflicts,
            final(self).target_root == old(self).target_root,
            final(self).conflict_strategy == old(self).conflict_strategy,
    {
        if stats.total_items > 0 {
            self.folders.push(stats);
        }
    }
}

// ---------------------------------------------------------------------------------------
// Running a transfer

/// What happened to one item of a transfer.
#[derive(Debug, Clone)]
pub enum TransferOutcome {
    /// The conflict strategy left the item where it is.
    Skipped,
    /// The directory was created at the target.
    DirectoryCreated,
    /// The directory could not be created; the text says why.
    DirectoryFailed(String),
    /// The file was copied, its size checked, and the source removed.
    Moved(u64),
    /// The file was copied and checked, but the source could not be removed.
    MovedSourceKept(u64),
    /// The copy's size did not match; the source is kept.
    SizeMismatch,
    /// The copy failed; the text says why.
    CopyFailed(String),
}

/// A copied file may lose its source only when the copy at the target has the size copied.
pub fn should_remove_source(copied: u64, target_len: Option<u64>) -> (r: bool)
    ensures
        r == (target_len == Some(copied)),
{
    match target_len {
        Some(len) => len == copied,
        None => false,
    }
}

/// What happened to a file: the copy failed; or its size did not check out; or it was
/// moved, its source removed or (when removing failed) kept.
pub open spec fn spec_file_outcome(copy: Result<u64, String>, target_len: Option<u64>, source_removed: bool) -> TransferOutcome {
    match copy {
        Err(e) => TransferOutcome::CopyFailed(e),
        Ok(b) => if target_len == Some(b) {
            if source_removed {
                TransferOutcome::Moved(b)
            } else {
                TransferOutcome::MovedSourceKept(b)
            }
        } else {
            TransferOutcome::SizeMismatch
        },
    }
}

/// The outcome of moving a file, from the result of the copy, the size found at the target
/// and whether the source could be removed (asked only when `should_remove_source` held).
pub fn file_outcome(copy: Result<u64, String>, target_len: Option<u64>, source_removed: bool) -> (r: TransferOutcome)
    ensures
        r == spec_file_outcome(copy, target_len, source_removed),
{
    match copy {
        Err(e) => TransferOutcome::CopyFailed(e),
        Ok(b) => {
            if should_remove_source(b, target_len) {
                if source_removed {
                    TransferOutcome::Moved(b)
                } else {
                    TransferOutcome::MovedSourceKept(b)
                }
            } else {
                TransferOutcome::SizeMismatch
            }
        },
    }
}

/// The outcome of creating a directory at the target.
pub fn directory_outcome(created: Result<(), String>) -> (r: TransferOutcome)
    ensures
        r == (match created {
            Ok(()) => TransferOutcome::DirectoryCreated,
            Err(e) => TransferOutcome::DirectoryFailed(e),
        }),
{
    match created {
        Ok(()) => TransferOutcome::DirectoryCreated,
        Err(e) => TransferOutcome::DirectoryFailed(e),
    }
}

/// Law: a file counts as moved (its bytes added to what was moved) only when its copy was
/// checked to have the size copied.
pub proof fn lemma_moved_only_after_check(copy: Result<u64, String>, target_len: Option<u64>, source_removed: bool)
    ensures
        spec_file_outcome(copy, target_len, source_removed) matches TransferOutcome::Moved(b) ==> copy == Ok::<u64, String>(b)
            && target_len == Some(b) && source_removed,
        spec_file_outcome(copy, target_len, source_removed) matches TransferOutcome::MovedSourceKept(b) ==> copy == Ok::<u64, String>(b)
            && target_len == Some(b),
{
}

/// Running counts of a transfer.
#[derive(Debug, Clone)]
pub struct TransferTally {
    pub processed_items: u64,
    pub processed_bytes: u64,
    pub success_count: u64,
    pub skipped_count: u64,
    pub error_count: u64,
    pub moved_bytes: u64,
    pub errors: Vec<OrganizerError>,
}

/// The error recorded for an item, if its outcome records one.
pub open spec fn outcome_error(source: Seq<char>, target: Seq<char>, outcome: TransferOutcome) -> Option<(Seq<char>, Seq<char>, Seq<char>)> {
    match outcome {
        TransferOutcome::DirectoryFailed(e) => Some((source, target, "创建目录失败："@ + e@)),
        TransferOutcome::MovedSourceKept(_) => Some((source, target, "文件已复制，但删除源文件失败（文件仍保留在原位）"@)),
        TransferOutcome::SizeMismatch => Some((source, target, "复制后大小校验失败，源文件已保留"@)),
        TransferOutcome::CopyFailed(e) => Some((source, target, e@)),
        _ => None,
    }
}

impl TransferTally {
    pub fn new() -> (r: Self)
        ensures
            r.processed_items == 0,
            r.processed_bytes == 0,
            r.success_count == 0,
            r.skipped_count == 0,
            r.error_count == 0,
            r.moved_bytes == 0,
            r.errors@.len() == 0,
    {
        TransferTally {
            processed_items: 0,
            processed_bytes: 0,
            success_count: 0,
            skipped_count: 0,
            error_count: 0,
            moved_bytes: 0,
            errors: Vec::new(),
        }
    }

    /// Counts the outcome of an item moved to `target`: a skipped item or a file counts
    /// its size as processed, a directory does not; created directories and copied files
    /// are successes, failures are errors, and a copied file whose source stayed is a
    /// success with an error message.
    pub fn record(&mut self, item: &OrganizerItem, target: &str, outcome: TransferOutcome)
        requires
            old(self).processed_items < u64::MAX,
            old(self).processed_bytes + item.size <= u64::MAX,
            old(self).success_count < u64::MAX,
            old(self).skipped_count < u64::MAX,
            old(self).error_count < u64::MAX,
            outcome matches TransferOutcome::Moved(b) ==> old(self).moved_bytes + b <= u64::MAX,
            outcome matches TransferOutcome::MovedSourceKept(b) ==> old(self).moved_bytes + b <= u64::MAX,
        ensures
            final(self).processed_items == old(self).processed_items + 1,
            final(self).processed_bytes == old(self).processed_bytes + match outcome {
                TransferOutcome::DirectoryCreated | TransferOutcome::DirectoryFailed(_) => 0int,
                _ => item.size as int,
            },
            final(self).skipped_count == old(self).skipped_count + if outcome is Skipped { 1int } else { 0 },
            final(self).success_count == old(self).success_count + match outcome {
                TransferOutcome::DirectoryCreated | TransferOutcome::Moved(_) | TransferOutcome::MovedSourceKept(_) => 1int,
                _ => 0,
            },
            final(self).error_count == old(self).error_count + match outcome {
                TransferOutcome::DirectoryFailed(_) | TransferOutcome::SizeMismatch | TransferOutcome::CopyFailed(_) => 1int,
                _ => 0,
            },
            final(self).moved_bytes == old(self).moved_bytes + match outcome {
                TransferOutcome::Moved(b) | TransferOutcome::MovedSourceKept(b) => b as int,
                _ => 0,
            },
            outcome_error(item.source_path@, target@, outcome) matches Some(e) ==> final(self).errors@.len() == old(self).errors@.len() + 1
                && final(self).errors@.drop_last() == old(self).errors@
                && final(self).errors@.last().source@ == e.0
                && final(self).errors@.last().target@ == e.1
                && final(self).errors@.last().message@ == e.2,
            outcome_error(item.source_path@, target@, outcome) is None ==> final(self).errors@ == old(self).errors@,
    {
        self.processed_items = self.processed_items + 1;
        match outcome {
            TransferOutcome::Skipped => {
                self.skipped_count = self.skipped_count + 1;
                self.processed_bytes = self.processed_bytes + item.size;
            },
            TransferOutcome::DirectoryCreated => {
                self.success_count = self.success_count + 1;
            },
            TransferOutcome::DirectoryFailed(e) => {
                self.error_count = self.error_count + 1;
                let mut m: Vec<char> = Vec::new();
                push_lit(&mut m, "创建目录失败：");
                let ev = chars_of(e.as_str());
                push_all(&mut m, ev.as_slice());
                self.push_error(item, target, string_from_chars(m.as_slice()));
            },
            TransferOutcome::Moved(b) => {
                self.success_count = self.success_count + 1;
                self.moved_bytes = self.moved_bytes + b;
                self.processed_bytes = self.processed_bytes + item.size;
            },
            TransferOutcome::MovedSourceKept(b) => {
                self.success_count = self.success_count + 1;
                self.moved_bytes = self.moved_bytes + b;
                self.push_error(item, target, String::from_str("文件已复制，但删除源文件失败（文件仍保留在原位）"));
                self.processed_bytes = self.processed_bytes + item.size;
            },
            TransferOutcome::SizeMismatch => {
                self.error_count = self.error_count + 1;
                self.push_error(item, target, String::from_str("复制后大小校验失败，源文件已保留"));
                self.processed_bytes = self.processed_bytes + item.size;
            },
            TransferOutcome::CopyFailed(e) => {
                self.error_count = self.error_count + 1;
                self.push_error(item, target, e);
                self.processed_bytes = self.processed_bytes + item.size;
            },
        }
    }

    fn push_error(&mut self, item: &OrganizerItem, target: &str, message: String)
        ensures
            final(self).errors@.len() == old(self).errors@.len() + 1,
            final(self).errors@.drop_last() == old(self).errors@,
            final(self).errors@.last().source@ == item.source_path@,
            final(self).errors@.last().target@ == target@,
            final(self).errors@.last().message@ == message@,
            final(self).processed_items == old(self).processed_items,
            final(self).processed_bytes == old(self).processed_bytes,
            final(self).success_count == old(self).success_count,
            final(self).skipped_count == old(self).skipped_count,
            final(self).error_count == old(self).error_count,
            final(self).moved_bytes == old(self).moved_bytes,
    {
        let ghost before = self.errors@;
        self.errors.push(OrganizerError {
            source: item.source_path.clone(),
            target: String::from_str(target),
            message,
        });
        assert(self.errors@.drop_last() =~= before);
    }

    /// A progress report for the item at `current_source` going to `current_target`.
    pub fn progress(
        &self,
        preview: &OrganizerPreview,
        current_source: &str,
        current_target: &str,
        finished: bool,
        cancelled: bool,
    ) -> (r: OrganizerProgress)
        ensures
            r.processed_items == self.processed_items,
            r.processed_bytes == self.processed_bytes,
            r.total_items == preview.total_items,
            r.total_bytes == preview.total_size,
            r.current_source@ == current_source@,
            r.current_target@ == current_target@,
            r.success_count == self.success_count,
            r.skipped_count == self.skipped_count,
            r.error_count == self.error_count,
            r.finished == finished,
            r.cancelled == cancelled,
    {
        OrganizerProgress {
            processed_items: self.processed_items,
            processed_bytes: self.processed_bytes,
            total_items: preview.total_items,
            total_bytes: preview.total_size,
            current_source: String::from_str(current_source),
            current_target: String::from_str(current_target),
            success_count: self.success_count,
            skipped_count: self.skipped_count,
            error_count: self.error_count,
            finished,
            cancelled,
        }
    }

    /// The summary at the end of a transfer.
    pub fn finish(self, cancelled: bool) -> (r: OrganizerFinished)
        ensures
            r.success_count == self.success_count,
            r.skipped_count == self.skipped_count,
            r.error_count == self.error_count,
            r.moved_bytes == self.moved_bytes,
            r.errors@ == self.errors@,
            r.cancelled == cancelled,
    {
        OrganizerFinished {
            success_count: self.success_count,
            skipped_count: self.skipped_count,
            error_count: self.error_count,
            moved_bytes: self.moved_bytes,
            errors: self.errors,
            cancelled,
        }
    }
}

} // verus!
