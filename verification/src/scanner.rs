//! Scan options and the filter that decides which directories are entered and which files
//! are counted.
use std::sync::Arc;
use vstd::prelude::*;
use crate::model::{file_extension_label, spec_extension_label, ScanFilterConfig, ScanStats};
use crate::text::{chars_eq, chars_of, lower_seq, string_from_chars, to_lower, trim, trim_chars};
use crate::winpath::{comps, components_of, file_name, file_name_chars};

verus! {

/// How a scan reads the disk.
#[derive(Debug, Clone, Copy, PartialEq, Eq, Structural)]
pub enum ScanMode {
    /// First pass: count directories and files only.
    QuickCount,
    /// Full scan with file sizes and metadata.
    FullScan,
    /// Full scan with several threads.
    ParallelFullScan,
    /// Reading the NTFS master file table directly.
    MftScan,
}

impl Default for ScanMode {
    fn default() -> (r: Self)
        ensures
            r == ScanMode::ParallelFullScan,
    {
        ScanMode::ParallelFullScan
    }
}

/// What to scan and how.
pub struct ScanOptions {
    pub root: String,
    pub filter_config: ScanFilterConfig,
    pub mode: ScanMode,
    pub num_threads: Option<usize>,
    pub drive_letter: Option<char>,
}

impl ScanOptions {
    /// Options for a parallel scan of `root` with the default thread count.
    pub fn new(root: String, filter_config: ScanFilterConfig) -> (r: Self)
        ensures
            r.root == root,
            r.filter_config == filter_config,
            r.mode == ScanMode::ParallelFullScan,
            r.num_threads is None,
            r.drive_letter is None,
    {
        ScanOptions { root, filter_config, mode: ScanMode::default(), num_threads: None, drive_letter: None }
    }

    pub fn with_mode(self, mode: ScanMode) -> (r: Self)
        ensures
            r.mode == mode,
            r.root == self.root,
            r.filter_config == self.filter_config,
            r.num_threads == self.num_threads,
            r.drive_letter == self.drive_letter,
    {
        let mut this = self;
        this.mode = mode;
        this
    }

    pub fn with_threads(self, num_threads: usize) -> (r: Self)
        ensures
            r.num_threads == Some(num_threads),
            r.root == self.root,
            r.filter_config == self.filter_config,
            r.mode == self.mode,
            r.drive_letter == self.drive_letter,
    {
        let mut this = self;
        this.num_threads = Some(num_threads);
        this
    }

    pub fn with_drive_letter(self, drive_letter: char) -> (r: Self)
        ensures
            r.drive_letter == Some(drive_letter),
            r.root == self.root,
            r.filter_config == self.filter_config,
            r.mode == self.mode,
            r.num_threads == self.num_threads,
    {
        let mut this = self;
        this.drive_letter = Some(drive_letter);
        this
    }
}

/// Progress or completion of a scan.
pub enum ScanEvent {
    Progress(ScanProgress),
    Finished(ScanFinished),
}

#[derive(Clone)]
pub struct ScanProgress {
    pub stats: Arc<ScanStats>,
    pub current_path: Option<String>,
    pub finished: bool,
    pub cancelled: bool,
    pub estimated_total_dirs: Option<u64>,
    pub estimated_total_files: Option<u64>,
    pub scan_mode: ScanMode,
    pub active_threads: Option<usize>,
}

pub struct ScanFinished {
    pub stats: Arc<ScanStats>,
    pub cancelled: bool,
    pub scan_mode: ScanMode,
    pub total_dirs: u64,
    pub total_files: u64,
    pub elapsed_time: std::time::Duration,
}

/// Entries handled between two progress reports.
pub const PROGRESS_ENTRY_INTERVAL: u64 = 250;

/// Worker threads of a parallel scan: the requested number, or all CPUs but one (up to four
/// CPUs) or two (more than four), and at least one.
pub open spec fn spec_thread_count(requested: Option<usize>, cpus: usize) -> usize {
    match requested {
        Some(n) => n,
        None => {
            let reserved: usize = if cpus <= 4 { 1 } else { 2 };
            if cpus > reserved { (cpus - reserved) as usize } else { 1 }
        },
    }
}

/// Worker threads of a parallel scan on a machine with `cpus` CPUs.
pub fn scan_thread_count(requested: Option<usize>, cpus: usize) -> (r: usize)
    ensures
        r == spec_thread_count(requested, cpus),
{
    match requested {
        Some(n) => n,
        None => {
            let reserved: usize = if cpus <= 4 { 1 } else { 2 };
            let spare = cpus.saturating_sub(reserved);
            if spare > 1 { spare } else { 1 }
        },
    }
}

/// `num_cpus::get`: the number of logical CPUs available, at least one.
#[verifier::external_body]
fn cpu_count() -> (n: usize)
    ensures
        n >= 1,
{
    num_cpus::get()
}

/// Worker threads of a parallel scan on this machine.
pub fn parallel_thread_count(requested: Option<usize>) -> (r: usize)
    ensures
        requested matches Some(n) ==> r == n,
        requested is None ==> r >= 1,
{
    let cpus = cpu_count();
    scan_thread_count(requested, cpus)
}

/// `t` is one of `texts`.
pub open spec fn listed(texts: Seq<String>, t: Seq<char>) -> bool {
    exists|i: int| 0 <= i < texts.len() && (#[trigger] texts[i])@ == t
}

/// The excluded directory names of a filter: trimmed, lowercase, the empty ones dropped.
pub open spec fn spec_directory_names(entries: Seq<String>) -> Seq<Seq<char>>
    decreases entries.len(),
{
    if entries.len() == 0 {
        Seq::empty()
    } else {
        let rest = spec_directory_names(entries.drop_last());
        let name = lower_seq(trim(entries.last()@));
        if name.len() == 0 {
            rest
        } else {
            rest.push(name)
        }
    }
}

/// Decides which directories a scan enters and which files it counts.
pub struct ScanFilterMatcher {
    pub root: String,
    pub excluded_directories: Vec<String>,
    pub excluded_extensions: Vec<String>,
}

impl ScanFilterMatcher {
    /// The directory names and extension labels the filter excludes.
    pub fn new(root: String, filter_config: ScanFilterConfig) -> (r: Self)
        ensures
            r.root == root,
            r.excluded_directories@.map_values(|s: String| s@) == spec_directory_names(filter_config.excluded_directories@),
            r.excluded_extensions@ == filter_config.excluded_extensions@,
    {
        let entries = &filter_config.excluded_directories;
        let mut names: Vec<String> = Vec::new();
        let mut i: usize = 0;
        while i < entries.len()
            invariant
                i <= entries@.len(),
                names@.map_values(|s: String| s@) == spec_directory_names(entries@.take(i as int)),
            decreases entries.len() - i,
        {
            let v = chars_of(entries[i].as_str());
            let t = trim_chars(v.as_slice());
            let lower = to_lower(t.as_slice());
            assert(entries@.take(i as int + 1).drop_last() =~= entries@.take(i as int));
            if lower.len() > 0 {
                let ghost before = names@;
                names.push(string_from_chars(lower.as_slice()));
                assert(names@.map_values(|s: String| s@) =~= before.map_values(|s: String| s@).push(lower@));
            }
            i = i + 1;
        }
        assert(entries@.take(entries@.len() as int) =~= entries@);
        ScanFilterMatcher { root, excluded_directories: names, excluded_extensions: filter_config.excluded_extensions }
    }

    /// Whether a file is left out: its extension label is excluded.
    pub fn excludes_file(&self, path: &str) -> (r: bool)
        ensures
            r == listed(self.excluded_extensions@, spec_extension_label(path@)),
    {
        let label = file_extension_label(path);
        let lv = chars_of(label.as_str());
        contains_text(&self.excluded_extensions, lv.as_slice())
    }

    /// Whether a directory is left out: its name, lowercase, is excluded.
    pub fn excludes_directory(&self, path: &str) -> (r: bool)
        ensures
            r == (file_name(path@) matches Some(name) && self.excluded_directories@.map_values(|s: String| s@).contains(
                lower_seq(name),
            )),
    {
        let v = chars_of(path);
        match file_name_chars(v.as_slice()) {
            Some(name) => {
                let lower = to_lower(name.as_slice());
                let r = contains_text(&self.excluded_directories, lower.as_slice());
                proof {
                    let names = self.excluded_directories@.map_values(|s: String| s@);
                    if r {
                        let i = choose|i: int| 0 <= i < self.excluded_directories@.len() && (#[trigger] self.excluded_directories@[i])@ == lower@;
                        assert(names[i] == lower@);
                    } else {
                        if names.contains(lower@) {
                            let i = choose|i: int| 0 <= i < names.len() && names[i] == lower@;
                            assert(self.excluded_directories@[i]@ == lower@);
                        }
                    }
                }
                r
            },
            None => false,
        }
    }

    /// Whether a scan enters an entry: never a link, always the root, always a file (which
    /// is filtered separately), and a directory unless it is excluded.
    pub fn should_descend(&self, path: &str, is_dir: bool, is_symlink: bool) -> (r: bool)
        ensures
            r == (!is_symlink && (comps(path@) == comps(self.root@) || !is_dir || !(file_name(path@) matches Some(
                name,
            ) && self.excluded_directories@.map_values(|s: String| s@).contains(lower_seq(name))))),
    {
        if is_symlink {
            return false;
        }
        if same_components(path, self.root.as_str()) {
            return true;
        }
        if !is_dir {
            return true;
        }
        !self.excludes_directory(path)
    }
}

/// Whether `x` is one of `texts`.
fn contains_text(texts: &Vec<String>, x: &[char]) -> (r: bool)
    ensures
        r == listed(texts@, x@),
{
    let mut i: usize = 0;
    while i < texts.len()
        invariant
            i <= texts@.len(),
            forall|j: int| 0 <= j < i ==> (#[trigger] texts@[j])@ != x@,
        decreases texts.len() - i,
    {
        let t = chars_of(texts[i].as_str());
        if chars_eq(t.as_slice(), x) {
            return true;
        }
        i = i + 1;
    }
    false
}

/// Whether two paths have the same components.
fn same_components(a: &str, b: &str) -> (r: bool)
    ensures
        r == (comps(a@) == comps(b@)),
{
    let av = chars_of(a);
    let bv = chars_of(b);
    let ac = components_of(av.as_slice());
    let bc = components_of(bv.as_slice());
    if ac.len() != bc.len() {
        assert(comps(a@).len() != comps(b@).len());
        return false;
    }
    let mut k: usize = 0;
    while k < ac.len()
        invariant
            ac@.len() == bc@.len(),
            ac@.len() == comps(a@).len(),
            bc@.len() == comps(b@).len(),
            forall|j: int| 0 <= j < ac@.len() ==> (#[trigger] ac@[j])@ == comps(a@)[j],
            forall|j: int| 0 <= j < bc@.len() ==> (#[trigger] bc@[j])@ == comps(b@)[j],
            k <= ac@.len(),
            forall|j: int| 0 <= j < k ==> comps(a@)[j] == comps(b@)[j],
        decreases ac.len() - k,
    {
        assert(ac@[k as int]@ == comps(a@)[k as int]);
        assert(bc@[k as int]@ == comps(b@)[k as int]);
        if !chars_eq(ac[k].as_slice(), bc[k].as_slice()) {
            return false;
        }
        k = k + 1;
    }
    assert(comps(a@) =~= comps(b@));
    true
}

} // verus!
