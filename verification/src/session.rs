//! A working session: the scan, the cleanup and duplicate previews and the AI review that
//! run in the background, what the user has chosen (cleanup rules, filters, sorting), and
//! the status line. Each event (a request, a report from a worker) moves the session to its
//! next state and says what the caller has to start; the caller runs the workers and hands
//! their reports back. Sizes as shown are formatted by the caller (in floating point) and
//! handed in as text.
use vstd::prelude::*;
use std::sync::Arc;
use crate::ai_analysis::{AiAnalysisFinished, AiAnalysisOptions, AiAnalysisProgress, AiAnalysisReport, AiProviderConfig};
use crate::cleanup::{
    default_cleanup_rules, CleanupMatcher, CleanupRisk, CleanupPreview, CleanupPreviewFinished, CleanupPreviewOptions, CleanupPreviewProgress,
    CleanupRule,
};
use crate::duplicates::{DuplicatePreview, DuplicatePreviewFinished, DuplicatePreviewOptions, DuplicatePreviewProgress};
use crate::format::{count, duration, spec_count, spec_duration};
use crate::model::{ScanFilterConfig, ScanStats};
use crate::scanner::{ScanFinished, ScanMode, ScanOptions, ScanProgress};
use crate::settings::{
    check_root, kept_entries, kept_extensions, root_input, scan_filter_config_from_input, spec_root_problem,
    split_parts, views,
};
use crate::table_order::{
    AiSortKey, CleanupSortKey, DirectorySortKey, DuplicateSortKey, ExtensionSortKey, FileSortKey, SortDirection,
    SortState,
};
use crate::text::{decimal, decimal_chars, owned, push_all, push_lit, string_from_chars, trim};

verus! {

/// The tab of results on show.
#[derive(Debug, Clone, Copy, PartialEq, Eq, Structural)]
pub enum ResultTab {
    Directories,
    Files,
    Types,
    CleanupPreview,
    DuplicatePreview,
    AiReview,
    Errors,
}

/// A cleanup rule and whether the user has it switched on.
#[derive(Debug, Clone)]
pub struct CleanupRuleUiState {
    pub rule: CleanupRule,
    pub enabled: bool,
}

impl CleanupRuleUiState {
    /// A rule, switched on.
    pub fn new(rule: CleanupRule) -> (r: Self)
        ensures
            r.rule == rule,
            r.enabled,
    {
        CleanupRuleUiState { rule, enabled: true }
    }
}

/// The smallest file size, in bytes, that the duplicate search considers by default.
pub const DEFAULT_DUPLICATE_MIN_SIZE_BYTES: u64 = 1024;

/// The state of a session.
pub struct Session {
    /// The directory typed in, as typed.
    pub root_input: String,
    pub scan_in_progress: bool,
    pub cancel_requested: bool,
    /// The latest report of the running (or last) scan.
    pub progress: Option<ScanProgress>,
    /// The finished (or opened) scan.
    pub stats: Option<Arc<ScanStats>>,
    pub cleanup_in_progress: bool,
    pub cleanup_cancel_requested: bool,
    pub cleanup_progress: Option<CleanupPreviewProgress>,
    pub cleanup_preview: Option<Arc<CleanupPreview>>,
    pub duplicate_in_progress: bool,
    pub duplicate_cancel_requested: bool,
    pub duplicate_progress: Option<DuplicatePreviewProgress>,
    pub duplicate_preview: Option<Arc<DuplicatePreview>>,
    pub ai_analysis_in_progress: bool,
    pub ai_analysis_cancel_requested: bool,
    pub ai_analysis_progress: Option<AiAnalysisProgress>,
    pub ai_analysis_report: Option<Arc<AiAnalysisReport>>,
    pub ai_provider_config: AiProviderConfig,
    pub cleanup_rules: Vec<CleanupRuleUiState>,
    /// The status line.
    pub status_message: String,
    pub selected_tab: ResultTab,
    pub search_query: String,
    pub directory_sort: SortState<DirectorySortKey>,
    pub file_sort: SortState<FileSortKey>,
    pub extension_sort: SortState<ExtensionSortKey>,
    pub cleanup_sort: SortState<CleanupSortKey>,
    pub duplicate_sort: SortState<DuplicateSortKey>,
    pub ai_sort: SortState<AiSortKey>,
    /// The directory the treemap shows, when not the root.
    pub treemap_current_dir: Option<String>,
    pub scan_filter_excluded_dirs: String,
    pub scan_filter_excluded_extensions: String,
    pub scan_filter_same_file_system: bool,
    pub duplicate_min_size_bytes: u64,
    pub estimated_total_dirs: Option<u64>,
    pub estimated_total_files: Option<u64>,
    pub quick_scan_complete: bool,
    /// The directories unfolded in the tree panel.
    pub expanded_dirs: Vec<String>,
    /// The extensions picked out in the extension panel.
    pub selected_extensions: Vec<String>,
}

/// The status line of a new session.
pub open spec fn ready_message() -> Seq<char> {
    "准备扫描。第一版只分析空间占用，不删除任何文件。"@
}

/// The rules of the rule states.
pub open spec fn rules_of(states: Seq<CleanupRuleUiState>) -> Seq<CleanupRule> {
    states.map_values(|s: CleanupRuleUiState| s.rule)
}

/// Every rule state is switched on.
pub open spec fn all_enabled(states: Seq<CleanupRuleUiState>) -> bool {
    forall|i: int| 0 <= i < states.len() ==> (#[trigger] states[i]).enabled
}

fn enabled_states(rules: Vec<CleanupRule>) -> (r: Vec<CleanupRuleUiState>)
    ensures
        rules_of(r@) == rules@,
        all_enabled(r@),
{
    let ghost all = rules@;
    let mut rest = rules;
    let mut reversed: Vec<CleanupRule> = Vec::new();
    while rest.len() > 0
        invariant
            rest@ + reversed@.reverse() == all,
        decreases rest.len(),
    {
        let ghost before = reversed@;
        let rule = rest.pop().unwrap();
        reversed.push(rule);
        assert(reversed@.reverse() =~= seq![rule] + before.reverse());
        assert(rest@ + reversed@.reverse() =~= all);
    }
    assert(reversed@.reverse() =~= all);
    let mut r: Vec<CleanupRuleUiState> = Vec::new();
    while reversed.len() > 0
        invariant
            r@.len() + reversed@.len() == all.len(),
            forall|j: int| 0 <= j < r@.len() ==> (#[trigger] r@[j]).rule == all[j] && r@[j].enabled,
            reversed@.reverse() == all.subrange(r@.len() as int, all.len() as int),
        decreases reversed.len(),
    {
        let ghost before = reversed@;
        let rule = reversed.pop().unwrap();
        assert(before.reverse()[0] == rule);
        assert(reversed@.reverse() =~= before.reverse().drop_first());
        r.push(CleanupRuleUiState::new(rule));
    }
    assert(rules_of(r@) =~= all);
    r
}

impl Session {
    /// The scan's part of the state is the same in both.
    pub open spec fn same_scan(self, other: Session) -> bool {
        &&& self.root_input == other.root_input
        &&& self.scan_in_progress == other.scan_in_progress
        &&& self.cancel_requested == other.cancel_requested
        &&& self.progress == other.progress
        &&& self.stats == other.stats
        &&& self.treemap_current_dir == other.treemap_current_dir
        &&& self.estimated_total_dirs == other.estimated_total_dirs
        &&& self.estimated_total_files == other.estimated_total_files
        &&& self.quick_scan_complete == other.quick_scan_complete
    }

    /// The cleanup preview's part of the state is the same in both.
    pub open spec fn same_cleanup(self, other: Session) -> bool {
        &&& self.cleanup_in_progress == other.cleanup_in_progress
        &&& self.cleanup_cancel_requested == other.cleanup_cancel_requested
        &&& self.cleanup_progress == other.cleanup_progress
        &&& self.cleanup_preview == other.cleanup_preview
    }

    /// The duplicate search's part of the state is the same in both.
    pub open spec fn same_duplicates(self, other: Session) -> bool {
        &&& self.duplicate_in_progress == other.duplicate_in_progress
        &&& self.duplicate_cancel_requested == other.duplicate_cancel_requested
        &&& self.duplicate_progress == other.duplicate_progress
        &&& self.duplicate_preview == other.duplicate_preview
    }

    /// The AI review's part of the state is the same in both.
    pub open spec fn same_review(self, other: Session) -> bool {
        &&& self.ai_analysis_in_progress == other.ai_analysis_in_progress
        &&& self.ai_analysis_cancel_requested == other.ai_analysis_cancel_requested
        &&& self.ai_analysis_progress == other.ai_analysis_progress
        &&& self.ai_analysis_report == other.ai_analysis_report
    }

    /// The user's choices are the same in both.
    pub open spec fn same_choices(self, other: Session) -> bool {
        &&& self.ai_provider_config == other.ai_provider_config
        &&& self.cleanup_rules == other.cleanup_rules
        &&& self.search_query == other.search_query
        &&& self.directory_sort == other.directory_sort
        &&& self.file_sort == other.file_sort
        &&& self.extension_sort == other.extension_sort
        &&& self.cleanup_sort == other.cleanup_sort
        &&& self.duplicate_sort == other.duplicate_sort
        &&& self.ai_sort == other.ai_sort
        &&& self.scan_filter_excluded_dirs == other.scan_filter_excluded_dirs
        &&& self.scan_filter_excluded_extensions == other.scan_filter_excluded_extensions
        &&& self.scan_filter_same_file_system == other.scan_filter_same_file_system
        &&& self.duplicate_min_size_bytes == other.duplicate_min_size_bytes
        &&& self.expanded_dirs == other.expanded_dirs
        &&& self.selected_extensions == other.selected_extensions
    }

    /// A session on `root_input`: nothing running, nothing found, every default cleanup
    /// rule switched on, tables sorted largest first.
    pub fn new(root_input: String) -> (r: Session)
        ensures
            r.root_input == root_input,
            !r.scan_in_progress && !r.cancel_requested,
            (r.progress is None),
            (r.stats is None),
            !r.cleanup_in_progress && !r.cleanup_cancel_requested,
            (r.cleanup_progress is None),
            (r.cleanup_preview is None),
            !r.duplicate_in_progress && !r.duplicate_cancel_requested,
            (r.duplicate_progress is None),
            (r.duplicate_preview is None),
            !r.ai_analysis_in_progress && !r.ai_analysis_cancel_requested,
            (r.ai_analysis_progress is None),
            (r.ai_analysis_report is None),
            r.ai_provider_config.model@ == "gpt-4o-mini"@,
            crate::cleanup::default_rules_hold(rules_of(r.cleanup_rules@)),
            all_enabled(r.cleanup_rules@),
            r.status_message@ == ready_message(),
            r.selected_tab == ResultTab::Directories,
            r.search_query@.len() == 0,
            r.directory_sort == (SortState { key: DirectorySortKey::Size, direction: SortDirection::Desc }),
            r.file_sort == (SortState { key: FileSortKey::Size, direction: SortDirection::Desc }),
            r.extension_sort == (SortState { key: ExtensionSortKey::Size, direction: SortDirection::Desc }),
            r.cleanup_sort == (SortState { key: CleanupSortKey::Size, direction: SortDirection::Desc }),
            r.duplicate_sort == (SortState { key: DuplicateSortKey::Reclaimable, direction: SortDirection::Desc }),
            r.ai_sort == (SortState { key: AiSortKey::Size, direction: SortDirection::Desc }),
            (r.treemap_current_dir is None),
            r.scan_filter_excluded_dirs@.len() == 0,
            r.scan_filter_excluded_extensions@.len() == 0,
            !r.scan_filter_same_file_system,
            r.duplicate_min_size_bytes == DEFAULT_DUPLICATE_MIN_SIZE_BYTES,
            (r.estimated_total_dirs is None),
            (r.estimated_total_files is None),
            !r.quick_scan_complete,
            r.expanded_dirs@.len() == 0,
            r.selected_extensions@.len() == 0,
    {
        Session {
            root_input,
            scan_in_progress: false,
            cancel_requested: false,
            progress: None,
            stats: None,
            cleanup_in_progress: false,
            cleanup_cancel_requested: false,
            cleanup_progress: None,
            cleanup_preview: None,
            duplicate_in_progress: false,
            duplicate_cancel_requested: false,
            duplicate_progress: None,
            duplicate_preview: None,
            ai_analysis_in_progress: false,
            ai_analysis_cancel_requested: false,
            ai_analysis_progress: None,
            ai_analysis_report: None,
            ai_provider_config: AiProviderConfig::default(),
            cleanup_rules: enabled_states(default_cleanup_rules()),
            status_message: owned("准备扫描。第一版只分析空间占用，不删除任何文件。"),
            selected_tab: ResultTab::Directories,
            search_query: String::new(),
            directory_sort: SortState::new(DirectorySortKey::Size, SortDirection::Desc),
            file_sort: SortState::new(FileSortKey::Size, SortDirection::Desc),
            extension_sort: SortState::new(ExtensionSortKey::Size, SortDirection::Desc),
            cleanup_sort: SortState::new(CleanupSortKey::Size, SortDirection::Desc),
            duplicate_sort: SortState::new(DuplicateSortKey::Reclaimable, SortDirection::Desc),
            ai_sort: SortState::new(AiSortKey::Size, SortDirection::Desc),
            treemap_current_dir: None,
            scan_filter_excluded_dirs: String::new(),
            scan_filter_excluded_extensions: String::new(),
            scan_filter_same_file_system: false,
            duplicate_min_size_bytes: DEFAULT_DUPLICATE_MIN_SIZE_BYTES,
            estimated_total_dirs: None,
            estimated_total_files: None,
            quick_scan_complete: false,
            expanded_dirs: Vec::new(),
            selected_extensions: Vec::new(),
        }
    }
}

// ---------------------------------------------------------------------------------------
// Messages

/// The typed filter settings give this scan filter.
pub open spec fn filter_of(s: Session, f: ScanFilterConfig) -> bool {
    &&& views(f.excluded_directories@) == kept_entries(split_parts(s.scan_filter_excluded_dirs@))
    &&& views(f.excluded_extensions@) == kept_extensions(split_parts(s.scan_filter_excluded_extensions@))
    &&& f.same_file_system == s.scan_filter_same_file_system
}

/// How a running scan names its mode.
pub open spec fn mode_name(mode: ScanMode, threads: Option<usize>) -> Seq<char> {
    match mode {
        ScanMode::ParallelFullScan => match threads {
            Some(t) => "多线程 ("@ + decimal(t as nat) + "线程)"@,
            None => "多线程"@,
        },
        ScanMode::MftScan => "MFT 高速"@,
        _ => "单线程"@,
    }
}

/// The status line for a scan report. `measured` is the share done and the times, shown
/// when the number of directories is estimated.
pub open spec fn progress_message(p: ScanProgress, estimated: bool, measured: Option<Seq<char>>) -> Seq<char> {
    if p.cancelled {
        "扫描已取消，当前显示的是部分结果。"@
    } else if p.finished {
        "扫描完成。"@
    } else {
        match p.current_path {
            Some(path) => match p.scan_mode {
                ScanMode::QuickCount => "快速统计："@ + path@,
                _ => match measured {
                    Some(m) if estimated => mode_name(p.scan_mode, p.active_threads) + "扫描中："@ + m + " "@ + path@,
                    _ => mode_name(p.scan_mode, p.active_threads) + "扫描："@ + path@,
                },
            },
            None => match p.scan_mode {
                ScanMode::QuickCount => "快速统计中..."@,
                ScanMode::FullScan => "单线程详细扫描中..."@,
                ScanMode::ParallelFullScan => match p.active_threads {
                    Some(t) => "多线程详细扫描中 ("@ + decimal(t as nat) + " 线程)..."@,
                    None => "多线程详细扫描中..."@,
                },
                ScanMode::MftScan => "MFT 高速扫描中..."@,
            },
        }
    }
}

/// How a finished scan names its mode.
pub open spec fn finished_mode_name(mode: ScanMode) -> Seq<char> {
    match mode {
        ScanMode::ParallelFullScan => "多线程"@,
        ScanMode::MftScan => "MFT 高速"@,
        _ => "单线程"@,
    }
}

/// The status line for a finished detailed scan, before the cache is written.
pub open spec fn finished_message(r: ScanFinished, elapsed_secs: nat, total_size: Seq<char>) -> Seq<char> {
    (if r.cancelled {
        finished_mode_name(r.scan_mode) + "扫描已取消：已统计 "@ + spec_count(r.stats.file_count as nat) + " 个文件，"@
            + spec_count(r.stats.dir_count as nat) + " 个目录，部分结果共 "@ + total_size + "。"@
    } else {
        finished_mode_name(r.scan_mode) + "扫描完成："@ + spec_count(r.stats.file_count as nat) + " 个文件，"@
            + spec_count(r.stats.dir_count as nat) + " 个目录，总计 "@ + total_size + "。"@
    }) + " 耗时："@ + spec_duration(elapsed_secs)
}

/// The status line when the quick count is done and the detailed scan starts.
pub open spec fn quick_count_message(dirs: nat, files: nat, threads: nat) -> Seq<char> {
    "快速统计完成："@ + spec_count(dirs) + " 个目录，"@ + spec_count(files) + " 个文件。开始多线程详细扫描 ("@
        + decimal(threads) + " 线程)..."@
}

/// What the caller does after a scan finished.
pub enum ScanFollowUp {
    Nothing,
    /// Start the detailed scan with these options.
    StartScan(ScanOptions),
    /// Write the finished scan to the cache, then report with `latest_scan_saved`.
    SaveLatestScan,
}

fn text_of(m: &Vec<char>) -> (r: String)
    ensures
        r@ == m@,
{
    string_from_chars(m.as_slice())
}

fn push_decimal(m: &mut Vec<char>, n: u64)
    ensures
        final(m)@ == old(m)@ + decimal(n as nat),
{
    let d = decimal_chars(n);
    push_all(m, d.as_slice());
}

fn push_count(m: &mut Vec<char>, n: u64)
    ensures
        final(m)@ == old(m)@ + spec_count(n as nat),
{
    let c = count(n);
    push_lit(m, c.as_str());
}

impl Session {
    /// Everything but the status line and the selected tab is the same in both.
    pub open spec fn same_state(self, other: Session) -> bool {
        &&& self.same_scan(other)
        &&& self.same_cleanup(other)
        &&& self.same_duplicates(other)
        &&& self.same_review(other)
        &&& self.same_choices(other)
    }

    /// The scan filter the typed settings give.
    pub fn build_scan_filter_config(&self) -> (r: ScanFilterConfig)
        ensures
            filter_of(*self, r),
    {
        scan_filter_config_from_input(
            self.scan_filter_excluded_dirs.as_str(),
            self.scan_filter_excluded_extensions.as_str(),
            self.scan_filter_same_file_system,
        )
    }

    /// The directory to scan: the input without surrounding white space.
    pub fn root_candidate(&self) -> (r: String)
        ensures
            r@ == trim(self.root_input@),
    {
        let v = crate::text::chars_of(self.root_input.as_str());
        let t = crate::text::trim_chars(v.as_slice());
        string_from_chars(t.as_slice())
    }

    /// Checks the directory to scan, given whether it exists and is a directory: an empty
    /// input, a missing path or a path that is not a directory is reported on the status
    /// line and gives `None`.
    pub fn validate_root_input(&mut self, exists: bool, is_dir: bool) -> (r: Option<String>)
        ensures
            final(self).same_state(*old(self)),
            final(self).selected_tab == old(self).selected_tab,
            trim(old(self).root_input@).len() == 0 ==> r is None && final(self).status_message@
                == "请输入要扫描的目录。"@,
            trim(old(self).root_input@).len() > 0 ==> match spec_root_problem(trim(old(self).root_input@), exists, is_dir) {
                Some(m) => r is None && final(self).status_message@ == m,
                None => r matches Some(root) && root@ == trim(old(self).root_input@) && final(self).status_message
                    == old(self).status_message,
            },
    {
        match root_input(self.root_input.as_str()) {
            Err(e) => {
                self.status_message = e;
                None
            },
            Ok(root) => match check_root(root.as_str(), exists, is_dir) {
                Err(e) => {
                    self.status_message = e;
                    None
                },
                Ok(()) => Some(root),
            },
        }
    }

    /// The scan's state when a new scan starts: running, nothing found yet.
    pub open spec fn scan_started(self, old: Session, quick_scan_complete: bool) -> bool {
        &&& self.root_input == old.root_input
        &&& self.scan_in_progress && !self.cancel_requested
        &&& self.progress is None && self.stats is None
        &&& self.cleanup_preview is None && self.cleanup_progress is None
        &&& self.cleanup_in_progress == old.cleanup_in_progress
        &&& self.cleanup_cancel_requested == old.cleanup_cancel_requested
        &&& self.duplicate_preview is None && self.duplicate_progress is None
        &&& self.duplicate_in_progress == old.duplicate_in_progress
        &&& self.duplicate_cancel_requested == old.duplicate_cancel_requested
        &&& self.ai_analysis_report is None && self.ai_analysis_progress is None
        &&& self.ai_analysis_in_progress == old.ai_analysis_in_progress
        &&& self.ai_analysis_cancel_requested == old.ai_analysis_cancel_requested
        &&& self.treemap_current_dir is None
        &&& self.quick_scan_complete == quick_scan_complete
        &&& self.estimated_total_dirs is None && self.estimated_total_files is None
        &&& self.same_choices(old)
        &&& self.selected_tab == old.selected_tab
    }

    fn clear_for_new_scan(&mut self, quick_scan_complete: bool)
        ensures
            final(self).scan_started(*old(self), quick_scan_complete),
            final(self).status_message == old(self).status_message,
    {
        self.scan_in_progress = true;
        self.cancel_requested = false;
        self.progress = None;
        self.stats = None;
        self.cleanup_preview = None;
        self.cleanup_progress = None;
        self.duplicate_preview = None;
        self.duplicate_progress = None;
        self.ai_analysis_report = None;
        self.ai_analysis_progress = None;
        self.treemap_current_dir = None;
        self.quick_scan_complete = quick_scan_complete;
        self.estimated_total_dirs = None;
        self.estimated_total_files = None;
    }

    /// Starts a multi-threaded scan of the checked directory, forgetting earlier results;
    /// gives the scan's options, or `None` (and the problem on the status line) when the
    /// directory does not check.
    pub fn start_scan(&mut self, exists: bool, is_dir: bool) -> (r: Option<ScanOptions>)
        ensures
            spec_root_problem(trim(old(self).root_input@), exists, is_dir) is None && trim(old(self).root_input@).len()
                > 0 ==> (r matches Some(o) && o.root@ == trim(old(self).root_input@) && filter_of(*old(self), o.filter_config)
                && o.mode == ScanMode::ParallelFullScan && o.num_threads is None && o.drive_letter is None
                && final(self).scan_started(*old(self), true) && final(self).status_message@ == "多线程扫描中："@
                + trim(old(self).root_input@)),
            r is None ==> final(self).same_state(*old(self)) && final(self).selected_tab == old(self).selected_tab,
    {
        let root = match self.validate_root_input(exists, is_dir) {
            Some(root) => root,
            None => return None,
        };
        let filter_config = self.build_scan_filter_config();
        let mut m: Vec<char> = Vec::new();
        push_lit(&mut m, "多线程扫描中：");
        push_lit(&mut m, root.as_str());
        let options = ScanOptions::new(root, filter_config).with_mode(ScanMode::ParallelFullScan);
        self.clear_for_new_scan(true);
        self.status_message = text_of(&m);
        Some(options)
    }

    /// Starts a scan of the checked drive through its master file table; the drive is the
    /// first character of the directory.
    pub fn start_mft_scan(&mut self, exists: bool, is_dir: bool) -> (r: Option<ScanOptions>)
        ensures
            spec_root_problem(trim(old(self).root_input@), exists, is_dir) is None && trim(old(self).root_input@).len()
                > 0 ==> (r matches Some(o) && o.root@ == trim(old(self).root_input@) && filter_of(*old(self), o.filter_config)
                && o.mode == ScanMode::MftScan && o.num_threads is None && o.drive_letter == Some(
                trim(old(self).root_input@)[0],
            ) && final(self).scan_started(*old(self), false) && final(self).status_message@ == "MFT 高速扫描中：驱动器 "@
                + seq![trim(old(self).root_input@)[0]] + ":..."@),
            r is None ==> final(self).same_state(*old(self)) && final(self).selected_tab == old(self).selected_tab,
    {
        let root = match self.validate_root_input(exists, is_dir) {
            Some(root) => root,
            None => return None,
        };
        let v = crate::text::chars_of(root.as_str());
        let drive_letter = v[0];
        let filter_config = self.build_scan_filter_config();
        let mut m: Vec<char> = Vec::new();
        push_lit(&mut m, "MFT 高速扫描中：驱动器 ");
        m.push(drive_letter);
        push_lit(&mut m, ":...");
        let options = ScanOptions::new(root, filter_config).with_mode(ScanMode::MftScan).with_drive_letter(drive_letter);
        self.clear_for_new_scan(false);
        self.status_message = text_of(&m);
        Some(options)
    }

    /// Asks the running scan to stop; the results so far are kept. Gives whether a scan was
    /// running (the caller then cancels it).
    pub fn cancel_scan(&mut self) -> (r: bool)
        ensures
            r == old(self).scan_in_progress,
            r ==> final(self).cancel_requested && final(self).status_message@ == "正在取消扫描，已扫描结果会保留……"@,
            !r ==> *final(self) == *old(self),
            final(self).root_input == old(self).root_input && final(self).scan_in_progress == old(self).scan_in_progress
                && final(self).progress == old(self).progress && final(self).stats == old(self).stats,
            final(self).same_cleanup(*old(self)) && final(self).same_duplicates(*old(self)) && final(self).same_review(
                *old(self),
            ) && final(self).same_choices(*old(self)) && final(self).selected_tab == old(self).selected_tab,
    {
        if self.scan_in_progress {
            self.cancel_requested = true;
            self.status_message = owned("正在取消扫描，已扫描结果会保留……");
            true
        } else {
            false
        }
    }
}

fn push_mode_name(m: &mut Vec<char>, mode: ScanMode, threads: Option<usize>)
    ensures
        final(m)@ == old(m)@ + mode_name(mode, threads),
{
    match mode {
        ScanMode::ParallelFullScan => match threads {
            Some(t) => {
                push_lit(m, "多线程 (");
                push_decimal(m, t as u64);
                push_lit(m, "线程)");
                assert(old(m)@ + "多线程 ("@ + decimal(t as nat) + "线程)"@ =~= old(m)@ + ("多线程 ("@ + decimal(
                    t as nat,
                ) + "线程)"@));
            },
            None => push_lit(m, "多线程"),
        },
        ScanMode::MftScan => push_lit(m, "MFT 高速"),
        _ => push_lit(m, "单线程"),
    }
}

fn progress_text(p: &ScanProgress, estimated: bool, measured: &Option<String>) -> (r: String)
    ensures
        r@ == progress_message(
            *p,
            estimated,
            match measured {
                Some(m) => Some(m@),
                None => None,
            },
        ),
{
    if p.cancelled {
        return owned("扫描已取消，当前显示的是部分结果。");
    }
    if p.finished {
        return owned("扫描完成。");
    }
    let mut m: Vec<char> = Vec::new();
    match &p.current_path {
        Some(path) => match p.scan_mode {
            ScanMode::QuickCount => {
                push_lit(&mut m, "快速统计：");
                push_lit(&mut m, path.as_str());
            },
            _ => {
                push_mode_name(&mut m, p.scan_mode, p.active_threads);
                match measured {
                    Some(text) if estimated => {
                        push_lit(&mut m, "扫描中：");
                        push_lit(&mut m, text.as_str());
                        push_lit(&mut m, " ");
                        push_lit(&mut m, path.as_str());
                    },
                    _ => {
                        push_lit(&mut m, "扫描：");
                        push_lit(&mut m, path.as_str());
                    },
                }
            },
        },
        None => match p.scan_mode {
            ScanMode::QuickCount => push_lit(&mut m, "快速统计中..."),
            ScanMode::FullScan => push_lit(&mut m, "单线程详细扫描中..."),
            ScanMode::ParallelFullScan => match p.active_threads {
                Some(t) => {
                    push_lit(&mut m, "多线程详细扫描中 (");
                    push_decimal(&mut m, t as u64);
                    push_lit(&mut m, " 线程)...");
                },
                None => push_lit(&mut m, "多线程详细扫描中..."),
            },
            ScanMode::MftScan => push_lit(&mut m, "MFT 高速扫描中..."),
        },
    }
    text_of(&m)
}

impl Session {
    /// A report from the running scan: the status line follows it (with `measured`, the
    /// share done and the times, when the number of directories is estimated), the
    /// estimates it carries are kept, and it becomes the latest report.
    pub fn apply_progress(&mut self, progress: ScanProgress, measured: Option<String>)
        ensures
            final(self).status_message@ == progress_message(
                progress,
                old(self).estimated_total_dirs is Some,
                match measured {
                    Some(m) => Some(m@),
                    None => None,
                },
            ),
            final(self).progress == Some(progress),
            final(self).estimated_total_dirs == (if progress.estimated_total_dirs is Some {
                progress.estimated_total_dirs
            } else {
                old(self).estimated_total_dirs
            }),
            final(self).estimated_total_files == (if progress.estimated_total_files is Some {
                progress.estimated_total_files
            } else {
                old(self).estimated_total_files
            }),
            final(self).root_input == old(self).root_input && final(self).scan_in_progress == old(self).scan_in_progress
                && final(self).cancel_requested == old(self).cancel_requested && final(self).stats == old(self).stats
                && final(self).treemap_current_dir == old(self).treemap_current_dir && final(self).quick_scan_complete
                == old(self).quick_scan_complete,
            final(self).same_cleanup(*old(self)) && final(self).same_duplicates(*old(self)) && final(self).same_review(
                *old(self),
            ) && final(self).same_choices(*old(self)) && final(self).selected_tab == old(self).selected_tab,
    {
        self.status_message = progress_text(&progress, self.estimated_total_dirs.is_some(), &measured);
        if progress.estimated_total_dirs.is_some() {
            self.estimated_total_dirs = progress.estimated_total_dirs;
        }
        if progress.estimated_total_files.is_some() {
            self.estimated_total_files = progress.estimated_total_files;
        }
        self.progress = Some(progress);
    }

    /// A scan finished. After the quick count, the estimates are kept and (unless it was
    /// cancelled) the detailed multi-threaded scan of the typed directory follows, with
    /// `threads` worker threads. After a detailed scan, its result is shown, the scan stops,
    /// and (unless it was cancelled) the result is to be written to the cache.
    /// `total_size` is the scanned size as shown.
    pub fn apply_finished(&mut self, result: ScanFinished, elapsed_secs: u64, total_size: &str, threads: usize) -> (r:
        ScanFollowUp)
        ensures
            result.scan_mode == ScanMode::QuickCount ==> {
                &&& final(self).estimated_total_dirs == Some(result.total_dirs)
                &&& final(self).estimated_total_files == Some(result.total_files)
                &&& final(self).quick_scan_complete
                &&& final(self).stats == old(self).stats
                &&& final(self).progress == old(self).progress
                &&& final(self).cancel_requested == old(self).cancel_requested
                &&& if result.cancelled {
                    &&& !final(self).scan_in_progress
                    &&& final(self).status_message@ == "快速统计已取消"@
                    &&& r is Nothing
                } else {
                    &&& final(self).scan_in_progress == old(self).scan_in_progress
                    &&& final(self).status_message@ == quick_count_message(
                        result.total_dirs as nat,
                        result.total_files as nat,
                        threads as nat,
                    )
                    &&& r matches ScanFollowUp::StartScan(o) && o.root == old(self).root_input && filter_of(
                        *old(self),
                        o.filter_config,
                    ) && o.mode == ScanMode::ParallelFullScan && o.num_threads is None && o.drive_letter is None
                }
            },
            result.scan_mode != ScanMode::QuickCount ==> {
                &&& final(self).stats == Some(result.stats)
                &&& !final(self).scan_in_progress && !final(self).cancel_requested
                &&& final(self).progress == old(self).progress
                &&& final(self).estimated_total_dirs == old(self).estimated_total_dirs
                &&& final(self).estimated_total_files == old(self).estimated_total_files
                &&& final(self).quick_scan_complete == old(self).quick_scan_complete
                &&& final(self).status_message@ == finished_message(result, elapsed_secs as nat, total_size@)
                &&& (if result.cancelled {
                    r is Nothing
                } else {
                    r is SaveLatestScan
                })
            },
            final(self).root_input == old(self).root_input,
            final(self).treemap_current_dir == old(self).treemap_current_dir,
            final(self).same_cleanup(*old(self)) && final(self).same_duplicates(*old(self)) && final(self).same_review(
                *old(self),
            ) && final(self).same_choices(*old(self)) && final(self).selected_tab == old(self).selected_tab,
    {
        match result.scan_mode {
            ScanMode::QuickCount => {
                self.estimated_total_dirs = Some(result.total_dirs);
                self.estimated_total_files = Some(result.total_files);
                self.quick_scan_complete = true;
                if result.cancelled {
                    self.scan_in_progress = false;
                    self.status_message = owned("快速统计已取消");
                    return ScanFollowUp::Nothing;
                }
                let filter_config = self.build_scan_filter_config();
                let options = ScanOptions::new(self.root_input.clone(), filter_config).with_mode(
                    ScanMode::ParallelFullScan,
                );
                let mut m: Vec<char> = Vec::new();
                push_lit(&mut m, "快速统计完成：");
                push_count(&mut m, result.total_dirs);
                push_lit(&mut m, " 个目录，");
                push_count(&mut m, result.total_files);
                push_lit(&mut m, " 个文件。开始多线程详细扫描 (");
                push_decimal(&mut m, threads as u64);
                push_lit(&mut m, " 线程)...");
                self.status_message = text_of(&m);
                ScanFollowUp::StartScan(options)
            },
            _ => {
                let mut m: Vec<char> = Vec::new();
                match result.scan_mode {
                    ScanMode::ParallelFullScan => push_lit(&mut m, "多线程"),
                    ScanMode::MftScan => push_lit(&mut m, "MFT 高速"),
                    _ => push_lit(&mut m, "单线程"),
                }
                let file_count = result.stats.file_count;
                let dir_count = result.stats.dir_count;
                if result.cancelled {
                    push_lit(&mut m, "扫描已取消：已统计 ");
                    push_count(&mut m, file_count);
                    push_lit(&mut m, " 个文件，");
                    push_count(&mut m, dir_count);
                    push_lit(&mut m, " 个目录，部分结果共 ");
                } else {
                    push_lit(&mut m, "扫描完成：");
                    push_count(&mut m, file_count);
                    push_lit(&mut m, " 个文件，");
                    push_count(&mut m, dir_count);
                    push_lit(&mut m, " 个目录，总计 ");
                }
                push_lit(&mut m, total_size);
                push_lit(&mut m, "。");
                push_lit(&mut m, " 耗时：");
                let d = duration(elapsed_secs);
                push_lit(&mut m, d.as_str());
                let cancelled = result.cancelled;
                self.stats = Some(result.stats);
                self.scan_in_progress = false;
                self.cancel_requested = false;
                self.status_message = text_of(&m);
                if cancelled {
                    ScanFollowUp::Nothing
                } else {
                    ScanFollowUp::SaveLatestScan
                }
            },
        }
    }

    /// The finished scan was written to the cache at `outcome`'s path, or failed with its
    /// error; the status line says so.
    pub fn latest_scan_saved(&mut self, outcome: Result<String, String>)
        ensures
            final(self).status_message@ == old(self).status_message@ + match outcome {
                Ok(path) => " 已写入 SQLite 最新缓存："@ + path@ + "。"@,
                Err(e) => " SQLite 最新缓存写入失败："@ + e@ + "。"@,
            },
            final(self).same_state(*old(self)) && final(self).selected_tab == old(self).selected_tab,
    {
        let mut m = crate::text::chars_of(self.status_message.as_str());
        match &outcome {
            Ok(path) => {
                push_lit(&mut m, " 已写入 SQLite 最新缓存：");
                push_lit(&mut m, path.as_str());
            },
            Err(e) => {
                push_lit(&mut m, " SQLite 最新缓存写入失败：");
                push_lit(&mut m, e.as_str());
            },
        }
        push_lit(&mut m, "。");
        self.status_message = text_of(&m);
    }
}

// ---------------------------------------------------------------------------------------
// Cleanup rules

/// The rules that are switched on, in order.
pub open spec fn enabled_rules(states: Seq<CleanupRuleUiState>) -> Seq<CleanupRule>
    decreases states.len(),
{
    if states.len() == 0 {
        Seq::empty()
    } else {
        let before = enabled_rules(states.drop_last());
        if states.last().enabled {
            before.push(states.last().rule)
        } else {
            before
        }
    }
}

fn copy_extensions(v: &Vec<&'static str>) -> (r: Vec<&'static str>)
    ensures
        r@ == v@,
{
    let mut r: Vec<&'static str> = Vec::new();
    let mut i: usize = 0;
    while i < v.len()
        invariant
            i <= v@.len(),
            r@ == v@.take(i as int),
        decreases v.len() - i,
    {
        r.push(v[i]);
        i = i + 1;
        assert(r@ =~= v@.take(i as int));
    }
    assert(v@.take(v@.len() as int) =~= v@);
    r
}

/// A rule as plain values: its texts, its risk and, for a rule on extensions, the
/// extensions.
pub open spec fn rule_view(r: CleanupRule) -> (Seq<char>, Seq<char>, Seq<char>, CleanupRisk, Option<Seq<&'static str>>) {
    (
        r.id@,
        r.label@,
        r.description@,
        r.risk,
        match r.matcher {
            CleanupMatcher::Extension(e) => Some(e@),
            CleanupMatcher::TempOrCacheDirectory => None,
        },
    )
}

/// The rules as plain values.
pub open spec fn rule_views(s: Seq<CleanupRule>) -> Seq<(Seq<char>, Seq<char>, Seq<char>, CleanupRisk, Option<Seq<&'static str>>)> {
    s.map_values(|r: CleanupRule| rule_view(r))
}

/// A copy of a rule.
pub fn copy_rule(rule: &CleanupRule) -> (r: CleanupRule)
    ensures
        rule_view(r) == rule_view(*rule),
{
    let matcher = match &rule.matcher {
        CleanupMatcher::Extension(e) => CleanupMatcher::Extension(copy_extensions(e)),
        CleanupMatcher::TempOrCacheDirectory => CleanupMatcher::TempOrCacheDirectory,
    };
    CleanupRule { id: rule.id, label: rule.label, description: rule.description, risk: rule.risk, matcher }
}

fn switched(states: Vec<CleanupRuleUiState>, enabled: bool) -> (r: Vec<CleanupRuleUiState>)
    ensures
        rules_of(r@) == rules_of(states@),
        forall|i: int| 0 <= i < r@.len() ==> (#[trigger] r@[i]).enabled == enabled,
{
    let ghost all = states@;
    let mut rest = states;
    let mut r: Vec<CleanupRuleUiState> = Vec::new();
    while rest.len() > 0
        invariant
            r@.len() + rest@.len() == all.len(),
            rest@ == all.subrange(r@.len() as int, all.len() as int),
            forall|j: int| 0 <= j < r@.len() ==> (#[trigger] r@[j]).rule == all[j].rule && r@[j].enabled == enabled,
        decreases rest.len(),
    {
        let ghost before = rest@;
        let state = rest.remove(0);
        assert(rest@ =~= before.subrange(1, before.len() as int));
        r.push(CleanupRuleUiState { rule: state.rule, enabled });
    }
    assert(rules_of(r@) =~= rules_of(all));
    r
}

/// The cleanup preview after its rules changed: unless one is running, a preview shown is
/// dropped and the status line asks for a new one.
pub open spec fn cleanup_invalidated(new: Session, old: Session) -> bool {
    &&& new.cleanup_in_progress == old.cleanup_in_progress
    &&& new.cleanup_cancel_requested == old.cleanup_cancel_requested
    &&& if !old.cleanup_in_progress && (old.cleanup_preview is Some || old.cleanup_progress is Some) {
        &&& new.cleanup_preview is None
        &&& new.cleanup_progress is None
        &&& new.status_message@ == "清理规则已变化，请重新生成 dry-run 预览。"@
    } else {
        &&& new.cleanup_preview == old.cleanup_preview
        &&& new.cleanup_progress == old.cleanup_progress
        &&& new.status_message == old.status_message
    }
}

/// The duplicate search after its settings changed: unless one is running, a result shown
/// is dropped and the status line asks for a new search.
pub open spec fn duplicates_invalidated(new: Session, old: Session) -> bool {
    &&& new.duplicate_in_progress == old.duplicate_in_progress
    &&& new.duplicate_cancel_requested == old.duplicate_cancel_requested
    &&& if !old.duplicate_in_progress && (old.duplicate_preview is Some || old.duplicate_progress is Some) {
        &&& new.duplicate_preview is None
        &&& new.duplicate_progress is None
        &&& new.status_message@ == "重复检测配置已变化，请重新查找重复文件。"@
    } else {
        &&& new.duplicate_preview == old.duplicate_preview
        &&& new.duplicate_progress == old.duplicate_progress
        &&& new.status_message == old.status_message
    }
}

impl Session {
    /// Every choice but the cleanup rules is the same in both.
    pub open spec fn same_choices_but_rules(self, other: Session) -> bool {
        &&& self.ai_provider_config == other.ai_provider_config
        &&& self.search_query == other.search_query
        &&& self.directory_sort == other.directory_sort
        &&& self.file_sort == other.file_sort
        &&& self.extension_sort == other.extension_sort
        &&& self.cleanup_sort == other.cleanup_sort
        &&& self.duplicate_sort == other.duplicate_sort
        &&& self.ai_sort == other.ai_sort
        &&& self.scan_filter_excluded_dirs == other.scan_filter_excluded_dirs
        &&& self.scan_filter_excluded_extensions == other.scan_filter_excluded_extensions
        &&& self.scan_filter_same_file_system == other.scan_filter_same_file_system
        &&& self.duplicate_min_size_bytes == other.duplicate_min_size_bytes
        &&& self.expanded_dirs == other.expanded_dirs
        &&& self.selected_extensions == other.selected_extensions
    }

    /// The rules that are switched on.
    pub fn enabled_cleanup_rules(&self) -> (r: Vec<CleanupRule>)
        ensures
            rule_views(r@) == rule_views(enabled_rules(self.cleanup_rules@)),
    {
        let states = &self.cleanup_rules;
        let mut r: Vec<CleanupRule> = Vec::new();
        let mut i: usize = 0;
        while i < states.len()
            invariant
                i <= states@.len(),
                rule_views(r@) == rule_views(enabled_rules(states@.take(i as int))),
            decreases states.len() - i,
        {
            assert(states@.take(i as int + 1).drop_last() =~= states@.take(i as int));
            if states[i].enabled {
                let ghost before = r@;
                r.push(copy_rule(&states[i].rule));
                assert(rule_views(r@) =~= rule_views(before).push(rule_view(states@[i as int].rule)));
                assert(rule_views(enabled_rules(states@.take(i as int)).push(states@[i as int].rule)) =~= rule_views(
                    enabled_rules(states@.take(i as int)),
                ).push(rule_view(states@[i as int].rule)));
            }
            i = i + 1;
        }
        assert(states@.take(states@.len() as int) =~= states@);
        r
    }

    /// How many rules are switched on.
    pub fn enabled_cleanup_rule_count(&self) -> (r: usize)
        ensures
            r == enabled_rules(self.cleanup_rules@).len(),
    {
        let states = &self.cleanup_rules;
        let mut n: usize = 0;
        let mut i: usize = 0;
        while i < states.len()
            invariant
                i <= states@.len(),
                n == enabled_rules(states@.take(i as int)).len(),
                n <= i,
            decreases states.len() - i,
        {
            assert(states@.take(i as int + 1).drop_last() =~= states@.take(i as int));
            if states[i].enabled {
                n = n + 1;
            }
            i = i + 1;
        }
        assert(states@.take(states@.len() as int) =~= states@);
        n
    }

    fn invalidate_cleanup_preview_after_rule_change(&mut self)
        ensures
            cleanup_invalidated(*final(self), *old(self)),
            final(self).same_scan(*old(self)) && final(self).same_duplicates(*old(self)) && final(self).same_review(
                *old(self),
            ) && final(self).same_choices(*old(self)) && final(self).selected_tab == old(self).selected_tab,
    {
        if !self.cleanup_in_progress && (self.cleanup_preview.is_some() || self.cleanup_progress.is_some()) {
            self.cleanup_preview = None;
            self.cleanup_progress = None;
            self.status_message = owned("清理规则已变化，请重新生成 dry-run 预览。");
        }
    }

    fn invalidate_duplicate_preview_after_config_change(&mut self)
        ensures
            duplicates_invalidated(*final(self), *old(self)),
            final(self).same_scan(*old(self)) && final(self).same_cleanup(*old(self)) && final(self).same_review(
                *old(self),
            ) && final(self).same_choices(*old(self)) && final(self).selected_tab == old(self).selected_tab,
    {
        if !self.duplicate_in_progress && (self.duplicate_preview.is_some() || self.duplicate_progress.is_some()) {
            self.duplicate_preview = None;
            self.duplicate_progress = None;
            self.status_message = owned("重复检测配置已变化，请重新查找重复文件。");
        }
    }

    /// Switches every rule on or off; a preview made with other rules is dropped.
    pub fn set_all_cleanup_rules_enabled(&mut self, enabled: bool)
        ensures
            rules_of(final(self).cleanup_rules@) == rules_of(old(self).cleanup_rules@),
            forall|i: int| 0 <= i < final(self).cleanup_rules@.len() ==> (#[trigger] final(self).cleanup_rules@[i]).enabled
                == enabled,
            cleanup_invalidated(*final(self), *old(self)),
            final(self).same_scan(*old(self)) && final(self).same_duplicates(*old(self)) && final(self).same_review(
                *old(self),
            ) && final(self).same_choices_but_rules(*old(self)) && final(self).selected_tab == old(self).selected_tab,
    {
        let mut states: Vec<CleanupRuleUiState> = Vec::new();
        std::mem::swap(&mut states, &mut self.cleanup_rules);
        self.cleanup_rules = switched(states, enabled);
        self.invalidate_cleanup_preview_after_rule_change();
    }

    /// Switches one rule on or off; when that changes it, a preview made with the old rules
    /// is dropped. A position past the end changes nothing.
    pub fn set_cleanup_rule_enabled(&mut self, index: usize, enabled: bool)
        ensures
            index < old(self).cleanup_rules@.len() && old(self).cleanup_rules@[index as int].enabled != enabled ==> {
                &&& final(self).cleanup_rules@ == old(self).cleanup_rules@.update(
                    index as int,
                    CleanupRuleUiState { rule: old(self).cleanup_rules@[index as int].rule, enabled },
                )
                &&& cleanup_invalidated(*final(self), *old(self))
            },
            !(index < old(self).cleanup_rules@.len() && old(self).cleanup_rules@[index as int].enabled != enabled)
                ==> *final(self) == *old(self),
            final(self).same_scan(*old(self)) && final(self).same_duplicates(*old(self)) && final(self).same_review(
                *old(self),
            ) && final(self).same_choices_but_rules(*old(self)) && final(self).selected_tab == old(self).selected_tab,
    {
        if index < self.cleanup_rules.len() && self.cleanup_rules[index].enabled != enabled {
            let old_state = self.cleanup_rules.remove(index);
            self.cleanup_rules.insert(index, CleanupRuleUiState { rule: old_state.rule, enabled });
            self.invalidate_cleanup_preview_after_rule_change();
        }
    }

    /// Back to the default rules, all switched on; a preview made with other rules is
    /// dropped.
    pub fn reset_cleanup_rules(&mut self)
        ensures
            crate::cleanup::default_rules_hold(rules_of(final(self).cleanup_rules@)),
            all_enabled(final(self).cleanup_rules@),
            cleanup_invalidated(*final(self), *old(self)),
            final(self).same_scan(*old(self)) && final(self).same_duplicates(*old(self)) && final(self).same_review(
                *old(self),
            ) && final(self).same_choices_but_rules(*old(self)) && final(self).selected_tab == old(self).selected_tab,
    {
        self.cleanup_rules = enabled_states(default_cleanup_rules());
        self.invalidate_cleanup_preview_after_rule_change();
    }

    /// Sets the smallest file size the duplicate search considers (at least one byte); a
    /// result found with another size is dropped.
    pub fn set_duplicate_min_size(&mut self, value: u64)
        ensures
            final(self).duplicate_min_size_bytes == (if value < 1 { 1 } else { value }),
            duplicates_invalidated(*final(self), *old(self)),
            final(self).same_scan(*old(self)) && final(self).same_cleanup(*old(self)) && final(self).same_review(
                *old(self),
            ) && final(self).cleanup_rules == old(self).cleanup_rules && final(self).ai_provider_config
                == old(self).ai_provider_config && final(self).selected_tab == old(self).selected_tab,
    {
        self.duplicate_min_size_bytes = if value < 1 {
            1
        } else {
            value
        };
        self.invalidate_duplicate_preview_after_config_change();
    }
}

// ---------------------------------------------------------------------------------------
// Cleanup preview, duplicate search, AI review

/// The status line for a report from the cleanup preview.
pub open spec fn cleanup_progress_message(p: CleanupPreviewProgress) -> Seq<char> {
    if p.cancelled {
        "清理预览已取消，当前显示的是部分 dry-run 结果。"@
    } else if p.finished {
        "清理预览完成。"@
    } else {
        match p.current_path {
            Some(path) => "正在预览："@ + path@,
            None => "正在生成清理预览……"@,
        }
    }
}

/// The status line for a finished cleanup preview; the sizes are as shown.
pub open spec fn cleanup_finished_message(r: CleanupPreviewFinished, reclaimable: Seq<char>, protected: Seq<char>) -> Seq<char> {
    let middle = " 下发现 "@ + spec_count(r.preview.candidate_count as nat) + " 个候选，dry-run 预计可清理 "@ + reclaimable
        + "，受保护 "@ + protected + "，错误 "@ + spec_count(r.preview.error_count as nat) + " 条。"@;
    if r.cancelled {
        "清理预览已取消："@ + r.preview.root@ + middle
    } else {
        "清理预览完成："@ + r.preview.root@ + middle + "当前版本不会执行清理。"@
    }
}

/// The status line for a report from the duplicate search.
pub open spec fn duplicate_progress_message(p: DuplicatePreviewProgress) -> Seq<char> {
    if p.cancelled {
        "重复文件检测已取消，当前显示的是部分 dry-run 结果。"@
    } else if p.finished {
        "重复文件检测完成。"@
    } else {
        match p.current_path {
            Some(path) => "正在"@ + p.phase.spec_label() + "："@ + path@,
            None => "正在"@ + p.phase.spec_label() + "……"@,
        }
    }
}

/// The status line for a finished duplicate search; the sizes are as shown.
pub open spec fn duplicate_finished_message(r: DuplicatePreviewFinished, reclaimable: Seq<char>, protected: Seq<char>) -> Seq<char> {
    let tail = "，dry-run 预计可回收 "@ + reclaimable + "，受保护 "@ + protected + "，错误 "@ + spec_count(
        r.preview.error_count as nat,
    ) + " 条。"@;
    if r.cancelled {
        "重复文件检测已取消："@ + r.preview.root@ + " 下发现 "@ + spec_count(r.preview.duplicate_group_count as nat)
            + " 个重复组"@ + tail
    } else {
        "重复文件检测完成："@ + r.preview.root@ + " 下发现 "@ + spec_count(r.preview.duplicate_group_count as nat)
            + " 个重复组、"@ + spec_count(r.preview.duplicate_file_count as nat) + " 个重复副本"@ + tail
            + "当前版本不会执行删除。"@
    }
}

/// The status line for a report from the AI review.
pub open spec fn review_progress_message(p: AiAnalysisProgress) -> Seq<char> {
    if p.cancelled {
        "AI 分析审核已取消，当前显示的是部分报告。"@
    } else if p.finished {
        "AI 分析审核完成。"@
    } else {
        match p.current_item {
            Some(item) => "正在"@ + p.phase.spec_label() + "："@ + item@,
            None => "正在"@ + p.phase.spec_label() + "……"@,
        }
    }
}

/// The status line for a finished AI review.
pub open spec fn review_finished_message(r: AiAnalysisFinished) -> Seq<char> {
    if r.cancelled {
        "AI 分析审核已取消：已分析 "@ + spec_count(r.report.candidate_count as nat) + " 个候选，可导出待删候选 "@
            + spec_count(r.report.delete_candidate_count as nat) + " 个，需人工复核 "@ + spec_count(
            r.report.needs_review_count as nat,
        ) + " 个。不会删除任何文件。"@
    } else {
        "AI 分析审核完成："@ + spec_count(r.report.candidate_count as nat) + " 个候选，可导出待删候选 "@ + spec_count(
            r.report.delete_candidate_count as nat,
        ) + " 个，需人工复核 "@ + spec_count(r.report.needs_review_count as nat) + " 个，拒绝/保留 "@ + spec_count(
            r.report.rejected_count as nat,
        ) + " 个，错误 "@ + spec_count(r.report.error_count as nat) + " 条。请人工确认后自行处理；本程序不会删除文件。"@
    }
}

fn copy_config(c: &AiProviderConfig) -> (r: AiProviderConfig)
    ensures
        r == *c,
{
    AiProviderConfig {
        base_url: c.base_url.clone(),
        model: c.model.clone(),
        api_key_env: c.api_key_env.clone(),
        send_full_paths: c.send_full_paths,
        timeout_secs: c.timeout_secs,
        max_candidates: c.max_candidates,
    }
}

impl Session {
    /// The scan on show: the finished one, else the latest report of the running one.
    pub open spec fn spec_current_stats(self) -> Option<Arc<ScanStats>> {
        match self.stats {
            Some(s) => Some(s),
            None => match self.progress {
                Some(p) => Some(p.stats),
                None => None,
            },
        }
    }

    /// The cleanup preview on show: the finished one, else the latest report.
    pub open spec fn spec_current_cleanup_preview(self) -> Option<Arc<CleanupPreview>> {
        match self.cleanup_preview {
            Some(s) => Some(s),
            None => match self.cleanup_progress {
                Some(p) => Some(p.preview),
                None => None,
            },
        }
    }

    /// The duplicate search result on show: the finished one, else the latest report.
    pub open spec fn spec_current_duplicate_preview(self) -> Option<Arc<DuplicatePreview>> {
        match self.duplicate_preview {
            Some(s) => Some(s),
            None => match self.duplicate_progress {
                Some(p) => Some(p.preview),
                None => None,
            },
        }
    }

    /// The review report on show: the finished one, else the latest report.
    pub open spec fn spec_current_ai_analysis_report(self) -> Option<Arc<AiAnalysisReport>> {
        match self.ai_analysis_report {
            Some(s) => Some(s),
            None => match self.ai_analysis_progress {
                Some(p) => Some(p.report),
                None => None,
            },
        }
    }

    pub fn current_stats(&self) -> (r: Option<Arc<ScanStats>>)
        ensures
            r == self.spec_current_stats(),
    {
        match &self.stats {
            Some(s) => Some(Arc::clone(s)),
            None => match &self.progress {
                Some(p) => Some(Arc::clone(&p.stats)),
                None => None,
            },
        }
    }

    pub fn current_cleanup_preview(&self) -> (r: Option<Arc<CleanupPreview>>)
        ensures
            r == self.spec_current_cleanup_preview(),
    {
        match &self.cleanup_preview {
            Some(s) => Some(Arc::clone(s)),
            None => match &self.cleanup_progress {
                Some(p) => Some(Arc::clone(&p.preview)),
                None => None,
            },
        }
    }

    pub fn current_duplicate_preview(&self) -> (r: Option<Arc<DuplicatePreview>>)
        ensures
            r == self.spec_current_duplicate_preview(),
    {
        match &self.duplicate_preview {
            Some(s) => Some(Arc::clone(s)),
            None => match &self.duplicate_progress {
                Some(p) => Some(Arc::clone(&p.preview)),
                None => None,
            },
        }
    }

    pub fn current_ai_analysis_report(&self) -> (r: Option<Arc<AiAnalysisReport>>)
        ensures
            r == self.spec_current_ai_analysis_report(),
    {
        match &self.ai_analysis_report {
            Some(s) => Some(Arc::clone(s)),
            None => match &self.ai_analysis_progress {
                Some(p) => Some(Arc::clone(&p.report)),
                None => None,
            },
        }
    }

    /// Starts a dry-run cleanup preview of the finished scan's root with the rules that
    /// are switched on; gives its options and rules, or `None` (with the reason on the
    /// status line) without a finished scan or without a rule.
    #[verifier::rlimit(40)]
    #[verifier::spinoff_prover]
    pub fn start_cleanup_preview(&mut self) -> (r: Option<(CleanupPreviewOptions, Vec<CleanupRule>)>)
        ensures
            old(self).stats is None ==> r is None && final(self).status_message@
                == "请先完成扫描或打开已保存的扫描结果，再生成清理预览。"@,
            old(self).stats is Some && enabled_rules(old(self).cleanup_rules@).len() == 0 ==> r is None
                && final(self).status_message@ == "请至少启用一条清理预览规则。"@,
            r is None ==> final(self).same_state(*old(self)) && final(self).selected_tab == old(self).selected_tab,
            old(self).stats is Some && enabled_rules(old(self).cleanup_rules@).len() > 0 ==> (r matches Some((o, rules))
                && o.root == old(self).stats->0.root && rule_views(rules@) == rule_views(
                enabled_rules(old(self).cleanup_rules@),
            ) && final(self).cleanup_in_progress && !final(self).cleanup_cancel_requested
                && final(self).cleanup_progress is None && final(self).cleanup_preview is None
                && final(self).selected_tab == ResultTab::CleanupPreview && final(self).status_message@
                == "正在生成 dry-run 清理预览："@ + old(self).stats->0.root@ + "，启用 "@ + spec_count(
                enabled_rules(old(self).cleanup_rules@).len() as nat,
            ) + " 条规则。不会删除、移动或修改任何文件。"@ && final(self).same_scan(*old(self))
                && final(self).same_duplicates(*old(self)) && final(self).same_review(*old(self))
                && final(self).same_choices(*old(self))),
    {
        let root = match &self.stats {
            Some(stats) => stats.root.clone(),
            None => {
                self.status_message = owned("请先完成扫描或打开已保存的扫描结果，再生成清理预览。");
                return None;
            },
        };
        let rules = self.enabled_cleanup_rules();
        assert(rules@.len() == enabled_rules(self.cleanup_rules@).len()) by {
            assert(rule_views(rules@).len() == rules@.len());
            assert(rule_views(enabled_rules(self.cleanup_rules@)).len() == enabled_rules(self.cleanup_rules@).len());
        }
        if rules.len() == 0 {
            self.status_message = owned("请至少启用一条清理预览规则。");
            return None;
        }
        let mut m: Vec<char> = Vec::new();
        push_lit(&mut m, "正在生成 dry-run 清理预览：");
        push_lit(&mut m, root.as_str());
        push_lit(&mut m, "，启用 ");
        push_count(&mut m, rules.len() as u64);
        push_lit(&mut m, " 条规则。不会删除、移动或修改任何文件。");
        self.cleanup_in_progress = true;
        self.cleanup_cancel_requested = false;
        self.cleanup_progress = None;
        self.cleanup_preview = None;
        self.selected_tab = ResultTab::CleanupPreview;
        self.status_message = text_of(&m);
        Some((CleanupPreviewOptions { root }, rules))
    }

    /// Asks the running cleanup preview to stop; gives whether one was running.
    pub fn cancel_cleanup_preview(&mut self) -> (r: bool)
        ensures
            r == old(self).cleanup_in_progress,
            r ==> final(self).cleanup_cancel_requested && final(self).status_message@
                == "正在取消清理预览，已发现的候选会保留……"@ && final(self).cleanup_in_progress
                && final(self).cleanup_progress == old(self).cleanup_progress && final(self).cleanup_preview
                == old(self).cleanup_preview,
            !r ==> *final(self) == *old(self),
            final(self).same_scan(*old(self)) && final(self).same_duplicates(*old(self)) && final(self).same_review(
                *old(self),
            ) && final(self).same_choices(*old(self)) && final(self).selected_tab == old(self).selected_tab,
    {
        if self.cleanup_in_progress {
            self.cleanup_cancel_requested = true;
            self.status_message = owned("正在取消清理预览，已发现的候选会保留……");
            true
        } else {
            false
        }
    }

    /// A report from the cleanup preview: the status line follows it and it is kept.
    pub fn apply_cleanup_preview_progress(&mut self, progress: CleanupPreviewProgress)
        ensures
            final(self).status_message@ == cleanup_progress_message(progress),
            final(self).cleanup_progress == Some(progress),
            final(self).cleanup_in_progress == old(self).cleanup_in_progress && final(self).cleanup_cancel_requested
                == old(self).cleanup_cancel_requested && final(self).cleanup_preview == old(self).cleanup_preview,
            final(self).same_scan(*old(self)) && final(self).same_duplicates(*old(self)) && final(self).same_review(
                *old(self),
            ) && final(self).same_choices(*old(self)) && final(self).selected_tab == old(self).selected_tab,
    {
        let mut m: Vec<char> = Vec::new();
        if progress.cancelled {
            push_lit(&mut m, "清理预览已取消，当前显示的是部分 dry-run 结果。");
        } else if progress.finished {
            push_lit(&mut m, "清理预览完成。");
        } else {
            match &progress.current_path {
                Some(path) => {
                    push_lit(&mut m, "正在预览：");
                    push_lit(&mut m, path.as_str());
                },
                None => push_lit(&mut m, "正在生成清理预览……"),
            }
        }
        self.status_message = text_of(&m);
        self.cleanup_progress = Some(progress);
    }

    /// The cleanup preview finished: its result is shown and the preview stops. The sizes
    /// are as shown.
    pub fn apply_cleanup_preview_finished(&mut self, result: CleanupPreviewFinished, reclaimable: &str, protected: &str)
        ensures
            final(self).status_message@ == cleanup_finished_message(result, reclaimable@, protected@),
            final(self).cleanup_preview == Some(result.preview),
            !final(self).cleanup_in_progress && !final(self).cleanup_cancel_requested,
            final(self).cleanup_progress == old(self).cleanup_progress,
            final(self).same_scan(*old(self)) && final(self).same_duplicates(*old(self)) && final(self).same_review(
                *old(self),
            ) && final(self).same_choices(*old(self)) && final(self).selected_tab == old(self).selected_tab,
    {
        let mut m: Vec<char> = Vec::new();
        if result.cancelled {
            push_lit(&mut m, "清理预览已取消：");
        } else {
            push_lit(&mut m, "清理预览完成：");
        }
        push_lit(&mut m, result.preview.root.as_str());
        push_lit(&mut m, " 下发现 ");
        push_count(&mut m, result.preview.candidate_count);
        push_lit(&mut m, " 个候选，dry-run 预计可清理 ");
        push_lit(&mut m, reclaimable);
        push_lit(&mut m, "，受保护 ");
        push_lit(&mut m, protected);
        push_lit(&mut m, "，错误 ");
        push_count(&mut m, result.preview.error_count);
        push_lit(&mut m, " 条。");
        if !result.cancelled {
            push_lit(&mut m, "当前版本不会执行清理。");
        }
        self.status_message = text_of(&m);
        self.cleanup_preview = Some(result.preview);
        self.cleanup_in_progress = false;
        self.cleanup_cancel_requested = false;
    }

    /// Starts a dry-run duplicate search under the finished scan's root with the chosen
    /// smallest size (`min_size` is that size as shown); gives its options, or `None` (with
    /// the reason on the status line) without a finished scan.
    pub fn start_duplicate_preview(&mut self, min_size: &str) -> (r: Option<DuplicatePreviewOptions>)
        ensures
            old(self).stats is None ==> r is None && final(self).status_message@
                == "请先完成扫描或打开已保存的扫描结果，再查找重复文件。"@ && final(self).same_state(*old(self))
                && final(self).selected_tab == old(self).selected_tab,
            old(self).stats is Some ==> (r matches Some(o) && o.root == old(self).stats->0.root && o.min_size
                == old(self).duplicate_min_size_bytes && final(self).duplicate_in_progress
                && !final(self).duplicate_cancel_requested && final(self).duplicate_progress is None
                && final(self).duplicate_preview is None && final(self).selected_tab == ResultTab::DuplicatePreview
                && final(self).status_message@ == "正在 dry-run 查找重复文件："@ + old(self).stats->0.root@
                + "，仅哈希不小于 "@ + min_size@ + " 的同大小候选；不会删除、移动或修改任何文件。"@ && final(self).same_scan(*old(self)) && final(self).same_cleanup(*old(self)) && final(self).same_review(*old(self))
                && final(self).same_choices(*old(self))),
    {
        let root = match &self.stats {
            Some(stats) => stats.root.clone(),
            None => {
                self.status_message = owned("请先完成扫描或打开已保存的扫描结果，再查找重复文件。");
                return None;
            },
        };
        let mut m: Vec<char> = Vec::new();
        push_lit(&mut m, "正在 dry-run 查找重复文件：");
        push_lit(&mut m, root.as_str());
        push_lit(&mut m, "，仅哈希不小于 ");
        push_lit(&mut m, min_size);
        push_lit(&mut m, " 的同大小候选；不会删除、移动或修改任何文件。");
        self.duplicate_in_progress = true;
        self.duplicate_cancel_requested = false;
        self.duplicate_progress = None;
        self.duplicate_preview = None;
        self.selected_tab = ResultTab::DuplicatePreview;
        self.status_message = text_of(&m);
        Some(DuplicatePreviewOptions { root, min_size: self.duplicate_min_size_bytes })
    }

    /// Asks the running duplicate search to stop; gives whether one was running.
    pub fn cancel_duplicate_preview(&mut self) -> (r: bool)
        ensures
            r == old(self).duplicate_in_progress,
            r ==> final(self).duplicate_cancel_requested && final(self).status_message@
                == "正在取消重复文件检测，已发现的重复组会保留……"@ && final(self).duplicate_in_progress
                && final(self).duplicate_progress == old(self).duplicate_progress && final(self).duplicate_preview
                == old(self).duplicate_preview,
            !r ==> *final(self) == *old(self),
            final(self).same_scan(*old(self)) && final(self).same_cleanup(*old(self)) && final(self).same_review(
                *old(self),
            ) && final(self).same_choices(*old(self)) && final(self).selected_tab == old(self).selected_tab,
    {
        if self.duplicate_in_progress {
            self.duplicate_cancel_requested = true;
            self.status_message = owned("正在取消重复文件检测，已发现的重复组会保留……");
            true
        } else {
            false
        }
    }

    /// A report from the duplicate search: the status line follows it and it is kept.
    pub fn apply_duplicate_preview_progress(&mut self, progress: DuplicatePreviewProgress)
        ensures
            final(self).status_message@ == duplicate_progress_message(progress),
            final(self).duplicate_progress == Some(progress),
            final(self).duplicate_in_progress == old(self).duplicate_in_progress
                && final(self).duplicate_cancel_requested == old(self).duplicate_cancel_requested
                && final(self).duplicate_preview == old(self).duplicate_preview,
            final(self).same_scan(*old(self)) && final(self).same_cleanup(*old(self)) && final(self).same_review(
                *old(self),
            ) && final(self).same_choices(*old(self)) && final(self).selected_tab == old(self).selected_tab,
    {
        let mut m: Vec<char> = Vec::new();
        if progress.cancelled {
            push_lit(&mut m, "重复文件检测已取消，当前显示的是部分 dry-run 结果。");
        } else if progress.finished {
            push_lit(&mut m, "重复文件检测完成。");
        } else {
            push_lit(&mut m, "正在");
            push_lit(&mut m, progress.phase.label());
            match &progress.current_path {
                Some(path) => {
                    push_lit(&mut m, "：");
                    push_lit(&mut m, path.as_str());
                },
                None => push_lit(&mut m, "……"),
            }
        }
        self.status_message = text_of(&m);
        self.duplicate_progress = Some(progress);
    }

    /// The duplicate search finished: its result is shown and the search stops. The sizes
    /// are as shown.
    pub fn apply_duplicate_preview_finished(&mut self, result: DuplicatePreviewFinished, reclaimable: &str, protected: &str)
        ensures
            final(self).status_message@ == duplicate_finished_message(result, reclaimable@, protected@),
            final(self).duplicate_preview == Some(result.preview),
            !final(self).duplicate_in_progress && !final(self).duplicate_cancel_requested,
            final(self).duplicate_progress == old(self).duplicate_progress,
            final(self).same_scan(*old(self)) && final(self).same_cleanup(*old(self)) && final(self).same_review(
                *old(self),
            ) && final(self).same_choices(*old(self)) && final(self).selected_tab == old(self).selected_tab,
    {
        let mut m: Vec<char> = Vec::new();
        if result.cancelled {
            push_lit(&mut m, "重复文件检测已取消：");
        } else {
            push_lit(&mut m, "重复文件检测完成：");
        }
        push_lit(&mut m, result.preview.root.as_str());
        push_lit(&mut m, " 下发现 ");
        push_count(&mut m, result.preview.duplicate_group_count);
        if result.cancelled {
            push_lit(&mut m, " 个重复组");
        } else {
            push_lit(&mut m, " 个重复组、");
            push_count(&mut m, result.preview.duplicate_file_count);
            push_lit(&mut m, " 个重复副本");
        }
        push_lit(&mut m, "，dry-run 预计可回收 ");
        push_lit(&mut m, reclaimable);
        push_lit(&mut m, "，受保护 ");
        push_lit(&mut m, protected);
        push_lit(&mut m, "，错误 ");
        push_count(&mut m, result.preview.error_count);
        push_lit(&mut m, " 条。");
        if !result.cancelled {
            push_lit(&mut m, "当前版本不会执行删除。");
        }
        self.status_message = text_of(&m);
        self.duplicate_preview = Some(result.preview);
        self.duplicate_in_progress = false;
        self.duplicate_cancel_requested = false;
    }

    /// The root an AI review reports on: that of the cleanup preview on show, else of the
    /// duplicate result on show, else of the finished scan, else the typed directory.
    pub open spec fn review_root(self) -> Seq<char> {
        match self.spec_current_cleanup_preview() {
            Some(p) => p.root@,
            None => match self.spec_current_duplicate_preview() {
                Some(p) => p.root@,
                None => match self.stats {
                    Some(s) => s.root@,
                    None => trim(self.root_input@),
                },
            },
        }
    }

    /// Starts the AI review of the previews on show; gives its options, or `None` (with the
    /// reason on the status line) when neither a cleanup preview nor a duplicate result is
    /// on show.
    #[verifier::rlimit(40)]
    #[verifier::spinoff_prover]
    pub fn start_ai_analysis(&mut self) -> (r: Option<AiAnalysisOptions>)
        ensures
            old(self).spec_current_cleanup_preview() is None && old(self).spec_current_duplicate_preview() is None ==> r is None
                && final(self).status_message@ == "请先生成清理预览或重复文件预览，再启动 AI 分析审核。"@ && final(self).same_state(*old(self)) && final(self).selected_tab == old(self).selected_tab,
            !(old(self).spec_current_cleanup_preview() is None && old(self).spec_current_duplicate_preview() is None) ==> (r matches Some(o) && o.root@ == old(self).review_root() && o.cleanup_preview == old(self).spec_current_cleanup_preview()
                && o.duplicate_preview == old(self).spec_current_duplicate_preview() && o.provider_config
                == old(self).ai_provider_config && final(self).ai_analysis_in_progress
                && !final(self).ai_analysis_cancel_requested && final(self).ai_analysis_progress is None
                && final(self).ai_analysis_report is None && final(self).selected_tab == ResultTab::AiReview
                && final(self).status_message@ == "正在进行 AI 分析审核："@ + old(self).review_root() + "，模型 "@
                + old(self).ai_provider_config.model@ + "。dry-run/report-only，不会删除、移动或修改任何文件。"@
                && final(self).same_scan(*old(self)) && final(self).same_cleanup(*old(self)) && final(self).same_duplicates(*old(self)) && final(self).same_choices(*old(self))),
    {
        let cleanup_preview = self.current_cleanup_preview();
        let duplicate_preview = self.current_duplicate_preview();
        if cleanup_preview.is_none() && duplicate_preview.is_none() {
            self.status_message = owned("请先生成清理预览或重复文件预览，再启动 AI 分析审核。");
            return None;
        }
        let root = match &cleanup_preview {
            Some(p) => p.root.clone(),
            None => match &duplicate_preview {
                Some(p) => p.root.clone(),
                None => match &self.stats {
                    Some(s) => s.root.clone(),
                    None => self.root_candidate(),
                },
            },
        };
        let config = copy_config(&self.ai_provider_config);
        let mut m: Vec<char> = Vec::new();
        push_lit(&mut m, "正在进行 AI 分析审核：");
        push_lit(&mut m, root.as_str());
        push_lit(&mut m, "，模型 ");
        push_lit(&mut m, config.model.as_str());
        push_lit(&mut m, "。dry-run/report-only，不会删除、移动或修改任何文件。");
        self.ai_analysis_in_progress = true;
        self.ai_analysis_cancel_requested = false;
        self.ai_analysis_progress = None;
        self.ai_analysis_report = None;
        self.selected_tab = ResultTab::AiReview;
        self.status_message = text_of(&m);
        Some(AiAnalysisOptions { root, cleanup_preview, duplicate_preview, provider_config: config })
    }

    /// Asks the running AI review to stop; gives whether one was running.
    pub fn cancel_ai_analysis(&mut self) -> (r: bool)
        ensures
            r == old(self).ai_analysis_in_progress,
            r ==> final(self).ai_analysis_cancel_requested && final(self).status_message@
                == "正在取消 AI 分析审核，已生成的报告会保留……"@ && final(self).ai_analysis_in_progress
                && final(self).ai_analysis_progress == old(self).ai_analysis_progress && final(self).ai_analysis_report
                == old(self).ai_analysis_report,
            !r ==> *final(self) == *old(self),
            final(self).same_scan(*old(self)) && final(self).same_cleanup(*old(self)) && final(self).same_duplicates(
                *old(self),
            ) && final(self).same_choices(*old(self)) && final(self).selected_tab == old(self).selected_tab,
    {
        if self.ai_analysis_in_progress {
            self.ai_analysis_cancel_requested = true;
            self.status_message = owned("正在取消 AI 分析审核，已生成的报告会保留……");
            true
        } else {
            false
        }
    }

    /// A report from the AI review: the status line follows it and it is kept.
    pub fn apply_ai_analysis_progress(&mut self, progress: AiAnalysisProgress)
        ensures
            final(self).status_message@ == review_progress_message(progress),
            final(self).ai_analysis_progress == Some(progress),
            final(self).ai_analysis_in_progress == old(self).ai_analysis_in_progress
                && final(self).ai_analysis_cancel_requested == old(self).ai_analysis_cancel_requested
                && final(self).ai_analysis_report == old(self).ai_analysis_report,
            final(self).same_scan(*old(self)) && final(self).same_cleanup(*old(self)) && final(self).same_duplicates(
                *old(self),
            ) && final(self).same_choices(*old(self)) && final(self).selected_tab == old(self).selected_tab,
    {
        let mut m: Vec<char> = Vec::new();
        if progress.cancelled {
            push_lit(&mut m, "AI 分析审核已取消，当前显示的是部分报告。");
        } else if progress.finished {
            push_lit(&mut m, "AI 分析审核完成。");
        } else {
            push_lit(&mut m, "正在");
            push_lit(&mut m, progress.phase.label());
            match &progress.current_item {
                Some(item) => {
                    push_lit(&mut m, "：");
                    push_lit(&mut m, item.as_str());
                },
                None => push_lit(&mut m, "……"),
            }
        }
        self.status_message = text_of(&m);
        self.ai_analysis_progress = Some(progress);
    }

    /// The AI review finished: its report is shown and the review stops.
    pub fn apply_ai_analysis_finished(&mut self, result: AiAnalysisFinished)
        ensures
            final(self).status_message@ == review_finished_message(result),
            final(self).ai_analysis_report == Some(result.report),
            !final(self).ai_analysis_in_progress && !final(self).ai_analysis_cancel_requested,
            final(self).ai_analysis_progress == old(self).ai_analysis_progress,
            final(self).same_scan(*old(self)) && final(self).same_cleanup(*old(self)) && final(self).same_duplicates(
                *old(self),
            ) && final(self).same_choices(*old(self)) && final(self).selected_tab == old(self).selected_tab,
    {
        let report = &result.report;
        let mut m: Vec<char> = Vec::new();
        if result.cancelled {
            push_lit(&mut m, "AI 分析审核已取消：已分析 ");
            push_count(&mut m, report.candidate_count);
            push_lit(&mut m, " 个候选，可导出待删候选 ");
            push_count(&mut m, report.delete_candidate_count);
            push_lit(&mut m, " 个，需人工复核 ");
            push_count(&mut m, report.needs_review_count);
            push_lit(&mut m, " 个。不会删除任何文件。");
        } else {
            push_lit(&mut m, "AI 分析审核完成：");
            push_count(&mut m, report.candidate_count);
            push_lit(&mut m, " 个候选，可导出待删候选 ");
            push_count(&mut m, report.delete_candidate_count);
            push_lit(&mut m, " 个，需人工复核 ");
            push_count(&mut m, report.needs_review_count);
            push_lit(&mut m, " 个，拒绝/保留 ");
            push_count(&mut m, report.rejected_count);
            push_lit(&mut m, " 个，错误 ");
            push_count(&mut m, report.error_count);
            push_lit(&mut m, " 条。请人工确认后自行处理；本程序不会删除文件。");
        }
        self.status_message = text_of(&m);
        self.ai_analysis_report = Some(result.report);
        self.ai_analysis_in_progress = false;
        self.ai_analysis_cancel_requested = false;
    }
}

// ---------------------------------------------------------------------------------------
// Saved scans, reports, treemap navigation

/// How a loaded scan describes itself on the status line.
pub open spec fn metadata_of(stats: ScanStats) -> Seq<char> {
    crate::report::spec_cache_metadata_summary(
        stats.schema_version,
        stats.saved_at_unix_secs,
        match stats.app_version {
            Some(v) => Some(v@),
            None => None,
        },
    )
}

/// A loaded scan result is on show: its root is typed in, and nothing else runs or is
/// found.
pub open spec fn loaded(new: Session, old: Session, stats: ScanStats) -> bool {
    &&& new.root_input == stats.root
    &&& new.stats matches Some(s) && *s == stats
    &&& new.progress is None && !new.scan_in_progress && !new.cancel_requested
    &&& new.cleanup_preview is None && new.cleanup_progress is None
    &&& !new.cleanup_in_progress && !new.cleanup_cancel_requested
    &&& new.duplicate_preview is None && new.duplicate_progress is None
    &&& !new.duplicate_in_progress && !new.duplicate_cancel_requested
    &&& new.ai_analysis_report is None && new.ai_analysis_progress is None
    &&& !new.ai_analysis_in_progress && !new.ai_analysis_cancel_requested
    &&& new.treemap_current_dir is None
    &&& new.estimated_total_dirs == old.estimated_total_dirs
    &&& new.estimated_total_files == old.estimated_total_files
    &&& new.quick_scan_complete == old.quick_scan_complete
    &&& new.same_choices(old)
    &&& new.selected_tab == old.selected_tab
}

/// A report that can be exported.
#[derive(Debug, Clone, Copy, PartialEq, Eq, Structural)]
pub enum ExportKind {
    ScanReport,
    CleanupPreview,
    DuplicatePreview,
    AiReport,
    AiDeleteList,
}

impl ExportKind {
    /// The status line when there is nothing to export.
    pub open spec fn spec_missing(self) -> Seq<char> {
        match self {
            ExportKind::ScanReport => "没有可导出的扫描结果。"@,
            ExportKind::CleanupPreview => "没有可导出的清理预览。"@,
            ExportKind::DuplicatePreview => "没有可导出的重复文件预览。"@,
            ExportKind::AiReport => "没有可导出的 AI 审核报告。"@,
            ExportKind::AiDeleteList => "没有可导出的 AI 待删清单。"@,
        }
    }

    /// The start of the status line after an export.
    pub open spec fn spec_done(self) -> Seq<char> {
        match self {
            ExportKind::ScanReport => "已导出 CSV 报告："@,
            ExportKind::CleanupPreview => "已导出清理预览 CSV："@,
            ExportKind::DuplicatePreview => "已导出重复文件预览 CSV："@,
            ExportKind::AiReport => "已导出 AI 审核报告："@,
            ExportKind::AiDeleteList => "已导出 AI 待删清单："@,
        }
    }

    /// The start of the status line after a failed export.
    pub open spec fn spec_failed(self) -> Seq<char> {
        match self {
            ExportKind::ScanReport => "导出 CSV 失败："@,
            ExportKind::CleanupPreview => "导出清理预览失败："@,
            ExportKind::DuplicatePreview => "导出重复文件预览失败："@,
            ExportKind::AiReport => "导出 AI 审核报告失败："@,
            ExportKind::AiDeleteList => "导出 AI 待删清单失败："@,
        }
    }

    fn missing(self) -> (r: &'static str)
        ensures
            r@ == self.spec_missing(),
    {
        match self {
            ExportKind::ScanReport => "没有可导出的扫描结果。",
            ExportKind::CleanupPreview => "没有可导出的清理预览。",
            ExportKind::DuplicatePreview => "没有可导出的重复文件预览。",
            ExportKind::AiReport => "没有可导出的 AI 审核报告。",
            ExportKind::AiDeleteList => "没有可导出的 AI 待删清单。",
        }
    }

    fn done(self) -> (r: &'static str)
        ensures
            r@ == self.spec_done(),
    {
        match self {
            ExportKind::ScanReport => "已导出 CSV 报告：",
            ExportKind::CleanupPreview => "已导出清理预览 CSV：",
            ExportKind::DuplicatePreview => "已导出重复文件预览 CSV：",
            ExportKind::AiReport => "已导出 AI 审核报告：",
            ExportKind::AiDeleteList => "已导出 AI 待删清单：",
        }
    }

    fn failed(self) -> (r: &'static str)
        ensures
            r@ == self.spec_failed(),
    {
        match self {
            ExportKind::ScanReport => "导出 CSV 失败：",
            ExportKind::CleanupPreview => "导出清理预览失败：",
            ExportKind::DuplicatePreview => "导出重复文件预览失败：",
            ExportKind::AiReport => "导出 AI 审核报告失败：",
            ExportKind::AiDeleteList => "导出 AI 待删清单失败：",
        }
    }
}

/// `prefix`, then `subject`, then the detail in round brackets.
pub open spec fn with_detail(prefix: Seq<char>, subject: Seq<char>, detail: Seq<char>) -> Seq<char> {
    prefix + subject + " ("@ + detail + ")"@
}

fn detail_text(prefix: &str, subject: &str, detail: &str) -> (r: String)
    ensures
        r@ == with_detail(prefix@, subject@, detail@),
{
    let mut m: Vec<char> = Vec::new();
    push_lit(&mut m, prefix);
    push_lit(&mut m, subject);
    push_lit(&mut m, " (");
    push_lit(&mut m, detail);
    push_lit(&mut m, ")");
    text_of(&m)
}

impl Session {
    /// Shows a loaded scan result, forgetting everything found before.
    pub fn set_loaded_stats(&mut self, stats: ScanStats)
        ensures
            loaded(*final(self), *old(self), stats),
            final(self).status_message == old(self).status_message,
    {
        self.root_input = stats.root.clone();
        self.stats = Some(Arc::new(stats));
        self.progress = None;
        self.scan_in_progress = false;
        self.cancel_requested = false;
        self.cleanup_preview = None;
        self.cleanup_progress = None;
        self.cleanup_in_progress = false;
        self.cleanup_cancel_requested = false;
        self.duplicate_preview = None;
        self.duplicate_progress = None;
        self.duplicate_in_progress = false;
        self.duplicate_cancel_requested = false;
        self.ai_analysis_report = None;
        self.ai_analysis_progress = None;
        self.ai_analysis_in_progress = false;
        self.ai_analysis_cancel_requested = false;
        self.treemap_current_dir = None;
    }

    /// A scan result read from the file at `path` (or the error reading it): shown, and
    /// described on the status line.
    pub fn scan_result_opened(&mut self, path: &str, outcome: Result<ScanStats, String>)
        ensures
            match outcome {
                Ok(stats) => loaded(*final(self), *old(self), stats) && final(self).status_message@ == with_detail(
                    "已打开扫描结果："@,
                    path@,
                    metadata_of(stats),
                ),
                Err(e) => final(self).same_state(*old(self)) && final(self).selected_tab == old(self).selected_tab
                    && final(self).status_message@ == with_detail("打开扫描结果失败："@, path@, e@),
            },
    {
        match outcome {
            Ok(stats) => {
                let metadata = crate::report::scan_cache_metadata_summary(&stats);
                self.set_loaded_stats(stats);
                self.status_message = detail_text("已打开扫描结果：", path, metadata.as_str());
            },
            Err(e) => {
                self.status_message = detail_text("打开扫描结果失败：", path, e.as_str());
            },
        }
    }

    /// The cached scan of `root` (none, or the error reading the cache): shown when there
    /// is one, and described on the status line.
    pub fn cached_scan_opened(&mut self, root: &str, outcome: Result<Option<ScanStats>, String>)
        ensures
            match outcome {
                Ok(Some(stats)) => loaded(*final(self), *old(self), stats) && final(self).status_message@
                    == with_detail("已打开 SQLite 最新扫描缓存："@, root@, metadata_of(stats)),
                Ok(None) => final(self).same_state(*old(self)) && final(self).selected_tab == old(self).selected_tab
                    && final(self).status_message@ == "没有找到该目录的 SQLite 扫描缓存："@ + root@,
                Err(e) => final(self).same_state(*old(self)) && final(self).selected_tab == old(self).selected_tab
                    && final(self).status_message@ == with_detail("打开 SQLite 扫描缓存失败："@, root@, e@),
            },
    {
        match outcome {
            Ok(Some(stats)) => {
                let metadata = crate::report::scan_cache_metadata_summary(&stats);
                self.set_loaded_stats(stats);
                self.status_message = detail_text("已打开 SQLite 最新扫描缓存：", root, metadata.as_str());
            },
            Ok(None) => {
                let mut m: Vec<char> = Vec::new();
                push_lit(&mut m, "没有找到该目录的 SQLite 扫描缓存：");
                push_lit(&mut m, root);
                self.status_message = text_of(&m);
            },
            Err(e) => {
                self.status_message = detail_text("打开 SQLite 扫描缓存失败：", root, e.as_str());
            },
        }
    }

    /// The finished scan to save, or `None` (with the reason on the status line).
    pub fn scan_to_save(&mut self) -> (r: Option<Arc<ScanStats>>)
        ensures
            r == old(self).stats,
            r is None ==> final(self).status_message@ == "没有可保存的扫描结果。"@,
            r is Some ==> final(self).status_message == old(self).status_message,
            final(self).same_state(*old(self)) && final(self).selected_tab == old(self).selected_tab,
    {
        match &self.stats {
            Some(s) => Some(Arc::clone(s)),
            None => {
                self.status_message = owned("没有可保存的扫描结果。");
                None
            },
        }
    }

    /// The scan result was saved to `path`, or failed with its error.
    pub fn scan_result_saved(&mut self, path: &str, outcome: Result<(), String>)
        ensures
            final(self).status_message@ == match outcome {
                Ok(()) => "已保存扫描结果："@ + path@,
                Err(e) => with_detail("保存扫描结果失败："@, path@, e@),
            },
            final(self).same_state(*old(self)) && final(self).selected_tab == old(self).selected_tab,
    {
        match outcome {
            Ok(()) => {
                let mut m: Vec<char> = Vec::new();
                push_lit(&mut m, "已保存扫描结果：");
                push_lit(&mut m, path);
                self.status_message = text_of(&m);
            },
            Err(e) => {
                self.status_message = detail_text("保存扫描结果失败：", path, e.as_str());
            },
        }
    }

    /// Whether there is something to export of that kind: the finished scan for the scan
    /// report, else the preview or report on show; when not, the status line says so.
    pub fn can_export(&mut self, kind: ExportKind) -> (r: bool)
        ensures
            r == match kind {
                ExportKind::ScanReport => old(self).stats is Some,
                ExportKind::CleanupPreview => old(self).spec_current_cleanup_preview() is Some,
                ExportKind::DuplicatePreview => old(self).spec_current_duplicate_preview() is Some,
                _ => old(self).spec_current_ai_analysis_report() is Some,
            },
            !r ==> final(self).status_message@ == kind.spec_missing(),
            r ==> final(self).status_message == old(self).status_message,
            final(self).same_state(*old(self)) && final(self).selected_tab == old(self).selected_tab,
    {
        let available = match kind {
            ExportKind::ScanReport => self.stats.is_some(),
            ExportKind::CleanupPreview => self.current_cleanup_preview().is_some(),
            ExportKind::DuplicatePreview => self.current_duplicate_preview().is_some(),
            _ => self.current_ai_analysis_report().is_some(),
        };
        if !available {
            self.status_message = owned(kind.missing());
        }
        available
    }

    /// A report was exported to `path` (with its summary), or failed with its error.
    pub fn exported(&mut self, kind: ExportKind, path: &str, outcome: Result<String, String>)
        ensures
            final(self).status_message@ == match outcome {
                Ok(summary) => with_detail(kind.spec_done(), path@, summary@),
                Err(e) => with_detail(kind.spec_failed(), path@, e@),
            },
            final(self).same_state(*old(self)) && final(self).selected_tab == old(self).selected_tab,
    {
        match outcome {
            Ok(summary) => {
                self.status_message = detail_text(kind.done(), path, summary.as_str());
            },
            Err(e) => {
                self.status_message = detail_text(kind.failed(), path, e.as_str());
            },
        }
    }

    /// The directory the treemap of `stats` shows: the chosen one while it is a directory
    /// of the scan under its root, else the root (and the choice is dropped when it no
    /// longer holds, or when the scan has no tree).
    pub fn treemap_current_dir(&mut self, stats: &ScanStats) -> (r: String)
        ensures
            stats.directory_tree is None ==> r == stats.root && final(self).treemap_current_dir is None,
            stats.directory_tree is Some ==> match old(self).treemap_current_dir {
                None => r == stats.root && final(self).treemap_current_dir is None,
                Some(current) => if current@ == stats.root@ {
                    r == stats.root && final(self).treemap_current_dir == old(self).treemap_current_dir
                } else if crate::winpath::path_starts_with(current@, stats.root@)
                    && stats.directory_tree->0.path_index@.contains_key(crate::winpath::canon(current@)) {
                    r == current && final(self).treemap_current_dir == old(self).treemap_current_dir
                } else {
                    r == stats.root && final(self).treemap_current_dir is None
                },
            },
            final(self).root_input == old(self).root_input && final(self).scan_in_progress == old(self).scan_in_progress
                && final(self).cancel_requested == old(self).cancel_requested && final(self).progress == old(self).progress
                && final(self).stats == old(self).stats,
            final(self).status_message == old(self).status_message,
            final(self).same_cleanup(*old(self)) && final(self).same_duplicates(*old(self)) && final(self).same_review(
                *old(self),
            ) && final(self).same_choices(*old(self)) && final(self).selected_tab == old(self).selected_tab,
    {
        let tree = match &stats.directory_tree {
            Some(t) => t,
            None => {
                self.treemap_current_dir = None;
                return stats.root.clone();
            },
        };
        let current = match &self.treemap_current_dir {
            Some(c) => c.clone(),
            None => return stats.root.clone(),
        };
        let cv = crate::text::chars_of(current.as_str());
        let rv = crate::text::chars_of(stats.root.as_str());
        if crate::text::chars_eq(cv.as_slice(), rv.as_slice()) {
            return stats.root.clone();
        }
        let exists = crate::winpath::path_starts_with_chars(cv.as_slice(), rv.as_slice())
            && tree.node_index_for_path(current.as_str()).is_some();
        if exists {
            current
        } else {
            self.treemap_current_dir = None;
            stats.root.clone()
        }
    }

    /// The treemap enters a directory; the status line says which.
    pub fn enter_treemap_dir(&mut self, path: String)
        ensures
            final(self).treemap_current_dir == Some(path),
            final(self).status_message@ == "Treemap 已进入目录："@ + path@,
            final(self).root_input == old(self).root_input && final(self).scan_in_progress == old(self).scan_in_progress
                && final(self).cancel_requested == old(self).cancel_requested && final(self).progress == old(self).progress
                && final(self).stats == old(self).stats,
            final(self).same_cleanup(*old(self)) && final(self).same_duplicates(*old(self)) && final(self).same_review(
                *old(self),
            ) && final(self).same_choices(*old(self)) && final(self).selected_tab == old(self).selected_tab,
    {
        let mut m: Vec<char> = Vec::new();
        push_lit(&mut m, "Treemap 已进入目录：");
        push_lit(&mut m, path.as_str());
        self.status_message = text_of(&m);
        self.treemap_current_dir = Some(path);
    }

    /// A directory chosen in the directory table is shown in the treemap (the root as no
    /// choice); the status line says which.
    pub fn locate_in_treemap(&mut self, root: &str, path: String)
        ensures
            final(self).treemap_current_dir == (if path@ == root@ { None } else { Some(path) }),
            final(self).status_message@ == "Treemap 已定位目录："@ + path@,
            final(self).root_input == old(self).root_input && final(self).scan_in_progress == old(self).scan_in_progress
                && final(self).cancel_requested == old(self).cancel_requested && final(self).progress == old(self).progress
                && final(self).stats == old(self).stats,
            final(self).same_cleanup(*old(self)) && final(self).same_duplicates(*old(self)) && final(self).same_review(
                *old(self),
            ) && final(self).same_choices(*old(self)) && final(self).selected_tab == old(self).selected_tab,
    {
        let mut m: Vec<char> = Vec::new();
        push_lit(&mut m, "Treemap 已定位目录：");
        push_lit(&mut m, path.as_str());
        self.status_message = text_of(&m);
        let pv = crate::text::chars_of(path.as_str());
        let rv = crate::text::chars_of(root);
        if crate::text::chars_eq(pv.as_slice(), rv.as_slice()) {
            self.treemap_current_dir = None;
        } else {
            self.treemap_current_dir = Some(path);
        }
    }

    /// The treemap goes one level up from `current` towards the root of `stats`.
    pub fn treemap_up(&mut self, stats: &ScanStats, current: &str)
        ensures
            final(self).treemap_current_dir matches Some(d) && d@ == crate::treemap::spec_treemap_parent_dir(
                stats.root@,
                current@,
            ),
            final(self).status_message == old(self).status_message,
            final(self).root_input == old(self).root_input && final(self).scan_in_progress == old(self).scan_in_progress
                && final(self).cancel_requested == old(self).cancel_requested && final(self).progress == old(self).progress
                && final(self).stats == old(self).stats,
            final(self).same_cleanup(*old(self)) && final(self).same_duplicates(*old(self)) && final(self).same_review(
                *old(self),
            ) && final(self).same_choices(*old(self)) && final(self).selected_tab == old(self).selected_tab,
    {
        self.treemap_current_dir = Some(crate::treemap::treemap_parent_dir(stats.root.as_str(), current));
    }

    /// The treemap goes back to the root.
    pub fn treemap_to_root(&mut self)
        ensures
            final(self).treemap_current_dir is None,
            final(self).status_message == old(self).status_message,
            final(self).root_input == old(self).root_input && final(self).scan_in_progress == old(self).scan_in_progress
                && final(self).cancel_requested == old(self).cancel_requested && final(self).progress == old(self).progress
                && final(self).stats == old(self).stats,
            final(self).same_cleanup(*old(self)) && final(self).same_duplicates(*old(self)) && final(self).same_review(
                *old(self),
            ) && final(self).same_choices(*old(self)) && final(self).selected_tab == old(self).selected_tab,
    {
        self.treemap_current_dir = None;
    }
}

// ---------------------------------------------------------------------------------------
// What can be asked for now

/// A request the user can make.
#[derive(Debug, Clone, Copy, PartialEq, Eq, Structural)]
pub enum Request {
    ChooseDirectory,
    StartScan,
    StartMftScan,
    CancelScan,
    OpenResult,
    OpenCache,
    SaveResult,
    ExportScanReport,
    StartCleanupPreview,
    CancelCleanupPreview,
    ExportCleanupPreview,
    StartDuplicatePreview,
    CancelDuplicatePreview,
    ExportDuplicatePreview,
    StartAiAnalysis,
    CancelAiAnalysis,
    ExportAiReport,
    ExportAiDeleteList,
    ManageCache,
    EditScanFilter,
    EditCleanupRules,
    EditAiConfig,
}

impl Session {
    /// A scan, a cleanup preview or a duplicate search is running.
    pub open spec fn spec_busy(self) -> bool {
        self.scan_in_progress || self.cleanup_in_progress || self.duplicate_in_progress
    }

    /// Whether a request can be made now: nothing new starts while a scan or preview runs,
    /// a running task can be cancelled once, and what needs a result needs one on show.
    pub open spec fn spec_available(self, request: Request) -> bool {
        let busy = self.spec_busy();
        let has_final_stats = self.stats is Some;
        match request {
            Request::ChooseDirectory | Request::StartScan | Request::StartMftScan | Request::OpenResult
            | Request::OpenCache | Request::ManageCache => !busy,
            Request::CancelScan => self.scan_in_progress && !self.cancel_requested,
            Request::SaveResult | Request::ExportScanReport | Request::StartDuplicatePreview => !busy && has_final_stats,
            Request::StartCleanupPreview => !busy && has_final_stats && enabled_rules(self.cleanup_rules@).len() > 0,
            Request::CancelCleanupPreview => self.cleanup_in_progress && !self.cleanup_cancel_requested,
            Request::ExportCleanupPreview => !busy && self.spec_current_cleanup_preview() is Some,
            Request::CancelDuplicatePreview => self.duplicate_in_progress && !self.duplicate_cancel_requested,
            Request::ExportDuplicatePreview => !busy && self.spec_current_duplicate_preview() is Some,
            Request::StartAiAnalysis => !busy && (self.spec_current_cleanup_preview() is Some
                || self.spec_current_duplicate_preview() is Some),
            Request::CancelAiAnalysis => self.ai_analysis_in_progress && !self.ai_analysis_cancel_requested,
            Request::ExportAiReport | Request::ExportAiDeleteList => !busy && self.spec_current_ai_analysis_report() is Some,
            Request::EditScanFilter => !busy && !self.ai_analysis_in_progress,
            Request::EditCleanupRules => !self.cleanup_in_progress,
            Request::EditAiConfig => !self.ai_analysis_in_progress,
        }
    }

    /// Whether a scan, a cleanup preview or a duplicate search is running.
    pub fn busy(&self) -> (r: bool)
        ensures
            r == self.spec_busy(),
    {
        self.scan_in_progress || self.cleanup_in_progress || self.duplicate_in_progress
    }

    /// Whether a request can be made now.
    pub fn available(&self, request: Request) -> (r: bool)
        ensures
            r == self.spec_available(request),
    {
        let busy = self.busy();
        let has_final_stats = self.stats.is_some();
        match request {
            Request::ChooseDirectory | Request::StartScan | Request::StartMftScan | Request::OpenResult
            | Request::OpenCache | Request::ManageCache => !busy,
            Request::CancelScan => self.scan_in_progress && !self.cancel_requested,
            Request::SaveResult | Request::ExportScanReport | Request::StartDuplicatePreview => !busy && has_final_stats,
            Request::StartCleanupPreview => !busy && has_final_stats && self.enabled_cleanup_rule_count() > 0,
            Request::CancelCleanupPreview => self.cleanup_in_progress && !self.cleanup_cancel_requested,
            Request::ExportCleanupPreview => !busy && self.current_cleanup_preview().is_some(),
            Request::CancelDuplicatePreview => self.duplicate_in_progress && !self.duplicate_cancel_requested,
            Request::ExportDuplicatePreview => !busy && self.current_duplicate_preview().is_some(),
            Request::StartAiAnalysis => !busy && (self.current_cleanup_preview().is_some()
                || self.current_duplicate_preview().is_some()),
            Request::CancelAiAnalysis => self.ai_analysis_in_progress && !self.ai_analysis_cancel_requested,
            Request::ExportAiReport | Request::ExportAiDeleteList => !busy && self.current_ai_analysis_report().is_some(),
            Request::EditScanFilter => !busy && !self.ai_analysis_in_progress,
            Request::EditCleanupRules => !self.cleanup_in_progress,
            Request::EditAiConfig => !self.ai_analysis_in_progress,
        }
    }

    /// What is running, as shown next to the spinner: `None` when nothing that keeps the
    /// session busy runs.
    pub open spec fn spec_busy_label(self) -> Option<Seq<char>> {
        if !self.spec_busy() {
            None
        } else if self.scan_in_progress {
            Some(if self.cancel_requested { "取消扫描中"@ } else { "扫描中"@ })
        } else if self.cleanup_in_progress {
            Some(if self.cleanup_cancel_requested { "取消预览中"@ } else { "预览中"@ })
        } else {
            Some(if self.duplicate_cancel_requested { "取消重复检测中"@ } else { "重复检测中"@ })
        }
    }

    /// What is running, as shown next to the spinner.
    pub fn busy_label(&self) -> (r: Option<&'static str>)
        ensures
            match r {
                Some(t) => self.spec_busy_label() == Some(t@),
                None => self.spec_busy_label() is None,
            },
    {
        if !self.busy() {
            None
        } else if self.scan_in_progress {
            Some(if self.cancel_requested { "取消扫描中" } else { "扫描中" })
        } else if self.cleanup_in_progress {
            Some(if self.cleanup_cancel_requested { "取消预览中" } else { "预览中" })
        } else {
            Some(if self.duplicate_cancel_requested { "取消重复检测中" } else { "重复检测中" })
        }
    }
}

/// Once a scan has started, nothing new can start until it ends, and it can be cancelled.
pub proof fn lemma_started_scan_blocks_new_work(before: Session, after: Session, quick_scan_complete: bool)
    requires
        after.scan_started(before, quick_scan_complete),
    ensures
        after.spec_busy(),
        after.spec_busy_label() == Some("扫描中"@),
        after.spec_available(Request::CancelScan),
        !after.spec_available(Request::StartScan),
        !after.spec_available(Request::StartCleanupPreview),
        !after.spec_available(Request::StartDuplicatePreview),
        !after.spec_available(Request::StartAiAnalysis),
        !after.spec_available(Request::SaveResult),
{
}

/// A task that was asked to stop cannot be asked again.
pub proof fn lemma_cancel_only_once(s: Session)
    ensures
        s.cancel_requested ==> !s.spec_available(Request::CancelScan),
        s.cleanup_cancel_requested ==> !s.spec_available(Request::CancelCleanupPreview),
        s.duplicate_cancel_requested ==> !s.spec_available(Request::CancelDuplicatePreview),
        s.ai_analysis_cancel_requested ==> !s.spec_available(Request::CancelAiAnalysis),
{
}

// ---------------------------------------------------------------------------------------
// The cache manager

/// The window that lists the cached scans: where the cache is, what it holds, and a
/// deletion waiting for confirmation.
pub struct CacheManager {
    pub open: bool,
    pub db_path: Option<String>,
    pub db_size: Option<u64>,
    pub entries: Vec<crate::scan_cache::ScanCacheEntry>,
    pub delete_confirmation: Option<String>,
}

impl CacheManager {
    /// A closed window that knows of no cache yet.
    pub fn new() -> (r: CacheManager)
        ensures
            !r.open,
            r.db_path is None,
            r.db_size is None,
            r.entries@.len() == 0,
            r.delete_confirmation is None,
    {
        CacheManager { open: false, db_path: None, db_size: None, entries: Vec::new(), delete_confirmation: None }
    }

    /// Opens the window; the caller then lists the cache (`listed`).
    pub fn open_window(&mut self)
        ensures
            final(self).open,
            final(self).db_path == old(self).db_path && final(self).db_size == old(self).db_size
                && final(self).entries == old(self).entries && final(self).delete_confirmation
                == old(self).delete_confirmation,
    {
        self.open = true;
    }

    /// The cache was listed: its database, its entries and its size; or the database could
    /// not be located, which the status line says (and nothing is listed).
    pub fn listed(
        &mut self,
        session: &mut Session,
        outcome: Result<(String, Vec<crate::scan_cache::ScanCacheEntry>, Option<u64>), String>,
    )
        ensures
            match outcome {
                Ok((path, entries, size)) => final(self).db_path == Some(path) && final(self).entries == entries
                    && final(self).db_size == size && final(session).status_message == old(session).status_message,
                Err(e) => final(self).db_path is None && final(self).entries@.len() == 0 && final(self).db_size is None
                    && final(session).status_message@ == "无法获取缓存数据库路径: "@ + e@,
            },
            final(self).open == old(self).open && final(self).delete_confirmation == old(self).delete_confirmation,
            final(session).same_state(*old(session)) && final(session).selected_tab == old(session).selected_tab,
    {
        match outcome {
            Ok((path, entries, size)) => {
                self.db_path = Some(path);
                self.entries = entries;
                self.db_size = size;
            },
            Err(e) => {
                let mut m: Vec<char> = Vec::new();
                push_lit(&mut m, "无法获取缓存数据库路径: ");
                push_lit(&mut m, e.as_str());
                session.status_message = text_of(&m);
                self.db_path = None;
                self.entries = Vec::new();
                self.db_size = None;
            },
        }
    }

    /// Deleting the entry of `root_key` waits for confirmation.
    pub fn request_delete(&mut self, root_key: String)
        ensures
            final(self).delete_confirmation == Some(root_key),
            final(self).open == old(self).open && final(self).db_path == old(self).db_path && final(self).db_size
                == old(self).db_size && final(self).entries == old(self).entries,
    {
        self.delete_confirmation = Some(root_key);
    }

    /// The deletion waiting for confirmation is dropped.
    pub fn cancel_delete(&mut self)
        ensures
            final(self).delete_confirmation is None,
            final(self).open == old(self).open && final(self).db_path == old(self).db_path && final(self).db_size
                == old(self).db_size && final(self).entries == old(self).entries,
    {
        self.delete_confirmation = None;
    }

    /// The deletion is confirmed: gives the database and the key to delete, when both are
    /// known; no deletion waits afterwards.
    pub fn confirm_delete(&mut self) -> (r: Option<(String, String)>)
        ensures
            r == (match (old(self).db_path, old(self).delete_confirmation) {
                (Some(db), Some(key)) => Some((db, key)),
                _ => None,
            }),
            final(self).delete_confirmation is None,
            final(self).open == old(self).open && final(self).db_path == old(self).db_path && final(self).db_size
                == old(self).db_size && final(self).entries == old(self).entries,
    {
        let r = match (&self.db_path, &self.delete_confirmation) {
            (Some(db), Some(key)) => Some((db.clone(), key.clone())),
            _ => None,
        };
        self.delete_confirmation = None;
        r
    }

    /// The entry of `root_key` was deleted, was not there, or could not be deleted; the
    /// status line says which. Gives whether the list is to be read again.
    pub fn deleted(&mut self, session: &mut Session, root_key: &str, outcome: Result<bool, String>) -> (r: bool)
        ensures
            r == (outcome == Ok::<bool, String>(true)),
            final(session).status_message@ == match outcome {
                Ok(true) => "已删除缓存: "@ + root_key@,
                Ok(false) => "缓存记录不存在"@,
                Err(e) => "删除缓存失败: "@ + e@,
            },
            final(session).same_state(*old(session)) && final(session).selected_tab == old(session).selected_tab,
            final(self).open == old(self).open && final(self).db_path == old(self).db_path && final(self).db_size
                == old(self).db_size && final(self).entries == old(self).entries && final(self).delete_confirmation
                == old(self).delete_confirmation,
    {
        let mut m: Vec<char> = Vec::new();
        let refresh = match &outcome {
            Ok(true) => {
                push_lit(&mut m, "已删除缓存: ");
                push_lit(&mut m, root_key);
                true
            },
            Ok(false) => {
                push_lit(&mut m, "缓存记录不存在");
                false
            },
            Err(e) => {
                push_lit(&mut m, "删除缓存失败: ");
                push_lit(&mut m, e.as_str());
                false
            },
        };
        session.status_message = text_of(&m);
        refresh
    }

    /// The entry of `root_key` was read: its scan is shown (the rest of the session stays
    /// as it was) and the window closes; or it was not there, or could not be read, which
    /// the status line says.
    pub fn entry_loaded(&mut self, session: &mut Session, root_key: &str, outcome: Result<Option<ScanStats>, String>)
        ensures
            match outcome {
                Ok(Some(stats)) => {
                    &&& final(session).stats matches Some(s) && *s == stats
                    &&& final(session).treemap_current_dir is None
                    &&& final(session).status_message@ == "已从缓存加载："@ + root_key@
                    &&& !final(self).open
                },
                Ok(None) => final(session).stats == old(session).stats && final(session).treemap_current_dir
                    == old(session).treemap_current_dir && final(session).status_message@ == "缓存记录不存在"@
                    && final(self).open == old(self).open,
                Err(e) => final(session).stats == old(session).stats && final(session).treemap_current_dir
                    == old(session).treemap_current_dir && final(session).status_message@ == "加载缓存失败: "@ + e@
                    && final(self).open == old(self).open,
            },
            final(session).root_input == old(session).root_input && final(session).scan_in_progress
                == old(session).scan_in_progress && final(session).cancel_requested == old(session).cancel_requested
                && final(session).progress == old(session).progress,
            final(session).same_cleanup(*old(session)) && final(session).same_duplicates(*old(session))
                && final(session).same_review(*old(session)) && final(session).same_choices(*old(session))
                && final(session).selected_tab == old(session).selected_tab,
            final(self).db_path == old(self).db_path && final(self).db_size == old(self).db_size && final(self).entries
                == old(self).entries && final(self).delete_confirmation == old(self).delete_confirmation,
    {
        let mut m: Vec<char> = Vec::new();
        match outcome {
            Ok(Some(stats)) => {
                push_lit(&mut m, "已从缓存加载：");
                push_lit(&mut m, root_key);
                session.stats = Some(Arc::new(stats));
                session.treemap_current_dir = None;
                self.open = false;
            },
            Ok(None) => push_lit(&mut m, "缓存记录不存在"),
            Err(e) => {
                push_lit(&mut m, "加载缓存失败: ");
                push_lit(&mut m, e.as_str());
            },
        }
        session.status_message = text_of(&m);
    }
}

// ---------------------------------------------------------------------------------------
// Unfolded directories and picked extensions

/// Whether `x` is among the texts.
pub open spec fn holds_text(v: Seq<String>, x: Seq<char>) -> bool {
    exists|k: int| 0 <= k < v.len() && (#[trigger] v[k])@ == x
}

/// The texts with `x` added when it is missing and taken out when it is there.
fn toggled(v: &Vec<String>, x: &str) -> (r: Vec<String>)
    ensures
        forall|y: Seq<char>| #[trigger] holds_text(r@, y) == (if y == x@ { !holds_text(v@, x@) } else { holds_text(v@, y) }),
{
    let xv = crate::text::chars_of(x);
    let mut r: Vec<String> = Vec::new();
    let mut found = false;
    let mut i: usize = 0;
    while i < v.len()
        invariant
            i <= v@.len(),
            xv@ == x@,
            found == holds_text(v@.take(i as int), x@),
            forall|y: Seq<char>| #[trigger] holds_text(r@, y) == (y != x@ && holds_text(v@.take(i as int), y)),
        decreases v.len() - i,
    {
        let e = crate::text::chars_of(v[i].as_str());
        let ghost before = r@;
        assert forall|y: Seq<char>| #[trigger] holds_text(v@.take(i as int + 1), y) == (holds_text(v@.take(i as int), y)
            || v@[i as int]@ == y) by {
            if holds_text(v@.take(i as int + 1), y) {
                let k = choose|k: int| 0 <= k < i + 1 && (#[trigger] v@.take(i as int + 1)[k])@ == y;
                if k < i {
                    assert(v@.take(i as int)[k] == v@.take(i as int + 1)[k]);
                }
            }
            if holds_text(v@.take(i as int), y) {
                let k = choose|k: int| 0 <= k < i && (#[trigger] v@.take(i as int)[k])@ == y;
                assert(v@.take(i as int + 1)[k] == v@.take(i as int)[k]);
            }
            if v@[i as int]@ == y {
                assert(v@.take(i as int + 1)[i as int] == v@[i as int]);
            }
        }
        if crate::text::chars_eq(e.as_slice(), xv.as_slice()) {
            found = true;
        } else {
            r.push(v[i].clone());
            assert forall|y: Seq<char>| #[trigger] holds_text(r@, y) == (holds_text(before, y) || v@[i as int]@ == y) by {
                if holds_text(r@, y) {
                    let k = choose|k: int| 0 <= k < r@.len() && (#[trigger] r@[k])@ == y;
                    if k < before.len() {
                        assert(before[k] == r@[k]);
                    }
                }
                if holds_text(before, y) {
                    let k = choose|k: int| 0 <= k < before.len() && (#[trigger] before[k])@ == y;
                    assert(r@[k] == before[k]);
                }
                if v@[i as int]@ == y {
                    assert(r@[before.len() as int] == v@[i as int]);
                }
            }
        }
        i = i + 1;
    }
    assert(v@.take(v@.len() as int) =~= v@);
    if !found {
        let ghost before = r@;
        r.push(String::from_str(x));
        assert forall|y: Seq<char>| #[trigger] holds_text(r@, y) == (holds_text(before, y) || y == x@) by {
            if holds_text(r@, y) {
                let k = choose|k: int| 0 <= k < r@.len() && (#[trigger] r@[k])@ == y;
                if k < before.len() {
                    assert(before[k] == r@[k]);
                }
            }
            if holds_text(before, y) {
                let k = choose|k: int| 0 <= k < before.len() && (#[trigger] before[k])@ == y;
                assert(r@[k] == before[k]);
            }
            if y == x@ {
                assert(r@[before.len() as int]@ == x@);
            }
        }
    }
    r
}

impl Session {
    /// The typed settings, the rules and the sorting are the same in both.
    pub open spec fn same_settings(self, other: Session) -> bool {
        &&& self.ai_provider_config == other.ai_provider_config
        &&& self.cleanup_rules == other.cleanup_rules
        &&& self.search_query == other.search_query
        &&& self.directory_sort == other.directory_sort
        &&& self.file_sort == other.file_sort
        &&& self.extension_sort == other.extension_sort
        &&& self.cleanup_sort == other.cleanup_sort
        &&& self.duplicate_sort == other.duplicate_sort
        &&& self.ai_sort == other.ai_sort
        &&& self.scan_filter_excluded_dirs == other.scan_filter_excluded_dirs
        &&& self.scan_filter_excluded_extensions == other.scan_filter_excluded_extensions
        &&& self.scan_filter_same_file_system == other.scan_filter_same_file_system
        &&& self.duplicate_min_size_bytes == other.duplicate_min_size_bytes
    }

    /// Unfolds the directory at `path` in the tree panel, or folds it when it is unfolded.
    pub fn toggle_expanded(&mut self, path: &str)
        ensures
            forall|y: Seq<char>| #[trigger] holds_text(final(self).expanded_dirs@, y) == (if y == path@ {
                !holds_text(old(self).expanded_dirs@, path@)
            } else {
                holds_text(old(self).expanded_dirs@, y)
            }),
            final(self).selected_extensions == old(self).selected_extensions,
            final(self).status_message == old(self).status_message,
            final(self).same_scan(*old(self)) && final(self).same_cleanup(*old(self)) && final(self).same_duplicates(
                *old(self),
            ) && final(self).same_review(*old(self)) && final(self).same_settings(*old(self)) && final(self).selected_tab
                == old(self).selected_tab,
    {
        self.expanded_dirs = toggled(&self.expanded_dirs, path);
    }

    /// Picks out an extension in the extension panel, or drops it when it is picked.
    pub fn toggle_extension(&mut self, extension: &str)
        ensures
            forall|y: Seq<char>| #[trigger] holds_text(final(self).selected_extensions@, y) == (if y == extension@ {
                !holds_text(old(self).selected_extensions@, extension@)
            } else {
                holds_text(old(self).selected_extensions@, y)
            }),
            final(self).expanded_dirs == old(self).expanded_dirs,
            final(self).status_message == old(self).status_message,
            final(self).same_scan(*old(self)) && final(self).same_cleanup(*old(self)) && final(self).same_duplicates(
                *old(self),
            ) && final(self).same_review(*old(self)) && final(self).same_settings(*old(self)) && final(self).selected_tab
                == old(self).selected_tab,
    {
        self.selected_extensions = toggled(&self.selected_extensions, extension);
    }

    /// Drops every picked extension.
    pub fn clear_extension_filter(&mut self)
        ensures
            final(self).selected_extensions@.len() == 0,
            final(self).expanded_dirs == old(self).expanded_dirs,
            final(self).status_message == old(self).status_message,
            final(self).same_scan(*old(self)) && final(self).same_cleanup(*old(self)) && final(self).same_duplicates(
                *old(self),
            ) && final(self).same_review(*old(self)) && final(self).same_settings(*old(self)) && final(self).selected_tab
                == old(self).selected_tab,
    {
        self.selected_extensions = Vec::new();
    }
}

// ---------------------------------------------------------------------------------------
// The overview panel

/// A value in the overview: a text, or a size that the caller shows in its units.
#[derive(Debug, Clone, PartialEq, Eq)]
pub enum OverviewValue {
    Text(String),
    Size(u64),
}

/// An overview value as plain values.
pub enum OverviewView {
    Text(Seq<char>),
    Size(u64),
}

/// Overview rows as plain values.
pub open spec fn overview_views(rows: Seq<(String, OverviewValue)>) -> Seq<(Seq<char>, OverviewView)> {
    rows.map_values(
        |r: (String, OverviewValue)|
            (
                r.0@,
                match r.1 {
                    OverviewValue::Text(t) => OverviewView::Text(t@),
                    OverviewValue::Size(n) => OverviewView::Size(n),
                },
            ),
    )
}

/// The texts joined with `, `.
pub open spec fn joined_texts(v: Seq<String>) -> Seq<char>
    decreases v.len(),
{
    if v.len() == 0 {
        Seq::empty()
    } else if v.len() == 1 {
        v[0]@
    } else {
        joined_texts(v.drop_last()) + ", "@ + v.last()@
    }
}

fn join_texts(v: &Vec<String>) -> (r: String)
    ensures
        r@ == joined_texts(v@),
{
    let mut m: Vec<char> = Vec::new();
    let mut i: usize = 0;
    while i < v.len()
        invariant
            i <= v@.len(),
            m@ == joined_texts(v@.take(i as int)),
        decreases v.len() - i,
    {
        assert(v@.take(i as int + 1).drop_last() =~= v@.take(i as int));
        if i > 0 {
            push_lit(&mut m, ", ");
        }
        push_lit(&mut m, v[i].as_str());
        i = i + 1;
        proof {
            if i == 1 {
                assert(m@ =~= joined_texts(v@.take(1)));
            }
        }
    }
    assert(v@.take(v@.len() as int) =~= v@);
    text_of(&m)
}

/// A row whose value is a text.
pub open spec fn text_row(label: Seq<char>, value: Seq<char>) -> Seq<(Seq<char>, OverviewView)> {
    seq![(label, OverviewView::Text(value))]
}

/// A row whose value is a size.
pub open spec fn size_row(label: Seq<char>, value: u64) -> Seq<(Seq<char>, OverviewView)> {
    seq![(label, OverviewView::Size(value))]
}

/// The overview rows of a scan: root, size and counts.
pub open spec fn overview_base(stats: ScanStats) -> Seq<(Seq<char>, OverviewView)> {
    text_row("扫描根目录"@, stats.root@) + size_row("累计大小"@, stats.total_size) + text_row(
        "文件数量"@,
        spec_count(stats.file_count as nat),
    ) + text_row("目录数量"@, spec_count(stats.dir_count as nat)) + text_row(
        "访问错误"@,
        spec_count(stats.error_count as nat),
    )
}

/// The overview rows of the scan filter, when one was used.
pub open spec fn overview_filter(f: ScanFilterConfig) -> Seq<(Seq<char>, OverviewView)> {
    if f.excluded_directories@.len() > 0 || f.excluded_extensions@.len() > 0 || f.same_file_system {
        text_row("扫描过滤"@, "已启用"@) + (if f.excluded_directories@.len() > 0 {
            text_row("排除目录"@, joined_texts(f.excluded_directories@))
        } else {
            Seq::empty()
        }) + (if f.excluded_extensions@.len() > 0 {
            text_row("排除扩展名"@, joined_texts(f.excluded_extensions@))
        } else {
            Seq::empty()
        }) + (if f.same_file_system {
            text_row("同文件系统"@, "是"@)
        } else {
            Seq::empty()
        })
    } else {
        Seq::empty()
    }
}

impl Session {
    /// The overview rows of the running scan.
    pub open spec fn overview_scan(self) -> Seq<(Seq<char>, OverviewView)> {
        if self.scan_in_progress {
            text_row("扫描状态"@, if self.cancel_requested { "正在取消"@ } else { "正在扫描"@ }) + match self.progress {
                Some(p) => match p.current_path {
                    Some(path) => text_row("当前路径"@, crate::search::spec_compact_text(path@, 48)),
                    None => Seq::empty(),
                },
                None => Seq::empty(),
            }
        } else {
            Seq::empty()
        }
    }

    /// The overview rows of the cleanup preview on show.
    pub open spec fn overview_cleanup(self) -> Seq<(Seq<char>, OverviewView)> {
        match self.spec_current_cleanup_preview() {
            Some(pr) => text_row("预览候选"@, spec_count(pr.candidate_count as nat)) + size_row(
                "预计可清理"@,
                pr.reclaimable_size,
            ) + size_row("受保护候选"@, pr.protected_size) + if self.cleanup_in_progress {
                text_row("预览状态"@, if self.cleanup_cancel_requested { "正在取消预览"@ } else { "正在预览"@ })
            } else {
                Seq::empty()
            },
            None => Seq::empty(),
        }
    }

    /// The overview rows of the duplicate result on show.
    pub open spec fn overview_duplicates(self) -> Seq<(Seq<char>, OverviewView)> {
        match self.spec_current_duplicate_preview() {
            Some(pr) => text_row("重复组"@, spec_count(pr.duplicate_group_count as nat)) + text_row(
                "重复副本"@,
                spec_count(pr.duplicate_file_count as nat),
            ) + size_row("预计可回收"@, pr.reclaimable_size) + if self.duplicate_in_progress {
                text_row(
                    "重复检测"@,
                    if self.duplicate_cancel_requested {
                        "正在取消重复检测"@
                    } else {
                        match self.duplicate_progress {
                            Some(p) => p.phase.spec_label(),
                            None => "正在检测重复文件"@,
                        }
                    },
                )
            } else {
                Seq::empty()
            },
            None => Seq::empty(),
        }
    }

    /// The rows of the overview of the scan on show: its root, size and counts; the scan's
    /// state while it runs; the cleanup preview and duplicate result on show with their
    /// state while they run; and the scan filter when one was used.
    pub open spec fn spec_overview(self, stats: ScanStats) -> Seq<(Seq<char>, OverviewView)> {
        overview_base(stats) + self.overview_scan() + self.overview_cleanup() + self.overview_duplicates()
            + overview_filter(stats.filter_config)
    }
}

fn push_text_row(rows: &mut Vec<(String, OverviewValue)>, label: &str, value: String)
    ensures
        overview_views(final(rows)@) == overview_views(old(rows)@) + text_row(label@, value@),
{
    let ghost before = rows@;
    rows.push((owned(label), OverviewValue::Text(value)));
    assert(overview_views(rows@) =~= overview_views(before) + text_row(label@, value@));
}

fn push_size_row(rows: &mut Vec<(String, OverviewValue)>, label: &str, value: u64)
    ensures
        overview_views(final(rows)@) == overview_views(old(rows)@) + size_row(label@, value),
{
    let ghost before = rows@;
    rows.push((owned(label), OverviewValue::Size(value)));
    assert(overview_views(rows@) =~= overview_views(before) + size_row(label@, value));
}

fn push_base_rows(rows: &mut Vec<(String, OverviewValue)>, stats: &ScanStats)
    ensures
        overview_views(final(rows)@) == overview_views(old(rows)@) + overview_base(*stats),
{
    push_text_row(rows, "扫描根目录", stats.root.clone());
    push_size_row(rows, "累计大小", stats.total_size);
    push_text_row(rows, "文件数量", count(stats.file_count));
    push_text_row(rows, "目录数量", count(stats.dir_count));
    push_text_row(rows, "访问错误", count(stats.error_count));
    assert(overview_views(rows@) =~= overview_views(old(rows)@) + overview_base(*stats));
}

fn push_filter_rows(rows: &mut Vec<(String, OverviewValue)>, f: &ScanFilterConfig)
    ensures
        overview_views(final(rows)@) == overview_views(old(rows)@) + overview_filter(*f),
{
    if f.is_active() {
        push_text_row(rows, "扫描过滤", owned("已启用"));
        let ghost a = overview_views(rows@);
        if f.excluded_directories.len() > 0 {
            push_text_row(rows, "排除目录", join_texts(&f.excluded_directories));
        }
        let ghost b = overview_views(rows@);
        if f.excluded_extensions.len() > 0 {
            push_text_row(rows, "排除扩展名", join_texts(&f.excluded_extensions));
        }
        let ghost c = overview_views(rows@);
        if f.same_file_system {
            push_text_row(rows, "同文件系统", owned("是"));
        }
        assert(overview_views(rows@) =~= overview_views(old(rows)@) + overview_filter(*f));
    } else {
        assert(overview_views(rows@) =~= overview_views(old(rows)@) + overview_filter(*f));
    }
}

impl Session {
    fn push_scan_rows(&self, rows: &mut Vec<(String, OverviewValue)>)
        ensures
            overview_views(final(rows)@) == overview_views(old(rows)@) + self.overview_scan(),
    {
        if self.scan_in_progress {
            push_text_row(rows, "扫描状态", owned(if self.cancel_requested { "正在取消" } else { "正在扫描" }));
            match &self.progress {
                Some(p) => match &p.current_path {
                    Some(path) => push_text_row(rows, "当前路径", crate::search::compact_text(path.as_str(), 48)),
                    None => {},
                },
                None => {},
            }
            assert(overview_views(rows@) =~= overview_views(old(rows)@) + self.overview_scan());
        } else {
            assert(overview_views(rows@) =~= overview_views(old(rows)@) + self.overview_scan());
        }
    }

    fn push_cleanup_rows(&self, rows: &mut Vec<(String, OverviewValue)>)
        ensures
            overview_views(final(rows)@) == overview_views(old(rows)@) + self.overview_cleanup(),
    {
        match self.current_cleanup_preview() {
            Some(pr) => {
                push_text_row(rows, "预览候选", count(pr.candidate_count));
                push_size_row(rows, "预计可清理", pr.reclaimable_size);
                push_size_row(rows, "受保护候选", pr.protected_size);
                if self.cleanup_in_progress {
                    push_text_row(
                        rows,
                        "预览状态",
                        owned(if self.cleanup_cancel_requested { "正在取消预览" } else { "正在预览" }),
                    );
                }
                assert(overview_views(rows@) =~= overview_views(old(rows)@) + self.overview_cleanup());
            },
            None => {
                assert(overview_views(rows@) =~= overview_views(old(rows)@) + self.overview_cleanup());
            },
        }
    }

    fn push_duplicate_rows(&self, rows: &mut Vec<(String, OverviewValue)>)
        ensures
            overview_views(final(rows)@) == overview_views(old(rows)@) + self.overview_duplicates(),
    {
        match self.current_duplicate_preview() {
            Some(pr) => {
                push_text_row(rows, "重复组", count(pr.duplicate_group_count));
                push_text_row(rows, "重复副本", count(pr.duplicate_file_count));
                push_size_row(rows, "预计可回收", pr.reclaimable_size);
                if self.duplicate_in_progress {
                    let state = if self.duplicate_cancel_requested {
                        "正在取消重复检测"
                    } else {
                        match &self.duplicate_progress {
                            Some(p) => p.phase.label(),
                            None => "正在检测重复文件",
                        }
                    };
                    push_text_row(rows, "重复检测", owned(state));
                }
                assert(overview_views(rows@) =~= overview_views(old(rows)@) + self.overview_duplicates());
            },
            None => {
                assert(overview_views(rows@) =~= overview_views(old(rows)@) + self.overview_duplicates());
            },
        }
    }

    /// The rows of the overview of `stats`.
    pub fn overview_rows(&self, stats: &ScanStats) -> (r: Vec<(String, OverviewValue)>)
        ensures
            overview_views(r@) == self.spec_overview(*stats),
    {
        let mut rows: Vec<(String, OverviewValue)> = Vec::new();
        assert(overview_views(rows@) =~= Seq::empty());
        push_base_rows(&mut rows, stats);
        self.push_scan_rows(&mut rows);
        self.push_cleanup_rows(&mut rows);
        self.push_duplicate_rows(&mut rows);
        push_filter_rows(&mut rows, &stats.filter_config);
        assert(overview_views(rows@) =~= self.spec_overview(*stats));
        rows
    }
}

/// The notes under the overview: the safety note, then a note for each task that runs.
pub open spec fn spec_overview_notes(s: Session) -> Seq<Seq<char>> {
    seq!["安全提示：当前版本只分析空间占用，并且清理功能仅 dry-run 预览，不提供删除功能。"@] + (if s.scan_in_progress {
        seq!["进度提示：程序不预扫描总文件数，因此不显示百分比。列表会持续刷新已扫描到的部分结果。"@]
    } else {
        Seq::empty()
    }) + (if s.cleanup_in_progress {
        seq!["清理预览提示：预览只读取文件元数据，不删除、移动或修改任何文件。受保护候选不计入预计可清理空间。"@]
    } else {
        Seq::empty()
    }) + (if s.duplicate_in_progress {
        seq!["重复检测提示：仅对同大小候选读取文件内容并计算 BLAKE3 哈希；当前版本只提供 dry-run 预览。"@]
    } else {
        Seq::empty()
    })
}

impl Session {
    /// The notes under the overview.
    pub fn overview_notes(&self) -> (r: Vec<&'static str>)
        ensures
            r@.map_values(|t: &'static str| t@) == spec_overview_notes(*self),
    {
        let mut r: Vec<&'static str> = Vec::new();
        r.push("安全提示：当前版本只分析空间占用，并且清理功能仅 dry-run 预览，不提供删除功能。");
        if self.scan_in_progress {
            r.push("进度提示：程序不预扫描总文件数，因此不显示百分比。列表会持续刷新已扫描到的部分结果。");
        }
        if self.cleanup_in_progress {
            r.push("清理预览提示：预览只读取文件元数据，不删除、移动或修改任何文件。受保护候选不计入预计可清理空间。");
        }
        if self.duplicate_in_progress {
            r.push("重复检测提示：仅对同大小候选读取文件内容并计算 BLAKE3 哈希；当前版本只提供 dry-run 预览。");
        }
        assert(r@.map_values(|t: &'static str| t@) =~= spec_overview_notes(*self));
        r
    }
}

impl Session {
    /// Sets how many candidates the AI review sends at most (between 1 and 1000).
    pub fn set_ai_max_candidates(&mut self, value: usize)
        ensures
            final(self).ai_provider_config.max_candidates == (if value < 1 {
                1
            } else if value > 1000 {
                1000
            } else {
                value
            }),
            final(self).ai_provider_config.base_url == old(self).ai_provider_config.base_url
                && final(self).ai_provider_config.model == old(self).ai_provider_config.model
                && final(self).ai_provider_config.api_key_env == old(self).ai_provider_config.api_key_env
                && final(self).ai_provider_config.timeout_secs == old(self).ai_provider_config.timeout_secs
                && final(self).ai_provider_config.send_full_paths == old(self).ai_provider_config.send_full_paths,
            final(self).status_message == old(self).status_message,
            final(self).same_scan(*old(self)) && final(self).same_cleanup(*old(self)) && final(self).same_duplicates(
                *old(self),
            ) && final(self).same_review(*old(self)) && final(self).cleanup_rules == old(self).cleanup_rules
                && final(self).selected_tab == old(self).selected_tab,
    {
        self.ai_provider_config.max_candidates = if value < 1 {
            1
        } else if value > 1000 {
            1000
        } else {
            value
        };
    }

    /// Sets the AI review's time limit per request, in seconds (between 5 and 600).
    pub fn set_ai_timeout_secs(&mut self, value: u64)
        ensures
            final(self).ai_provider_config.timeout_secs == (if value < 5 {
                5
            } else if value > 600 {
                600
            } else {
                value
            }),
            final(self).ai_provider_config.base_url == old(self).ai_provider_config.base_url
                && final(self).ai_provider_config.model == old(self).ai_provider_config.model
                && final(self).ai_provider_config.api_key_env == old(self).ai_provider_config.api_key_env
                && final(self).ai_provider_config.max_candidates == old(self).ai_provider_config.max_candidates
                && final(self).ai_provider_config.send_full_paths == old(self).ai_provider_config.send_full_paths,
            final(self).status_message == old(self).status_message,
            final(self).same_scan(*old(self)) && final(self).same_cleanup(*old(self)) && final(self).same_duplicates(
                *old(self),
            ) && final(self).same_review(*old(self)) && final(self).cleanup_rules == old(self).cleanup_rules
                && final(self).selected_tab == old(self).selected_tab,
    {
        self.ai_provider_config.timeout_secs = if value < 5 {
            5
        } else if value > 600 {
            600
        } else {
            value
        };
    }
}

// ---------------------------------------------------------------------------------------
// The extension panel

/// The most extensions the extension panel lists.
pub const EXTENSION_PANEL_LIMIT: usize = 15;

/// The text without its leading dots.
pub open spec fn trim_leading_dots(s: Seq<char>) -> Seq<char>
    decreases s.len(),
{
    if s.len() > 0 && s[0] == '.' {
        trim_leading_dots(s.drop_first())
    } else {
        s
    }
}

fn strip_leading_dots(s: &str) -> (r: String)
    ensures
        r@ == trim_leading_dots(s@),
{
    let v = crate::text::chars_of(s);
    let mut i: usize = 0;
    assert(v@.subrange(0, v@.len() as int) =~= v@);
    while i < v.len() && v[i] == '.'
        invariant
            i <= v@.len(),
            trim_leading_dots(v@) == trim_leading_dots(v@.subrange(i as int, v@.len() as int)),
        decreases v.len() - i,
    {
        assert(v@.subrange(i as int, v@.len() as int).drop_first() =~= v@.subrange(i as int + 1, v@.len() as int));
        i = i + 1;
    }
    let rest = crate::text::slice_copy(v.as_slice(), i, v.len());
    string_from_chars(rest.as_slice())
}

/// One line of the extension panel: the extension's position in the scan, whether it is
/// picked out, and its category.
#[derive(Debug, Clone, Copy)]
pub struct ExtensionPanelRow {
    pub index: usize,
    pub selected: bool,
    pub category: crate::color_palette::FileCategory,
}

impl Session {
    /// The lines of the extension panel: the first extensions of the scan (largest
    /// first), each with whether it is picked out and the category of its name without
    /// leading dots.
    pub fn extension_panel_rows(&self, stats: &ScanStats) -> (r: Vec<ExtensionPanelRow>)
        ensures
            r@.len() == (if stats.extensions@.len() < EXTENSION_PANEL_LIMIT {
                stats.extensions@.len()
            } else {
                EXTENSION_PANEL_LIMIT as nat
            }),
            forall|i: int| 0 <= i < r@.len() ==> {
                &&& (#[trigger] r@[i]).index == i
                &&& r@[i].selected == holds_text(self.selected_extensions@, stats.extensions@[i].extension@)
                &&& r@[i].category == crate::color_palette::spec_category(
                    trim_leading_dots(stats.extensions@[i].extension@),
                )
            },
    {
        let palette = crate::color_palette::ColorPalette::new();
        let mut r: Vec<ExtensionPanelRow> = Vec::new();
        let mut i: usize = 0;
        while i < stats.extensions.len() && i < EXTENSION_PANEL_LIMIT
            invariant
                i <= stats.extensions@.len(),
                i <= EXTENSION_PANEL_LIMIT,
                r@.len() == i,
                forall|j: int| 0 <= j < i ==> {
                    &&& (#[trigger] r@[j]).index == j
                    &&& r@[j].selected == holds_text(self.selected_extensions@, stats.extensions@[j].extension@)
                    &&& r@[j].category == crate::color_palette::spec_category(
                        trim_leading_dots(stats.extensions@[j].extension@),
                    )
                },
            decreases stats.extensions.len() - i,
        {
            let extension = &stats.extensions[i].extension;
            let name = strip_leading_dots(extension.as_str());
            let category = palette.category_for_extension(name.as_str());
            let selected = contains_text(&self.selected_extensions, extension.as_str());
            r.push(ExtensionPanelRow { index: i, selected, category });
            i = i + 1;
        }
        r
    }
}

fn contains_text(v: &Vec<String>, x: &str) -> (r: bool)
    ensures
        r == holds_text(v@, x@),
{
    let xv = crate::text::chars_of(x);
    let mut i: usize = 0;
    while i < v.len()
        invariant
            i <= v@.len(),
            xv@ == x@,
            forall|k: int| 0 <= k < i ==> (#[trigger] v@[k])@ != x@,
        decreases v.len() - i,
    {
        let e = crate::text::chars_of(v[i].as_str());
        if crate::text::chars_eq(e.as_slice(), xv.as_slice()) {
            return true;
        }
        i = i + 1;
    }
    false
}

} // verus!
