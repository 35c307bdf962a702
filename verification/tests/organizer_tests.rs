use cdrive_manager::organizer::{directory_outcome, file_outcome, should_remove_source};
use cdrive_manager::organizer::{
    folder_target, organizer_item, organizer_target, rename_with_suffix, resolve_conflict, suffixed_candidate,
    ConflictStatus, ConflictStrategy, FolderCandidateStats, OrganizerItem, OrganizerPreview, PersonalFolder,
    TransferOutcome, TransferTally,
};

fn documents_item(conflict: ConflictStatus, modified: Option<u64>) -> OrganizerItem {
    OrganizerItem {
        folder: PersonalFolder::Documents,
        source_path: "C:\\Users\\u\\Documents\\a.txt".to_owned(),
        target_path: "D:\\Data\\Documents\\a.txt".to_owned(),
        size: 10,
        modified,
        is_directory: false,
        conflict,
    }
}

#[test]
fn rename_with_suffix_avoids_existing() {
    let dir = "C:\\Temp\\cdrive_test_rename";
    let existing = vec![format!("{dir}\\notes.txt"), format!("{dir}\\notes (1).txt")];
    let is_taken = |candidate: &String| existing.contains(candidate);
    let base = format!("{dir}\\notes.txt");
    let result = rename_with_suffix(&base, &is_taken).unwrap();
    assert_eq!(result, format!("{dir}\\notes (2).txt"));
}

#[test]
fn rename_with_suffix_without_extension_and_without_parent() {
    let none_taken = |_: &String| false;
    assert_eq!(rename_with_suffix("C:\\Temp\\README", &none_taken).unwrap(), "C:\\Temp\\README (1)");
    assert_eq!(rename_with_suffix("notes.txt", &none_taken).unwrap(), "notes (1).txt");
    assert_eq!(rename_with_suffix("", &none_taken), None);
    let all_taken = |_: &String| true;
    assert_eq!(rename_with_suffix("C:\\Temp\\a.txt", &all_taken), None);
}

#[test]
fn suffixed_candidate_numbers_the_stem() {
    assert_eq!(suffixed_candidate("C:\\Temp\\a.tar.gz", 12).unwrap(), "C:\\Temp\\a.tar (12).gz");
    assert_eq!(suffixed_candidate("C:\\", 1), None);
}

#[test]
fn resolve_conflict_skip_returns_none_on_existing() {
    let item = documents_item(ConflictStatus::Exists, None);
    assert!(resolve_conflict(&item, ConflictStrategy::Skip, None, None).is_none());
}

#[test]
fn resolve_conflict_overwrite_returns_target() {
    let item = documents_item(ConflictStatus::Exists, None);
    let result = resolve_conflict(&item, ConflictStrategy::Overwrite, None, None).unwrap();
    assert_eq!(result, "D:\\Data\\Documents\\a.txt");
}

#[test]
fn resolve_conflict_without_conflict_keeps_target() {
    let item = documents_item(ConflictStatus::NoConflict, None);
    assert_eq!(
        resolve_conflict(&item, ConflictStrategy::Skip, None, None).unwrap(),
        "D:\\Data\\Documents\\a.txt"
    );
}

#[test]
fn resolve_conflict_keep_newer_and_rename() {
    let item = documents_item(ConflictStatus::Exists, Some(200));
    assert_eq!(
        resolve_conflict(&item, ConflictStrategy::KeepNewer, Some(100), None).unwrap(),
        "D:\\Data\\Documents\\a.txt"
    );
    assert!(resolve_conflict(&item, ConflictStrategy::KeepNewer, Some(300), None).is_none());
    assert!(resolve_conflict(&item, ConflictStrategy::KeepNewer, None, None).is_none());
    let renamed = Some("D:\\Data\\Documents\\a (1).txt".to_owned());
    assert_eq!(
        resolve_conflict(&item, ConflictStrategy::RenameNew, None, renamed.clone()),
        renamed
    );
}

#[test]
fn folder_labels_and_targets() {
    assert_eq!(PersonalFolder::Documents.label(), "文档");
    assert_eq!(PersonalFolder::Documents.default_folder_name(), "Documents");
    assert_eq!(folder_target("D:\\Data", PersonalFolder::Downloads), "D:\\Data\\Downloads");
    assert_eq!(folder_target("D:\\", PersonalFolder::Desktop), "D:\\Desktop");
    assert_eq!(PersonalFolder::default_enabled().len(), 6);
    assert_eq!(ConflictStrategy::default(), ConflictStrategy::Skip);
}

#[test]
fn organizer_target_keeps_relative_components() {
    assert_eq!(
        organizer_target("C:\\Users\\u\\Documents", "D:\\Data\\Documents", "C:\\Users\\u\\Documents\\sub\\a.txt")
            .unwrap(),
        "D:\\Data\\Documents\\sub\\a.txt"
    );
    assert_eq!(organizer_target("C:\\Users\\u\\Documents", "D:\\Data", "C:\\Other\\a.txt"), None);
}

#[test]
fn organizer_item_counts_no_size_for_directories() {
    let dir = organizer_item(PersonalFolder::Music, "C:\\m".to_owned(), "D:\\m".to_owned(), true, 99, None, true);
    assert_eq!(dir.size, 0);
    assert_eq!(dir.conflict, ConflictStatus::Exists);
    let file = organizer_item(PersonalFolder::Music, "C:\\m.mp3".to_owned(), "D:\\m.mp3".to_owned(), false, 99, None, false);
    assert_eq!(file.size, 99);
    assert_eq!(file.conflict, ConflictStatus::NoConflict);
}

#[test]
fn preview_counts_entries_and_caps_the_list() {
    let mut preview = OrganizerPreview::empty("D:\\Data".to_owned(), ConflictStrategy::Skip);
    let mut stats = FolderCandidateStats::start(PersonalFolder::Documents, "C:\\d".to_owned(), "D:\\d".to_owned());
    preview.record_entry(&mut stats, documents_item(ConflictStatus::Exists, None), 1);
    preview.record_entry(&mut stats, documents_item(ConflictStatus::NoConflict, None), 1);
    assert_eq!(stats.total_items, 2);
    assert_eq!(stats.total_size, 20);
    assert_eq!(stats.conflict_count, 1);
    assert_eq!(stats.file_count, 2);
    assert_eq!(preview.items.len(), 1);
    assert_eq!(preview.total_items, 2);
    assert_eq!(preview.total_conflicts, 1);
    preview.finish_folder(stats);
    assert_eq!(preview.folders.len(), 1);
    let empty = FolderCandidateStats::start(PersonalFolder::Music, "C:\\m".to_owned(), "D:\\m".to_owned());
    preview.finish_folder(empty);
    assert_eq!(preview.folders.len(), 1);
    assert_eq!(preview.enabled_folder_count(), 1);
}

#[test]
fn transfer_tally_counts_outcomes() {
    let item = documents_item(ConflictStatus::NoConflict, None);
    let mut tally = TransferTally::new();
    tally.record(&item, "D:\\t", TransferOutcome::Moved(10));
    tally.record(&item, "D:\\t", TransferOutcome::Skipped);
    tally.record(&item, "D:\\t", TransferOutcome::SizeMismatch);
    tally.record(&item, "D:\\t", TransferOutcome::MovedSourceKept(10));
    tally.record(&item, "D:\\t", TransferOutcome::DirectoryFailed("拒绝访问".to_owned()));
    assert_eq!(tally.processed_items, 5);
    assert_eq!(tally.processed_bytes, 40);
    assert_eq!(tally.success_count, 2);
    assert_eq!(tally.skipped_count, 1);
    assert_eq!(tally.error_count, 2);
    assert_eq!(tally.moved_bytes, 20);
    assert_eq!(tally.errors.len(), 3);
    assert_eq!(tally.errors[2].message, "创建目录失败：拒绝访问");
    let finished = tally.finish(false);
    assert_eq!(finished.success_count, 2);
    assert!(!finished.cancelled);
}

#[test]
fn file_outcomes_remove_the_source_only_after_the_size_check() {
    assert!(should_remove_source(10, Some(10)));
    assert!(!should_remove_source(10, Some(9)));
    assert!(!should_remove_source(10, None));
    assert!(matches!(file_outcome(Ok(10), Some(10), true), TransferOutcome::Moved(10)));
    assert!(matches!(file_outcome(Ok(10), Some(10), false), TransferOutcome::MovedSourceKept(10)));
    assert!(matches!(file_outcome(Ok(10), Some(3), true), TransferOutcome::SizeMismatch));
    assert!(matches!(file_outcome(Err("磁盘已满".to_owned()), None, false), TransferOutcome::CopyFailed(ref e) if e == "磁盘已满"));
    assert!(matches!(directory_outcome(Ok(())), TransferOutcome::DirectoryCreated));
    assert!(matches!(directory_outcome(Err("x".to_owned())), TransferOutcome::DirectoryFailed(_)));
}
