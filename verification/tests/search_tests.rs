use std::cmp::Ordering;

use cdrive_manager::model::{DirectoryRecord, FileRecord};
use cdrive_manager::search::{compact_text, directory_matches, file_matches, normalized_query, text_matches};
use cdrive_manager::settings::{check_root, list_entries, root_input, scan_filter_config_from_input};
use cdrive_manager::table_order::{
    compare_directories, compare_files, compare_text, result_count_text, DirectorySortKey, FileSortKey,
    SortDirection, SortState,
};

#[test]
fn queries_match_case_insensitively() {
    assert_eq!(normalized_query("  Photos "), "photos");
    assert!(text_matches("C:\\Users\\Photos", "photos"));
    assert!(!text_matches("C:\\Users", "photos"));
    let dir = DirectoryRecord {
        path: "C:\\Data\\Photos".to_owned(),
        total_size: 1,
        direct_file_count: 0,
        direct_file_size: 0,
        descendant_file_count: 0,
    };
    assert!(directory_matches(&dir, ""));
    assert!(directory_matches(&dir, "photo"));
    assert!(!directory_matches(&dir, "music"));
    let file = FileRecord { path: "C:\\x\\Song.MP3".to_owned(), size: 1, modified: None, extension: ".mp3".to_owned() };
    assert!(file_matches(&file, "song"));
    assert!(file_matches(&file, ".mp3"));
    assert!(!file_matches(&file, "video"));
}

#[test]
fn long_texts_are_compacted() {
    assert_eq!(compact_text("short", 10), "short");
    assert_eq!(compact_text("abcdefghij", 1), "…");
    assert_eq!(compact_text("abcdefghij", 6), "ab…hij");
    assert_eq!(compact_text("abcdefghij", 2), "a…j");
}

#[test]
fn table_rows_are_ordered_by_column_then_path() {
    assert_eq!(compare_text("apple", "Banana"), Ordering::Less);
    assert_eq!(compare_text("B", "b"), Ordering::Less);
    assert_eq!(compare_text("same", "same"), Ordering::Equal);
    let a = DirectoryRecord { path: "C:\\a".to_owned(), total_size: 5, direct_file_count: 0, direct_file_size: 0, descendant_file_count: 3 };
    let b = DirectoryRecord { path: "C:\\b".to_owned(), total_size: 9, direct_file_count: 0, direct_file_size: 0, descendant_file_count: 3 };
    let by_size_desc = SortState::new(DirectorySortKey::Size, SortDirection::Desc);
    assert_eq!(compare_directories(&a, &b, by_size_desc), Ordering::Greater);
    let by_files = SortState::new(DirectorySortKey::Files, SortDirection::Desc);
    assert_eq!(compare_directories(&a, &b, by_files), Ordering::Less);
    let mut state = SortState::new(FileSortKey::Size, SortDirection::Desc);
    state.select(FileSortKey::Size, SortDirection::Desc);
    assert_eq!(state.direction, SortDirection::Asc);
    state.select(FileSortKey::Name, SortDirection::Asc);
    assert_eq!(state.key, FileSortKey::Name);
    assert_eq!(state.direction, SortDirection::Asc);
    let f1 = FileRecord { path: "C:\\z\\a.txt".to_owned(), size: 1, modified: None, extension: ".txt".to_owned() };
    let f2 = FileRecord { path: "C:\\a\\B.txt".to_owned(), size: 1, modified: None, extension: ".txt".to_owned() };
    assert_eq!(compare_files(&f1, &f2, state), Ordering::Less);
    assert_eq!(SortDirection::Asc.arrow(), "↑");
    assert_eq!(result_count_text(10, 1200, 3000, "文件"), "显示 10 / 匹配 1,200 / 当前保留 3,000 个文件。");
}

#[test]
fn settings_lists_are_split_and_trimmed() {
    assert_eq!(list_entries(" node_modules ; target,,\n.git ", false), vec!["node_modules", "target", ".git"]);
    assert_eq!(list_entries("tmp, .LOG; ", true), vec![".tmp", ".log"]);
    assert!(list_entries("", false).is_empty());
    let config = scan_filter_config_from_input("a;b", "bak", true);
    assert_eq!(config.excluded_directories, vec!["a", "b"]);
    assert_eq!(config.excluded_extensions, vec![".bak"]);
    assert!(config.same_file_system);
    assert_eq!(root_input("  C:\\Users ").unwrap(), "C:\\Users");
    assert_eq!(root_input("   ").unwrap_err(), "请输入要扫描的目录。");
    assert!(check_root("C:\\", true, true).is_ok());
    assert_eq!(check_root("C:\\x", false, false).unwrap_err(), "路径不存在：C:\\x");
    assert_eq!(check_root("C:\\x.txt", true, false).unwrap_err(), "路径不是目录：C:\\x.txt");
}
