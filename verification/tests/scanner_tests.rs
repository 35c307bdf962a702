use cdrive_manager::model::{normalize_extension_filter, ScanFilterConfig};
use cdrive_manager::scanner::{scan_thread_count, ScanFilterMatcher, ScanMode, ScanOptions};

#[test]
fn scan_filter_matcher_excludes_extensions_by_label() {
    let matcher = ScanFilterMatcher::new(
        "C:\\root".to_owned(),
        ScanFilterConfig {
            excluded_directories: Vec::new(),
            excluded_extensions: vec![normalize_extension_filter("tmp").unwrap()],
            same_file_system: false,
        },
    );

    assert!(matcher.excludes_file("C:\\root\\a.TMP"));
    assert!(!matcher.excludes_file("C:\\root\\a.log"));
}

#[test]
fn scan_filter_matcher_excludes_directory_names_case_insensitively() {
    let matcher = ScanFilterMatcher::new(
        "C:\\root".to_owned(),
        ScanFilterConfig {
            excluded_directories: vec!["node_modules".to_owned()],
            excluded_extensions: Vec::new(),
            same_file_system: false,
        },
    );

    assert!(matcher.excludes_directory("C:\\root\\Node_Modules"));
    assert!(!matcher.excludes_directory("C:\\root\\src"));
}

#[test]
fn matcher_trims_and_drops_blank_names() {
    let matcher = ScanFilterMatcher::new(
        "C:\\root".to_owned(),
        ScanFilterConfig {
            excluded_directories: vec!["  Target ".to_owned(), "   ".to_owned()],
            excluded_extensions: Vec::new(),
            same_file_system: false,
        },
    );
    assert_eq!(matcher.excluded_directories, vec!["target".to_owned()]);
    assert!(matcher.excludes_directory("C:\\root\\TARGET"));
    assert!(!matcher.should_descend("C:\\root\\target", true, false));
    assert!(matcher.should_descend("C:\\root\\target", false, false));
    assert!(matcher.should_descend("C:\\root", true, false));
    assert!(!matcher.should_descend("C:\\root\\src", true, true));
    assert!(matcher.should_descend("C:\\root\\src", true, false));
}

#[test]
fn thread_count_defaults() {
    assert_eq!(scan_thread_count(Some(3), 16), 3);
    assert_eq!(scan_thread_count(None, 1), 1);
    assert_eq!(scan_thread_count(None, 4), 3);
    assert_eq!(scan_thread_count(None, 8), 6);
    assert_eq!(scan_thread_count(None, 2), 1);
}

#[test]
fn option_builders() {
    let options = ScanOptions::new("C:\\".to_owned(), ScanFilterConfig::default())
        .with_mode(ScanMode::FullScan)
        .with_threads(5)
        .with_drive_letter('D');
    assert!(options.mode == ScanMode::FullScan);
    assert_eq!(options.num_threads, Some(5));
    assert_eq!(options.drive_letter, Some('D'));
    assert!(ScanOptions::new("C:\\".to_owned(), ScanFilterConfig::default()).mode == ScanMode::ParallelFullScan);
}
