use cdrive_manager::model::{
    file_extension_label, normalize_extension_filter, path_label, DirectoryRecord, DirectoryTree, FileRecord,
    ScanAccumulator, ScanFilterConfig, ScanStats, APP_VERSION, SCAN_STATS_SCHEMA_VERSION,
};

fn file(path: &str, size: u64) -> FileRecord {
    FileRecord { path: path.to_owned(), size, modified: None, extension: file_extension_label(path) }
}

#[test]
fn directory_tree_preserves_direct_file_sizes() {
    let root = "C:\\test-root";
    let child = "C:\\test-root\\child";
    let grandchild = "C:\\test-root\\child\\grandchild";
    let mut accumulator = ScanAccumulator::new(root.to_owned());
    accumulator.record_directory(child.to_owned());
    accumulator.record_directory(grandchild.to_owned());
    accumulator.record_file(FileRecord {
        path: format!("{root}\\root.bin"),
        size: 10,
        modified: None,
        extension: ".bin".to_owned(),
    });
    accumulator.record_file(FileRecord {
        path: format!("{child}\\child.bin"),
        size: 20,
        modified: None,
        extension: ".bin".to_owned(),
    });
    accumulator.record_file(FileRecord {
        path: format!("{grandchild}\\grandchild.bin"),
        size: 30,
        modified: None,
        extension: ".bin".to_owned(),
    });

    let stats = accumulator.final_snapshot();
    let tree = stats.directory_tree.as_ref().unwrap();
    assert_directory_size_invariant(tree, tree.root_index);

    let root_node = &tree.nodes[tree.node_index_for_path(root).unwrap()];
    assert_eq!(root_node.record.direct_file_size, 10);
    assert_eq!(root_node.record.total_size, 60);

    let child_node = &tree.nodes[tree.node_index_for_path(child).unwrap()];
    assert_eq!(child_node.record.direct_file_size, 20);
    assert_eq!(child_node.record.total_size, 50);

    let grandchild_node = &tree.nodes[tree.node_index_for_path(grandchild).unwrap()];
    assert_eq!(grandchild_node.record.direct_file_size, 30);
    assert_eq!(grandchild_node.record.total_size, 30);
}

#[test]
fn scan_stats_prepare_for_save_sets_cache_metadata() {
    let mut stats = ScanStats::default();
    stats.schema_version = 0;
    stats.app_version = None;

    stats.prepare_for_save();

    assert_eq!(stats.schema_version, SCAN_STATS_SCHEMA_VERSION);
    assert!(stats.saved_at_unix_secs.is_some());
    assert_eq!(stats.app_version.as_deref(), Some(APP_VERSION));
}

#[test]
fn final_snapshot_retains_all_files_but_progress_snapshot_does_not() {
    let root = "C:\\many-files";
    let mut accumulator = ScanAccumulator::new(root.to_owned());
    for index in 0..300 {
        accumulator.record_file(FileRecord {
            path: format!("{root}\\file-{index:03}.bin"),
            size: index,
            modified: None,
            extension: ".bin".to_owned(),
        });
    }

    let progress = accumulator.progress_snapshot();
    assert!(progress.all_files.is_empty());
    assert_eq!(progress.largest_files.len(), 250);

    let final_stats = accumulator.final_snapshot();
    assert_eq!(final_stats.all_files.len(), 300);
    assert_eq!(final_stats.largest_files.len(), 250);
    assert!(final_stats.all_files.iter().any(|file| file.path.ends_with("file-000.bin")));
}

#[test]
fn filter_config_round_trips_in_snapshots() {
    let root = "C:\\filtered-root".to_owned();
    let filter_config = ScanFilterConfig {
        excluded_directories: vec!["target".to_owned()],
        excluded_extensions: vec![".tmp".to_owned()],
        same_file_system: true,
    };
    let mut accumulator = ScanAccumulator::new_with_filter_config(root, filter_config.clone());

    let stats = accumulator.final_snapshot();

    assert_eq!(stats.filter_config, filter_config);
}

#[test]
fn extension_filter_normalization_matches_file_labels() {
    assert_eq!(normalize_extension_filter("tmp").as_deref(), Some(".tmp"));
    assert_eq!(normalize_extension_filter(".LOG").as_deref(), Some(".log"));
    assert_eq!(normalize_extension_filter("[无扩展名]").as_deref(), Some("[无扩展名]"));
    assert_eq!(normalize_extension_filter("  "), None);
}

fn assert_directory_size_invariant(tree: &DirectoryTree, index: usize) -> u64 {
    let node = &tree.nodes[index];
    let child_total: u64 = node
        .children
        .iter()
        .map(|child| assert_directory_size_invariant(tree, *child))
        .sum();
    assert_eq!(
        node.record.total_size,
        node.record.direct_file_size + child_total,
        "size invariant failed for {}",
        node.record.path
    );
    node.record.total_size
}

#[test]
fn extension_filter_edge_cases() {
    assert_eq!(normalize_extension_filter("无扩展名").as_deref(), Some("[无扩展名]"));
    assert_eq!(normalize_extension_filter(" ..TxT ").as_deref(), Some(".txt"));
    assert_eq!(normalize_extension_filter("..."), None);
}

#[test]
fn labels_of_paths() {
    assert_eq!(file_extension_label("C:\\root\\a.TMP"), ".tmp");
    assert_eq!(file_extension_label("C:\\root\\archive.tar.GZ"), ".gz");
    assert_eq!(file_extension_label("C:\\root\\README"), "[无扩展名]");
    assert_eq!(file_extension_label("C:\\root\\.bashrc"), "[无扩展名]");
    assert_eq!(path_label("C:\\root\\child"), "child");
    assert_eq!(path_label("C:\\"), "C:\\");
    let record = DirectoryRecord {
        path: "D:\\data\\photos".to_owned(),
        total_size: 0,
        direct_file_count: 0,
        direct_file_size: 0,
        descendant_file_count: 0,
    };
    assert_eq!(record.name(), "photos");
}

#[test]
fn filter_activity() {
    assert!(!ScanFilterConfig::default().is_active());
    let mut config = ScanFilterConfig::default();
    config.same_file_system = true;
    assert!(config.is_active());
    let config = ScanFilterConfig { excluded_directories: vec!["x".to_owned()], ..ScanFilterConfig::default() };
    assert!(config.is_active());
}

#[test]
fn totals_count_every_ancestor_under_the_root() {
    let mut acc = ScanAccumulator::new("C:\\r".to_owned());
    acc.record_file(file("C:\\r\\a\\b\\c\\x.log", 7));
    acc.record_file(file("C:\\r\\a\\y.LOG", 5));
    acc.record_file_count();
    acc.record_error("denied".to_owned());
    assert_eq!(acc.get_file_count(), 3);
    assert_eq!(acc.get_dir_count(), 4);
    let stats = acc.final_snapshot();
    assert_eq!(stats.total_size, 12);
    assert_eq!(stats.error_count, 1);
    assert_eq!(stats.errors, vec!["denied".to_owned()]);
    let tree = stats.directory_tree.as_ref().unwrap();
    assert_directory_size_invariant(tree, tree.root_index);
    let a = &tree.nodes[tree.node_index_for_path("C:\\r\\a").unwrap()];
    assert_eq!(a.record.total_size, 12);
    assert_eq!(a.record.direct_file_size, 5);
    assert_eq!(a.record.descendant_file_count, 2);
    assert_eq!(a.record.direct_file_count, 1);
    // directories above the root get nothing
    assert!(tree.node_index_for_path("C:\\").is_none());
    assert_eq!(stats.extensions.len(), 1);
    assert_eq!(stats.extensions[0].extension, ".log");
    assert_eq!(stats.extensions[0].total_size, 12);
    assert_eq!(stats.extensions[0].file_count, 2);
    assert_eq!(stats.top_level_dirs.len(), 1);
    assert_eq!(stats.top_level_dirs[0].path, "C:\\r\\a");
    // nodes are in path order, children larger first
    let paths: Vec<&str> = tree.nodes.iter().map(|n| n.record.path.as_str()).collect();
    assert_eq!(paths, vec!["C:\\r", "C:\\r\\a", "C:\\r\\a\\b", "C:\\r\\a\\b\\c"]);
    assert_eq!(tree.nodes[1].parent, Some(0));
    assert_eq!(tree.nodes[0].parent, None);
}

#[test]
fn top_level_directories_are_sorted_and_cached() {
    let mut acc = ScanAccumulator::new("C:\\r".to_owned());
    acc.record_file(file("C:\\r\\small\\x", 1));
    acc.record_file(file("C:\\r\\big\\x", 9));
    acc.record_file(file("C:\\r\\b2\\x", 9));
    let top = acc.get_top_level_dirs();
    let names: Vec<&str> = top.iter().map(|d| d.path.as_str()).collect();
    assert_eq!(names, vec!["C:\\r\\b2", "C:\\r\\big", "C:\\r\\small"]);
    let again = acc.get_top_level_dirs();
    assert_eq!(again.len(), 3);
    acc.record_file(file("C:\\r\\huge\\x", 100));
    let top = acc.get_top_level_dirs();
    assert_eq!(top[0].path, "C:\\r\\huge");
    let children = acc.get_children_of("C:\\r");
    assert_eq!(children.len(), 4);
    assert!(acc.get_children_of("C:\\r\\big").is_empty());
}

#[test]
fn largest_files_are_kept_largest_first() {
    let mut acc = ScanAccumulator::new("C:\\r".to_owned());
    for i in 0..260u64 {
        acc.record_file(file(&format!("C:\\r\\f{i}"), i % 7));
    }
    let stats = acc.progress_snapshot();
    assert_eq!(stats.largest_files.len(), 250);
    assert!(stats.largest_files.windows(2).all(|w| w[0].size >= w[1].size));
    assert_eq!(stats.largest_files[0].size, 6);
    assert!(stats.directory_tree.is_none());
    assert!(stats.largest_dirs.is_empty());
}

#[test]
fn schema_version_zero_is_read_as_one() {
    let mut stats = ScanStats::default();
    stats.schema_version = 0;
    stats.normalize_cache_metadata_after_load();
    assert_eq!(stats.schema_version, 1);
    stats.schema_version = 3;
    stats.normalize_cache_metadata_after_load();
    assert_eq!(stats.schema_version, 3);
    stats.prepare_for_save_at(Some(1234));
    assert_eq!(stats.saved_at_unix_secs, Some(1234));
    assert_eq!(stats.schema_version, SCAN_STATS_SCHEMA_VERSION);
}

#[test]
fn rebuilt_path_index_finds_every_node() {
    let mut acc = ScanAccumulator::new("C:\\r".to_owned());
    acc.record_file(file("C:\\r\\a\\x", 1));
    let mut stats = acc.final_snapshot();
    stats.rebuild_indexes();
    let tree = stats.directory_tree.as_ref().unwrap();
    assert_eq!(tree.node_index_for_path("C:\\r\\a"), Some(1));
}

#[test]
fn files_are_listed_component_by_component() {
    let mut acc = ScanAccumulator::new("C:\\r".to_owned());
    acc.record_directory("C:\\r\\a".to_owned());
    acc.record_file(file("C:\\r\\a-b.bin", 1));
    acc.record_file(file("C:\\r\\a\\z.bin", 1));
    let stats = acc.final_snapshot();
    let paths: Vec<&str> = stats.all_files.iter().map(|f| f.path.as_str()).collect();
    assert_eq!(paths, vec!["C:\\r\\a\\z.bin", "C:\\r\\a-b.bin"]);
    let largest: Vec<&str> = stats.largest_files.iter().map(|f| f.path.as_str()).collect();
    assert_eq!(largest, vec!["C:\\r\\a\\z.bin", "C:\\r\\a-b.bin"]);
}
