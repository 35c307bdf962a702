use cdrive_manager::model::{FileRecord, ScanAccumulator};
use cdrive_manager::treemap::{
    scanning_treemap_items, treemap_items_for_node, treemap_items_with_other, treemap_parent_dir, TreemapItem,
    TreemapItemKind, TREEMAP_DISPLAY_LIMIT,
};

#[test]
fn treemap_items_with_other_aggregates_hidden_items() {
    let dir = "C:\\root".to_owned();
    let mut items = Vec::new();
    for index in 0..5 {
        items.push(TreemapItem::directory(
            format!("dir{}", index),
            format!("{}\\dir{}", dir, index),
            10 - index as u64,
        ));
    }

    let aggregated = treemap_items_with_other(items, dir, 3);
    assert_eq!(aggregated.len(), 3);
    assert_eq!(aggregated[0].label, "dir0");
    assert_eq!(aggregated[1].label, "dir1");
    assert_eq!(aggregated[2].size, 8 + 7 + 6);
    assert!(matches!(aggregated[2].kind, TreemapItemKind::Other { item_count: 3, .. }));
}

#[test]
fn treemap_items_fit_or_hidden_items_are_empty() {
    let items = vec![
        TreemapItem::directory("a".to_owned(), "C:\\a".to_owned(), 5),
        TreemapItem::directory("b".to_owned(), "C:\\b".to_owned(), 0),
        TreemapItem::directory("c".to_owned(), "C:\\c".to_owned(), 0),
    ];
    let same = treemap_items_with_other(items.clone(), "C:\\".to_owned(), 3);
    assert_eq!(same.len(), 3);
    let folded = treemap_items_with_other(items.clone(), "C:\\".to_owned(), 2);
    assert_eq!(folded.len(), 1);
    assert_eq!(folded[0].label, "a");
    let unlimited = treemap_items_with_other(items, "C:\\".to_owned(), 1);
    assert_eq!(unlimited.len(), 3);
}

#[test]
fn treemap_items_for_node_sorts_children_and_direct_files() {
    let root = "C:\\t";
    let mut accumulator = ScanAccumulator::new(root.to_owned());
    accumulator.record_directory("C:\\t\\small".to_owned());
    accumulator.record_directory("C:\\t\\big".to_owned());
    for (path, size) in [("C:\\t\\small\\x.bin", 3u64), ("C:\\t\\big\\y.bin", 9), ("C:\\t\\z.bin", 5)] {
        accumulator.record_file(FileRecord {
            path: path.to_owned(),
            size,
            modified: None,
            extension: ".bin".to_owned(),
        });
    }
    let stats = accumulator.final_snapshot();
    let tree = stats.directory_tree.as_ref().unwrap();
    let index = tree.node_index_for_path(root).unwrap();
    let items = treemap_items_for_node(tree, index);
    let labels: Vec<&str> = items.iter().map(|item| item.label.as_str()).collect();
    assert_eq!(labels, vec!["big", "[当前目录文件]", "small"]);
    assert_eq!(items[1].size, 5);
    assert!(matches!(items[1].kind, TreemapItemKind::DirectFiles { file_count: 1 }));
    assert_eq!(items[0].path, "C:\\t\\big");
}

#[test]
fn treemap_parent_stays_inside_root() {
    assert_eq!(treemap_parent_dir("C:\\root", "C:\\root\\a\\b"), "C:\\root\\a");
    assert_eq!(treemap_parent_dir("C:\\root", "C:\\root\\a"), "C:\\root");
    assert_eq!(treemap_parent_dir("C:\\root", "C:\\root\\"), "C:\\root");
    assert_eq!(treemap_parent_dir("C:\\root", "D:\\x\\y"), "C:\\root");
}

#[test]
fn scanning_treemap_shows_top_level_dirs() {
    let mut acc = ScanAccumulator::new("C:\\r".to_owned());
    acc.record_directory("C:\\r\\empty".to_owned());
    let quiet = acc.progress_snapshot();
    assert!(scanning_treemap_items(&quiet).is_empty());
    acc.record_file(FileRecord {
        path: "C:\\r\\a\\f.bin".to_owned(),
        size: 5,
        modified: None,
        extension: ".bin".to_owned(),
    });
    let stats = acc.progress_snapshot();
    let items = scanning_treemap_items(&stats);
    let labels: Vec<(&str, u64)> = items.iter().map(|i| (i.label.as_str(), i.size)).collect();
    assert_eq!(labels, vec![("a", 5), ("empty", 0)]);
    assert_eq!(TREEMAP_DISPLAY_LIMIT, 36);
}
