use cdrive_manager::engine::classification::{FileCategory, FileImportance};
use cdrive_manager::engine::static_rules::{RuleMatcher, StaticRule};
use cdrive_manager::model::{canonical_string, file_extension_label, path_label, FileRecord, ScanAccumulator};

fn file(path: &str, size: u64) -> FileRecord {
    FileRecord { path: path.to_owned(), size, modified: None, extension: file_extension_label(path) }
}

#[test]
fn spellings_of_one_directory_are_one_record() {
    let mut acc = ScanAccumulator::new("C:\\a".to_owned());
    acc.record_directory("C:\\a\\b".to_owned());
    acc.record_directory("C:\\a/b".to_owned());
    acc.record_directory("C:\\a\\b\\".to_owned());
    acc.record_directory("C:\\a\\.\\b".to_owned());
    assert_eq!(acc.get_dir_count(), 2);
    acc.record_file(file("C:/a/b/f.txt", 5));
    assert_eq!(acc.get_dir_count(), 2);
    let children = acc.get_children_of("C:/a/");
    assert_eq!(children.len(), 1);
    assert_eq!(children[0].path, "C:\\a\\b");
    assert_eq!(children[0].total_size, 5);
    let top: Vec<String> = acc.get_top_level_dirs().iter().map(|d| d.path.clone()).collect();
    let again: Vec<String> = acc.get_children_of("C:\\a").iter().map(|d| d.path.clone()).collect();
    assert_eq!(top, again);
}

#[test]
fn tree_index_finds_any_spelling() {
    let mut acc = ScanAccumulator::new("C:\\r".to_owned());
    acc.record_file(file("C:\\r\\x\\f.bin", 3));
    let stats = acc.final_snapshot();
    let tree = stats.directory_tree.expect("tree");
    let a = tree.node_index_for_path("C:\\r\\x");
    assert!(a.is_some());
    assert_eq!(tree.node_index_for_path("C:/r/x/"), a);
    assert_eq!(tree.node_index_for_path("C:\\r\\.\\x"), a);
}

#[test]
fn canonical_spelling_follows_components() {
    assert_eq!(canonical_string("C:\\a/b\\\\c\\"), "C:\\a\\b\\c");
    assert_eq!(canonical_string("C:\\"), "C:\\");
    assert_eq!(canonical_string("C:/"), "C:\\");
    assert_eq!(canonical_string("C:name"), "C:name");
    assert_eq!(canonical_string("a\\.\\b\\."), "a\\b");
    assert_eq!(canonical_string(".\\a"), ".\\a");
    assert_eq!(canonical_string("\\\\server\\share\\x"), "\\\\server\\share\\x");
}

#[test]
fn trailing_dot_is_not_a_component() {
    assert_eq!(path_label("a/."), "a");
    assert_eq!(path_label("C:\\dir\\file.txt\\."), "file.txt");
    assert_eq!(path_label("C:name"), "name");
    assert_eq!(file_extension_label("C:\\d\\x.log\\."), ".log");
}

#[test]
fn component_rules_give_their_reason() {
    let rule = StaticRule {
        id: "t",
        category: FileCategory::Other,
        importance: FileImportance::Optional,
        matcher: RuleMatcher::Component(vec!["cache", "temp"]),
        owner_hint: "o",
    };
    assert_eq!(rule.matches("C:\\A\\Temp\\Cache\\x"), Some("路径组件命中: temp".to_string()));
    assert_eq!(rule.matches("C:\\A\\x"), None);
    let rule = StaticRule {
        id: "t",
        category: FileCategory::Other,
        importance: FileImportance::Optional,
        matcher: RuleMatcher::ExtensionInContext { extensions: vec![".log"], components: vec!["logs"] },
        owner_hint: "o",
    };
    assert_eq!(rule.matches("C:\\App\\Logs\\a.LOG"), Some("扩展名 .log + 组件 logs 命中".to_string()));
}
