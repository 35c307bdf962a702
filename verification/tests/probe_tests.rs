use cdrive_manager::engine::dynamic_perception::AppInfo;
use cdrive_manager::engine::probes::{app_from_entry, installed_apps_from, query_hardlink_count, query_locking_processes};

#[test]
fn hardlink_count_is_the_reported_count() {
    assert_eq!(query_hardlink_count("C:\\a.txt", Some(3)), Ok(3));
    assert_eq!(query_hardlink_count("C:\\a.txt", Some(1)), Ok(1));
    assert_eq!(query_hardlink_count("C:\\a.txt", None), Ok(1));
}

#[test]
fn locking_processes_follow_the_in_use_test() {
    assert_eq!(query_locking_processes("C:\\a.txt", Some(Ok(true))), Ok(vec!["未知进程".to_string()]));
    assert_eq!(query_locking_processes("C:\\a.txt", Some(Ok(false))), Ok(Vec::<String>::new()));
    assert_eq!(query_locking_processes("C:\\a.txt", None), Ok(Vec::<String>::new()));
    assert_eq!(
        query_locking_processes("C:\\a.txt", Some(Err("无法打开文件: x".to_string()))),
        Err("无法打开文件: x".to_string())
    );
}

#[test]
fn uninstall_entries_need_a_name() {
    assert!(app_from_entry(None, None, None, Some("C:\\App".to_string()), None).is_none());
    assert!(app_from_entry(Some(String::new()), None, None, Some("C:\\App".to_string()), None).is_none());
    let a = app_from_entry(
        Some("Tool".to_string()),
        None,
        Some("Vendor".to_string()),
        Some("C:\\Tool".to_string()),
        Some("uninstall.exe".to_string()),
    )
    .unwrap();
    assert_eq!(a.name, "Tool");
    assert_eq!(a.version, "");
    assert_eq!(a.publisher.as_deref(), Some("Vendor"));
    assert_eq!(a.install_path.as_deref(), Some("C:\\Tool"));
    assert_eq!(a.uninstall_string.as_deref(), Some("uninstall.exe"));
}

#[test]
fn installed_apps_from_named_entries_have_distinct_names() {
    let entry = |n: &str, v: &str| app_from_entry(Some(n.to_string()), Some(v.to_string()), None, None, None).unwrap();
    let entries: Vec<AppInfo> = vec![entry("A", "1"), entry("B", "1"), entry("A", "2")];
    let apps = installed_apps_from(entries);
    assert_eq!(apps.len(), 2);
    assert_eq!(apps[0].name, "A");
    assert_eq!(apps[0].version, "1");
    assert_eq!(apps[1].name, "B");
}
