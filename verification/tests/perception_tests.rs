use cdrive_manager::engine::dynamic_perception::{
    adjustment_for_snapshot, snapshot_from_probes, AppInfo, DynamicSnapshot, ADJUSTMENT_MAX,
};
use cdrive_manager::engine::probes::{in_use_from_open, installed_app_for_path, installed_apps_from};
use cdrive_manager::engine::risk_assessment::DecisionSource;
use cdrive_manager::engine::risk_engine::RiskEngine;

fn app(name: &str, install_path: Option<&str>) -> AppInfo {
    AppInfo {
        name: name.to_owned(),
        version: "1.0".to_owned(),
        publisher: None,
        install_path: install_path.map(str::to_owned),
        uninstall_string: None,
    }
}

#[test]
fn snapshot_keeps_what_the_probes_reported() {
    let snapshot = snapshot_from_probes(
        Ok(true),
        Ok(vec!["HKLM\\Software\\Vendor".to_owned()]),
        Ok(Some(app("Vendor Tool", Some("C:\\Program Files\\Vendor")))),
        Err("denied".to_owned()),
        Ok(3),
    );
    assert_eq!(snapshot.is_in_use, Some(true));
    assert_eq!(snapshot.registry_referenced, Some(true));
    assert_eq!(snapshot.registry_keys, vec!["HKLM\\Software\\Vendor"]);
    assert_eq!(snapshot.belongs_to_installed_app, Some(true));
    assert_eq!(snapshot.app_info.as_ref().map(|a| a.name.as_str()), Some("Vendor Tool"));
    assert_eq!(snapshot.owner, None);
    assert_eq!(snapshot.hardlink_count, Some(3));
    assert_eq!(snapshot.is_hardlink, Some(true));
    assert_eq!(snapshot.service_dependency, None);
    assert_eq!(adjustment_for_snapshot(&snapshot), 15 + 25 + 10);

    let quiet = snapshot_from_probes(Err("x".to_owned()), Ok(vec![]), Err("y".to_owned()), Ok((None, None)), Ok(1));
    assert_eq!(quiet.is_in_use, None);
    assert_eq!(quiet.registry_referenced, Some(false));
    assert_eq!(quiet.belongs_to_installed_app, None);
    assert_eq!(quiet.is_hardlink, Some(false));
    assert_eq!(adjustment_for_snapshot(&quiet), 0);
}

#[test]
fn observations_adjust_the_static_score() {
    let engine = RiskEngine::new();
    let path = "C:\\Windows\\Temp\\foo.tmp";
    let plain = engine.analyze(path).unwrap();
    assert_eq!(plain.risk.decision_source, DecisionSource::StaticRule);
    assert!(plain.dynamic_snapshot.is_none());
    let in_use = snapshot_from_probes(Ok(true), Ok(vec![]), Ok(None), Ok((None, None)), Ok(1));
    let observed = engine.analyze_observed(path, Some(in_use)).unwrap();
    assert_eq!(observed.risk.dynamic_adjustment, 15);
    assert_eq!(observed.risk.final_score, (plain.risk.final_score + 15).min(100));
    assert_eq!(observed.risk.decision_source, DecisionSource::DynamicPerception);
    assert!(observed.dynamic_snapshot.is_some());
    let nothing = snapshot_from_probes(Ok(false), Ok(vec![]), Ok(None), Ok((None, None)), Ok(1));
    let unchanged = engine.analyze_observed(path, Some(nothing)).unwrap();
    assert_eq!(unchanged.risk.final_score, plain.risk.final_score);
    assert_eq!(unchanged.risk.decision_source, DecisionSource::StaticRule);
}

#[test]
fn open_failures_tell_whether_a_file_is_in_use() {
    assert_eq!(in_use_from_open(true, None, ""), Ok(false));
    assert_eq!(in_use_from_open(false, Some(32), "sharing violation"), Ok(true));
    assert_eq!(in_use_from_open(false, Some(5), "access denied"), Err("无法打开文件: access denied".to_owned()));
    assert_eq!(in_use_from_open(false, None, "gone"), Err("无法打开文件: gone".to_owned()));
}

#[test]
fn installed_apps_are_listed_once_by_name() {
    let entries = vec![
        app("Editor", Some("C:\\Apps\\Editor")),
        app("", None),
        app("Editor", Some("D:\\Other")),
        app("Viewer", None),
        app("", Some("C:\\Apps\\Nameless")),
    ];
    let apps = installed_apps_from(entries);
    let names: Vec<&str> = apps.iter().map(|a| a.name.as_str()).collect();
    assert_eq!(names, vec!["Editor", "Viewer", ""]);
    assert_eq!(apps[0].install_path.as_deref(), Some("C:\\Apps\\Editor"));
    let owner = installed_app_for_path(apps, "c:\\apps\\editor\\bin\\run.exe");
    assert_eq!(owner.map(|a| a.name), Some("Editor".to_owned()));
}

#[test]
fn adjustment_stays_within_its_range() {
    let mut snapshot = DynamicSnapshot::default();
    snapshot.is_in_use = Some(true);
    snapshot.registry_referenced = Some(true);
    snapshot.service_dependency = Some(true);
    snapshot.is_hardlink = Some(true);
    assert_eq!(adjustment_for_snapshot(&snapshot), ADJUSTMENT_MAX);
    assert_eq!(ADJUSTMENT_MAX, 50);
    snapshot.is_hardlink = Some(false);
    snapshot.is_in_use = Some(false);
    assert_eq!(adjustment_for_snapshot(&snapshot), 45);
}
