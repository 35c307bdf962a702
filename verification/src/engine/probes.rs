//! Runtime probes of the operating system (file locks, security, hard links, processes,
//! services, WMI, registry). Without the Windows API they observe nothing; where the caller
//! can observe something (a link count, whether a file opens, an uninstall entry), it hands
//! the observation in and these functions decide what it means.
use vstd::prelude::*;
use crate::engine::dynamic_perception::AppInfo;
use crate::text::{chars_eq, chars_of, push_all, push_lit, starts_with_chars, string_from_chars, to_lower, lower_seq, starts_with};

verus! {

/// Whether another process holds the file open: not observable here, so `false`.
pub fn is_file_in_use(path: &str) -> (r: Result<bool, String>)
    ensures
        r == Ok::<bool, String>(false),
{
    Ok(false)
}

/// Owner and security descriptor of a file: not observable here.
pub fn query_file_security(path: &str) -> (r: Result<(Option<String>, Option<String>), String>)
    ensures
        r matches Ok((o, s)) && o is None && s is None,
{
    Ok((None, None))
}

/// Number of hard links to a file, from the link count the file system reported for it;
/// where the system reports none, the file is taken to have its one name.
pub fn query_hardlink_count(path: &str, reported: Option<u32>) -> (r: Result<u32, String>)
    ensures
        r == Ok::<u32, String>(
            match reported {
                Some(n) => n,
                None => 1,
            },
        ),
{
    match reported {
        Some(n) => Ok(n),
        None => Ok(1),
    }
}

/// The name given to a locking process that the system does not identify.
pub open spec fn unknown_process() -> Seq<char> {
    "未知进程"@
}

/// Processes that lock a file, from whether the file was found in use: an in-use file is
/// locked by one process that is not identified, a free one by none, and a failed test is
/// reported as it came. Where nothing can be tested, no process is listed.
pub fn query_locking_processes(path: &str, in_use: Option<Result<bool, String>>) -> (r: Result<Vec<String>, String>)
    ensures
        in_use is None ==> (r matches Ok(v) && v@.len() == 0),
        in_use == Some(Ok::<bool, String>(false)) ==> (r matches Ok(v) && v@.len() == 0),
        in_use == Some(Ok::<bool, String>(true)) ==> (r matches Ok(v) && v@.len() == 1 && v@[0]@
            == unknown_process()),
        forall|e: String| in_use == Some(Err::<bool, String>(e)) ==> r == Err::<Vec<String>, String>(e),
{
    match in_use {
        None => Ok(Vec::new()),
        Some(Ok(true)) => {
            let mut v: Vec<String> = Vec::new();
            v.push(String::from_str("未知进程"));
            Ok(v)
        },
        Some(Ok(false)) => Ok(Vec::new()),
        Some(Err(e)) => Err(e),
    }
}

/// A running process.
#[derive(Debug, Clone)]
pub struct ProcessInfo {
    pub pid: u32,
    pub name: String,
    pub executable_path: String,
    pub memory_usage: u64,
}

/// The running processes: none listed.
pub fn query_processes() -> (r: Result<Vec<ProcessInfo>, String>)
    ensures
        r matches Ok(v) && v@.len() == 0,
{
    Ok(Vec::new())
}

/// Services that depend on a file: none listed.
pub fn query_service_dependencies(path: &str) -> (r: Result<Vec<String>, String>)
    ensures
        r matches Ok(v) && v@.len() == 0,
{
    Ok(Vec::new())
}

/// Installed applications according to WMI: none listed.
pub fn query_installed_apps_wmi() -> (r: Result<Vec<()>, String>)
    ensures
        r matches Ok(v) && v@.len() == 0,
{
    Ok(Vec::new())
}

/// System services according to WMI: none listed.
pub fn query_system_services() -> (r: Result<Vec<()>, String>)
    ensures
        r matches Ok(v) && v@.len() == 0,
{
    Ok(Vec::new())
}

/// Drivers according to WMI: none listed.
pub fn query_drivers() -> (r: Result<Vec<()>, String>)
    ensures
        r matches Ok(v) && v@.len() == 0,
{
    Ok(Vec::new())
}

/// Installed applications from the registry: none without the Windows registry.
pub fn enumerate_installed_apps() -> (r: Result<Vec<AppInfo>, String>)
    ensures
        r matches Ok(v) && v@.len() == 0,
{
    Ok(Vec::new())
}

/// Windows' code for a sharing violation.
pub const ERROR_SHARING_VIOLATION: i32 = 32;

/// Whether a file is in use, from an attempt to open it that allows every kind of sharing:
/// opened means not in use, a sharing violation means in use, and any other failure is
/// reported with its message.
pub fn in_use_from_open(opened: bool, os_error: Option<i32>, message: &str) -> (r: Result<bool, String>)
    ensures
        opened ==> r == Ok::<bool, String>(false),
        !opened && os_error == Some(ERROR_SHARING_VIOLATION) ==> r == Ok::<bool, String>(true),
        !opened && os_error != Some(ERROR_SHARING_VIOLATION) ==> (r matches Err(e) && e@ == "无法打开文件: "@ + message@),
{
    if opened {
        return Ok(false);
    }
    let code = match os_error {
        Some(c) => c,
        None => 0,
    };
    if code == ERROR_SHARING_VIOLATION {
        Ok(true)
    } else {
        let mut m: Vec<char> = Vec::new();
        push_lit(&mut m, "无法打开文件: ");
        let v = chars_of(message);
        push_all(&mut m, v.as_slice());
        Err(string_from_chars(m.as_slice()))
    }
}

/// An uninstall entry lists an application when it has an install path or a name.
pub open spec fn listed_app(a: AppInfo) -> bool {
    a.install_path is Some || a.name@.len() > 0
}

/// Whether an application of that name is among `apps`.
pub open spec fn has_app_named(apps: Seq<AppInfo>, name: Seq<char>) -> bool {
    exists|k: int| 0 <= k < apps.len() && (#[trigger] apps[k]).name@ == name
}

/// The applications that the uninstall entries list, in entry order, each name once (its
/// first entry).
pub open spec fn distinct_apps(entries: Seq<AppInfo>) -> Seq<AppInfo>
    decreases entries.len(),
{
    if entries.len() == 0 {
        entries
    } else {
        let before = distinct_apps(entries.drop_last());
        let a = entries.last();
        if listed_app(a) && !has_app_named(before, a.name@) {
            before.push(a)
        } else {
            before
        }
    }
}

/// Every listed application kept once: each comes from an entry that lists one, and no two
/// share a name.
pub proof fn lemma_distinct_apps(entries: Seq<AppInfo>)
    ensures
        forall|j: int|
            0 <= j < distinct_apps(entries).len() ==> entries.contains(
                #[trigger] distinct_apps(entries)[j],
            ) && listed_app(distinct_apps(entries)[j]),
        forall|i: int, j: int|
            0 <= i < j < distinct_apps(entries).len() ==> (#[trigger] distinct_apps(entries)[i]).name@
                != (#[trigger] distinct_apps(entries)[j]).name@,
    decreases entries.len(),
{
    if entries.len() > 0 {
        let rest = entries.drop_last();
        lemma_distinct_apps(rest);
        let before = distinct_apps(rest);
        let a = entries.last();
        assert forall|j: int| 0 <= j < before.len() implies entries.contains(#[trigger] before[j]) by {
            let k = choose|k: int| 0 <= k < rest.len() && rest[k] == before[j];
            assert(entries[k] == rest[k]);
        }
        assert(entries[entries.len() - 1] == a);
        if listed_app(a) && !has_app_named(before, a.name@) {
            let d = before.push(a);
            assert forall|i: int, j: int| 0 <= i < j < d.len() implies (#[trigger] d[i]).name@ != (
            #[trigger] d[j]).name@ by {
                if j == before.len() {
                    assert(before[i] == d[i]);
                } else {
                    assert(before[i] == d[i] && before[j] == d[j]);
                }
            }
        }
    }
}

/// The application that an uninstall entry describes. It needs a display name that is not
/// empty; a missing version reads as the empty text.
pub fn app_from_entry(
    display_name: Option<String>,
    display_version: Option<String>,
    publisher: Option<String>,
    install_location: Option<String>,
    uninstall_string: Option<String>,
) -> (r: Option<AppInfo>)
    ensures
        r is None <==> (display_name is None || display_name->0@.len() == 0),
        r matches Some(a) ==> {
            &&& a.name@ == display_name->0@
            &&& a.version@ == (match display_version {
                Some(v) => v@,
                None => Seq::<char>::empty(),
            })
            &&& a.publisher == publisher
            &&& a.install_path == install_location
            &&& a.uninstall_string == uninstall_string
        },
{
    let name = match display_name {
        Some(n) => n,
        None => {
            return None;
        },
    };
    if name.as_str().is_empty() {
        return None;
    }
    let version = match display_version {
        Some(v) => v,
        None => String::new(),
    };
    Some(
        AppInfo {
            name,
            version,
            publisher,
            install_path: install_location,
            uninstall_string,
        },
    )
}

/// The installed applications read from the uninstall entries: those with an install path
/// or a name, each name kept once.
pub fn installed_apps_from(entries: Vec<AppInfo>) -> (r: Vec<AppInfo>)
    ensures
        r@ == distinct_apps(entries@),
        forall|j: int| 0 <= j < r@.len() ==> entries@.contains(#[trigger] r@[j]),
        forall|i: int, j: int| 0 <= i < j < r@.len() ==> (#[trigger] r@[i]).name@ != (#[trigger] r@[j]).name@,
{
    let mut r: Vec<AppInfo> = Vec::new();
    let mut i: usize = 0;
    while i < entries.len()
        invariant
            i <= entries@.len(),
            r@ == distinct_apps(entries@.take(i as int)),
        decreases entries.len() - i,
    {
        let a = &entries[i];
        assert(entries@.take(i as int + 1).drop_last() =~= entries@.take(i as int));
        let listed = a.install_path.is_some() || !a.name.as_str().is_empty();
        if listed {
            let name = chars_of(a.name.as_str());
            let mut seen = false;
            let mut k: usize = 0;
            while k < r.len()
                invariant
                    k <= r@.len(),
                    name@ == a.name@,
                    seen == exists|j: int| 0 <= j < k && (#[trigger] r@[j]).name@ == a.name@,
                decreases r.len() - k,
            {
                let other = chars_of(r[k].name.as_str());
                if chars_eq(other.as_slice(), name.as_slice()) {
                    seen = true;
                }
                k = k + 1;
            }
            if !seen {
                r.push(a.clone_app());
            }
        }
        i = i + 1;
    }
    assert(entries@.take(entries@.len() as int) =~= entries@);
    proof {
        lemma_distinct_apps(entries@);
    }
    r
}

/// Registry keys that reference a path: none listed.
pub fn query_path_in_registry(path: &str) -> (r: Result<Vec<String>, String>)
    ensures
        r matches Ok(v) && v@.len() == 0,
{
    Ok(Vec::new())
}

/// The application whose install path is a prefix of the path (compared in ASCII lowercase).
pub open spec fn installs(app: AppInfo, path: Seq<char>) -> bool {
    app.install_path matches Some(ip) && starts_with(lower_seq(path), lower_seq(ip@))
}

/// The first application among `apps` whose install path contains `path`.
pub fn installed_app_for_path(apps: Vec<AppInfo>, path: &str) -> (r: Option<AppInfo>)
    ensures
        r matches Some(app) ==> exists|i: int|
            0 <= i < apps@.len() && apps@[i] == app && installs(app, path@) && forall|j: int|
                0 <= j < i ==> !installs(#[trigger] apps@[j], path@),
        r is None ==> forall|j: int| 0 <= j < apps@.len() ==> !installs(#[trigger] apps@[j], path@),
{
    let p = chars_of(path);
    let low = to_lower(p.as_slice());
    let mut i: usize = 0;
    while i < apps.len()
        invariant
            i <= apps@.len(),
            low@ == lower_seq(path@),
            forall|j: int| 0 <= j < i ==> !installs(#[trigger] apps@[j], path@),
        decreases apps.len() - i,
    {
        match &apps[i].install_path {
            Some(ip) => {
                let ipc = chars_of(ip.as_str());
                let ipl = to_lower(ipc.as_slice());
                if starts_with_chars(low.as_slice(), ipl.as_slice()) {
                    let app = apps[i].clone_app();
                    return Some(app);
                }
            },
            None => {},
        }
        i = i + 1;
    }
    None
}

/// The application that a path belongs to, among the installed applications.
pub fn query_installed_app_for_path(path: &str) -> (r: Result<Option<AppInfo>, String>)
    ensures
        r matches Ok(a) && a is None,
{
    let apps = match enumerate_installed_apps() {
        Ok(apps) => apps,
        Err(e) => return Err(e),
    };
    Ok(installed_app_for_path(apps, path))
}

impl AppInfo {
    /// A copy of the application record.
    pub fn clone_app(&self) -> (r: AppInfo)
        ensures
            r == *self,
    {
        AppInfo {
            name: self.name.clone(),
            version: self.version.clone(),
            publisher: clone_opt_string(&self.publisher),
            install_path: clone_opt_string(&self.install_path),
            uninstall_string: clone_opt_string(&self.uninstall_string),
        }
    }
}

/// A copy of an optional text.
pub fn clone_opt_string(s: &Option<String>) -> (r: Option<String>)
    ensures
        r == *s,
{
    match s {
        Some(t) => Some(t.clone()),
        None => None,
    }
}

} // verus!
