//! Dynamic perception: the runtime state of a file (in use, referenced by the registry,
//! needed by a service, hard-linked) and the score adjustment it implies.
use vstd::prelude::*;
use crate::engine::risk_assessment::{
    ADJ_FILE_IN_USE, ADJ_HARDLINK, ADJ_REGISTRY_CRITICAL, ADJ_SERVICE_DEPENDENCY,
};

verus! {

/// What was observed about a file at runtime; `None` means not observed.
#[derive(Debug, Clone)]
pub struct DynamicSnapshot {
    pub is_in_use: Option<bool>,
    pub locking_processes: Vec<String>,
    pub registry_referenced: Option<bool>,
    pub registry_keys: Vec<String>,
    pub service_dependency: Option<bool>,
    pub dependent_services: Vec<String>,
    pub belongs_to_installed_app: Option<bool>,
    pub app_info: Option<AppInfo>,
    pub owner: Option<String>,
    pub security_descriptor: Option<String>,
    pub hardlink_count: Option<u32>,
    pub is_hardlink: Option<bool>,
}

/// An installed application.
#[derive(Debug, Clone)]
pub struct AppInfo {
    pub name: String,
    pub version: String,
    pub publisher: Option<String>,
    pub install_path: Option<String>,
    pub uninstall_string: Option<String>,
}

impl DynamicSnapshot {
    /// Nothing observed.
    pub open spec fn is_empty(self) -> bool {
        &&& self.is_in_use is None
        &&& self.locking_processes@.len() == 0
        &&& self.registry_referenced is None
        &&& self.registry_keys@.len() == 0
        &&& self.service_dependency is None
        &&& self.dependent_services@.len() == 0
        &&& self.belongs_to_installed_app is None
        &&& self.app_info is None
        &&& self.owner is None
        &&& self.security_descriptor is None
        &&& self.hardlink_count is None
        &&& self.is_hardlink is None
    }

    /// The sum of the adjustments for what was observed.
    pub open spec fn spec_adjustment_sum(self) -> int {
        (if self.is_in_use == Some(true) { ADJ_FILE_IN_USE as int } else { 0 }) + (
        if self.registry_referenced == Some(true) { ADJ_REGISTRY_CRITICAL as int } else { 0 })
            + (if self.service_dependency == Some(true) { ADJ_SERVICE_DEPENDENCY as int } else { 0 })
            + (if self.is_hardlink == Some(true) { ADJ_HARDLINK as int } else { 0 })
    }

    /// The score adjustment implied by the observations, kept within its range.
    pub open spec fn spec_adjustment(self) -> int {
        let sum = self.spec_adjustment_sum();
        if sum > ADJUSTMENT_MAX as int {
            ADJUSTMENT_MAX as int
        } else if sum < ADJUSTMENT_MIN as int {
            ADJUSTMENT_MIN as int
        } else {
            sum
        }
    }
}

/// The largest dynamic adjustment of a score.
pub const ADJUSTMENT_MAX: i8 = 50;

/// The smallest dynamic adjustment of a score.
pub const ADJUSTMENT_MIN: i8 = -30;

impl Default for DynamicSnapshot {
    fn default() -> (r: Self)
        ensures
            r.is_empty(),
    {
        DynamicSnapshot {
            is_in_use: None,
            locking_processes: Vec::new(),
            registry_referenced: None,
            registry_keys: Vec::new(),
            service_dependency: None,
            dependent_services: Vec::new(),
            belongs_to_installed_app: None,
            app_info: None,
            owner: None,
            security_descriptor: None,
            hardlink_count: None,
            is_hardlink: None,
        }
    }
}

/// The adjustment for a snapshot: +15 in use, +25 referenced by the registry,
/// +20 needed by a service, +10 hard-linked, kept within `ADJUSTMENT_MIN..=ADJUSTMENT_MAX`.
pub fn adjustment_for_snapshot(snapshot: &DynamicSnapshot) -> (r: i8)
    ensures
        r as int == snapshot.spec_adjustment(),
        ADJUSTMENT_MIN <= r <= ADJUSTMENT_MAX,
{
    let mut adjustment: i8 = 0;
    if snapshot.is_in_use == Some(true) {
        adjustment = adjustment + ADJ_FILE_IN_USE;
    }
    if snapshot.registry_referenced == Some(true) {
        adjustment = adjustment + ADJ_REGISTRY_CRITICAL;
    }
    if snapshot.service_dependency == Some(true) {
        adjustment = adjustment + ADJ_SERVICE_DEPENDENCY;
    }
    if snapshot.is_hardlink == Some(true) {
        adjustment = adjustment + ADJ_HARDLINK;
    }
    if adjustment > ADJUSTMENT_MAX {
        ADJUSTMENT_MAX
    } else if adjustment < ADJUSTMENT_MIN {
        ADJUSTMENT_MIN
    } else {
        adjustment
    }
}

/// The snapshot built from what the probes reported: whether the file is in use, the
/// registry keys that reference it, the installed application it belongs to, its owner and
/// security descriptor, and its number of hard links. A probe that failed leaves its
/// fields unobserved; processes and services are not probed.
pub fn snapshot_from_probes(
    in_use: Result<bool, String>,
    registry_keys: Result<Vec<String>, String>,
    installed_app: Result<Option<AppInfo>, String>,
    security: Result<(Option<String>, Option<String>), String>,
    hardlinks: Result<u32, String>,
) -> (r: DynamicSnapshot)
    ensures
        r.is_in_use == (match in_use {
            Ok(b) => Some(b),
            Err(_) => None,
        }),
        r.locking_processes@.len() == 0,
        r.registry_referenced == (match registry_keys {
            Ok(k) => Some(k@.len() > 0),
            Err(_) => None,
        }),
        r.registry_keys@ == (match registry_keys {
            Ok(k) => k@,
            Err(_) => Seq::<String>::empty(),
        }),
        r.service_dependency is None,
        r.dependent_services@.len() == 0,
        r.belongs_to_installed_app == (if installed_app is Ok { Some(true) } else { None }),
        r.app_info == (match installed_app {
            Ok(a) => a,
            Err(_) => None,
        }),
        r.owner == (match security {
            Ok((o, _)) => o,
            Err(_) => None,
        }),
        r.security_descriptor == (match security {
            Ok((_, d)) => d,
            Err(_) => None,
        }),
        r.hardlink_count == (match hardlinks {
            Ok(c) => Some(c),
            Err(_) => None,
        }),
        r.is_hardlink == (match hardlinks {
            Ok(c) => Some(c > 1),
            Err(_) => None,
        }),
{
    let mut snapshot = DynamicSnapshot::default();
    match in_use {
        Ok(b) => snapshot.is_in_use = Some(b),
        Err(_) => {},
    }
    match registry_keys {
        Ok(keys) => {
            snapshot.registry_referenced = Some(keys.len() > 0);
            snapshot.registry_keys = keys;
        },
        Err(_) => {},
    }
    match installed_app {
        Ok(app) => {
            snapshot.belongs_to_installed_app = Some(true);
            snapshot.app_info = app;
        },
        Err(_) => {},
    }
    match security {
        Ok((owner, descriptor)) => {
            snapshot.owner = owner;
            snapshot.security_descriptor = descriptor;
        },
        Err(_) => {},
    }
    match hardlinks {
        Ok(count) => {
            snapshot.hardlink_count = Some(count);
            snapshot.is_hardlink = Some(count > 1);
        },
        Err(_) => {},
    }
    snapshot
}

/// Observes the runtime state of files.
///
/// The observations need the Windows API; this portable engine observes nothing,
/// which is what the engine reports on platforms without that API.
#[derive(Debug, Clone)]
pub struct DynamicPerceptionEngine;

impl DynamicPerceptionEngine {
    pub fn new() -> (r: Self) {
        DynamicPerceptionEngine
    }

    /// The snapshot of a path: nothing observed.
    pub fn snapshot(&self, path: &str) -> (r: DynamicSnapshot)
        ensures
            r.is_empty(),
    {
        DynamicSnapshot::default()
    }

    /// The score adjustment for a path, from its snapshot.
    pub fn compute_adjustment(&self, path: &str) -> (r: i8)
        ensures
            r == 0,
    {
        let snapshot = self.snapshot(path);
        adjustment_for_snapshot(&snapshot)
    }
}

} // verus!
