//! Assembling a read-only snapshot of runtime metadata.

use vstd::prelude::*;

use crate::platform::is_os_identifier;

verus! {

/// A read-only snapshot of runtime metadata, constructed fresh on every
/// request and immutable once constructed.
pub struct AppInfo {
    /// Build-time version identifier of the packaged application.
    pub version: String,
    /// Canonical operating-system identifier of the host.
    pub platform: String,
    /// Constant `true`: marks the snapshot as originating from this shell.
    pub is_tauri: bool,
    /// Absolute path of the per-user application-data directory, or the
    /// sentinel `"unknown"` if resolution failed.
    pub app_data_dir: String,
}

/// The mathematical content of an [`AppInfo`] value.
pub ghost struct AppInfoModel {
    pub version: Seq<char>,
    pub platform: Seq<char>,
    pub is_tauri: bool,
    pub app_data_dir: Seq<char>,
}

impl View for AppInfo {
    type V = AppInfoModel;

    open spec fn view(&self) -> AppInfoModel {
        AppInfoModel {
            version: self.version@,
            platform: self.platform@,
            is_tauri: self.is_tauri,
            app_data_dir: self.app_data_dir@,
        }
    }
}

/// The sentinel that stands in for the application-data directory when
/// resolution fails.
pub open spec fn unknown_dir() -> Seq<char> {
    "unknown"@
}

/// The directory string a snapshot carries, given the outcome of directory
/// resolution: the resolved path, or the sentinel on failure.
pub open spec fn dir_or_sentinel(resolved: Option<Seq<char>>) -> Seq<char> {
    match resolved {
        Some(p) => p,
        None => unknown_dir(),
    }
}

/// The snapshot determined by the three environment reads: it is a function
/// of them alone, so repeated calls on one host cannot drift.
pub open spec fn snapshot_of(
    version: Seq<char>,
    platform: Seq<char>,
    resolved: Option<Seq<char>>,
) -> AppInfoModel {
    AppInfoModel {
        version: version,
        platform: platform,
        is_tauri: true,
        app_data_dir: dir_or_sentinel(resolved),
    }
}

/// Assembles the metadata snapshot from the values the hosting shell read
/// from its environment: the build-time version string, the host
/// operating-system identifier, and the outcome of resolving the per-user
/// application-data directory. Resolution failure is absorbed into the
/// sentinel `"unknown"`; the call never fails.
pub fn get_app_info(
    version: String,
    platform: String,
    app_data_dir: Option<String>,
) -> (r: AppInfo)
    ensures
        r@ == snapshot_of(version@, platform@, app_data_dir.deep_view()),
        r.is_tauri,
        r.version@ == version@,
        r.platform@ == platform@,
        app_data_dir is None ==> r.app_data_dir@ == unknown_dir(),
        app_data_dir matches Some(p) ==> r.app_data_dir@ == p@,
{
    let dir: String = match app_data_dir {
        Some(p) => p,
        None => "unknown".to_owned(),
    };
    AppInfo { version, platform, is_tauri: true, app_data_dir: dir }
}

/// Every snapshot reports `is_tauri` as `true`, whatever the environment
/// reads were.
pub proof fn lemma_is_tauri_always_true(
    version: Seq<char>,
    platform: Seq<char>,
    resolved: Option<Seq<char>>,
)
    ensures
        snapshot_of(version, platform, resolved).is_tauri,
{
}

/// Snapshots assembled from the same environment reads are equal: the
/// version string and every other field are reproduced without drift across
/// repeated calls within one process run.
pub proof fn lemma_snapshot_deterministic(
    a: AppInfo,
    b: AppInfo,
    version: Seq<char>,
    platform: Seq<char>,
    resolved: Option<Seq<char>>,
)
    requires
        a@ == snapshot_of(version, platform, resolved),
        b@ == snapshot_of(version, platform, resolved),
    ensures
        a@ == b@,
{
}

/// A snapshot reproduces the host-reported platform identifier exactly, so
/// when the host reports one of the canonical identifiers the snapshot
/// carries one of them too.
pub proof fn lemma_platform_preserved(
    version: Seq<char>,
    platform: Seq<char>,
    resolved: Option<Seq<char>>,
)
    requires
        is_os_identifier(platform),
    ensures
        is_os_identifier(snapshot_of(version, platform, resolved).platform),
{
}

/// The directory field is the sentinel exactly when resolution failed;
/// otherwise it is the resolved path itself, unchanged.
pub proof fn lemma_dir_sentinel_iff_unresolved(resolved: Option<Seq<char>>)
    requires
        resolved matches Some(p) ==> p != unknown_dir(),
    ensures
        (dir_or_sentinel(resolved) == unknown_dir()) <==> (resolved is None),
{
}

} // verus!
