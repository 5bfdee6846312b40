//! Read-only snapshots of host and application facts. They are assembled
//! by the caller from the environment; the library only gives them shape.

use vstd::prelude::*;

verus! {

/// Operating system and architecture of the host.
pub struct SystemInfo {
    pub os: String,
    pub arch: String,
}

/// Facts about the running application.
pub struct AppRuntimeInfo {
    pub name: String,
    pub version: String,
    pub tauri_version: String,
    pub debug: bool,
    pub exe_path: Option<String>,
    pub current_dir: Option<String>,
}

} // verus!
