//! What the patcher tells its user of the host: the build, and whether the
//! module carries the patch for it.

use vstd::prelude::*;
use vstd::string::StringExecFns;
use crate::engine::PatchEngine;
use crate::resolver::{BuildInfo, WinBuild};
use crate::store::is_patched_spec;

verus! {

/// The state of the host as it is shown.
#[derive(Debug, Clone, PartialEq, Eq)]
pub struct AppStatus {
    pub is_active: bool,
    pub os_build: String,
    pub persistence_enabled: bool,
    pub defender_excluded: bool,
}

/// The state of the host as a mathematical value.
pub struct StatusInfo {
    pub is_active: bool,
    pub os_build: Seq<char>,
    pub persistence_enabled: bool,
    pub defender_excluded: bool,
}

impl View for AppStatus {
    type V = StatusInfo;

    open spec fn view(&self) -> StatusInfo {
        StatusInfo {
            is_active: self.is_active,
            os_build: self.os_build@,
            persistence_enabled: self.persistence_enabled,
            defender_excluded: self.defender_excluded,
        }
    }
}

/// The state that follows from what was found out: the build, if it could
/// be detected, and the module's bytes, if they could be read. The patch
/// counts as active only where both are known and the module carries the
/// patch for the build. Persistence and the scanner's exclusion are not
/// looked into, and are shown as off.
pub open spec fn status_of(build: Option<BuildInfo>, module: Option<Seq<u8>>) -> StatusInfo {
    StatusInfo {
        is_active: match (build, module) {
            (Some(known), Some(bytes)) => is_patched_spec(bytes, known.build_number),
            _ => false,
        },
        os_build: match build {
            Some(known) => known.display_name,
            None => "Windows (Unknown)"@,
        },
        persistence_enabled: false,
        defender_excluded: false,
    }
}

impl AppStatus {
    /// Draws up the state of the host from the build, if it was detected,
    /// and the module's bytes, if they were read.
    pub fn assess(build: Option<&WinBuild>, module: Option<&[u8]>) -> (status: AppStatus)
        ensures
            status@ == status_of(
                match build {
                    Some(known) => Some(known@),
                    None => None,
                },
                match module {
                    Some(bytes) => Some(bytes@),
                    None => None,
                },
            ),
    {
        let is_active = match (build, module) {
            (Some(known), Some(bytes)) => PatchEngine::is_patched(bytes, known.build_number),
            _ => false,
        };
        let os_build = match build {
            Some(known) => known.display_name.clone(),
            None => String::from_str("Windows (Unknown)"),
        };
        AppStatus { is_active, os_build, persistence_enabled: false, defender_excluded: false }
    }
}

} // verus!
