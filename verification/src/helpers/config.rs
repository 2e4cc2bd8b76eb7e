//! Fixed names the pipeline is built around: release-asset platform tags,
//! repository identifiers, archive file names, and tool binary names.

use vstd::prelude::*;

verus! {

pub const GITHUB_API_BASE: &'static str = "https://api.github.com/repos";

pub const HTTP_PREFIX: &'static str = "http://";

pub const HTTPS_PREFIX: &'static str = "https://";

pub const WIN_X64: &'static str = "win-x64";

pub const WIN_ARM64: &'static str = "win-arm64";

pub const MAC_X64: &'static str = "mac-x64";

pub const MAC_ARM64: &'static str = "mac-arm64";

pub const OSX_X64: &'static str = "osx-x64";

pub const OSX_ARM64: &'static str = "osx-arm64";

pub const LINUX_X64: &'static str = "linux-x64";

pub const LINUX_ARM64: &'static str = "linux-arm64";

pub const TOOLS_DIR: &'static str = "tools";

pub const FBS_DUMPER_REPO: &'static str = "ArkanDash/FbsDumper";

pub const IL2CPP_INSPECTOR_REPO: &'static str = "Deathemonic/Il2CppInspectorRedux";

pub const FLATC_REPO: &'static str = "google/flatbuffers";

pub const FBS_DUMPER_FILE: &'static str = "FbsDumper.zip";

pub const IL2CPP_INSPECTOR_FILE: &'static str = "Il2CppInspectorRedux.zip";

pub const FLATC_FILE: &'static str = "FlatC.zip";

pub const IL2CPP_INSPECTOR_BINARY: &'static str = "Il2CppInspectorRedux.CLI";

pub const IL2CPP_INSPECTOR_DIR: &'static str = "Il2CppInspectorRedux";

pub const FBS_DUMPER_BINARY: &'static str = "FbsDumper";

pub const FBS_DUMPER_DIR: &'static str = "FbsDumper";

pub const FLATC_BINARY: &'static str = "flatc";

pub const FLATC_DIR: &'static str = "FlatC";

pub const DEFAULT_CONFIG_FILE: &'static str = "bafb.toml";

} // verus!
