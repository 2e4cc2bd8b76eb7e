//! Where each tool comes from: the host platform resolved to a release-asset
//! tag, a repository-or-URL identifier resolved to a download source, and the
//! scan of a release's asset list for the one that matches the platform.

use vstd::prelude::*;
use crate::Error;
use crate::helpers::config::{
    HTTP_PREFIX, HTTPS_PREFIX, LINUX_ARM64, LINUX_X64, MAC_ARM64, MAC_X64, OSX_ARM64, OSX_X64,
    WIN_ARM64, WIN_X64,
};
use crate::text::{spec_contains, spec_starts_with, contains_sub, starts_with, str_eq};

verus! {

/// One asset of a release: its file name and where to download it.
#[derive(Debug)]
pub struct GitHubAsset {
    pub name: String,
    pub browser_download_url: String,
}

/// The asset list of a repository's latest release.
#[derive(Debug)]
pub struct GitHubRelease {
    pub assets: Vec<GitHubAsset>,
}

/// Where a tool archive is downloaded from: a direct URL taken as given, or
/// the latest release of a repository, scanned for an asset whose name
/// contains the needle.
#[derive(Debug)]
pub enum DownloadSource {
    DirectUrl(String),
    GithubLatest { repo: String, needle: String },
}

/// The fetcher is bound to the host it runs on, named the way the process
/// environment names operating system and architecture.
#[derive(Debug)]
pub struct ToolsFetcher {
    pub os: String,
    pub arch: String,
}

/// The release-asset platform tag for a host, or nothing when the pair is
/// unsupported. Some download sources name macOS assets with a `mac` prefix
/// instead of the usual `osx`; the switch picks between the two conventions.
pub open spec fn platform_tag(os: Seq<char>, arch: Seq<char>, mac_naming: bool) -> Option<
    Seq<char>,
> {
    if os == "windows"@ && arch == "x86_64"@ {
        Option::Some(WIN_X64@)
    } else if os == "windows"@ && arch == "aarch64"@ {
        Option::Some(WIN_ARM64@)
    } else if os == "macos"@ && arch == "x86_64"@ {
        Option::Some(
            if mac_naming {
                MAC_X64@
            } else {
                OSX_X64@
            },
        )
    } else if os == "macos"@ && arch == "aarch64"@ {
        Option::Some(
            if mac_naming {
                MAC_ARM64@
            } else {
                OSX_ARM64@
            },
        )
    } else if os == "linux"@ && arch == "x86_64"@ {
        Option::Some(LINUX_X64@)
    } else if os == "linux"@ && arch == "aarch64"@ {
        Option::Some(LINUX_ARM64@)
    } else {
        Option::None
    }
}

/// The asset name the FlatBuffers compiler's releases use for a host, or
/// nothing when the pair is unsupported.
pub open spec fn flatc_asset_tag(os: Seq<char>, arch: Seq<char>) -> Option<Seq<char>> {
    if os == "windows"@ {
        Option::Some("Windows.flatc.binary.zip"@)
    } else if os == "macos"@ && arch == "aarch64"@ {
        Option::Some("Mac.flatc.binary.zip"@)
    } else if os == "macos"@ && arch == "x86_64"@ {
        Option::Some("MacIntel.flatc.binary.zip"@)
    } else if os == "linux"@ {
        Option::Some("Linux.flatc.binary.g++-13.zip"@)
    } else {
        Option::None
    }
}

/// Every tag the platform resolver can return is one of the fixed set; no
/// supported pair ever maps to anything else, and an unmapped pair maps to
/// nothing at all.
pub proof fn lemma_platform_tag_fixed(os: Seq<char>, arch: Seq<char>, mac_naming: bool)
    ensures
        platform_tag(os, arch, mac_naming) matches Some(t) ==> (t == WIN_X64@ || t == WIN_ARM64@
            || t == MAC_X64@ || t == MAC_ARM64@ || t == OSX_X64@ || t == OSX_ARM64@ || t
            == LINUX_X64@ || t == LINUX_ARM64@),
        platform_tag(os, arch, mac_naming) is None ==> !((os == "windows"@ || os == "macos"@ || os
            == "linux"@) && (arch == "x86_64"@ || arch == "aarch64"@)),
{
}

/// Whether the identifier is already a direct download URL.
pub fn is_direct_url(s: &str) -> (r: bool)
    ensures
        r == (spec_starts_with(s@, HTTP_PREFIX@) || spec_starts_with(s@, HTTPS_PREFIX@)),
{
    starts_with(s, HTTP_PREFIX) || starts_with(s, HTTPS_PREFIX)
}

/// The first asset whose name contains the needle, if any.
pub open spec fn first_matching_asset(assets: Seq<GitHubAsset>, needle: Seq<char>, i: int) -> bool {
    &&& 0 <= i < assets.len()
    &&& spec_contains(assets[i].name@, needle)
    &&& forall|j: int| 0 <= j < i ==> !spec_contains(#[trigger] assets[j].name@, needle)
}

impl ToolsFetcher {
    /// Binds the fetcher to the host's operating-system and architecture
    /// names.
    pub fn new(os: String, arch: String) -> (r: Self)
        ensures
            r.os == os,
            r.arch == arch,
    {
        ToolsFetcher { os, arch }
    }

    /// The release-asset platform tag for this host; an unmapped pair is a
    /// fatal, non-retryable failure.
    pub fn get_platform(&self, mac_naming: bool) -> (r: Result<&'static str, Error>)
        ensures
            (match platform_tag(self.os@, self.arch@, mac_naming) {
                Option::Some(t) => r matches Ok(s) && s@ == t,
                Option::None => r == Result::<&'static str, Error>::Err(
                    Error::UnsupportedPlatform,
                ),
            }),
    {
        let os = self.os.as_str();
        let arch = self.arch.as_str();
        if str_eq(os, "windows") && str_eq(arch, "x86_64") {
            Result::Ok(WIN_X64)
        } else if str_eq(os, "windows") && str_eq(arch, "aarch64") {
            Result::Ok(WIN_ARM64)
        } else if str_eq(os, "macos") && str_eq(arch, "x86_64") {
            Result::Ok(
                if mac_naming {
                    MAC_X64
                } else {
                    OSX_X64
                },
            )
        } else if str_eq(os, "macos") && str_eq(arch, "aarch64") {
            Result::Ok(
                if mac_naming {
                    MAC_ARM64
                } else {
                    OSX_ARM64
                },
            )
        } else if str_eq(os, "linux") && str_eq(arch, "x86_64") {
            Result::Ok(LINUX_X64)
        } else if str_eq(os, "linux") && str_eq(arch, "aarch64") {
            Result::Ok(LINUX_ARM64)
        } else {
            Result::Err(Error::UnsupportedPlatform)
        }
    }

    /// The asset name the FlatBuffers compiler's releases use for this host.
    pub fn flatc_asset_name(&self) -> (r: Result<&'static str, Error>)
        ensures
            (match flatc_asset_tag(self.os@, self.arch@) {
                Option::Some(t) => r matches Ok(s) && s@ == t,
                Option::None => r == Result::<&'static str, Error>::Err(
                    Error::UnsupportedPlatform,
                ),
            }),
    {
        let os = self.os.as_str();
        let arch = self.arch.as_str();
        if str_eq(os, "windows") {
            Result::Ok("Windows.flatc.binary.zip")
        } else if str_eq(os, "macos") && str_eq(arch, "aarch64") {
            Result::Ok("Mac.flatc.binary.zip")
        } else if str_eq(os, "macos") && str_eq(arch, "x86_64") {
            Result::Ok("MacIntel.flatc.binary.zip")
        } else if str_eq(os, "linux") {
            Result::Ok("Linux.flatc.binary.g++-13.zip")
        } else {
            Result::Err(Error::UnsupportedPlatform)
        }
    }

    /// Resolves the IL2CPP dumper's identifier: a direct URL is downloaded as
    /// given; anything else names a repository whose latest release is
    /// scanned for this host's platform tag.
    pub fn il2cpp_dumper(&self, repo: &str) -> (r: Result<DownloadSource, Error>)
        ensures
            (spec_starts_with(repo@, HTTP_PREFIX@) || spec_starts_with(repo@, HTTPS_PREFIX@)) ==> (
            r matches Ok(s) && s matches DownloadSource::DirectUrl(u) && u@ == repo@),
            !(spec_starts_with(repo@, HTTP_PREFIX@) || spec_starts_with(repo@, HTTPS_PREFIX@))
                ==> (match platform_tag(self.os@, self.arch@, false) {
                Option::Some(t) => r matches Ok(s) && s matches DownloadSource::GithubLatest {
                    repo: rp,
                    needle: n,
                } && rp@ == repo@ && n@ == t,
                Option::None => r == Result::<DownloadSource, Error>::Err(
                    Error::UnsupportedPlatform,
                ),
            }),
    {
        if is_direct_url(repo) {
            return Result::Ok(DownloadSource::DirectUrl(repo.to_owned()));
        }
        let needle = self.get_platform(false)?;
        Result::Ok(
            DownloadSource::GithubLatest { repo: repo.to_owned(), needle: needle.to_owned() },
        )
    }

    /// Resolves the FlatBuffers-schema dumper's identifier, the same way as
    /// the IL2CPP dumper's.
    pub fn fbs_dumper(&self, repo: &str) -> (r: Result<DownloadSource, Error>)
        ensures
            (spec_starts_with(repo@, HTTP_PREFIX@) || spec_starts_with(repo@, HTTPS_PREFIX@)) ==> (
            r matches Ok(s) && s matches DownloadSource::DirectUrl(u) && u@ == repo@),
            !(spec_starts_with(repo@, HTTP_PREFIX@) || spec_starts_with(repo@, HTTPS_PREFIX@))
                ==> (match platform_tag(self.os@, self.arch@, false) {
                Option::Some(t) => r matches Ok(s) && s matches DownloadSource::GithubLatest {
                    repo: rp,
                    needle: n,
                } && rp@ == repo@ && n@ == t,
                Option::None => r == Result::<DownloadSource, Error>::Err(
                    Error::UnsupportedPlatform,
                ),
            }),
    {
        if is_direct_url(repo) {
            return Result::Ok(DownloadSource::DirectUrl(repo.to_owned()));
        }
        let needle = self.get_platform(false)?;
        Result::Ok(
            DownloadSource::GithubLatest { repo: repo.to_owned(), needle: needle.to_owned() },
        )
    }

    /// Resolves the FlatBuffers compiler's identifier: a direct URL is taken
    /// as given; anything else names a repository whose latest release is
    /// scanned for this host's hardcoded asset-name substring.
    pub fn flatc(&self, repo: &str) -> (r: Result<DownloadSource, Error>)
        ensures
            (spec_starts_with(repo@, HTTP_PREFIX@) || spec_starts_with(repo@, HTTPS_PREFIX@)) ==> (
            r matches Ok(s) && s matches DownloadSource::DirectUrl(u) && u@ == repo@),
            !(spec_starts_with(repo@, HTTP_PREFIX@) || spec_starts_with(repo@, HTTPS_PREFIX@))
                ==> (match flatc_asset_tag(self.os@, self.arch@) {
                Option::Some(t) => r matches Ok(s) && s matches DownloadSource::GithubLatest {
                    repo: rp,
                    needle: n,
                } && rp@ == repo@ && n@ == t,
                Option::None => r == Result::<DownloadSource, Error>::Err(
                    Error::UnsupportedPlatform,
                ),
            }),
    {
        if is_direct_url(repo) {
            return Result::Ok(DownloadSource::DirectUrl(repo.to_owned()));
        }
        let needle = self.flatc_asset_name()?;
        Result::Ok(
            DownloadSource::GithubLatest { repo: repo.to_owned(), needle: needle.to_owned() },
        )
    }

    /// Picks the download URL out of a release: the first asset whose name
    /// contains the needle, if and only if one exists; no fallback asset is
    /// ever chosen.
    pub fn select_asset(&self, release: &GitHubRelease, needle: &str) -> (r: Result<String, Error>)
        ensures
            r matches Ok(u) ==> exists|i: int|
                first_matching_asset(release.assets@, needle@, i) && u@
                    == release.assets@[i].browser_download_url@,
            r is Err ==> r == Result::<String, Error>::Err(Error::NoAssetFound) && forall|i: int|
                0 <= i < release.assets@.len() ==> !spec_contains(
                    #[trigger] release.assets@[i].name@,
                    needle@,
                ),
    {
        let mut i: usize = 0;
        while i < release.assets.len()
            invariant
                i <= release.assets@.len(),
                forall|j: int|
                    0 <= j < i ==> !spec_contains(#[trigger] release.assets@[j].name@, needle@),
            decreases release.assets@.len() - i,
        {
            if contains_sub(release.assets[i].name.as_str(), needle) {
                let url = release.assets[i].browser_download_url.clone();
                proof {
                    assert(first_matching_asset(release.assets@, needle@, i as int));
                }
                return Result::Ok(url);
            }
            i = i + 1;
        }
        Result::Err(Error::NoAssetFound)
    }
}

} // verus!
