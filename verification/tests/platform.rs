use bafb::Error;
use bafb::tools::fetch::{DownloadSource, GitHubAsset, GitHubRelease, ToolsFetcher, is_direct_url};

fn fetcher(os: &str, arch: &str) -> ToolsFetcher {
    ToolsFetcher::new(os.to_string(), arch.to_string())
}

#[test]
fn platform_tags_for_all_supported_pairs() {
    assert_eq!(fetcher("windows", "x86_64").get_platform(false).unwrap(), "win-x64");
    assert_eq!(fetcher("windows", "aarch64").get_platform(false).unwrap(), "win-arm64");
    assert_eq!(fetcher("macos", "x86_64").get_platform(false).unwrap(), "osx-x64");
    assert_eq!(fetcher("macos", "aarch64").get_platform(false).unwrap(), "osx-arm64");
    assert_eq!(fetcher("linux", "x86_64").get_platform(false).unwrap(), "linux-x64");
    assert_eq!(fetcher("linux", "aarch64").get_platform(false).unwrap(), "linux-arm64");
}

#[test]
fn platform_mac_naming_switch_only_changes_macos() {
    assert_eq!(fetcher("macos", "x86_64").get_platform(true).unwrap(), "mac-x64");
    assert_eq!(fetcher("macos", "aarch64").get_platform(true).unwrap(), "mac-arm64");
    assert_eq!(fetcher("windows", "x86_64").get_platform(true).unwrap(), "win-x64");
    assert_eq!(fetcher("linux", "aarch64").get_platform(true).unwrap(), "linux-arm64");
}

#[test]
fn unmapped_pairs_fail_with_unsupported_platform() {
    assert_eq!(fetcher("freebsd", "x86_64").get_platform(false), Err(Error::UnsupportedPlatform));
    assert_eq!(fetcher("windows", "riscv64").get_platform(false), Err(Error::UnsupportedPlatform));
    assert_eq!(fetcher("", "").get_platform(true), Err(Error::UnsupportedPlatform));
}

#[test]
fn flatc_asset_names_per_host() {
    assert_eq!(fetcher("windows", "x86_64").flatc_asset_name().unwrap(), "Windows.flatc.binary.zip");
    assert_eq!(fetcher("windows", "aarch64").flatc_asset_name().unwrap(), "Windows.flatc.binary.zip");
    assert_eq!(fetcher("macos", "aarch64").flatc_asset_name().unwrap(), "Mac.flatc.binary.zip");
    assert_eq!(fetcher("macos", "x86_64").flatc_asset_name().unwrap(), "MacIntel.flatc.binary.zip");
    assert_eq!(fetcher("linux", "x86_64").flatc_asset_name().unwrap(), "Linux.flatc.binary.g++-13.zip");
    assert_eq!(fetcher("solaris", "x86_64").flatc_asset_name(), Err(Error::UnsupportedPlatform));
}

#[test]
fn direct_urls_are_recognised() {
    assert!(is_direct_url("https://example.com/tool.zip"));
    assert!(is_direct_url("http://example.com/tool.zip"));
    assert!(!is_direct_url("Owner/Repo"));
    assert!(!is_direct_url("ftp://example.com/tool.zip"));
}

#[test]
fn download_source_direct_url_skips_platform_resolution() {
    let f = fetcher("plan9", "mips");
    match f.il2cpp_dumper("https://example.com/a.zip").unwrap() {
        DownloadSource::DirectUrl(u) => assert_eq!(u, "https://example.com/a.zip"),
        other => panic!("expected a direct url, got {:?}", other),
    }
}

#[test]
fn download_source_repo_uses_platform_needle() {
    let f = fetcher("linux", "x86_64");
    match f.fbs_dumper("Owner/FbsDumper").unwrap() {
        DownloadSource::GithubLatest { repo, needle } => {
            assert_eq!(repo, "Owner/FbsDumper");
            assert_eq!(needle, "linux-x64");
        }
        other => panic!("expected a release scan, got {:?}", other),
    }
    match f.flatc("google/flatbuffers").unwrap() {
        DownloadSource::GithubLatest { repo, needle } => {
            assert_eq!(repo, "google/flatbuffers");
            assert_eq!(needle, "Linux.flatc.binary.g++-13.zip");
        }
        other => panic!("expected a release scan, got {:?}", other),
    }
}

#[test]
fn download_source_repo_on_unmapped_host_is_fatal() {
    let f = fetcher("plan9", "mips");
    assert_eq!(
        match f.il2cpp_dumper("Owner/Repo") {
            Err(e) => e,
            Ok(_) => panic!("expected failure"),
        },
        Error::UnsupportedPlatform
    );
}

fn release(names: &[&str]) -> GitHubRelease {
    GitHubRelease {
        assets: names
            .iter()
            .enumerate()
            .map(|(i, n)| GitHubAsset {
                name: n.to_string(),
                browser_download_url: format!("https://dl.test/{}", i),
            })
            .collect(),
    }
}

#[test]
fn select_asset_picks_first_match() {
    let f = fetcher("linux", "x86_64");
    let r = release(&["tool-win-x64.zip", "tool-linux-x64.zip", "other-linux-x64.zip"]);
    assert_eq!(f.select_asset(&r, "linux-x64").unwrap(), "https://dl.test/1");
}

#[test]
fn select_asset_without_match_fails_with_no_asset_found() {
    let f = fetcher("linux", "x86_64");
    let r = release(&["tool-win-x64.zip", "tool-osx-arm64.zip"]);
    assert_eq!(f.select_asset(&r, "linux-x64"), Err(Error::NoAssetFound));
    let empty = release(&[]);
    assert_eq!(f.select_asset(&empty, "linux-x64"), Err(Error::NoAssetFound));
}

#[test]
fn error_messages_carry_context() {
    assert_eq!(Error::ConfigNotFound("a.toml".to_string()).message(), "Config file not found: a.toml");
    assert_eq!(Error::BinaryNotFound("/x/flatc".to_string()).message(), "Binary path: /x/flatc");
    assert_eq!(
        Error::ConfigParse("bad key".to_string()).message(),
        "Config file is not valid TOML: bad key"
    );
    assert_eq!(Error::DownloadFailed("T.zip".to_string()).message(), "Download failed: T.zip");
    assert_eq!(Error::SpawnFailed("/t/flatc".to_string()).message(), "Failed to execute /t/flatc");
    assert!(!Error::UnsupportedPlatform.message().is_empty());
    assert!(!Error::NoAssetFound.message().is_empty());
    assert!(!Error::ArchiveInvalid.message().is_empty());
    assert!(!Error::ChildExit(Some(3)).message().is_empty());
}
