use systemd_locator::error::ResolveError;
use systemd_locator::install::{plan_install, InstallPlan};
use systemd_locator::layout::{binary_name, binary_path, download_root, version_dir};
use systemd_locator::platform::{
    arch_tag, archive_extension, archive_kind, asset_name, binary_suffix, os_tag, Architecture,
    ArchiveKind, Os,
};
use systemd_locator::release::{find_asset, Asset, Release};

fn asset(name: &str, url: &str) -> Asset {
    Asset { name: name.to_string(), download_url: url.to_string() }
}

fn release(version: &str, names: &[&str]) -> Release {
    Release {
        version: version.to_string(),
        assets: names.iter().map(|n| asset(n, &format!("https://example.test/{n}"))).collect(),
    }
}

#[test]
fn asset_names_for_every_platform_key() {
    let table = [
        (Os::Mac, Architecture::Aarch64, "systemd-language-server-macos-arm64.tar.gz"),
        (Os::Mac, Architecture::X8664, "systemd-language-server-macos-amd64.tar.gz"),
        (Os::Mac, Architecture::X86, "systemd-language-server-macos-x86.tar.gz"),
        (Os::Linux, Architecture::Aarch64, "systemd-language-server-linux-arm64.tar.gz"),
        (Os::Linux, Architecture::X8664, "systemd-language-server-linux-amd64.tar.gz"),
        (Os::Linux, Architecture::X86, "systemd-language-server-linux-x86.tar.gz"),
        (Os::Windows, Architecture::Aarch64, "systemd-language-server-windows-arm64.zip"),
        (Os::Windows, Architecture::X8664, "systemd-language-server-windows-amd64.zip"),
        (Os::Windows, Architecture::X86, "systemd-language-server-windows-x86.zip"),
    ];
    for (os, arch, expected) in table {
        assert_eq!(asset_name(os, arch), expected);
        assert_eq!(asset_name(os, arch), asset_name(os, arch));
    }
}

#[test]
fn tags_and_extensions() {
    assert_eq!(os_tag(Os::Mac), "macos");
    assert_eq!(os_tag(Os::Linux), "linux");
    assert_eq!(os_tag(Os::Windows), "windows");
    assert_eq!(arch_tag(Architecture::Aarch64), "arm64");
    assert_eq!(arch_tag(Architecture::X8664), "amd64");
    assert_eq!(arch_tag(Architecture::X86), "x86");
    assert_eq!(archive_extension(Os::Mac), ".tar.gz");
    assert_eq!(archive_extension(Os::Linux), ".tar.gz");
    assert_eq!(archive_extension(Os::Windows), ".zip");
    assert_eq!(binary_suffix(Os::Mac), "");
    assert_eq!(binary_suffix(Os::Linux), "");
    assert_eq!(binary_suffix(Os::Windows), ".exe");
    assert_eq!(archive_kind(Os::Mac), ArchiveKind::GzipTar);
    assert_eq!(archive_kind(Os::Linux), ArchiveKind::GzipTar);
    assert_eq!(archive_kind(Os::Windows), ArchiveKind::Zip);
}

#[test]
fn version_directory_and_binary_path() {
    assert_eq!(download_root(), "language-server");
    assert_eq!(version_dir("v0.3.1"), "systemd-language-server-v0.3.1");
    assert_eq!(version_dir(""), "systemd-language-server-");
    assert_eq!(binary_name(Os::Linux), "systemd-language-server");
    assert_eq!(binary_name(Os::Windows), "systemd-language-server.exe");
    assert_eq!(
        binary_path(Os::Linux, "v0.3.1"),
        "language-server/systemd-language-server-v0.3.1/systemd-language-server"
    );
    assert_eq!(
        binary_path(Os::Mac, "1.0"),
        "language-server/systemd-language-server-1.0/systemd-language-server"
    );
}

#[test]
fn windows_binary_ends_in_exe_and_uses_zip() {
    let path = binary_path(Os::Windows, "v2");
    assert_eq!(path, "language-server/systemd-language-server-v2/systemd-language-server.exe");
    assert!(path.ends_with(".exe"));
    let rel = release("v2", &["systemd-language-server-windows-amd64.zip"]);
    let plan = plan_install(&rel, Os::Windows, Architecture::X8664).unwrap();
    assert_eq!(plan.archive, ArchiveKind::Zip);
    assert_ne!(plan.archive, ArchiveKind::GzipTar);
    assert!(plan.binary_path.ends_with(".exe"));
}

#[test]
fn find_asset_returns_first_match() {
    let assets = vec![
        asset("a", "u0"),
        asset("b", "u1"),
        asset("b", "u2"),
        asset("c", "u3"),
    ];
    assert_eq!(find_asset(&assets, "a"), Some(0));
    assert_eq!(find_asset(&assets, "b"), Some(1));
    assert_eq!(find_asset(&assets, "c"), Some(3));
    assert_eq!(find_asset(&assets, "d"), None);
    assert_eq!(find_asset(&assets, ""), None);
    assert_eq!(find_asset(&Vec::new(), "a"), None);
}

#[test]
fn linux_amd64_release_gives_plan() {
    let rel = release("v0.3.1", &["systemd-language-server-linux-amd64.tar.gz"]);
    let plan = plan_install(&rel, Os::Linux, Architecture::X8664);
    assert_eq!(
        plan,
        Ok(InstallPlan {
            download_url: "https://example.test/systemd-language-server-linux-amd64.tar.gz"
                .to_string(),
            archive: ArchiveKind::GzipTar,
            version_dir: "systemd-language-server-v0.3.1".to_string(),
            binary_path: "language-server/systemd-language-server-v0.3.1/systemd-language-server"
                .to_string(),
        })
    );
}

#[test]
fn plan_picks_the_asset_of_the_platform() {
    let rel = release(
        "7",
        &[
            "systemd-language-server-linux-amd64.tar.gz",
            "systemd-language-server-macos-arm64.tar.gz",
            "systemd-language-server-windows-x86.zip",
        ],
    );
    let plan = plan_install(&rel, Os::Mac, Architecture::Aarch64).unwrap();
    assert_eq!(
        plan.download_url,
        "https://example.test/systemd-language-server-macos-arm64.tar.gz"
    );
    let plan = plan_install(&rel, Os::Windows, Architecture::X86).unwrap();
    assert_eq!(plan.download_url, "https://example.test/systemd-language-server-windows-x86.zip");
}

#[test]
fn missing_asset_names_what_was_looked_for() {
    let rel = release("v0.3.1", &["systemd-language-server-linux-amd64.tar.gz"]);
    let outcome = plan_install(&rel, Os::Linux, Architecture::Aarch64);
    assert_eq!(
        outcome,
        Err(ResolveError::Lookup(
            "no asset found matching \"systemd-language-server-linux-arm64.tar.gz\"".to_string()
        ))
    );
    let error = outcome.unwrap_err();
    assert!(error.message().contains("systemd-language-server-linux-arm64.tar.gz"));
    assert_eq!(
        ResolveError::missing_asset("x"),
        ResolveError::Lookup("no asset found matching \"x\"".to_string())
    );
}

#[test]
fn error_messages() {
    assert_eq!(ResolveError::Lookup("gone".to_string()).message(), "gone");
    assert_eq!(
        ResolveError::download_failed("timed out"),
        ResolveError::Transfer("failed to download file: timed out".to_string())
    );
    assert_eq!(
        ResolveError::download_failed("timed out").message(),
        "failed to download file: timed out"
    );
    assert_eq!(
        ResolveError::listing_failed("language-server", "denied"),
        ResolveError::Filesystem(
            "language-server".to_string(),
            "failed to list working directory denied".to_string()
        )
    );
    assert_eq!(
        ResolveError::Filesystem("p".to_string(), "cause".to_string()).message(),
        "cause"
    );
}
