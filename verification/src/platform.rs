//! Platform keys and the asset naming scheme agreed with the release publisher.

use vstd::prelude::*;
use vstd::string::*;

verus! {

/// Operating system of the machine the server will run on.
#[derive(Clone, Copy, Debug, PartialEq, Eq, Structural)]
pub enum Os {
    Mac,
    Linux,
    Windows,
}

/// CPU architecture of the machine the server will run on.
#[derive(Clone, Copy, Debug, PartialEq, Eq, Structural)]
pub enum Architecture {
    Aarch64,
    X8664,
    X86,
}

/// Archive format of a published asset.
#[derive(Clone, Copy, Debug, PartialEq, Eq, Structural)]
pub enum ArchiveKind {
    GzipTar,
    Zip,
}

/// Prefix shared by asset names, version directories and the binary itself.
pub open spec fn tool_prefix() -> Seq<char> {
    "systemd-language-server"@
}

/// Platform tag used in asset names.
pub open spec fn os_tag_of(os: Os) -> Seq<char> {
    match os {
        Os::Mac => "macos"@,
        Os::Linux => "linux"@,
        Os::Windows => "windows"@,
    }
}

/// Architecture tag used in asset names.
pub open spec fn arch_tag_of(arch: Architecture) -> Seq<char> {
    match arch {
        Architecture::Aarch64 => "arm64"@,
        Architecture::X8664 => "amd64"@,
        Architecture::X86 => "x86"@,
    }
}

/// Archive format published for a platform.
pub open spec fn archive_kind_of(os: Os) -> ArchiveKind {
    match os {
        Os::Windows => ArchiveKind::Zip,
        _ => ArchiveKind::GzipTar,
    }
}

/// File extension of the archive published for a platform.
pub open spec fn archive_extension_of(os: Os) -> Seq<char> {
    match os {
        Os::Windows => ".zip"@,
        _ => ".tar.gz"@,
    }
}

/// Suffix of the executable's file name on a platform.
pub open spec fn binary_suffix_of(os: Os) -> Seq<char> {
    match os {
        Os::Windows => ".exe"@,
        _ => ""@,
    }
}

/// The asset name for a platform key:
/// `systemd-language-server-<os>-<arch><extension>`.
pub open spec fn asset_name_of(os: Os, arch: Architecture) -> Seq<char> {
    tool_prefix() + "-"@ + os_tag_of(os) + "-"@ + arch_tag_of(arch) + archive_extension_of(os)
}

pub fn os_tag(os: Os) -> (tag: &'static str)
    ensures
        tag@ == os_tag_of(os),
{
    match os {
        Os::Mac => "macos",
        Os::Linux => "linux",
        Os::Windows => "windows",
    }
}

pub fn arch_tag(arch: Architecture) -> (tag: &'static str)
    ensures
        tag@ == arch_tag_of(arch),
{
    match arch {
        Architecture::Aarch64 => "arm64",
        Architecture::X8664 => "amd64",
        Architecture::X86 => "x86",
    }
}

pub fn archive_kind(os: Os) -> (kind: ArchiveKind)
    ensures
        kind == archive_kind_of(os),
{
    match os {
        Os::Windows => ArchiveKind::Zip,
        _ => ArchiveKind::GzipTar,
    }
}

pub fn archive_extension(os: Os) -> (extension: &'static str)
    ensures
        extension@ == archive_extension_of(os),
{
    match os {
        Os::Windows => ".zip",
        _ => ".tar.gz",
    }
}

pub fn binary_suffix(os: Os) -> (suffix: &'static str)
    ensures
        suffix@ == binary_suffix_of(os),
{
    match os {
        Os::Windows => ".exe",
        _ => "",
    }
}

/// Computes the name of the release asset built for the given platform key.
pub fn asset_name(os: Os, arch: Architecture) -> (name: String)
    ensures
        name@ == asset_name_of(os, arch),
{
    let mut name = String::from_str("systemd-language-server");
    name.append("-");
    name.append(os_tag(os));
    name.append("-");
    name.append(arch_tag(arch));
    name.append(archive_extension(os));
    name
}

} // verus!
