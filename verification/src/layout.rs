//! Where an installed version lives below the download root.

use vstd::prelude::*;
use vstd::string::*;
use crate::platform::{binary_suffix, binary_suffix_of, tool_prefix, Os};

verus! {

/// Directory, relative to the working directory, into which archives are
/// unpacked.
pub open spec fn download_root_of() -> Seq<char> {
    "language-server"@
}

/// Name of the directory that holds one version:
/// `systemd-language-server-<version>`.
pub open spec fn version_dir_of(version: Seq<char>) -> Seq<char> {
    tool_prefix() + "-"@ + version
}

/// File name of the executable on a platform.
pub open spec fn binary_name_of(os: Os) -> Seq<char> {
    tool_prefix() + binary_suffix_of(os)
}

/// Path of the executable of one version:
/// `language-server/<version directory>/<binary name>`.
pub open spec fn binary_path_of(os: Os, version: Seq<char>) -> Seq<char> {
    download_root_of() + "/"@ + version_dir_of(version) + "/"@ + binary_name_of(os)
}

pub fn download_root() -> (root: &'static str)
    ensures
        root@ == download_root_of(),
{
    "language-server"
}

/// Builds the name of the directory that holds `version`.
pub fn version_dir(version: &str) -> (dir: String)
    ensures
        dir@ == version_dir_of(version@),
{
    let mut dir = String::from_str("systemd-language-server");
    dir.append("-");
    dir.append(version);
    dir
}

/// Builds the file name of the executable on `os`.
pub fn binary_name(os: Os) -> (name: String)
    ensures
        name@ == binary_name_of(os),
{
    let mut name = String::from_str("systemd-language-server");
    name.append(binary_suffix(os));
    name
}

/// Builds the path at which the executable of `version` is expected.
pub fn binary_path(os: Os, version: &str) -> (path: String)
    ensures
        path@ == binary_path_of(os, version@),
{
    let dir = version_dir(version);
    let name = binary_name(os);
    let mut path = String::from_str(download_root());
    path.append("/");
    path.append(dir.as_str());
    path.append("/");
    path.append(name.as_str());
    path
}

/// Distinct versions live in distinct directories.
pub proof fn lemma_version_dir_injective(a: Seq<char>, b: Seq<char>)
    requires
        version_dir_of(a) == version_dir_of(b),
    ensures
        a == b,
{
    let head = tool_prefix() + "-"@;
    assert(a =~= (head + a).subrange(head.len() as int, (head + a).len() as int));
    assert(b =~= (head + b).subrange(head.len() as int, (head + b).len() as int));
}

} // verus!
