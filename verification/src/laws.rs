//! Properties of the locator that hold for every state and input.

use vstd::prelude::*;
use crate::error::{missing_asset_detail, ErrorModel};
use crate::install::install_plan_of;
use crate::layout::binary_path_of;
use crate::platform::{archive_kind_of, asset_name_of, Architecture, ArchiveKind, Os};
use crate::release::{first_match_of, has_asset, is_first_match, ReleaseModel};
use crate::resolver::{
    failed, fetch_request_of, moved_to, phase_rank, resolved, status_of, step_of, tool_name_of, EventModel,
    PhaseModel, RequestModel, ResolverModel,
};

verus! {

/// The naming scheme, written out: for every supported platform key the
/// asset name is the one the publisher attaches to a release.
pub proof fn law_asset_names_follow_scheme(os: Os, arch: Architecture)
    ensures
        asset_name_of(os, arch) == match (os, arch) {
            (Os::Mac, Architecture::Aarch64) => "systemd-language-server-macos-arm64.tar.gz"@,
            (Os::Mac, Architecture::X8664) => "systemd-language-server-macos-amd64.tar.gz"@,
            (Os::Mac, Architecture::X86) => "systemd-language-server-macos-x86.tar.gz"@,
            (Os::Linux, Architecture::Aarch64) => "systemd-language-server-linux-arm64.tar.gz"@,
            (Os::Linux, Architecture::X8664) => "systemd-language-server-linux-amd64.tar.gz"@,
            (Os::Linux, Architecture::X86) => "systemd-language-server-linux-x86.tar.gz"@,
            (Os::Windows, Architecture::Aarch64) => "systemd-language-server-windows-arm64.zip"@,
            (Os::Windows, Architecture::X8664) => "systemd-language-server-windows-amd64.zip"@,
            (Os::Windows, Architecture::X86) => "systemd-language-server-windows-x86.zip"@,
        },
{
    reveal_strlit("systemd-language-server");
    reveal_strlit("-");
    reveal_strlit("macos");
    reveal_strlit("linux");
    reveal_strlit("windows");
    reveal_strlit("arm64");
    reveal_strlit("amd64");
    reveal_strlit("x86");
    reveal_strlit(".tar.gz");
    reveal_strlit(".zip");
    let name = asset_name_of(os, arch);
    match (os, arch) {
        (Os::Mac, Architecture::Aarch64) => {
            reveal_strlit("systemd-language-server-macos-arm64.tar.gz");
            assert(name =~= "systemd-language-server-macos-arm64.tar.gz"@);
        },
        (Os::Mac, Architecture::X8664) => {
            reveal_strlit("systemd-language-server-macos-amd64.tar.gz");
            assert(name =~= "systemd-language-server-macos-amd64.tar.gz"@);
        },
        (Os::Mac, Architecture::X86) => {
            reveal_strlit("systemd-language-server-macos-x86.tar.gz");
            assert(name =~= "systemd-language-server-macos-x86.tar.gz"@);
        },
        (Os::Linux, Architecture::Aarch64) => {
            reveal_strlit("systemd-language-server-linux-arm64.tar.gz");
            assert(name =~= "systemd-language-server-linux-arm64.tar.gz"@);
        },
        (Os::Linux, Architecture::X8664) => {
            reveal_strlit("systemd-language-server-linux-amd64.tar.gz");
            assert(name =~= "systemd-language-server-linux-amd64.tar.gz"@);
        },
        (Os::Linux, Architecture::X86) => {
            reveal_strlit("systemd-language-server-linux-x86.tar.gz");
            assert(name =~= "systemd-language-server-linux-x86.tar.gz"@);
        },
        (Os::Windows, Architecture::Aarch64) => {
            reveal_strlit("systemd-language-server-windows-arm64.zip");
            assert(name =~= "systemd-language-server-windows-arm64.zip"@);
        },
        (Os::Windows, Architecture::X8664) => {
            reveal_strlit("systemd-language-server-windows-amd64.zip");
            assert(name =~= "systemd-language-server-windows-amd64.zip"@);
        },
        (Os::Windows, Architecture::X86) => {
            reveal_strlit("systemd-language-server-windows-x86.zip");
            assert(name =~= "systemd-language-server-windows-x86.zip"@);
        },
    }
}

/// The expected binary lies in the version's directory below the download
/// root; on Windows, and only there, its name ends in `.exe` and the asset is
/// a zip archive.
pub proof fn law_binary_path_shape(os: Os, version: Seq<char>)
    ensures
        binary_path_of(os, version) == "language-server/systemd-language-server-"@ + version + (
        if os == Os::Windows {
            "/systemd-language-server.exe"@
        } else {
            "/systemd-language-server"@
        }),
        archive_kind_of(os) == (if os == Os::Windows {
            ArchiveKind::Zip
        } else {
            ArchiveKind::GzipTar
        }),
{
    reveal_strlit("systemd-language-server");
    reveal_strlit("-");
    reveal_strlit("/");
    reveal_strlit("");
    reveal_strlit(".exe");
    reveal_strlit("language-server");
    reveal_strlit("language-server/systemd-language-server-");
    reveal_strlit("/systemd-language-server.exe");
    reveal_strlit("/systemd-language-server");
    let tail = if os == Os::Windows {
        "/systemd-language-server.exe"@
    } else {
        "/systemd-language-server"@
    };
    assert(binary_path_of(os, version) =~= "language-server/systemd-language-server-"@ + version
        + tail);
}

/// An executable found on the search path ends the resolution at once: the
/// only request made before the result is the path lookup itself, so the
/// release source is never queried.
pub proof fn law_path_hit_skips_release_source(resolver: ResolverModel, path: Seq<char>)
    requires
        resolver.phase is Idle,
    ensures
        step_of(resolver, EventModel::Begin) == Some(
            (
                moved_to(resolver, PhaseModel::LookingOnPath),
                RequestModel::FindOnPath(tool_name_of()),
            ),
        ),
        step_of(
            moved_to(resolver, PhaseModel::LookingOnPath),
            EventModel::PathLookup(Some(path)),
        ) == Some(resolved(path)),
{
}

/// A remembered path that no longer names a regular file is not returned:
/// after the failed file check the resolver turns to the release source.
pub proof fn law_stale_cache_proceeds_to_install(resolver: ResolverModel, path: Seq<char>)
    requires
        resolver.phase is Idle,
        resolver.cached == Some(path),
    ensures
        step_of(resolver, EventModel::Begin) == Some(
            (
                moved_to(resolver, PhaseModel::LookingOnPath),
                RequestModel::FindOnPath(tool_name_of()),
            ),
        ),
        step_of(moved_to(resolver, PhaseModel::LookingOnPath), EventModel::PathLookup(None))
            == Some(
            (moved_to(resolver, PhaseModel::CheckingCached(path)), RequestModel::CheckFile(path)),
        ),
        step_of(
            moved_to(resolver, PhaseModel::CheckingCached(path)),
            EventModel::FileCheck(false),
        ) == Some((moved_to(resolver, PhaseModel::FetchingRelease), fetch_request_of())),
{
}

/// Installing is idempotent: once the expected binary of a release is in
/// place, the platform report is followed by one file check and the result,
/// and neither request is a download.
pub proof fn law_present_binary_skips_download(
    resolver: ResolverModel,
    release: ReleaseModel,
    os: Os,
    arch: Architecture,
)
    requires
        resolver.phase == PhaseModel::QueryingPlatform(release),
        install_plan_of(release, os, arch) is Ok,
    ensures
        ({
            let plan = install_plan_of(release, os, arch)->Ok_0;
            let checking = moved_to(resolver, PhaseModel::CheckingBinary(plan));
            &&& step_of(resolver, EventModel::Platform(os, arch)) == Some(
                (checking, RequestModel::CheckFile(plan.binary_path)),
            )
            &&& step_of(checking, EventModel::FileCheck(true)) == Some(resolved(plan.binary_path))
            &&& status_of(RequestModel::CheckFile(plan.binary_path)) is None
        }),
{
}

/// Downloads happen only on a missing binary: whenever a step asks for a
/// download, the event was a failed check of the expected binary.
pub proof fn law_download_only_when_binary_missing(resolver: ResolverModel, event: EventModel)
    requires
        step_of(resolver, event) is Some,
        step_of(resolver, event)->Some_0.1 is Download,
    ensures
        resolver.phase is CheckingBinary,
        event == EventModel::FileCheck(false),
{
}

/// A failed resolution leaves the remembered path as it was, and a
/// successful one remembers exactly the path it returns. Either way the
/// resolver is ready for the next resolution.
pub proof fn law_finish_settles_the_cache(resolver: ResolverModel, event: EventModel)
    requires
        step_of(resolver, event) is Some,
    ensures
        ({
            let (next, request) = step_of(resolver, event)->Some_0;
            match request {
                RequestModel::Finish(Ok(path)) => next.cached == Some(path) && next.phase is Idle,
                RequestModel::Finish(Err(_)) => next.cached == resolver.cached
                    && next.phase is Idle,
                _ => next.cached == resolver.cached && !(next.phase is Idle),
            }
        }),
{
}

/// Every resolution ends: a step either finishes, which leaves the resolver
/// idle, or moves it to a later one of its ten phases. So no resolution makes
/// more than nine requests before its result, and none downloads twice.
pub proof fn law_every_step_advances(resolver: ResolverModel, event: EventModel)
    requires
        step_of(resolver, event) is Some,
    ensures
        ({
            let (next, request) = step_of(resolver, event)->Some_0;
            if request is Finish {
                phase_rank(next.phase) == 0
            } else {
                phase_rank(resolver.phase) < phase_rank(next.phase) <= 9
            }
        }),
{
}

/// The release source is queried only for the latest release that is no
/// pre-release and has assets, and only after the search path gave nothing.
pub proof fn law_release_query_follows_path_miss(resolver: ResolverModel, event: EventModel)
    requires
        step_of(resolver, event) is Some,
        step_of(resolver, event)->Some_0.1 is FetchLatestRelease,
    ensures
        step_of(resolver, event)->Some_0.1 == fetch_request_of(),
        event == EventModel::PathLookup(None) || event == EventModel::FileCheck(false),
        resolver.phase is LookingOnPath || resolver.phase is CheckingCached,
{
}

/// A release without the asset for this platform fails the resolution with
/// the lookup error that names the asset, and nothing is downloaded.
pub proof fn law_missing_asset_fails(
    resolver: ResolverModel,
    release: ReleaseModel,
    os: Os,
    arch: Architecture,
)
    requires
        resolver.phase == PhaseModel::QueryingPlatform(release),
        !has_asset(release.assets, asset_name_of(os, arch)),
    ensures
        step_of(resolver, EventModel::Platform(os, arch)) == Some(
            failed(resolver, ErrorModel::Lookup(missing_asset_detail(asset_name_of(os, arch)))),
        ),
{
    let name = asset_name_of(os, arch);
    if first_match_of(release.assets, name) is Some {
        let i = choose|i: int| is_first_match(release.assets, name, i);
        assert(release.assets[i].name == name);
    }
}

} // verus!
