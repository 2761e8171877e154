//! From a release descriptor and a platform key to what has to be installed.

use vstd::prelude::*;
use vstd::string::*;
use crate::error::{missing_asset_detail, ErrorModel, ResolveError};
use crate::layout::{binary_path, binary_path_of, version_dir, version_dir_of};
use crate::platform::{
    archive_kind, archive_kind_of, asset_name, asset_name_of, Architecture, ArchiveKind, Os,
};
use crate::release::{find_asset, first_match_of, has_asset, is_first_match, Release, ReleaseModel};

verus! {

/// What installing one release on one platform amounts to.
#[derive(Clone, Debug, PartialEq, Eq)]
pub struct InstallPlan {
    /// Where the matching asset is downloaded from.
    pub download_url: String,
    /// How the asset is unpacked.
    pub archive: ArchiveKind,
    /// Name of the directory, below the download root, that holds the version.
    pub version_dir: String,
    /// Path at which the executable is expected after unpacking.
    pub binary_path: String,
}

/// Mathematical content of an [`InstallPlan`].
pub struct InstallPlanModel {
    pub download_url: Seq<char>,
    pub archive: ArchiveKind,
    pub version_dir: Seq<char>,
    pub binary_path: Seq<char>,
}

impl DeepView for InstallPlan {
    type V = InstallPlanModel;

    open spec fn deep_view(&self) -> InstallPlanModel {
        InstallPlanModel {
            download_url: self.download_url@,
            archive: self.archive,
            version_dir: self.version_dir@,
            binary_path: self.binary_path@,
        }
    }
}

/// The plan for a release on a platform: the first asset whose name follows
/// the naming scheme is downloaded; without such an asset the lookup fails
/// and the error names the asset that was looked for.
pub open spec fn install_plan_of(release: ReleaseModel, os: Os, arch: Architecture) -> Result<
    InstallPlanModel,
    ErrorModel,
> {
    let name = asset_name_of(os, arch);
    match first_match_of(release.assets, name) {
        Some(i) => Ok(
            InstallPlanModel {
                download_url: release.assets[i].download_url,
                archive: archive_kind_of(os),
                version_dir: version_dir_of(release.version),
                binary_path: binary_path_of(os, release.version),
            },
        ),
        None => Err(ErrorModel::Lookup(missing_asset_detail(name))),
    }
}

/// Content of a plan or of the error raised in its place.
pub open spec fn plan_outcome_view(outcome: Result<InstallPlan, ResolveError>) -> Result<
    InstallPlanModel,
    ErrorModel,
> {
    match outcome {
        Ok(plan) => Ok(plan.deep_view()),
        Err(error) => Err(error.deep_view()),
    }
}

/// Works out what to install for `release` on the platform `(os, arch)`.
///
/// Succeeds exactly when the release holds an asset named by the naming
/// scheme for this platform.
pub fn plan_install(release: &Release, os: Os, arch: Architecture) -> (outcome: Result<
    InstallPlan,
    ResolveError,
>)
    ensures
        plan_outcome_view(outcome) == install_plan_of(release.deep_view(), os, arch),
        outcome is Ok <==> has_asset(release.deep_view().assets, asset_name_of(os, arch)),
{
    let name = asset_name(os, arch);
    match find_asset(&release.assets, name.as_str()) {
        Some(i) => {
            proof {
                let assets = release.deep_view().assets;
                assert(is_first_match(assets, name@, i as int));
                assert(assets[i as int].name == name@);
                assert(assets[i as int] == release.assets[i as int].deep_view());
            }
            Ok(
                InstallPlan {
                    download_url: release.assets[i].download_url.clone(),
                    archive: archive_kind(os),
                    version_dir: version_dir(release.version.as_str()),
                    binary_path: binary_path(os, release.version.as_str()),
                },
            )
        },
        None => Err(ResolveError::missing_asset(name.as_str())),
    }
}

} // verus!
