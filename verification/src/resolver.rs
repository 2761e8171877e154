//! The binary locator: decides, outcome by outcome, what has to happen next
//! until a usable executable path (or an error) is known.
//!
//! The resolver performs no outside work itself. It hands out a [`Request`];
//! the embedding program carries it out and reports the outcome as an
//! [`Event`], until the request is [`Request::Finish`].

use vstd::prelude::*;
use vstd::string::*;
use crate::error::{
    download_failure_detail, listing_failure_detail, ErrorModel, ResolveError,
};
use crate::install::{install_plan_of, plan_install, InstallPlan, InstallPlanModel};
use crate::layout::{download_root, download_root_of};
use crate::platform::{Architecture, ArchiveKind, Os};
use crate::prune::{plan_prune, prune_plan_of, Entry, EntryModel};
use crate::release::{Release, ReleaseModel};

verus! {

/// Progress reported to the host before a network-bound request.
#[derive(Clone, Copy, Debug, PartialEq, Eq, Structural)]
pub enum InstallStatus {
    CheckingForUpdate,
    Downloading,
}

/// Outside work that the resolver asks for.
#[derive(Debug, PartialEq, Eq)]
pub enum Request {
    /// Look for an executable of this name on the search path.
    FindOnPath(String),
    /// Tell whether this path names an existing regular file.
    CheckFile(String),
    /// Query the release source for the latest release.
    FetchLatestRelease { repository: String, require_assets: bool, pre_release: bool },
    /// Read the platform key of this machine.
    QueryPlatform,
    /// Fetch `url` and unpack it into `destination`.
    Download { url: String, destination: String, archive: ArchiveKind },
    /// Mark this file as executable.
    MakeExecutable(String),
    /// List the entries directly below this directory.
    ListDirectory(String),
    /// Remove, recursively and ignoring failures, the listed entries: each
    /// number is a position in the listing last reported.
    RemoveEntries(Vec<usize>),
    /// The resolution is over, with this path or this error.
    Finish(Result<String, ResolveError>),
}

/// Outcome of the outside work last asked for.
#[derive(Debug, PartialEq, Eq)]
pub enum Event {
    /// A resolution is wanted.
    Begin,
    /// What the search path holds under the requested name.
    PathLookup(Option<String>),
    /// Whether the requested path names an existing regular file.
    FileCheck(bool),
    /// The latest release, or why the query failed.
    ReleaseLookup(Result<Release, String>),
    /// The platform key of this machine.
    Platform(Os, Architecture),
    /// The download and extraction ended, possibly with a failure.
    Downloaded(Result<(), String>),
    /// Marking the file executable ended, possibly with a failure.
    MadeExecutable(Result<(), String>),
    /// The entries of the directory, in listing order, or why it cannot be
    /// listed.
    Listed(Result<Vec<Entry>, String>),
    /// The requested removals were attempted.
    Pruned,
}

/// Where a resolution stands.
#[derive(Clone, Debug, PartialEq, Eq)]
pub enum Phase {
    Idle,
    LookingOnPath,
    CheckingCached(String),
    FetchingRelease,
    QueryingPlatform(Release),
    CheckingBinary(InstallPlan),
    Downloading(InstallPlan),
    MarkingExecutable(InstallPlan),
    Listing(InstallPlan),
    Pruning(InstallPlan, Option<String>),
}

/// The locator's state: the path resolved last, and the resolution under way.
#[derive(Clone, Debug, PartialEq, Eq)]
pub struct Resolver {
    pub cached_executable_path: Option<String>,
    pub phase: Phase,
}

/// Mathematical content of a [`Request`].
pub enum RequestModel {
    FindOnPath(Seq<char>),
    CheckFile(Seq<char>),
    FetchLatestRelease { repository: Seq<char>, require_assets: bool, pre_release: bool },
    QueryPlatform,
    Download { url: Seq<char>, destination: Seq<char>, archive: ArchiveKind },
    MakeExecutable(Seq<char>),
    ListDirectory(Seq<char>),
    RemoveEntries(Seq<usize>),
    Finish(Result<Seq<char>, ErrorModel>),
}

/// Mathematical content of an [`Event`].
pub enum EventModel {
    Begin,
    PathLookup(Option<Seq<char>>),
    FileCheck(bool),
    ReleaseLookup(Result<ReleaseModel, Seq<char>>),
    Platform(Os, Architecture),
    Downloaded(Result<(), Seq<char>>),
    MadeExecutable(Result<(), Seq<char>>),
    Listed(Result<Seq<EntryModel>, Seq<char>>),
    Pruned,
}

/// Mathematical content of a [`Phase`].
pub enum PhaseModel {
    Idle,
    LookingOnPath,
    CheckingCached(Seq<char>),
    FetchingRelease,
    QueryingPlatform(ReleaseModel),
    CheckingBinary(InstallPlanModel),
    Downloading(InstallPlanModel),
    MarkingExecutable(InstallPlanModel),
    Listing(InstallPlanModel),
    Pruning(InstallPlanModel, Option<Seq<char>>),
}

/// Mathematical content of a [`Resolver`].
pub struct ResolverModel {
    pub cached: Option<Seq<char>>,
    pub phase: PhaseModel,
}

impl DeepView for Request {
    type V = RequestModel;

    open spec fn deep_view(&self) -> RequestModel {
        match self {
            Request::FindOnPath(name) => RequestModel::FindOnPath(name@),
            Request::CheckFile(path) => RequestModel::CheckFile(path@),
            Request::FetchLatestRelease { repository, require_assets, pre_release } => {
                RequestModel::FetchLatestRelease {
                    repository: repository@,
                    require_assets: *require_assets,
                    pre_release: *pre_release,
                }
            },
            Request::QueryPlatform => RequestModel::QueryPlatform,
            Request::Download { url, destination, archive } => RequestModel::Download {
                url: url@,
                destination: destination@,
                archive: *archive,
            },
            Request::MakeExecutable(path) => RequestModel::MakeExecutable(path@),
            Request::ListDirectory(path) => RequestModel::ListDirectory(path@),
            Request::RemoveEntries(positions) => RequestModel::RemoveEntries(positions@),
            Request::Finish(Ok(path)) => RequestModel::Finish(Ok(path@)),
            Request::Finish(Err(error)) => RequestModel::Finish(Err(error.deep_view())),
        }
    }
}

impl DeepView for Event {
    type V = EventModel;

    open spec fn deep_view(&self) -> EventModel {
        match self {
            Event::Begin => EventModel::Begin,
            Event::PathLookup(found) => EventModel::PathLookup(found.deep_view()),
            Event::FileCheck(present) => EventModel::FileCheck(*present),
            Event::ReleaseLookup(Ok(release)) => EventModel::ReleaseLookup(Ok(release.deep_view())),
            Event::ReleaseLookup(Err(cause)) => EventModel::ReleaseLookup(Err(cause@)),
            Event::Platform(os, arch) => EventModel::Platform(*os, *arch),
            Event::Downloaded(Ok(_)) => EventModel::Downloaded(Ok(())),
            Event::Downloaded(Err(cause)) => EventModel::Downloaded(Err(cause@)),
            Event::MadeExecutable(Ok(_)) => EventModel::MadeExecutable(Ok(())),
            Event::MadeExecutable(Err(cause)) => EventModel::MadeExecutable(Err(cause@)),
            Event::Listed(Ok(entries)) => EventModel::Listed(Ok(entries.deep_view())),
            Event::Listed(Err(cause)) => EventModel::Listed(Err(cause@)),
            Event::Pruned => EventModel::Pruned,
        }
    }
}

impl DeepView for Phase {
    type V = PhaseModel;

    open spec fn deep_view(&self) -> PhaseModel {
        match self {
            Phase::Idle => PhaseModel::Idle,
            Phase::LookingOnPath => PhaseModel::LookingOnPath,
            Phase::CheckingCached(path) => PhaseModel::CheckingCached(path@),
            Phase::FetchingRelease => PhaseModel::FetchingRelease,
            Phase::QueryingPlatform(release) => PhaseModel::QueryingPlatform(release.deep_view()),
            Phase::CheckingBinary(plan) => PhaseModel::CheckingBinary(plan.deep_view()),
            Phase::Downloading(plan) => PhaseModel::Downloading(plan.deep_view()),
            Phase::MarkingExecutable(plan) => PhaseModel::MarkingExecutable(plan.deep_view()),
            Phase::Listing(plan) => PhaseModel::Listing(plan.deep_view()),
            Phase::Pruning(plan, failure) => PhaseModel::Pruning(
                plan.deep_view(),
                failure.deep_view(),
            ),
        }
    }
}

impl DeepView for Resolver {
    type V = ResolverModel;

    open spec fn deep_view(&self) -> ResolverModel {
        ResolverModel {
            cached: self.cached_executable_path.deep_view(),
            phase: self.phase.deep_view(),
        }
    }
}

/// Name under which the server is looked for on the search path.
pub open spec fn tool_name_of() -> Seq<char> {
    "systemd"@
}

/// Repository whose releases are installed.
pub open spec fn repository_of() -> Seq<char> {
    "10fish/systemd-language-server-rs"@
}

/// The release query: the latest release that is no pre-release and has
/// assets attached.
pub open spec fn fetch_request_of() -> RequestModel {
    RequestModel::FetchLatestRelease {
        repository: repository_of(),
        require_assets: true,
        pre_release: false,
    }
}

/// The same resolver in another phase.
pub open spec fn moved_to(resolver: ResolverModel, phase: PhaseModel) -> ResolverModel {
    ResolverModel { cached: resolver.cached, phase }
}

/// A resolution that ends with `path`: the path is remembered.
pub open spec fn resolved(path: Seq<char>) -> (ResolverModel, RequestModel) {
    (
        ResolverModel { cached: Some(path), phase: PhaseModel::Idle },
        RequestModel::Finish(Ok(path)),
    )
}

/// A resolution that ends with `error`: what was remembered stays.
pub open spec fn failed(resolver: ResolverModel, error: ErrorModel) -> (
    ResolverModel,
    RequestModel,
) {
    (moved_to(resolver, PhaseModel::Idle), RequestModel::Finish(Err(error)))
}

/// The transition relation of the locator.
///
/// An executable on the search path wins. Otherwise a remembered path is used
/// if it still names a regular file. Otherwise the latest release is
/// installed: its asset for this platform is downloaded and unpacked, unless
/// the expected binary is already there; the binary is marked executable and
/// every other entry of the download root is removed. An event that does not
/// answer the request last made yields `None`.
pub open spec fn step_of(resolver: ResolverModel, event: EventModel) -> Option<
    (ResolverModel, RequestModel),
> {
    match (resolver.phase, event) {
        (PhaseModel::Idle, EventModel::Begin) => Some(
            (
                moved_to(resolver, PhaseModel::LookingOnPath),
                RequestModel::FindOnPath(tool_name_of()),
            ),
        ),
        (PhaseModel::LookingOnPath, EventModel::PathLookup(Some(path))) => Some(resolved(path)),
        (PhaseModel::LookingOnPath, EventModel::PathLookup(None)) => match resolver.cached {
            Some(path) => Some(
                (
                    moved_to(resolver, PhaseModel::CheckingCached(path)),
                    RequestModel::CheckFile(path),
                ),
            ),
            None => Some((moved_to(resolver, PhaseModel::FetchingRelease), fetch_request_of())),
        },
        (PhaseModel::CheckingCached(path), EventModel::FileCheck(present)) => if present {
            Some(resolved(path))
        } else {
            Some((moved_to(resolver, PhaseModel::FetchingRelease), fetch_request_of()))
        },
        (PhaseModel::FetchingRelease, EventModel::ReleaseLookup(Ok(release))) => Some(
            (
                moved_to(resolver, PhaseModel::QueryingPlatform(release)),
                RequestModel::QueryPlatform,
            ),
        ),
        (PhaseModel::FetchingRelease, EventModel::ReleaseLookup(Err(cause))) => Some(
            failed(resolver, ErrorModel::Lookup(cause)),
        ),
        (PhaseModel::QueryingPlatform(release), EventModel::Platform(os, arch)) => {
            match install_plan_of(release, os, arch) {
                Ok(plan) => Some(
                    (
                        moved_to(resolver, PhaseModel::CheckingBinary(plan)),
                        RequestModel::CheckFile(plan.binary_path),
                    ),
                ),
                Err(error) => Some(failed(resolver, error)),
            }
        },
        (PhaseModel::CheckingBinary(plan), EventModel::FileCheck(present)) => if present {
            Some(resolved(plan.binary_path))
        } else {
            Some(
                (
                    moved_to(resolver, PhaseModel::Downloading(plan)),
                    RequestModel::Download {
                        url: plan.download_url,
                        destination: download_root_of(),
                        archive: plan.archive,
                    },
                ),
            )
        },
        (PhaseModel::Downloading(plan), EventModel::Downloaded(Ok(_))) => Some(
            (
                moved_to(resolver, PhaseModel::MarkingExecutable(plan)),
                RequestModel::MakeExecutable(plan.binary_path),
            ),
        ),
        (PhaseModel::Downloading(_), EventModel::Downloaded(Err(cause))) => Some(
            failed(resolver, ErrorModel::Transfer(download_failure_detail(cause))),
        ),
        (PhaseModel::MarkingExecutable(plan), EventModel::MadeExecutable(Ok(_))) => Some(
            (
                moved_to(resolver, PhaseModel::Listing(plan)),
                RequestModel::ListDirectory(download_root_of()),
            ),
        ),
        (PhaseModel::MarkingExecutable(plan), EventModel::MadeExecutable(Err(cause))) => Some(
            failed(resolver, ErrorModel::Filesystem(plan.binary_path, cause)),
        ),
        (PhaseModel::Listing(plan), EventModel::Listed(Ok(entries))) => {
            let pruning = prune_plan_of(entries, plan.version_dir);
            Some(
                (
                    moved_to(resolver, PhaseModel::Pruning(plan, pruning.failure)),
                    RequestModel::RemoveEntries(pruning.remove),
                ),
            )
        },
        (PhaseModel::Listing(_), EventModel::Listed(Err(cause))) => Some(
            failed(
                resolver,
                ErrorModel::Filesystem(download_root_of(), listing_failure_detail(cause)),
            ),
        ),
        (PhaseModel::Pruning(plan, None), EventModel::Pruned) => Some(resolved(plan.binary_path)),
        (PhaseModel::Pruning(_, Some(detail)), EventModel::Pruned) => Some(
            failed(resolver, ErrorModel::Filesystem(download_root_of(), detail)),
        ),
        _ => None,
    }
}

/// How far a resolution has come: each request but the last moves the
/// resolver to a later phase.
pub open spec fn phase_rank(phase: PhaseModel) -> nat {
    match phase {
        PhaseModel::Idle => 0,
        PhaseModel::LookingOnPath => 1,
        PhaseModel::CheckingCached(_) => 2,
        PhaseModel::FetchingRelease => 3,
        PhaseModel::QueryingPlatform(_) => 4,
        PhaseModel::CheckingBinary(_) => 5,
        PhaseModel::Downloading(_) => 6,
        PhaseModel::MarkingExecutable(_) => 7,
        PhaseModel::Listing(_) => 8,
        PhaseModel::Pruning(_, _) => 9,
    }
}

/// The status shown to the host before a request is carried out.
pub open spec fn status_of(request: RequestModel) -> Option<InstallStatus> {
    match request {
        RequestModel::FetchLatestRelease { .. } => Some(InstallStatus::CheckingForUpdate),
        RequestModel::Download { .. } => Some(InstallStatus::Downloading),
        _ => None,
    }
}

impl Request {
    /// The status to report to the host before carrying out this request:
    /// one for each network-bound request, none for the others.
    pub fn status(&self) -> (status: Option<InstallStatus>)
        ensures
            status == status_of(self.deep_view()),
    {
        match self {
            Request::FetchLatestRelease { .. } => Some(InstallStatus::CheckingForUpdate),
            Request::Download { .. } => Some(InstallStatus::Downloading),
            _ => None,
        }
    }
}

fn fetch_request() -> (request: Request)
    ensures
        request.deep_view() == fetch_request_of(),
{
    Request::FetchLatestRelease {
        repository: String::from_str("10fish/systemd-language-server-rs"),
        require_assets: true,
        pre_release: false,
    }
}

impl Resolver {
    /// A resolver that remembers nothing and has no resolution under way.
    pub fn new() -> (resolver: Resolver)
        ensures
            resolver.deep_view() == (ResolverModel { cached: None, phase: PhaseModel::Idle }),
    {
        Resolver { cached_executable_path: None, phase: Phase::Idle }
    }

    /// Gives up the resolution under way, if any. What is remembered stays.
    pub fn abandon(&mut self)
        ensures
            final(self).deep_view() == moved_to(old(self).deep_view(), PhaseModel::Idle),
    {
        self.phase = Phase::Idle;
    }

    /// Takes the outcome of the request last made and says what to do next.
    ///
    /// Follows [`step_of`]. An event that does not answer the request last
    /// made is ignored: the resolver stays as it is and `None` is returned.
    pub fn step(&mut self, event: Event) -> (request: Option<Request>)
        ensures
            match step_of(old(self).deep_view(), event.deep_view()) {
                Some((next, wanted)) => final(self).deep_view() == next && request.deep_view()
                    == Some(wanted),
                None => final(self).deep_view() == old(self).deep_view() && request is None,
            },
    {
        let mut phase = Phase::Idle;
        core::mem::swap(&mut self.phase, &mut phase);
        match (phase, event) {
            (Phase::Idle, Event::Begin) => {
                self.phase = Phase::LookingOnPath;
                Some(Request::FindOnPath(String::from_str("systemd")))
            },
            (Phase::LookingOnPath, Event::PathLookup(Some(path))) => {
                self.cached_executable_path = Some(path.clone());
                Some(Request::Finish(Ok(path)))
            },
            (Phase::LookingOnPath, Event::PathLookup(None)) => {
                match &self.cached_executable_path {
                    Some(path) => {
                        let request = Request::CheckFile(path.clone());
                        self.phase = Phase::CheckingCached(path.clone());
                        Some(request)
                    },
                    None => {
                        self.phase = Phase::FetchingRelease;
                        Some(fetch_request())
                    },
                }
            },
            (Phase::CheckingCached(path), Event::FileCheck(present)) => {
                if present {
                    self.cached_executable_path = Some(path.clone());
                    Some(Request::Finish(Ok(path)))
                } else {
                    self.phase = Phase::FetchingRelease;
                    Some(fetch_request())
                }
            },
            (Phase::FetchingRelease, Event::ReleaseLookup(Ok(release))) => {
                self.phase = Phase::QueryingPlatform(release);
                Some(Request::QueryPlatform)
            },
            (Phase::FetchingRelease, Event::ReleaseLookup(Err(cause))) => {
                Some(Request::Finish(Err(ResolveError::Lookup(cause))))
            },
            (Phase::QueryingPlatform(release), Event::Platform(os, arch)) => {
                match plan_install(&release, os, arch) {
                    Ok(plan) => {
                        let request = Request::CheckFile(plan.binary_path.clone());
                        self.phase = Phase::CheckingBinary(plan);
                        Some(request)
                    },
                    Err(error) => Some(Request::Finish(Err(error))),
                }
            },
            (Phase::CheckingBinary(plan), Event::FileCheck(present)) => {
                if present {
                    self.cached_executable_path = Some(plan.binary_path.clone());
                    Some(Request::Finish(Ok(plan.binary_path)))
                } else {
                    let request = Request::Download {
                        url: plan.download_url.clone(),
                        destination: String::from_str(download_root()),
                        archive: plan.archive,
                    };
                    self.phase = Phase::Downloading(plan);
                    Some(request)
                }
            },
            (Phase::Downloading(plan), Event::Downloaded(Ok(_))) => {
                let request = Request::MakeExecutable(plan.binary_path.clone());
                self.phase = Phase::MarkingExecutable(plan);
                Some(request)
            },
            (Phase::Downloading(_), Event::Downloaded(Err(cause))) => {
                Some(Request::Finish(Err(ResolveError::download_failed(cause.as_str()))))
            },
            (Phase::MarkingExecutable(plan), Event::MadeExecutable(Ok(_))) => {
                self.phase = Phase::Listing(plan);
                Some(Request::ListDirectory(String::from_str(download_root())))
            },
            (Phase::MarkingExecutable(plan), Event::MadeExecutable(Err(cause))) => {
                Some(Request::Finish(Err(ResolveError::Filesystem(plan.binary_path, cause))))
            },
            (Phase::Listing(plan), Event::Listed(Ok(entries))) => {
                let pruning = plan_prune(&entries, plan.version_dir.as_str());
                self.phase = Phase::Pruning(plan, pruning.failure);
                Some(Request::RemoveEntries(pruning.remove))
            },
            (Phase::Listing(_), Event::Listed(Err(cause))) => {
                Some(
                    Request::Finish(
                        Err(ResolveError::listing_failed(download_root(), cause.as_str())),
                    ),
                )
            },
            (Phase::Pruning(plan, None), Event::Pruned) => {
                self.cached_executable_path = Some(plan.binary_path.clone());
                Some(Request::Finish(Ok(plan.binary_path)))
            },
            (Phase::Pruning(_, Some(detail)), Event::Pruned) => {
                Some(
                    Request::Finish(
                        Err(ResolveError::Filesystem(String::from_str(download_root()), detail)),
                    ),
                )
            },
            (phase, _) => {
                self.phase = phase;
                None
            },
        }
    }
}

} // verus!
