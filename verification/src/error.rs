//! Why a resolution attempt failed.

use vstd::prelude::*;
use vstd::string::*;

verus! {

/// Failure of a resolution attempt.
#[derive(Clone, Debug, PartialEq, Eq)]
pub enum ResolveError {
    /// The release query failed, or the release holds no asset for this
    /// platform; the detail names the asset that was looked for.
    Lookup(String),
    /// Download or extraction failed; holds the description with its cause.
    Transfer(String),
    /// A file-system step failed on the given path; the second field is the
    /// description with its cause.
    Filesystem(String, String),
}

/// Mathematical content of a [`ResolveError`].
pub enum ErrorModel {
    Lookup(Seq<char>),
    Transfer(Seq<char>),
    Filesystem(Seq<char>, Seq<char>),
}

impl DeepView for ResolveError {
    type V = ErrorModel;

    open spec fn deep_view(&self) -> ErrorModel {
        match self {
            ResolveError::Lookup(detail) => ErrorModel::Lookup(detail@),
            ResolveError::Transfer(detail) => ErrorModel::Transfer(detail@),
            ResolveError::Filesystem(path, detail) => ErrorModel::Filesystem(path@, detail@),
        }
    }
}

/// The descriptive text of an error.
pub open spec fn message_of(error: ErrorModel) -> Seq<char> {
    match error {
        ErrorModel::Lookup(detail) => detail,
        ErrorModel::Transfer(detail) => detail,
        ErrorModel::Filesystem(_, detail) => detail,
    }
}

/// Detail of the error raised when the release lacks the asset `name`.
pub open spec fn missing_asset_detail(name: Seq<char>) -> Seq<char> {
    "no asset found matching \""@ + name + "\""@
}

/// Description of a failed download with its cause.
pub open spec fn download_failure_detail(cause: Seq<char>) -> Seq<char> {
    "failed to download file: "@ + cause
}

/// Description of a failed directory listing with its cause.
pub open spec fn listing_failure_detail(cause: Seq<char>) -> Seq<char> {
    "failed to list working directory "@ + cause
}

/// Description of an unreadable directory entry with its cause.
pub open spec fn entry_failure_detail(cause: Seq<char>) -> Seq<char> {
    "failed to load directory entry "@ + cause
}

impl ResolveError {
    /// The descriptive text handed to the host.
    pub fn message(&self) -> (text: String)
        ensures
            text@ == message_of(self.deep_view()),
    {
        match self {
            ResolveError::Lookup(detail) => detail.clone(),
            ResolveError::Transfer(detail) => detail.clone(),
            ResolveError::Filesystem(_, detail) => detail.clone(),
        }
    }

    /// The error for a release that lacks the asset `name`.
    pub fn missing_asset(name: &str) -> (error: ResolveError)
        ensures
            error.deep_view() == ErrorModel::Lookup(missing_asset_detail(name@)),
    {
        let mut detail = String::from_str("no asset found matching \"");
        detail.append(name);
        detail.append("\"");
        ResolveError::Lookup(detail)
    }

    /// The error for a download that failed with `cause`.
    pub fn download_failed(cause: &str) -> (error: ResolveError)
        ensures
            error.deep_view() == ErrorModel::Transfer(download_failure_detail(cause@)),
    {
        let mut detail = String::from_str("failed to download file: ");
        detail.append(cause);
        ResolveError::Transfer(detail)
    }

    /// The error for a listing of `path` that failed with `cause`.
    pub fn listing_failed(path: &str, cause: &str) -> (error: ResolveError)
        ensures
            error.deep_view() == ErrorModel::Filesystem(path@, listing_failure_detail(cause@)),
    {
        let mut detail = String::from_str("failed to list working directory ");
        detail.append(cause);
        ResolveError::Filesystem(String::from_str(path), detail)
    }
}

} // verus!
