//! The failures the pipeline reports, each with the text shown for it.

use vstd::prelude::*;
use vstd::string::StringExecFns;

verus! {

/// A cached resource that a conversion cannot start without.
#[derive(Debug, Clone, Copy, PartialEq, Eq, Structural)]
pub enum RequiredResource {
    /// The catalog of sources of the application the backup comes from.
    Sources,
    /// The catalog of parsers of the application the backup goes to.
    Parsers,
}

/// One of the two paths a conversion run needs.
#[derive(Debug, Clone, Copy, PartialEq, Eq, Structural)]
pub enum SelectionField {
    /// The backup to read.
    Backup,
    /// The archive to write.
    Save,
}

/// Why a transfer gave no resource.
#[derive(Debug, Clone, PartialEq, Eq)]
pub enum NetworkFailure {
    /// The request or the body did not get through; the cause, in words.
    Transport(String),
    /// The server answered with this status, which is not success.
    Status(u16),
}

/// The text shown for a transfer that failed.
pub open spec fn network_cause(failure: NetworkFailure) -> Seq<char> {
    match failure {
        NetworkFailure::Transport(cause) => cause@,
        NetworkFailure::Status(_) => "non-OK status code"@,
    }
}

/// Why an operation of the pipeline did not complete.
#[derive(Debug, Clone, PartialEq, Eq)]
pub enum PipelineError {
    /// A required resource is not in the cache.
    MissingResource(RequiredResource),
    /// A path was not chosen before the conversion was asked for.
    MissingSelection(SelectionField),
    /// The destination does not carry the archive extension.
    InvalidExtension,
    /// The transfer failed, or the server did not answer with success.
    NetworkError(NetworkFailure),
    /// The downloaded parser archive could not be turned into its catalog.
    DerivedTransformError(String),
    /// The backup could not be decoded.
    DecodeError(String),
    /// The catalogs could not be loaded into a converter.
    ContextBuildError(String),
    /// The archive could not be opened, written or finished.
    ArchiveWriteError(String),
    /// No resource goes by this key.
    UnknownResource(String),
}

/// The text shown for `e`.
pub open spec fn message_of(e: PipelineError) -> Seq<char> {
    match e {
        PipelineError::MissingResource(RequiredResource::Sources) =>
            "Tachiyomi source list not downloaded"@,
        PipelineError::MissingResource(RequiredResource::Parsers) =>
            "Kotatsu parsers list not downloaded"@,
        PipelineError::MissingSelection(SelectionField::Backup) => "Backup not chosen"@,
        PipelineError::MissingSelection(SelectionField::Save) => "Save path not set"@,
        PipelineError::InvalidExtension => "File must be a .zip file"@,
        PipelineError::NetworkError(failure) => "Error downloading file: "@ + network_cause(failure),
        PipelineError::DerivedTransformError(cause) => "Failed to update parsers: "@ + cause@,
        PipelineError::DecodeError(cause) =>
            "Error decoding backup, was this a valid tachiyomi backup? Original error: "@ + cause@,
        PipelineError::ContextBuildError(cause) => "Error source/parsers files: "@ + cause@,
        PipelineError::ArchiveWriteError(cause) => "Error saving converted backup: "@ + cause@,
        PipelineError::UnknownResource(key) => "Unknown resource: "@ + key@,
    }
}

impl PipelineError {
    /// The text to show for this failure.
    pub fn message(&self) -> (text: String)
        ensures
            text@ == message_of(*self),
    {
        match self {
            PipelineError::MissingResource(RequiredResource::Sources) =>
                "Tachiyomi source list not downloaded".to_string(),
            PipelineError::MissingResource(RequiredResource::Parsers) =>
                "Kotatsu parsers list not downloaded".to_string(),
            PipelineError::MissingSelection(SelectionField::Backup) =>
                "Backup not chosen".to_string(),
            PipelineError::MissingSelection(SelectionField::Save) =>
                "Save path not set".to_string(),
            PipelineError::InvalidExtension => "File must be a .zip file".to_string(),
            PipelineError::NetworkError(NetworkFailure::Transport(cause)) =>
                String::from_str("Error downloading file: ").concat(cause.as_str()),
            PipelineError::NetworkError(NetworkFailure::Status(_)) =>
                String::from_str("Error downloading file: ").concat("non-OK status code"),
            PipelineError::DerivedTransformError(cause) =>
                String::from_str("Failed to update parsers: ").concat(cause.as_str()),
            PipelineError::DecodeError(cause) => String::from_str(
                "Error decoding backup, was this a valid tachiyomi backup? Original error: ",
            ).concat(cause.as_str()),
            PipelineError::ContextBuildError(cause) =>
                String::from_str("Error source/parsers files: ").concat(cause.as_str()),
            PipelineError::ArchiveWriteError(cause) =>
                String::from_str("Error saving converted backup: ").concat(cause.as_str()),
            PipelineError::UnknownResource(key) =>
                String::from_str("Unknown resource: ").concat(key.as_str()),
        }
    }
}

} // verus!
