//! The error taxonomy of the crate: construction errors, authentication
//! errors, and the per-file streaming errors.

use vstd::prelude::*;

verus! {

/// Everything that can go wrong while logging in or downloading.
///
/// `IncorrectCredentials` is terminal: a refresh that fails with it must not
/// be retried. `UnknownSessionError` stands for an unexpected HTTP status
/// during the login cascade and is retried at most once through the refresh
/// cascade of a batch.
#[derive(Debug, Clone, PartialEq, Eq)]
pub enum OsuMapDownloadError {
    /// The identity handed to a constructor is malformed.
    ConstructionError,
    /// The download destination does not exist or is not a directory.
    InvalidDestinationError,
    /// The remote service rejected the credentials.
    IncorrectCredentials,
    /// The login cascade saw a status it cannot interpret.
    UnknownSessionError,
    /// The response carried no usable content length.
    UnknownSizeError,
    /// A chunk of the response body could not be read.
    DownloadPartError,
    /// The target file could not be created or written.
    TargetFileError { path: String, reason: String },
}

/// The description `message` reports for each error.
pub open spec fn spec_message(e: OsuMapDownloadError) -> Seq<char> {
    match e {
        OsuMapDownloadError::ConstructionError => "malformed identity"@,
        OsuMapDownloadError::InvalidDestinationError => "destination is not a directory"@,
        OsuMapDownloadError::IncorrectCredentials => "credentials rejected, check the password"@,
        OsuMapDownloadError::UnknownSessionError => "unexpected response during login"@,
        OsuMapDownloadError::UnknownSizeError => "response size unknown"@,
        OsuMapDownloadError::DownloadPartError => "connection broke while downloading"@,
        OsuMapDownloadError::TargetFileError { .. } => "cannot create or write the target file"@,
    }
}

impl OsuMapDownloadError {
    /// A short description of the error, for reporting to the user.
    pub fn message(&self) -> (r: String)
        ensures
            r@ == spec_message(*self),
    {
        match self {
            OsuMapDownloadError::ConstructionError => "malformed identity".to_owned(),
            OsuMapDownloadError::InvalidDestinationError => {
                "destination is not a directory".to_owned()
            },
            OsuMapDownloadError::IncorrectCredentials => {
                "credentials rejected, check the password".to_owned()
            },
            OsuMapDownloadError::UnknownSessionError => {
                "unexpected response during login".to_owned()
            },
            OsuMapDownloadError::UnknownSizeError => "response size unknown".to_owned(),
            OsuMapDownloadError::DownloadPartError => {
                "connection broke while downloading".to_owned()
            },
            OsuMapDownloadError::TargetFileError { .. } => {
                "cannot create or write the target file".to_owned()
            },
        }
    }
}

} // verus!
