//! The kinds of failure a run can meet.

use vstd::prelude::*;

verus! {

/// Why a step of the run failed.
#[derive(Clone, Copy, Debug, PartialEq, Eq, Structural)]
pub enum ErrorKind {
    /// Required configuration is missing or unusable.
    ConfigurationError,
    /// A remote input is not a URL that names a file.
    InvalidUrl,
    /// A local file has no usable name or could not be read.
    IoError,
    /// A remote source answered without success.
    FetchError,
    /// The container could neither be found nor created.
    ProvisioningError,
    /// Writing an object failed.
    UploadError,
}

impl ErrorKind {
    /// Whether a failure of this kind ends the run. Only a refused fetch
    /// does not: its item is skipped.
    pub open spec fn fatal(self) -> bool {
        self != ErrorKind::FetchError
    }

    /// Whether a failure of this kind ends the run.
    pub fn is_fatal(&self) -> (fatal: bool)
        ensures
            fatal == self.fatal(),
    {
        match self {
            ErrorKind::FetchError => false,
            _ => true,
        }
    }

    /// A diagnostic for this kind of failure.
    pub fn message(&self) -> (text: &'static str)
        ensures
            text@ == match *self {
                ErrorKind::ConfigurationError => "required configuration is missing or malformed"@,
                ErrorKind::InvalidUrl => "the input is not a URL that names a file"@,
                ErrorKind::IoError => "the file has no usable name or could not be read"@,
                ErrorKind::FetchError => "the remote source answered without success"@,
                ErrorKind::ProvisioningError => "the container could not be provided"@,
                ErrorKind::UploadError => "the object could not be written"@,
            },
    {
        match self {
            ErrorKind::ConfigurationError => "required configuration is missing or malformed",
            ErrorKind::InvalidUrl => "the input is not a URL that names a file",
            ErrorKind::IoError => "the file has no usable name or could not be read",
            ErrorKind::FetchError => "the remote source answered without success",
            ErrorKind::ProvisioningError => "the container could not be provided",
            ErrorKind::UploadError => "the object could not be written",
        }
    }
}

} // verus!
