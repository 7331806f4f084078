use vstd::prelude::*;

verus! {

/// Every failure the pipelines can report.
///
/// `InvalidOwner` and `MissingMandatoryField` are the descriptor-level
/// failures: a file without the ownership marker, and serialization of a
/// descriptor lacking one of `Type`, `Version`, `Name`, `Exec`.
#[derive(Clone, Copy, Debug, PartialEq, Eq, Structural)]
pub enum AppError {
    /// A malformed request (for example, equal old and new install directories).
    InputError,
    /// The bundle could not be unpacked, or its payload held no descriptor.
    ExtractionFailed,
    /// A descriptor file could not be understood.
    ParseError,
    /// A descriptor file does not carry the ownership marker.
    InvalidOwner,
    /// Serialization was asked of a descriptor missing a mandatory field.
    MissingMandatoryField,
    /// No image file was found in the extracted payload.
    NoIconFound,
    /// A copy, create or remove on the filesystem failed.
    FilesystemError,
    /// The elevated helper could not be spawned or exited with failure.
    PrivilegeError,
    /// No installed descriptor matches the requested application name.
    AppNotFound,
}

impl AppError {
    /// A human-readable description of the failure.
    pub fn message(&self) -> (r: &'static str)
        ensures
            r@.len() > 0,
    {
        let m: &'static str = match self {
            AppError::InputError => "invalid request",
            AppError::ExtractionFailed => "failed to extract the AppImage payload",
            AppError::ParseError => "failed to parse the desktop entry",
            AppError::InvalidOwner => "desktop entry was not created by this application",
            AppError::MissingMandatoryField => "a mandatory desktop entry field is missing",
            AppError::NoIconFound => "no image files found",
            AppError::FilesystemError => "a filesystem operation failed",
            AppError::PrivilegeError => "the elevated helper failed",
            AppError::AppNotFound => "app not found",
        };
        proof {
            reveal_strlit("invalid request");
            reveal_strlit("failed to extract the AppImage payload");
            reveal_strlit("failed to parse the desktop entry");
            reveal_strlit("desktop entry was not created by this application");
            reveal_strlit("a mandatory desktop entry field is missing");
            reveal_strlit("no image files found");
            reveal_strlit("a filesystem operation failed");
            reveal_strlit("the elevated helper failed");
            reveal_strlit("app not found");
        }
        m
    }
}

} // verus!
