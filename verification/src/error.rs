//! Error taxonomy of the install and launch pipeline.
//!
//! Every failure of the planner, the verifier and the supervisor decisions is
//! one of these kinds; the host shell maps transport-level failures onto
//! `NetworkError` and `IOError` before handing control back to the library.

use vstd::prelude::*;

verus! {

/// A failure of the install or launch pipeline.
#[derive(Clone, Debug)]
pub enum LauncherError {
    /// An HTTP request failed or returned a non-success status.
    NetworkError { url: String },
    /// A downloaded body did not match its declared SHA-1 digest.
    HashMismatch { path: String, expected: String, actual: String },
    /// A downloaded body did not match its declared size.
    SizeMismatch { path: String, expected: u64, actual: u64 },
    /// A required field was absent from an upstream manifest.
    ManifestMissingField { field: String },
    /// The requested game version does not appear in the version index.
    VersionNotFound { version: String },
    /// The current operating system or architecture is unsupported.
    UnsupportedPlatform,
    /// The runtime slot directory for a distribution/major pair is absent.
    RuntimeSlotMissing,
    /// The runtime slot exists but holds no executable at the expected path.
    RuntimeBinaryMissing,
    /// An archive could not be read or one of its entries was invalid.
    ArchiveError,
    /// A filesystem operation failed.
    IOError { path: String },
    /// The external installer exited with a non-zero code.
    InstallerFailure { code: i32 },
    /// The supervised game process exited with a non-success code.
    NonZeroExit { code: i32 },
    /// The profile names a loader this crate cannot install.
    LoaderNotSupported { loader: String },
}

} // verus!
