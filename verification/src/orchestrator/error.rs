//! The errors with which a set-up stage ends, and what is said of them.

use vstd::prelude::*;
use vstd::string::StringSliceAdditionalSpecFns;
use vstd::utf8::encode_utf8;

verus! {

/// Why a stage ended without success.
#[derive(Clone, Copy, Debug, PartialEq, Eq)]
pub enum SetupError {
    /// The version-control client cannot be run.
    GitMissing,
    /// Every attempt on every mirror failed.
    BootstrapExhausted,
    /// The bootstrap script reported failure.
    BootstrapFailed,
    /// The bootstrap script reported success and left no executable.
    BootstrapVerificationFailed,
    /// Packages were asked for before the tool was installed.
    ToolMissing,
    /// The installed package could not be removed.
    RemoveFailed,
    /// The install command reported failure.
    InstallFailed,
    /// No archive of the sources was found among the downloads.
    ArchiveMissing,
    /// The archive could not be unpacked or moved into place.
    ExtractionFailed,
    /// The archive unpacked to no top-level directory.
    NoTopLevelDirectory,
}

/// What is said of `error` to the user.
pub open spec fn setup_message(error: SetupError) -> Seq<char> {
    match error {
        SetupError::GitMissing => GIT_MISSING@,
        SetupError::BootstrapExhausted => BOOTSTRAP_EXHAUSTED@,
        SetupError::BootstrapFailed => BOOTSTRAP_FAILED@,
        SetupError::BootstrapVerificationFailed => BOOTSTRAP_VERIFICATION_FAILED@,
        SetupError::ToolMissing => TOOL_MISSING@,
        SetupError::RemoveFailed => REMOVE_FAILED@,
        SetupError::InstallFailed => INSTALL_FAILED@,
        SetupError::ArchiveMissing => ARCHIVE_MISSING@,
        SetupError::ExtractionFailed => EXTRACTION_FAILED@,
        SetupError::NoTopLevelDirectory => NO_TOP_LEVEL_DIRECTORY@,
    }
}

/// Said where the version-control client cannot be run.
pub const GIT_MISSING: &'static str =
    "git is not installed or not in PATH, please install git first";

/// Said where every clone failed.
pub const BOOTSTRAP_EXHAUSTED: &'static str = "bootstrap exhausted: every mirror failed";

/// Said where the bootstrap script failed.
pub const BOOTSTRAP_FAILED: &'static str = "vcpkg bootstrap failed";

/// Said where the bootstrap script left no executable.
pub const BOOTSTRAP_VERIFICATION_FAILED: &'static str =
    "bootstrap verification failed: vcpkg executable was not generated";

/// Said where packages are asked for without the tool.
pub const TOOL_MISSING: &'static str = "vcpkg is not installed, please call install_vcpkg() first";

/// Said where the package could not be removed.
pub const REMOVE_FAILED: &'static str = "Failed to remove existing ffmpeg package";

/// Said where the install command failed.
pub const INSTALL_FAILED: &'static str = "ffmpeg installation failed";

/// Said where no archive was found among the downloads.
pub const ARCHIVE_MISSING: &'static str =
    "archive missing: ffmpeg tar.gz file not found, please install ffmpeg package first";

/// Said where the archive could not be unpacked or moved.
pub const EXTRACTION_FAILED: &'static str = "ffmpeg archive could not be unpacked into place";

/// Said where the archive unpacked to no directory.
pub const NO_TOP_LEVEL_DIRECTORY: &'static str = "Top-level directory not found after extraction";

/// What stands between the message and the output of the last failure.
pub const LAST_ERROR: &'static str = "; last error: ";

/// What is reported when a stage ends with `error`, after a last failure
/// that printed `last_output`: the message and, where every clone failed
/// and the last one printed something, that output behind it.
pub open spec fn setup_report(error: SetupError, last_output: Seq<u8>) -> Seq<u8> {
    if error == SetupError::BootstrapExhausted && last_output.len() > 0 {
        encode_utf8(setup_message(error)) + LAST_ERROR.spec_bytes() + last_output
    } else {
        encode_utf8(setup_message(error))
    }
}

impl SetupError {
    /// What is said of the error to the user.
    pub fn message(&self) -> (r: &'static str)
        ensures
            r@ == setup_message(*self),
    {
        match self {
            SetupError::GitMissing => GIT_MISSING,
            SetupError::BootstrapExhausted => BOOTSTRAP_EXHAUSTED,
            SetupError::BootstrapFailed => BOOTSTRAP_FAILED,
            SetupError::BootstrapVerificationFailed => BOOTSTRAP_VERIFICATION_FAILED,
            SetupError::ToolMissing => TOOL_MISSING,
            SetupError::RemoveFailed => REMOVE_FAILED,
            SetupError::InstallFailed => INSTALL_FAILED,
            SetupError::ArchiveMissing => ARCHIVE_MISSING,
            SetupError::ExtractionFailed => EXTRACTION_FAILED,
            SetupError::NoTopLevelDirectory => NO_TOP_LEVEL_DIRECTORY,
        }
    }

    /// What is reported when a stage ends with this error; `last_output` is
    /// what the last failed action printed. Where every clone failed, the
    /// report ends with what the last one printed.
    pub fn report(&self, last_output: &[u8]) -> (r: Vec<u8>)
        ensures
            r@ == setup_report(*self, last_output@),
    {
        let mut out: Vec<u8> = Vec::new();
        out.extend_from_slice(self.message().as_bytes());
        let exhausted = match self {
            SetupError::BootstrapExhausted => true,
            _ => false,
        };
        if exhausted && last_output.len() > 0 {
            out.extend_from_slice(LAST_ERROR.as_bytes());
            out.extend_from_slice(last_output);
        }
        out
    }
}

} // verus!
