//! The ways a job can fail.

use vstd::prelude::*;

verus! {

/// Why a job stopped before producing a video.
#[derive(Clone, Copy, Debug, PartialEq, Eq, Structural)]
pub enum GourceError {
    InvalidUrl,
    UnsupportedRepository,
    TempDirCreationFailed,
    CloneFailed,
    CommitCountFailed,
    GourceGenerationFailed,
    DecryptionFailed,
}

impl GourceError {
    /// The message recorded in a failed job.
    pub open spec fn message_text(self) -> Seq<char> {
        match self {
            GourceError::InvalidUrl => "Invalid URL"@,
            GourceError::UnsupportedRepository => "Only GitHub repositories are supported"@,
            GourceError::TempDirCreationFailed => "Failed to create temporary directory"@,
            GourceError::CloneFailed => "Failed to clone repository"@,
            GourceError::CommitCountFailed => "Failed to count commits"@,
            GourceError::GourceGenerationFailed => "Failed to generate Gource visualization"@,
            GourceError::DecryptionFailed => "Failed to decrypt access token"@,
        }
    }

    pub fn message(&self) -> (r: String)
        ensures
            r@ == self.message_text(),
    {
        match self {
            GourceError::InvalidUrl => String::from_str("Invalid URL"),
            GourceError::UnsupportedRepository => String::from_str(
                "Only GitHub repositories are supported",
            ),
            GourceError::TempDirCreationFailed => String::from_str(
                "Failed to create temporary directory",
            ),
            GourceError::CloneFailed => String::from_str("Failed to clone repository"),
            GourceError::CommitCountFailed => String::from_str("Failed to count commits"),
            GourceError::GourceGenerationFailed => String::from_str(
                "Failed to generate Gource visualization",
            ),
            GourceError::DecryptionFailed => String::from_str("Failed to decrypt access token"),
        }
    }
}

} // verus!
