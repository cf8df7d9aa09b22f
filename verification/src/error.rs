//! Error taxonomy of the release workflow. Every remote-call failure except
//! tag deletion is fatal and aborts the remaining pipeline.

use vstd::prelude::*;

verus! {

/// A terminal error of the release workflow, named after the step that failed.
#[derive(Clone, Copy, Debug, PartialEq, Eq, Structural)]
pub enum ReleaseError {
    /// The requested tag does not match `v<major>.<minor>.<patch>[suffix]`.
    InvalidTagFormat,
    /// Incrementing the patch component would leave the 32-bit unsigned range.
    PatchOverflow,
    /// Looking up a release by tag failed with a transport or server error.
    ReleaseQueryFailed,
    /// Checking whether a branch exists failed with a transport error.
    BranchQueryFailed,
    /// Deleting an existing release failed.
    ReleaseDeletionFailed,
    /// Reading the tip commit of the release branch failed.
    CommitLookupFailed,
    /// Creating the annotated tag object failed.
    TagObjectCreationFailed,
    /// Creating the tag reference failed.
    TagRefCreationFailed,
    /// Creating the release failed.
    ReleaseCreationFailed,
    /// Updating the release body failed.
    ReleaseUpdateFailed,
    /// The release body was absent or blank: there is nothing to format.
    EmptyReleaseNotes,
    /// The notes-formatting call failed or its response held no text.
    NotesFormattingFailed,
}

impl ReleaseError {
    /// A short description, for the process's diagnostic output.
    pub fn describe(&self) -> (r: &'static str)
        ensures
            r@.len() > 0,
            r@ == match self {
                ReleaseError::InvalidTagFormat => "invalid semantic version tag format"@,
                ReleaseError::PatchOverflow => "patch version does not fit a 32-bit unsigned integer"@,
                ReleaseError::ReleaseQueryFailed => "failed to get release"@,
                ReleaseError::BranchQueryFailed => "failed to check branch existence"@,
                ReleaseError::ReleaseDeletionFailed => "failed to delete release"@,
                ReleaseError::CommitLookupFailed => "failed to get latest commit"@,
                ReleaseError::TagObjectCreationFailed => "failed to create tag object"@,
                ReleaseError::TagRefCreationFailed => "failed to create tag ref"@,
                ReleaseError::ReleaseCreationFailed => "failed to create release"@,
                ReleaseError::ReleaseUpdateFailed => "failed to update release"@,
                ReleaseError::EmptyReleaseNotes => "no release notes found or notes are empty"@,
                ReleaseError::NotesFormattingFailed => "failed to extract formatted release notes"@,
            },
    {
        proof {
            reveal_strlit("invalid semantic version tag format");
            reveal_strlit("patch version does not fit a 32-bit unsigned integer");
            reveal_strlit("failed to get release");
            reveal_strlit("failed to check branch existence");
            reveal_strlit("failed to delete release");
            reveal_strlit("failed to get latest commit");
            reveal_strlit("failed to create tag object");
            reveal_strlit("failed to create tag ref");
            reveal_strlit("failed to create release");
            reveal_strlit("failed to update release");
            reveal_strlit("no release notes found or notes are empty");
            reveal_strlit("failed to extract formatted release notes");
        }
        match self {
            ReleaseError::InvalidTagFormat => "invalid semantic version tag format",
            ReleaseError::PatchOverflow => "patch version does not fit a 32-bit unsigned integer",
            ReleaseError::ReleaseQueryFailed => "failed to get release",
            ReleaseError::BranchQueryFailed => "failed to check branch existence",
            ReleaseError::ReleaseDeletionFailed => "failed to delete release",
            ReleaseError::CommitLookupFailed => "failed to get latest commit",
            ReleaseError::TagObjectCreationFailed => "failed to create tag object",
            ReleaseError::TagRefCreationFailed => "failed to create tag ref",
            ReleaseError::ReleaseCreationFailed => "failed to create release",
            ReleaseError::ReleaseUpdateFailed => "failed to update release",
            ReleaseError::EmptyReleaseNotes => "no release notes found or notes are empty",
            ReleaseError::NotesFormattingFailed => "failed to extract formatted release notes",
        }
    }
}

} // verus!
