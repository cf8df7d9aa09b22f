//! The release lifecycle as a state machine.
//!
//! Every remote operation is a suspension point: the orchestrator hands the
//! embedding program an [`Action`] to perform, receives the outcome as an
//! [`Event`], and decides the next transition. The decision logic is thereby
//! a pure function from state and event to the next state and action; the
//! program around it only performs I/O. Remote state read once is passed
//! through the states explicitly rather than re-fetched.
//!
//! A run is strictly sequential: no transition is retried, and any terminal
//! error aborts the remaining pipeline. A tolerated exception is tag
//! deletion, where a failure (typically: the tag was already absent) lets the
//! run proceed.

use vstd::pervasive::unreached;
use vstd::prelude::*;
use vstd::string::StrSliceExecFns;
use vstd::string::StringExecFns;

use crate::error::ReleaseError;
use crate::github_client::{spec_is_prerelease, target_branch_of, GitHubRelease};
use crate::version;
use crate::version::{incremented_tag, patch_val, release_branch_of, tag_wf};

verus! {

// ---------------------------------------------------------------------------
// Release notes
// ---------------------------------------------------------------------------

/// `c` has the Unicode white-space property.
pub open spec fn is_whitespace_char(c: char) -> bool {
    let u = c as int;
    ||| u == 9
    ||| u == 10
    ||| u == 11
    ||| u == 12
    ||| u == 13
    ||| u == 32
    ||| u == 0x85
    ||| u == 0xA0
    ||| u == 0x1680
    ||| (0x2000 <= u && u <= 0x200A)
    ||| u == 0x2028
    ||| u == 0x2029
    ||| u == 0x202F
    ||| u == 0x205F
    ||| u == 0x3000
}

/// Notes with no visible content: every character is white space. The empty
/// string is blank.
pub open spec fn notes_blank(s: Seq<char>) -> bool {
    forall|i: int| 0 <= i < s.len() ==> is_whitespace_char(#[trigger] s[i])
}

fn char_is_whitespace(c: char) -> (r: bool)
    ensures
        r == is_whitespace_char(c),
{
    let u = c as u32;
    u == 9 || u == 10 || u == 11 || u == 12 || u == 13 || u == 32 || u == 0x85 || u == 0xA0
        || u == 0x1680 || (0x2000 <= u && u <= 0x200A) || u == 0x2028 || u == 0x2029 || u == 0x202F
        || u == 0x205F || u == 0x3000
}

/// Whether `s` holds no visible content.
pub fn notes_are_blank(s: &str) -> (r: bool)
    ensures
        r == notes_blank(s@),
{
    let n = s.unicode_len();
    let mut i: usize = 0;
    while i < n
        invariant
            i <= n,
            n == s@.len(),
            forall|j: int| 0 <= j < i ==> is_whitespace_char(#[trigger] s@[j]),
        decreases n - i,
    {
        if !char_is_whitespace(s.get_char(i)) {
            return false;
        }
        i = i + 1;
    }
    true
}

/// The usable notes of a release: its body when present and not blank.
pub open spec fn spec_release_notes(rel: GitHubRelease) -> Option<Seq<char>> {
    match rel.body {
        Some(b) => if notes_blank(b@) {
            None
        } else {
            Some(b@)
        },
        None => None,
    }
}

/// The raw notes of a release; an absent or blank body is the terminal
/// `EmptyReleaseNotes` error, since there is nothing to format.
pub fn extract_release_notes(release: &GitHubRelease) -> (r: Result<String, ReleaseError>)
    ensures
        match r {
            Ok(s) => spec_release_notes(*release) == Some(s@),
            Err(e) => e is EmptyReleaseNotes && spec_release_notes(*release) is None,
        },
{
    match &release.body {
        Some(b) => {
            if notes_are_blank(b.as_str()) {
                Err(ReleaseError::EmptyReleaseNotes)
            } else {
                Ok(b.clone())
            }
        },
        None => Err(ReleaseError::EmptyReleaseNotes),
    }
}

// ---------------------------------------------------------------------------
// Actions, events, states
// ---------------------------------------------------------------------------

/// The remote operation the embedding program must perform next.
pub enum Action {
    /// Look up the release for `tag`; absence is a normal outcome.
    QueryRelease { tag: String },
    /// Check whether `branch` exists on the host.
    QueryBranch { branch: String },
    /// Delete the release with handle `id`.
    DeleteRelease { id: u64 },
    /// Delete the tag reference `tag`; failure is tolerated.
    DeleteTag { tag: String },
    /// Read the tip commit of `branch`.
    FetchCommit { branch: String },
    /// Create an annotated tag object for `tag` at `commit`.
    CreateTagObject { tag: String, message: String, commit: String },
    /// Create the reference for `tag` pointing at the tag object `object`.
    CreateTagRef { tag: String, object: String },
    /// Create a prerelease for `tag` cut from `branch`, with notes
    /// autogenerated by the host.
    CreateRelease { tag: String, branch: String },
    /// Format the raw notes through the text-generation service.
    FormatNotes { raw: String },
    /// Replace the body of release `id` with `body`.
    UpdateRelease { id: u64, body: String },
}

/// The outcome of the action just performed, as the embedding program
/// observed it.
pub enum Event {
    /// The release lookup answered: the release, or `None` for not-found.
    ReleaseQueried { release: Option<GitHubRelease> },
    /// The release lookup failed with a transport or server error.
    ReleaseQueryFailed,
    /// The branch existence check answered.
    BranchQueried { exists: bool },
    /// The branch existence check failed with a transport error.
    BranchQueryFailed,
    /// The release was deleted.
    ReleaseDeleted,
    /// Deleting the release failed.
    ReleaseDeletionFailed,
    /// The tag reference was deleted.
    TagDeleted,
    /// Deleting the tag reference failed, typically because it was already
    /// absent; tolerated either way.
    TagDeletionFailed,
    /// The tip commit of the branch was read.
    CommitFetched { sha: String },
    /// Reading the tip commit failed.
    CommitFetchFailed,
    /// The annotated tag object was created, with its hash.
    TagObjectCreated { sha: String },
    /// Creating the tag object failed.
    TagObjectCreationFailed,
    /// The tag reference was created.
    TagRefCreated,
    /// Creating the tag reference failed.
    TagRefCreationFailed,
    /// The release was created.
    ReleaseCreated { release: GitHubRelease },
    /// Creating the release failed.
    ReleaseCreationFailed,
    /// The formatting service answered with the formatted notes.
    NotesFormatted { text: String },
    /// The formatting call failed or its response held no text.
    NotesFormattingFailed,
    /// The release body was updated.
    ReleaseUpdated,
    /// Updating the release body failed.
    ReleaseUpdateFailed,
}

/// Where the workflow stands. Each state awaits the outcome of exactly one
/// remote operation, named by the action emitted on entering it.
pub enum OrchestratorState {
    /// Awaiting the release lookup for the requested tag, which decides
    /// whether the version must be bumped.
    ResolvingVersion { requested: String },
    /// The requested tag carries a prerelease; awaiting the existence check
    /// of its convention branch, which completes the bump decision.
    ResolvingBump { requested: String, existing: GitHubRelease },
    /// The version was bumped; awaiting the release lookup for the effective
    /// tag. A release found here is kept: it may continue a patch series.
    QueryingBumpedRelease { effective: String },
    /// Not bumped and a release exists for the tag; awaiting its deletion
    /// before recreation. A failure here is surfaced, not tolerated.
    DeletingRelease { effective: String },
    /// Not bumped; awaiting the tolerated deletion of the tag reference.
    DeletingTag { effective: String },
    /// Awaiting the existence check of the convention branch, which picks the
    /// branch to cut the release from.
    ResolvingBranch { effective: String, incremented: bool, existing: Option<GitHubRelease> },
    /// Awaiting the tip commit of the target branch.
    FetchingCommit {
        effective: String,
        incremented: bool,
        existing: Option<GitHubRelease>,
        branch: String,
    },
    /// Awaiting the annotated tag object.
    CreatingTagObject { effective: String, branch: String },
    /// Awaiting the tag reference.
    CreatingTagRef { effective: String, branch: String },
    /// Awaiting the newly created release.
    CreatingRelease { effective: String },
    /// Awaiting the formatted notes for release `id`.
    FormattingNotes { id: u64 },
    /// Awaiting the final body update of release `id`.
    PublishingNotes { id: u64 },
}

/// The result of one transition.
pub enum StepOutcome {
    /// The workflow continues: the next state, and the operation to perform
    /// before stepping again.
    Continue(OrchestratorState, Action),
    /// The workflow reached its terminal success state.
    Complete,
    /// The workflow aborted with a terminal error.
    Failed(ReleaseError),
}

/// Validity of a state: every tag it carries is well-formed, the release kept
/// by a pending bump decision is a prerelease, and an unbumped run reaches
/// branch resolution only after the old release is gone.
pub open spec fn state_wf(s: OrchestratorState) -> bool {
    match s {
        OrchestratorState::ResolvingVersion { requested } => tag_wf(requested@),
        OrchestratorState::ResolvingBump { requested, existing } => tag_wf(requested@)
            && existing.prerelease == Some(true),
        OrchestratorState::QueryingBumpedRelease { effective } => tag_wf(effective@),
        OrchestratorState::DeletingRelease { effective } => tag_wf(effective@),
        OrchestratorState::DeletingTag { effective } => tag_wf(effective@),
        OrchestratorState::ResolvingBranch { effective, incremented, existing } => tag_wf(effective@)
            && (!incremented ==> existing is None),
        OrchestratorState::FetchingCommit { effective, incremented, existing, .. } => tag_wf(
            effective@,
        ) && (!incremented ==> existing is None),
        OrchestratorState::CreatingTagObject { effective, .. } => tag_wf(effective@),
        OrchestratorState::CreatingTagRef { effective, .. } => tag_wf(effective@),
        OrchestratorState::CreatingRelease { effective } => tag_wf(effective@),
        OrchestratorState::FormattingNotes { .. } => true,
        OrchestratorState::PublishingNotes { .. } => true,
    }
}

/// The event kinds a state can consume: exactly the two outcomes of the
/// operation it awaits.
pub open spec fn event_fits(s: OrchestratorState, e: Event) -> bool {
    match s {
        OrchestratorState::ResolvingVersion { .. } => e is ReleaseQueried || e is ReleaseQueryFailed,
        OrchestratorState::ResolvingBump { .. } => e is BranchQueried || e is BranchQueryFailed,
        OrchestratorState::QueryingBumpedRelease { .. } => e is ReleaseQueried
            || e is ReleaseQueryFailed,
        OrchestratorState::DeletingRelease { .. } => e is ReleaseDeleted || e is ReleaseDeletionFailed,
        OrchestratorState::DeletingTag { .. } => e is TagDeleted || e is TagDeletionFailed,
        OrchestratorState::ResolvingBranch { .. } => e is BranchQueried || e is BranchQueryFailed,
        OrchestratorState::FetchingCommit { .. } => e is CommitFetched || e is CommitFetchFailed,
        OrchestratorState::CreatingTagObject { .. } => e is TagObjectCreated
            || e is TagObjectCreationFailed,
        OrchestratorState::CreatingTagRef { .. } => e is TagRefCreated || e is TagRefCreationFailed,
        OrchestratorState::CreatingRelease { .. } => e is ReleaseCreated || e is ReleaseCreationFailed,
        OrchestratorState::FormattingNotes { .. } => e is NotesFormatted || e is NotesFormattingFailed,
        OrchestratorState::PublishingNotes { .. } => e is ReleaseUpdated || e is ReleaseUpdateFailed,
    }
}

// ---------------------------------------------------------------------------
// The transition relation
// ---------------------------------------------------------------------------

/// The notes of the release the run settled on are handed to the formatting
/// service, or the run aborts when they are absent or blank.
pub open spec fn notes_outcome(rel: GitHubRelease, r: StepOutcome) -> bool {
    match spec_release_notes(rel) {
        Some(raw) => {
            &&& r matches StepOutcome::Continue(s, a)
            &&& s matches OrchestratorState::FormattingNotes { id }
            &&& id == rel.id
            &&& a matches Action::FormatNotes { raw: x }
            &&& x@ == raw
        },
        None => r == StepOutcome::Failed(ReleaseError::EmptyReleaseNotes),
    }
}

/// The convention-branch existence check that picks the target branch is
/// emitted, with the resolution context carried along.
pub open spec fn resolve_branch_outcome(
    effective: Seq<char>,
    incremented: bool,
    existing: Option<GitHubRelease>,
    r: StepOutcome,
) -> bool {
    &&& r matches StepOutcome::Continue(s, a)
    &&& s matches OrchestratorState::ResolvingBranch { effective: e, incremented: inc, existing: ex }
    &&& e@ == effective && inc == incremented && ex == existing
    &&& a matches Action::QueryBranch { branch }
    &&& branch@ == release_branch_of(effective)
}

/// Reconciliation of the release found for the effective tag. An unbumped
/// run deletes it (and then its tag) before recreation; a bumped run keeps
/// it and moves on to branch resolution.
pub open spec fn reconcile_outcome(
    effective: Seq<char>,
    incremented: bool,
    existing: Option<GitHubRelease>,
    r: StepOutcome,
) -> bool {
    if incremented {
        resolve_branch_outcome(effective, true, existing, r)
    } else {
        match existing {
            Some(rel) => {
                &&& r matches StepOutcome::Continue(s, a)
                &&& s matches OrchestratorState::DeletingRelease { effective: e }
                &&& e@ == effective
                &&& a matches Action::DeleteRelease { id }
                &&& id == rel.id
            },
            None => {
                &&& r matches StepOutcome::Continue(s, a)
                &&& s matches OrchestratorState::DeletingTag { effective: e }
                &&& e@ == effective
                &&& a matches Action::DeleteTag { tag }
                &&& tag@ == effective
            },
        }
    }
}

/// The transition relation of the workflow: what each state, on each fitting
/// event, requires of the step's outcome.
pub open spec fn step_spec(pre: OrchestratorState, event: Event, r: StepOutcome) -> bool {
    match pre {
        OrchestratorState::ResolvingVersion { requested } => match event {
            Event::ReleaseQueried { release } => if spec_is_prerelease(release) {
                &&& r matches StepOutcome::Continue(s, a)
                &&& s matches OrchestratorState::ResolvingBump { requested: rq, existing: ex }
                &&& rq@ == requested@ && Some(ex) == release
                &&& a matches Action::QueryBranch { branch }
                &&& branch@ == release_branch_of(requested@)
            } else {
                reconcile_outcome(requested@, false, release, r)
            },
            Event::ReleaseQueryFailed => r == StepOutcome::Failed(ReleaseError::ReleaseQueryFailed),
            _ => true,
        },
        OrchestratorState::ResolvingBump { requested, existing } => match event {
            Event::BranchQueried { exists } => if exists {
                if patch_val(requested@) + 1 > u32::MAX {
                    r == StepOutcome::Failed(ReleaseError::PatchOverflow)
                } else {
                    &&& r matches StepOutcome::Continue(s, a)
                    &&& s matches OrchestratorState::QueryingBumpedRelease { effective }
                    &&& effective@ == incremented_tag(requested@)
                    &&& a matches Action::QueryRelease { tag }
                    &&& tag@ == incremented_tag(requested@)
                }
            } else {
                reconcile_outcome(requested@, false, Some(existing), r)
            },
            Event::BranchQueryFailed => r == StepOutcome::Failed(ReleaseError::BranchQueryFailed),
            _ => true,
        },
        OrchestratorState::QueryingBumpedRelease { effective } => match event {
            Event::ReleaseQueried { release } => reconcile_outcome(effective@, true, release, r),
            Event::ReleaseQueryFailed => r == StepOutcome::Failed(ReleaseError::ReleaseQueryFailed),
            _ => true,
        },
        OrchestratorState::DeletingRelease { effective } => match event {
            Event::ReleaseDeleted => {
                &&& r matches StepOutcome::Continue(s, a)
                &&& s matches OrchestratorState::DeletingTag { effective: e }
                &&& e@ == effective@
                &&& a matches Action::DeleteTag { tag }
                &&& tag@ == effective@
            },
            Event::ReleaseDeletionFailed => r == StepOutcome::Failed(
                ReleaseError::ReleaseDeletionFailed,
            ),
            _ => true,
        },
        OrchestratorState::DeletingTag { effective } => match event {
            Event::TagDeleted => resolve_branch_outcome(effective@, false, None, r),
            Event::TagDeletionFailed => resolve_branch_outcome(effective@, false, None, r),
            _ => true,
        },
        OrchestratorState::ResolvingBranch { effective, incremented, existing } => match event {
            Event::BranchQueried { exists } => {
                &&& r matches StepOutcome::Continue(s, a)
                &&& s matches OrchestratorState::FetchingCommit {
                    effective: e,
                    incremented: inc,
                    existing: ex,
                    branch: b,
                }
                &&& e@ == effective@ && inc == incremented && ex == existing
                &&& b@ == target_branch_of(effective@, exists)
                &&& a matches Action::FetchCommit { branch }
                &&& branch@ == target_branch_of(effective@, exists)
            },
            Event::BranchQueryFailed => r == StepOutcome::Failed(ReleaseError::BranchQueryFailed),
            _ => true,
        },
        OrchestratorState::FetchingCommit { effective, incremented, existing, branch } => match event {
            Event::CommitFetched { sha } => if incremented && existing is Some {
                // The bumped tag already carries a release: its tag is kept
                // (tag immutability across patch bumps) and the release is
                // reused.
                notes_outcome(existing->Some_0, r)
            } else {
                &&& r matches StepOutcome::Continue(s, a)
                &&& s matches OrchestratorState::CreatingTagObject { effective: e, branch: b }
                &&& e@ == effective@ && b@ == branch@
                &&& a matches Action::CreateTagObject { tag, message, commit }
                &&& tag@ == effective@ && message@ == "Release "@ + effective@ && commit@ == sha@
            },
            Event::CommitFetchFailed => r == StepOutcome::Failed(ReleaseError::CommitLookupFailed),
            _ => true,
        },
        OrchestratorState::CreatingTagObject { effective, branch } => match event {
            Event::TagObjectCreated { sha } => {
                &&& r matches StepOutcome::Continue(s, a)
                &&& s matches OrchestratorState::CreatingTagRef { effective: e, branch: b }
                &&& e@ == effective@ && b@ == branch@
                &&& a matches Action::CreateTagRef { tag, object }
                &&& tag@ == effective@ && object@ == sha@
            },
            Event::TagObjectCreationFailed => r == StepOutcome::Failed(
                ReleaseError::TagObjectCreationFailed,
            ),
            _ => true,
        },
        OrchestratorState::CreatingTagRef { effective, branch } => match event {
            Event::TagRefCreated => {
                &&& r matches StepOutcome::Continue(s, a)
                &&& s matches OrchestratorState::CreatingRelease { effective: e }
                &&& e@ == effective@
                &&& a matches Action::CreateRelease { tag, branch: b }
                &&& tag@ == effective@ && b@ == branch@
            },
            Event::TagRefCreationFailed => r == StepOutcome::Failed(ReleaseError::TagRefCreationFailed),
            _ => true,
        },
        OrchestratorState::CreatingRelease { effective } => match event {
            Event::ReleaseCreated { release } => notes_outcome(release, r),
            Event::ReleaseCreationFailed => r == StepOutcome::Failed(ReleaseError::ReleaseCreationFailed),
            _ => true,
        },
        OrchestratorState::FormattingNotes { id } => match event {
            Event::NotesFormatted { text } => {
                &&& r matches StepOutcome::Continue(s, a)
                &&& s matches OrchestratorState::PublishingNotes { id: i }
                &&& i == id
                &&& a matches Action::UpdateRelease { id: j, body }
                &&& j == id && body@ == text@
            },
            Event::NotesFormattingFailed => r == StepOutcome::Failed(ReleaseError::NotesFormattingFailed),
            _ => true,
        },
        OrchestratorState::PublishingNotes { .. } => match event {
            Event::ReleaseUpdated => r is Complete,
            Event::ReleaseUpdateFailed => r == StepOutcome::Failed(ReleaseError::ReleaseUpdateFailed),
            _ => true,
        },
    }
}

// ---------------------------------------------------------------------------
// Executable transitions
// ---------------------------------------------------------------------------

/// The convention branch name of a tag known to be well-formed.
fn branch_name_checked(tag: &str) -> (r: String)
    requires
        tag_wf(tag@),
    ensures
        r@ == release_branch_of(tag@),
{
    match version::get_release_branch_name(tag) {
        Ok(b) => b,
        Err(_) => unreached(),
    }
}

/// Extracts the notes of the release the run settled on and asks for their
/// formatting.
fn begin_notes(release: GitHubRelease) -> (r: StepOutcome)
    ensures
        notes_outcome(release, r),
        r matches StepOutcome::Continue(s, _) ==> state_wf(s),
{
    match extract_release_notes(&release) {
        Ok(raw) => StepOutcome::Continue(
            OrchestratorState::FormattingNotes { id: release.id },
            Action::FormatNotes { raw },
        ),
        Err(_) => StepOutcome::Failed(ReleaseError::EmptyReleaseNotes),
    }
}

/// Emits the convention-branch check that picks the target branch.
fn resolve_branch(effective: String, incremented: bool, existing: Option<GitHubRelease>) -> (r:
    StepOutcome)
    requires
        tag_wf(effective@),
        !incremented ==> existing is None,
    ensures
        resolve_branch_outcome(effective@, incremented, existing, r),
        r matches StepOutcome::Continue(s, _) ==> state_wf(s),
{
    let branch = branch_name_checked(effective.as_str());
    StepOutcome::Continue(
        OrchestratorState::ResolvingBranch { effective, incremented, existing },
        Action::QueryBranch { branch },
    )
}

/// Reconciles the release found for the effective tag, as
/// [`reconcile_outcome`] prescribes.
fn reconcile_release(effective: String, incremented: bool, existing: Option<GitHubRelease>) -> (r:
    StepOutcome)
    requires
        tag_wf(effective@),
    ensures
        reconcile_outcome(effective@, incremented, existing, r),
        r matches StepOutcome::Continue(s, _) ==> state_wf(s),
{
    if incremented {
        resolve_branch(effective, true, existing)
    } else {
        match existing {
            Some(rel) => StepOutcome::Continue(
                OrchestratorState::DeletingRelease { effective },
                Action::DeleteRelease { id: rel.id },
            ),
            None => {
                let tag = effective.clone();
                StepOutcome::Continue(
                    OrchestratorState::DeletingTag { effective },
                    Action::DeleteTag { tag },
                )
            },
        }
    }
}

/// Begins a run for `requested_tag`: rejects a malformed tag and asks for the
/// release lookup that opens the version resolution.
pub fn start(requested_tag: &str) -> (r: Result<(OrchestratorState, Action), ReleaseError>)
    ensures
        match r {
            Ok(p) => {
                &&& tag_wf(requested_tag@)
                &&& state_wf(p.0)
                &&& p.0 matches OrchestratorState::ResolvingVersion { requested }
                    && requested@ == requested_tag@
                &&& p.1 matches Action::QueryRelease { tag } && tag@ == requested_tag@
            },
            Err(e) => e is InvalidTagFormat && !tag_wf(requested_tag@),
        },
{
    if !version::validate_tag(requested_tag) {
        return Err(ReleaseError::InvalidTagFormat);
    }
    Ok(
        (
            OrchestratorState::ResolvingVersion { requested: String::from_str(requested_tag) },
            Action::QueryRelease { tag: String::from_str(requested_tag) },
        ),
    )
}

/// Advances the workflow by one transition: consumes the outcome of the
/// pending remote operation and produces the next operation to perform,
/// completion, or the terminal error.
pub fn step(state: OrchestratorState, event: Event) -> (r: StepOutcome)
    requires
        state_wf(state),
        event_fits(state, event),
    ensures
        step_spec(state, event, r),
        r matches StepOutcome::Continue(s, _) ==> state_wf(s),
{
    match state {
        OrchestratorState::ResolvingVersion { requested } => match event {
            Event::ReleaseQueried { release } => {
                let is_pre = match &release {
                    Some(rel) => match rel.prerelease {
                        Some(flag) => flag,
                        None => false,
                    },
                    None => false,
                };
                if is_pre {
                    let rel = match release {
                        Some(rel) => rel,
                        None => unreached(),
                    };
                    let branch = branch_name_checked(requested.as_str());
                    StepOutcome::Continue(
                        OrchestratorState::ResolvingBump { requested, existing: rel },
                        Action::QueryBranch { branch },
                    )
                } else {
                    reconcile_release(requested, false, release)
                }
            },
            Event::ReleaseQueryFailed => StepOutcome::Failed(ReleaseError::ReleaseQueryFailed),
            _ => unreached(),
        },
        OrchestratorState::ResolvingBump { requested, existing } => match event {
            Event::BranchQueried { exists } => {
                if exists {
                    match version::increment_patch_version(requested.as_str()) {
                        Ok(effective) => {
                            proof {
                                version::lemma_increment_patch(requested@);
                            }
                            let tag = effective.clone();
                            StepOutcome::Continue(
                                OrchestratorState::QueryingBumpedRelease { effective },
                                Action::QueryRelease { tag },
                            )
                        },
                        Err(_) => StepOutcome::Failed(ReleaseError::PatchOverflow),
                    }
                } else {
                    reconcile_release(requested, false, Some(existing))
                }
            },
            Event::BranchQueryFailed => StepOutcome::Failed(ReleaseError::BranchQueryFailed),
            _ => unreached(),
        },
        OrchestratorState::QueryingBumpedRelease { effective } => match event {
            Event::ReleaseQueried { release } => reconcile_release(effective, true, release),
            Event::ReleaseQueryFailed => StepOutcome::Failed(ReleaseError::ReleaseQueryFailed),
            _ => unreached(),
        },
        OrchestratorState::DeletingRelease { effective } => match event {
            Event::ReleaseDeleted => {
                let tag = effective.clone();
                StepOutcome::Continue(
                    OrchestratorState::DeletingTag { effective },
                    Action::DeleteTag { tag },
                )
            },
            Event::ReleaseDeletionFailed => StepOutcome::Failed(ReleaseError::ReleaseDeletionFailed),
            _ => unreached(),
        },
        OrchestratorState::DeletingTag { effective } => match event {
            Event::TagDeleted => resolve_branch(effective, false, None),
            Event::TagDeletionFailed => resolve_branch(effective, false, None),
            _ => unreached(),
        },
        OrchestratorState::ResolvingBranch { effective, incremented, existing } => match event {
            Event::BranchQueried { exists } => {
                let branch = if exists {
                    branch_name_checked(effective.as_str())
                } else {
                    let mut b = String::from_str("release/");
                    b.append(effective.as_str());
                    b
                };
                let fetch_branch = branch.clone();
                StepOutcome::Continue(
                    OrchestratorState::FetchingCommit { effective, incremented, existing, branch },
                    Action::FetchCommit { branch: fetch_branch },
                )
            },
            Event::BranchQueryFailed => StepOutcome::Failed(ReleaseError::BranchQueryFailed),
            _ => unreached(),
        },
        OrchestratorState::FetchingCommit { effective, incremented, existing, branch } => match event {
            Event::CommitFetched { sha } => {
                let reuse = incremented && existing.is_some();
                if reuse {
                    let rel = match existing {
                        Some(rel) => rel,
                        None => unreached(),
                    };
                    begin_notes(rel)
                } else {
                    let tag = effective.clone();
                    let mut message = String::from_str("Release ");
                    message.append(effective.as_str());
                    StepOutcome::Continue(
                        OrchestratorState::CreatingTagObject { effective, branch },
                        Action::CreateTagObject { tag, message, commit: sha },
                    )
                }
            },
            Event::CommitFetchFailed => StepOutcome::Failed(ReleaseError::CommitLookupFailed),
            _ => unreached(),
        },
        OrchestratorState::CreatingTagObject { effective, branch } => match event {
            Event::TagObjectCreated { sha } => {
                let tag = effective.clone();
                StepOutcome::Continue(
                    OrchestratorState::CreatingTagRef { effective, branch },
                    Action::CreateTagRef { tag, object: sha },
                )
            },
            Event::TagObjectCreationFailed => StepOutcome::Failed(
                ReleaseError::TagObjectCreationFailed,
            ),
            _ => unreached(),
        },
        OrchestratorState::CreatingTagRef { effective, branch } => match event {
            Event::TagRefCreated => {
                let tag = effective.clone();
                StepOutcome::Continue(
                    OrchestratorState::CreatingRelease { effective },
                    Action::CreateRelease { tag, branch },
                )
            },
            Event::TagRefCreationFailed => StepOutcome::Failed(ReleaseError::TagRefCreationFailed),
            _ => unreached(),
        },
        OrchestratorState::CreatingRelease { effective } => match event {
            Event::ReleaseCreated { release } => begin_notes(release),
            Event::ReleaseCreationFailed => StepOutcome::Failed(ReleaseError::ReleaseCreationFailed),
            _ => unreached(),
        },
        OrchestratorState::FormattingNotes { id } => match event {
            Event::NotesFormatted { text } => StepOutcome::Continue(
                OrchestratorState::PublishingNotes { id },
                Action::UpdateRelease { id, body: text },
            ),
            Event::NotesFormattingFailed => StepOutcome::Failed(ReleaseError::NotesFormattingFailed),
            _ => unreached(),
        },
        OrchestratorState::PublishingNotes { .. } => match event {
            Event::ReleaseUpdated => StepOutcome::Complete,
            Event::ReleaseUpdateFailed => StepOutcome::Failed(ReleaseError::ReleaseUpdateFailed),
            _ => unreached(),
        },
    }
}

// ---------------------------------------------------------------------------
// Laws of the lifecycle
// ---------------------------------------------------------------------------

/// States from which the rest of a run deletes nothing: everything past the
/// reconciliation of the old release and tag — in particular the whole bumped
/// path.
pub open spec fn deletion_free(s: OrchestratorState) -> bool {
    match s {
        OrchestratorState::ResolvingVersion { .. } => false,
        OrchestratorState::ResolvingBump { .. } => false,
        OrchestratorState::DeletingRelease { .. } => false,
        _ => true,
    }
}

/// Once a run is past reconciliation, no later transition deletes a release
/// or a tag, and the run stays past reconciliation.
pub proof fn lemma_deletion_free_is_stable(pre: OrchestratorState, event: Event, r: StepOutcome)
    requires
        state_wf(pre),
        event_fits(pre, event),
        step_spec(pre, event, r),
        deletion_free(pre),
    ensures
        r matches StepOutcome::Continue(s, a) ==> deletion_free(s) && !(a is DeleteRelease) && !(a
            is DeleteTag),
{
}

/// A confirmed bump makes the run deletion-free at once: when the branch
/// check completes the bump decision, the prior release and tag are kept for
/// the rest of the run.
pub proof fn lemma_bump_never_deletes(pre: OrchestratorState, event: Event, r: StepOutcome)
    requires
        state_wf(pre),
        event_fits(pre, event),
        step_spec(pre, event, r),
        pre is ResolvingBump,
        event matches Event::BranchQueried { exists: true },
    ensures
        r matches StepOutcome::Continue(s, a) ==> deletion_free(s) && !(a is DeleteRelease) && !(a
            is DeleteTag),
{
}

} // verus!
