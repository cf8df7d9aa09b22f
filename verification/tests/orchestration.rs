use github_releaser::error::ReleaseError;
use github_releaser::github_client::GitHubRelease;
use github_releaser::orchestrator::{
    extract_release_notes, notes_are_blank, start, step, Action, Event, OrchestratorState,
    StepOutcome,
};

fn release(id: u64, body: Option<&str>, prerelease: Option<bool>) -> GitHubRelease {
    GitHubRelease { id, body: body.map(|b| b.to_string()), prerelease }
}

fn advance(state: OrchestratorState, event: Event) -> (OrchestratorState, Action) {
    match step(state, event) {
        StepOutcome::Continue(s, a) => (s, a),
        StepOutcome::Complete => panic!("workflow completed while a step was still expected"),
        StepOutcome::Failed(e) => panic!("workflow failed: {:?}", e),
    }
}

#[test]
fn full_run_without_existing_release_creates_tag_and_release_on_the_convention_branch() {
    let (state, action) = start("v1.0.0").unwrap();
    match &action {
        Action::QueryRelease { tag } => assert_eq!(tag, "v1.0.0"),
        _ => panic!("expected a release lookup first"),
    }

    // No release exists for the requested tag: no bump; the old release and
    // tag are reconciled (nothing to delete, tag deletion tolerated).
    let (state, action) = advance(state, Event::ReleaseQueried { release: None });
    match &action {
        Action::DeleteTag { tag } => assert_eq!(tag, "v1.0.0"),
        _ => panic!("expected the tolerated tag deletion"),
    }

    let (state, action) = advance(state, Event::TagDeletionFailed);
    match &action {
        Action::QueryBranch { branch } => assert_eq!(branch, "release/v1.0.x"),
        _ => panic!("expected the branch existence check"),
    }

    // The convention branch exists: it is the branch to cut from.
    let (state, action) = advance(state, Event::BranchQueried { exists: true });
    match &action {
        Action::FetchCommit { branch } => assert_eq!(branch, "release/v1.0.x"),
        _ => panic!("expected the commit lookup"),
    }

    let (state, action) = advance(state, Event::CommitFetched { sha: "commit_sha_456".to_string() });
    match &action {
        Action::CreateTagObject { tag, message, commit } => {
            assert_eq!(tag, "v1.0.0");
            assert_eq!(message, "Release v1.0.0");
            assert_eq!(commit, "commit_sha_456");
        },
        _ => panic!("expected the tag object creation"),
    }

    let (state, action) = advance(state, Event::TagObjectCreated { sha: "tag_object_sha_123".to_string() });
    match &action {
        Action::CreateTagRef { tag, object } => {
            assert_eq!(tag, "v1.0.0");
            assert_eq!(object, "tag_object_sha_123");
        },
        _ => panic!("expected the tag reference creation"),
    }

    let (state, action) = advance(state, Event::TagRefCreated);
    match &action {
        Action::CreateRelease { tag, branch } => {
            assert_eq!(tag, "v1.0.0");
            assert_eq!(branch, "release/v1.0.x");
        },
        _ => panic!("expected the release creation"),
    }

    // The host creates the release as a prerelease with autogenerated notes.
    let created = release(54321, Some("Auto-generated release notes"), Some(true));
    let (state, action) = advance(state, Event::ReleaseCreated { release: created });
    match &action {
        Action::FormatNotes { raw } => assert_eq!(raw, "Auto-generated release notes"),
        _ => panic!("expected the notes formatting call"),
    }

    let (state, action) = advance(state, Event::NotesFormatted { text: "Formatted release notes".to_string() });
    match &action {
        Action::UpdateRelease { id, body } => {
            assert_eq!(*id, 54321);
            assert_eq!(body, "Formatted release notes");
        },
        _ => panic!("expected the final body update"),
    }

    assert!(matches!(step(state, Event::ReleaseUpdated), StepOutcome::Complete));
}

#[test]
fn full_run_with_existing_prerelease_bumps_the_patch_and_deletes_nothing() {
    let (state, action) = start("v1.0.0").unwrap();
    assert!(matches!(&action, Action::QueryRelease { tag } if tag == "v1.0.0"));

    // A prerelease exists for the requested tag: check its convention branch.
    let prior = release(12345, Some("Release notes"), Some(true));
    let (state, action) = advance(state, Event::ReleaseQueried { release: Some(prior) });
    assert!(matches!(&action, Action::QueryBranch { branch } if branch == "release/v1.0.x"));

    // The branch exists: the effective tag is the bumped v1.0.1, and the
    // release for it is looked up. The prior release and tag are kept.
    let (state, action) = advance(state, Event::BranchQueried { exists: true });
    assert!(matches!(&action, Action::QueryRelease { tag } if tag == "v1.0.1"));

    let (state, action) = advance(state, Event::ReleaseQueried { release: None });
    assert!(matches!(&action, Action::QueryBranch { branch } if branch == "release/v1.0.x"));

    let (state, action) = advance(state, Event::BranchQueried { exists: true });
    assert!(matches!(&action, Action::FetchCommit { branch } if branch == "release/v1.0.x"));

    // A new tag and release are created for v1.0.1; nothing was deleted.
    let (state, action) = advance(state, Event::CommitFetched { sha: "abc123def456".to_string() });
    match &action {
        Action::CreateTagObject { tag, message, commit } => {
            assert_eq!(tag, "v1.0.1");
            assert_eq!(message, "Release v1.0.1");
            assert_eq!(commit, "abc123def456");
        },
        _ => panic!("expected the tag object creation for the bumped tag"),
    }

    let (state, action) = advance(state, Event::TagObjectCreated { sha: "tag_sha_123".to_string() });
    assert!(matches!(&action, Action::CreateTagRef { tag, .. } if tag == "v1.0.1"));

    let (_, action) = advance(state, Event::TagRefCreated);
    assert!(matches!(&action, Action::CreateRelease { tag, branch } if tag == "v1.0.1" && branch == "release/v1.0.x"));
}

#[test]
fn bumped_run_reuses_a_release_already_present_for_the_bumped_tag() {
    let (state, _) = start("v2.3.4").unwrap();
    let prior = release(1, Some("old notes"), Some(true));
    let (state, _) = advance(state, Event::ReleaseQueried { release: Some(prior) });
    let (state, action) = advance(state, Event::BranchQueried { exists: true });
    assert!(matches!(&action, Action::QueryRelease { tag } if tag == "v2.3.5"));

    // The bumped tag already carries a release: it is kept, its tag is not
    // recreated, and its own notes are formatted.
    let continuation = release(777, Some("PDE-9: continued series"), Some(true));
    let (state, action) = advance(state, Event::ReleaseQueried { release: Some(continuation) });
    assert!(matches!(&action, Action::QueryBranch { branch } if branch == "release/v2.3.x"));

    let (state, action) = advance(state, Event::BranchQueried { exists: false });
    assert!(matches!(&action, Action::FetchCommit { branch } if branch == "release/v2.3.5"));

    let (state, action) = advance(state, Event::CommitFetched { sha: "tip".to_string() });
    match &action {
        Action::FormatNotes { raw } => assert_eq!(raw, "PDE-9: continued series"),
        _ => panic!("expected the reuse of the existing release"),
    }

    let (state, action) = advance(state, Event::NotesFormatted { text: "formatted".to_string() });
    assert!(matches!(&action, Action::UpdateRelease { id: 777, body } if body == "formatted"));
    assert!(matches!(step(state, Event::ReleaseUpdated), StepOutcome::Complete));
}

#[test]
fn unbumped_run_deletes_the_existing_release_and_tag_before_recreation() {
    let (state, _) = start("v1.2.3").unwrap();
    // A release exists but is not a prerelease: no bump, delete and recreate.
    let prior = release(42, Some("stale"), Some(false));
    let (state, action) = advance(state, Event::ReleaseQueried { release: Some(prior) });
    assert!(matches!(&action, Action::DeleteRelease { id: 42 }));

    let (state, action) = advance(state, Event::ReleaseDeleted);
    assert!(matches!(&action, Action::DeleteTag { tag } if tag == "v1.2.3"));

    let (_, action) = advance(state, Event::TagDeleted);
    assert!(matches!(&action, Action::QueryBranch { branch } if branch == "release/v1.2.x"));
}

#[test]
fn prerelease_without_its_convention_branch_is_not_bumped() {
    let (state, _) = start("v1.0.0").unwrap();
    let prior = release(12345, Some("Release notes"), Some(true));
    let (state, action) = advance(state, Event::ReleaseQueried { release: Some(prior) });
    assert!(matches!(&action, Action::QueryBranch { branch } if branch == "release/v1.0.x"));

    // The convention branch is absent: no bump, so the prior release for the
    // same tag is deleted before recreation.
    let (_, action) = advance(state, Event::BranchQueried { exists: false });
    assert!(matches!(&action, Action::DeleteRelease { id: 12345 }));
}

#[test]
fn starting_with_a_malformed_tag_is_a_hard_input_error() {
    assert!(matches!(start("not-a-tag"), Err(ReleaseError::InvalidTagFormat)));
    assert!(matches!(start("v1.2"), Err(ReleaseError::InvalidTagFormat)));
}

#[test]
fn remote_failures_abort_with_the_error_of_the_failed_step() {
    let (state, _) = start("v1.0.0").unwrap();
    assert!(matches!(
        step(state, Event::ReleaseQueryFailed),
        StepOutcome::Failed(ReleaseError::ReleaseQueryFailed)
    ));

    let (state, _) = start("v1.0.0").unwrap();
    let (state, _) = advance(state, Event::ReleaseQueried { release: None });
    let (state, _) = advance(state, Event::TagDeleted);
    assert!(matches!(
        step(state, Event::BranchQueryFailed),
        StepOutcome::Failed(ReleaseError::BranchQueryFailed)
    ));

    let (state, _) = start("v1.0.0").unwrap();
    let (state, _) = advance(state, Event::ReleaseQueried { release: None });
    let (state, _) = advance(state, Event::TagDeleted);
    let (state, _) = advance(state, Event::BranchQueried { exists: true });
    assert!(matches!(
        step(state, Event::CommitFetchFailed),
        StepOutcome::Failed(ReleaseError::CommitLookupFailed)
    ));
}

#[test]
fn failed_release_deletion_is_fatal_but_failed_tag_deletion_is_tolerated() {
    let (state, _) = start("v1.2.3").unwrap();
    let prior = release(42, Some("stale"), Some(false));
    let (state, _) = advance(state, Event::ReleaseQueried { release: Some(prior) });
    assert!(matches!(
        step(state, Event::ReleaseDeletionFailed),
        StepOutcome::Failed(ReleaseError::ReleaseDeletionFailed)
    ));

    let (state, _) = start("v1.2.3").unwrap();
    let (state, _) = advance(state, Event::ReleaseQueried { release: None });
    // The tag could not be deleted (it probably never existed): the run goes on.
    let (_, action) = advance(state, Event::TagDeletionFailed);
    assert!(matches!(&action, Action::QueryBranch { branch } if branch == "release/v1.2.x"));
}

#[test]
fn a_created_release_with_empty_or_blank_notes_is_a_terminal_error() {
    for body in [None, Some(""), Some("   \t\n  ")] {
        let (state, _) = start("v1.0.0").unwrap();
        let (state, _) = advance(state, Event::ReleaseQueried { release: None });
        let (state, _) = advance(state, Event::TagDeleted);
        let (state, _) = advance(state, Event::BranchQueried { exists: true });
        let (state, _) = advance(state, Event::CommitFetched { sha: "tip".to_string() });
        let (state, _) = advance(state, Event::TagObjectCreated { sha: "obj".to_string() });
        let (state, _) = advance(state, Event::TagRefCreated);
        let created = release(9, body, Some(true));
        assert!(matches!(
            step(state, Event::ReleaseCreated { release: created }),
            StepOutcome::Failed(ReleaseError::EmptyReleaseNotes)
        ));
    }
}

#[test]
fn extracting_notes_requires_a_nonblank_body() {
    assert_eq!(
        extract_release_notes(&release(1, Some("PDE-1: fix"), None)).unwrap(),
        "PDE-1: fix"
    );
    assert_eq!(
        extract_release_notes(&release(1, Some("  \n "), None)),
        Err(ReleaseError::EmptyReleaseNotes)
    );
    assert_eq!(
        extract_release_notes(&release(1, None, None)),
        Err(ReleaseError::EmptyReleaseNotes)
    );
    assert!(notes_are_blank(""));
    assert!(notes_are_blank(" \u{00A0}\u{2003}\r\n"));
    assert!(!notes_are_blank(" a "));
}

#[test]
fn update_failure_at_the_last_step_is_surfaced() {
    let (state, _) = start("v1.0.0").unwrap();
    let (state, _) = advance(state, Event::ReleaseQueried { release: None });
    let (state, _) = advance(state, Event::TagDeleted);
    let (state, _) = advance(state, Event::BranchQueried { exists: true });
    let (state, _) = advance(state, Event::CommitFetched { sha: "tip".to_string() });
    let (state, _) = advance(state, Event::TagObjectCreated { sha: "obj".to_string() });
    let (state, _) = advance(state, Event::TagRefCreated);
    let created = release(9, Some("notes"), Some(true));
    let (state, _) = advance(state, Event::ReleaseCreated { release: created });
    let (state, _) = advance(state, Event::NotesFormatted { text: "formatted".to_string() });
    assert!(matches!(
        step(state, Event::ReleaseUpdateFailed),
        StepOutcome::Failed(ReleaseError::ReleaseUpdateFailed)
    ));
}

#[test]
fn formatting_failure_is_fatal() {
    let (state, _) = start("v1.0.0").unwrap();
    let (state, _) = advance(state, Event::ReleaseQueried { release: None });
    let (state, _) = advance(state, Event::TagDeleted);
    let (state, _) = advance(state, Event::BranchQueried { exists: false });
    let (state, _) = advance(state, Event::CommitFetched { sha: "tip".to_string() });
    let (state, _) = advance(state, Event::TagObjectCreated { sha: "obj".to_string() });
    let (state, _) = advance(state, Event::TagRefCreated);
    let created = release(9, Some("notes"), Some(true));
    let (state, _) = advance(state, Event::ReleaseCreated { release: created });
    assert!(matches!(
        step(state, Event::NotesFormattingFailed),
        StepOutcome::Failed(ReleaseError::NotesFormattingFailed)
    ));
}
