use github_releaser::error::ReleaseError;
use github_releaser::github_client::GitHubClient;

fn client() -> GitHubClient {
    GitHubClient::new("test_token".to_string())
}

#[test]
fn given_semantic_version_tag_when_getting_minor_version_then_returns_correct_version() {
    let client = client();
    assert_eq!(client.get_minor_version("v1.2.3").unwrap(), "1.2");
    assert_eq!(client.get_minor_version("v2.0.1").unwrap(), "2.0");
    assert_eq!(client.get_minor_version("v3.4.5-alpha").unwrap(), "3.4");
}

#[test]
fn given_semantic_version_tag_when_incrementing_patch_version_then_returns_incremented_version() {
    let client = client();
    assert_eq!(client.increment_patch_version("v1.2.3").unwrap(), "v1.2.4");
    assert_eq!(client.increment_patch_version("v2.0.9").unwrap(), "v2.0.10");
    assert_eq!(client.increment_patch_version("v3.4.5-beta").unwrap(), "v3.4.6-beta");
}

#[test]
fn given_semantic_version_tag_when_getting_release_branch_name_then_returns_correct_branch_format() {
    let client = client();
    assert_eq!(client.get_release_branch_name("v1.2.3").unwrap(), "release/v1.2.x");
    assert_eq!(client.get_release_branch_name("v2.0.1").unwrap(), "release/v2.0.x");
    assert_eq!(client.get_release_branch_name("v3.4.5-alpha").unwrap(), "release/v3.4.x");
}

#[test]
fn malformed_tags_are_rejected_not_truncated() {
    let client = client();
    for bad in ["", "v", "1.2.3", "v1.2", "v1.2.", "v.2.3", "va.2.3", "v1.a.3", "v1.2.x", "v1..3"] {
        assert_eq!(client.increment_patch_version(bad), Err(ReleaseError::InvalidTagFormat), "{bad}");
        assert_eq!(client.get_minor_version(bad), Err(ReleaseError::InvalidTagFormat), "{bad}");
        assert_eq!(client.get_release_branch_name(bad), Err(ReleaseError::InvalidTagFormat), "{bad}");
    }
}

#[test]
fn suffix_is_preserved_verbatim_across_increment() {
    let client = client();
    assert_eq!(client.increment_patch_version("v1.2.3-rc.1+build").unwrap(), "v1.2.4-rc.1+build");
    assert_eq!(client.increment_patch_version("v0.0.0 ").unwrap(), "v0.0.1 ");
    // The patch component is the maximal digit run; a dotted tail is suffix.
    assert_eq!(client.increment_patch_version("v1.2.3.4").unwrap(), "v1.2.4.4");
}

#[test]
fn minor_version_keeps_components_verbatim() {
    let client = client();
    assert_eq!(client.get_minor_version("v01.002.3").unwrap(), "01.002");
    assert_eq!(client.get_release_branch_name("v01.002.3").unwrap(), "release/v01.002.x");
}

#[test]
fn patch_increment_is_canonical_after_leading_zeros() {
    let client = client();
    assert_eq!(client.increment_patch_version("v1.2.09").unwrap(), "v1.2.10");
    assert_eq!(client.increment_patch_version("v1.2.0000000000009").unwrap(), "v1.2.10");
}

#[test]
fn patch_increment_outside_u32_range_is_a_numeric_error() {
    let client = client();
    assert_eq!(
        client.increment_patch_version("v1.2.4294967294").unwrap(),
        "v1.2.4294967295"
    );
    assert_eq!(
        client.increment_patch_version("v1.2.4294967295"),
        Err(ReleaseError::PatchOverflow)
    );
    assert_eq!(
        client.increment_patch_version("v1.2.4294967296"),
        Err(ReleaseError::PatchOverflow)
    );
    assert_eq!(
        client.increment_patch_version("v1.2.99999999999999999999"),
        Err(ReleaseError::PatchOverflow)
    );
}

#[test]
fn every_error_has_a_description() {
    for e in [
        ReleaseError::InvalidTagFormat,
        ReleaseError::PatchOverflow,
        ReleaseError::ReleaseQueryFailed,
        ReleaseError::BranchQueryFailed,
        ReleaseError::ReleaseDeletionFailed,
        ReleaseError::CommitLookupFailed,
        ReleaseError::TagObjectCreationFailed,
        ReleaseError::TagRefCreationFailed,
        ReleaseError::ReleaseCreationFailed,
        ReleaseError::ReleaseUpdateFailed,
        ReleaseError::EmptyReleaseNotes,
        ReleaseError::NotesFormattingFailed,
    ] {
        assert!(!e.describe().is_empty());
    }
}
