//! The release-host side of the engine: the release resource, the request
//! URLs, and the pure decisions the workflow takes over remotely observed
//! state (whether to bump the patch version, and which branch to cut from).
//!
//! The remote reads and writes themselves are performed by the embedding
//! program; every function here computes from plain values.

use vstd::prelude::*;
use vstd::string::StringExecFns;

use crate::error::ReleaseError;
use crate::version;
use crate::version::{incremented_tag, patch_val, release_branch_of, tag_wf};

verus! {

/// A release resource as the host reports it: an opaque numeric handle, the
/// free-text body, and the prerelease flag (absent means not a prerelease).
pub struct GitHubRelease {
    pub id: u64,
    pub body: Option<String>,
    pub prerelease: Option<bool>,
}

/// A release counts as a prerelease exactly when it exists and its flag is
/// present and `true`.
pub open spec fn spec_is_prerelease(release: Option<GitHubRelease>) -> bool {
    match release {
        Some(rel) => rel.prerelease == Some(true),
        None => false,
    }
}

/// The tag a run operates on: the requested tag, with its patch component
/// bumped by one when the requested tag already carries a prerelease and its
/// convention branch exists; the requested tag itself otherwise.
pub open spec fn resolved_tag(t: Seq<char>, release: Option<GitHubRelease>, branch_exists: bool) -> Seq<char> {
    if spec_is_prerelease(release) && branch_exists {
        incremented_tag(t)
    } else {
        t
    }
}

/// The branch a release for `t` is cut from: the convention branch
/// `release/v<major>.<minor>.x` when it exists on the host, else the fallback
/// `release/<t>`.
pub open spec fn target_branch_of(t: Seq<char>, convention_branch_exists: bool) -> Seq<char> {
    if convention_branch_exists {
        release_branch_of(t)
    } else {
        "release/"@ + t
    }
}

/// Configuration of the release-host API: the bearer token and the base URL,
/// over a fixed repository owner and name.
pub struct GitHubClient {
    pub token: String,
    pub base_url: String,
}

impl GitHubClient {
    /// A client against the public host API.
    pub fn new(token: String) -> (r: GitHubClient)
        ensures
            r.token == token,
            r.base_url@ == "https://api.github.com"@,
    {
        GitHubClient { token, base_url: String::from_str("https://api.github.com") }
    }

    /// A client against a custom base URL.
    pub fn new_with_base_url(token: String, base_url: String) -> (r: GitHubClient)
        ensures
            r.token == token,
            r.base_url == base_url,
    {
        GitHubClient { token, base_url }
    }

    /// The API URL for an endpoint under the configured repository.
    pub fn api_url(&self, endpoint: &str) -> (r: String)
        ensures
            r@ == self.base_url@ + "/repos/Human-Glitch/llm-playground/"@ + endpoint@,
    {
        let mut url = self.base_url.clone();
        url.append("/repos/Human-Glitch/llm-playground/");
        url.append(endpoint);
        url
    }

    /// See [`version::increment_patch_version`].
    pub fn increment_patch_version(&self, tag: &str) -> (r: Result<String, ReleaseError>)
        ensures
            match r {
                Ok(s) => tag_wf(tag@) && patch_val(tag@) + 1 <= u32::MAX && s@ == incremented_tag(tag@),
                Err(e) => {
                    ||| (e is InvalidTagFormat && !tag_wf(tag@))
                    ||| (e is PatchOverflow && tag_wf(tag@) && patch_val(tag@) + 1 > u32::MAX)
                },
            },
    {
        version::increment_patch_version(tag)
    }

    /// See [`version::get_minor_version`].
    pub fn get_minor_version(&self, tag: &str) -> (r: Result<String, ReleaseError>)
        ensures
            match r {
                Ok(s) => tag_wf(tag@) && s@ == version::minor_version_of(tag@),
                Err(e) => e is InvalidTagFormat && !tag_wf(tag@),
            },
    {
        version::get_minor_version(tag)
    }

    /// See [`version::get_release_branch_name`].
    pub fn get_release_branch_name(&self, tag: &str) -> (r: Result<String, ReleaseError>)
        ensures
            match r {
                Ok(s) => tag_wf(tag@) && s@ == release_branch_of(tag@),
                Err(e) => e is InvalidTagFormat && !tag_wf(tag@),
            },
    {
        version::get_release_branch_name(tag)
    }

    /// Whether the release observed for a tag is in prerelease state.
    pub fn is_prerelease(&self, release: &Option<GitHubRelease>) -> (r: bool)
        ensures
            r == spec_is_prerelease(*release),
    {
        match release {
            Some(rel) => match rel.prerelease {
                Some(flag) => flag,
                None => false,
            },
            None => false,
        }
    }

    /// Whether the patch version must be bumped: the tag already carries a
    /// prerelease and its convention branch exists.
    pub fn should_increment_patch(&self, release: &Option<GitHubRelease>, branch_exists: bool) -> (r: bool)
        ensures
            r == (spec_is_prerelease(*release) && branch_exists),
    {
        self.is_prerelease(release) && branch_exists
    }

    /// The effective tag for a run, given the release observed for the
    /// requested tag and whether the tag's convention branch exists.
    pub fn determine_tag_version(
        &self,
        requested_tag: &str,
        release: &Option<GitHubRelease>,
        branch_exists: bool,
    ) -> (r: Result<String, ReleaseError>)
        ensures
            match r {
                Ok(s) => tag_wf(requested_tag@) && s@ == resolved_tag(requested_tag@, *release, branch_exists),
                Err(e) => {
                    ||| (e is InvalidTagFormat && !tag_wf(requested_tag@))
                    ||| (e is PatchOverflow && tag_wf(requested_tag@)
                        && spec_is_prerelease(*release) && branch_exists
                        && patch_val(requested_tag@) + 1 > u32::MAX)
                },
            },
    {
        if !version::validate_tag(requested_tag) {
            return Err(ReleaseError::InvalidTagFormat);
        }
        if self.should_increment_patch(release, branch_exists) {
            version::increment_patch_version(requested_tag)
        } else {
            Ok(String::from_str(requested_tag))
        }
    }

    /// The branch a release for `tag` is cut from, given whether the
    /// convention branch exists.
    pub fn get_release_branch_for_tag(
        &self,
        tag: &str,
        convention_branch_exists: bool,
    ) -> (r: Result<String, ReleaseError>)
        ensures
            match r {
                Ok(s) => tag_wf(tag@) && s@ == target_branch_of(tag@, convention_branch_exists),
                Err(e) => e is InvalidTagFormat && !tag_wf(tag@),
            },
    {
        match version::get_release_branch_name(tag) {
            Err(e) => Err(e),
            Ok(name) => {
                if convention_branch_exists {
                    Ok(name)
                } else {
                    let mut s = String::from_str("release/");
                    s.append(tag);
                    Ok(s)
                }
            },
        }
    }
}

// ---------------------------------------------------------------------------
// Laws of the resolvers
// ---------------------------------------------------------------------------

/// When no release is found for a tag, no bump occurs: the resolved tag is
/// the requested tag itself, whatever the branch query said.
pub proof fn lemma_no_release_no_bump(t: Seq<char>, branch_exists: bool)
    ensures
        resolved_tag(t, None, branch_exists) == t,
{
}

/// When the convention branch is absent, the branch to cut from falls back to
/// `release/<tag>`.
pub proof fn lemma_branch_fallback(t: Seq<char>)
    ensures
        target_branch_of(t, false) == "release/"@ + t,
{
}

} // verus!
