//! Repositories, releases and release artifacts on GitHub, and the URLs that
//! name them.

use crate::cells::Key;
use crate::percent::{
    decoded_path, encoded_path, lemma_decode_inverts_encode, percent_decode_http_url_path,
    percent_encode_http_url_path,
};
use crate::text::str_eq;
use crate::url_parts::{ParsedUrl, UrlRecord};
use vstd::prelude::*;
use vstd::std_specs::cmp::PartialEqSpecImpl;
use vstd::string::*;

verus! {

/// A repository on GitHub.
#[derive(Debug, Eq, Hash)]
pub struct GhRepo {
    pub owner: String,
    pub repo: String,
}

/// The keys required to identify a release on GitHub. No key is normalised:
/// two releases are the same when all three are equal, letter for letter.
#[derive(Debug, Eq, Hash)]
pub struct GhRelease {
    pub owner: String,
    pub repo: String,
    pub tag: String,
}

/// A release on GitHub and one of its artifacts.
#[derive(Debug, Eq, Hash)]
pub struct GhReleaseArtifact {
    pub release: GhRelease,
    pub artifact_name: String,
}

/// A repository as mathematical values.
pub ghost struct RepoKey {
    pub owner: Seq<char>,
    pub repo: Seq<char>,
}

/// A release as mathematical values.
pub ghost struct ReleaseKey {
    pub owner: Seq<char>,
    pub repo: Seq<char>,
    pub tag: Seq<char>,
}

/// A release artifact as mathematical values.
pub ghost struct ArtifactKey {
    pub release: ReleaseKey,
    pub artifact_name: Seq<char>,
}

impl View for GhRepo {
    type V = RepoKey;

    open spec fn view(&self) -> RepoKey {
        RepoKey { owner: self.owner@, repo: self.repo@ }
    }
}

impl View for GhRelease {
    type V = ReleaseKey;

    open spec fn view(&self) -> ReleaseKey {
        ReleaseKey { owner: self.owner@, repo: self.repo@, tag: self.tag@ }
    }
}

impl View for GhReleaseArtifact {
    type V = ArtifactKey;

    open spec fn view(&self) -> ArtifactKey {
        ArtifactKey { release: self.release@, artifact_name: self.artifact_name@ }
    }
}

/// The text `https://github.com/`.
pub open spec fn github_prefix() -> Seq<char> {
    "https://github.com/"@
}

/// The URL of the repository `owner`/`repo` on GitHub.
pub open spec fn repo_url_text(repo: RepoKey) -> Seq<char> {
    github_prefix() + repo.owner + seq!['/'] + repo.repo
}

/// The address at which the API describes a release:
/// `https://api.github.com/repos/{owner}/{repo}/releases/tags/{tag}`, each of
/// the three percent-encoded as one path segment.
pub open spec fn release_api_url_text(release: ReleaseKey) -> Seq<char> {
    "https://api.github.com/repos/"@ + encoded_path(release.owner) + seq!['/'] + encoded_path(
        release.repo,
    ) + "/releases/tags/"@ + encoded_path(release.tag)
}

/// Whether `url` has the shape
/// `//github.com/{owner}/{repo}/releases/download/{tag}/{artifact}`: that
/// domain, exactly those six path segments, no query and no fragment.
pub open spec fn is_release_download(url: UrlRecord) -> bool {
    &&& url.domain == Some("github.com"@)
    &&& url.path_segments matches Some(segments)
    &&& segments.len() == 6
    &&& segments[2] == "releases"@
    &&& segments[3] == "download"@
    &&& url.query is None
    &&& url.fragment is None
}

/// The release artifact that `url` names: where the URL has the shape of a
/// download from a release, its owner, repository, tag and artifact name, each
/// percent-decoded by itself.
pub open spec fn release_artifact_of(url: UrlRecord) -> Option<ArtifactKey> {
    if is_release_download(url) {
        let segments = url.path_segments->0;
        Some(
            ArtifactKey {
                release: ReleaseKey {
                    owner: decoded_path(segments[0]),
                    repo: decoded_path(segments[1]),
                    tag: decoded_path(segments[4]),
                },
                artifact_name: decoded_path(segments[5]),
            },
        )
    } else {
        None
    }
}

impl GhRepo {
    /// The URL of the repository: `https://github.com/{owner}/{repo}`.
    pub fn repo_url(&self) -> (url: String)
        ensures
            url@ == repo_url_text(self@),
    {
        let mut url = String::from_str("https://github.com/");
        url.append(self.owner.as_str());
        url.append("/");
        url.append(self.repo.as_str());
        proof {
            reveal_strlit("/");
            assert("/"@ =~= seq!['/']);
        }
        url
    }
}

impl Clone for GhRepo {
    fn clone(&self) -> (copy: Self)
        ensures
            copy@ == self@,
    {
        GhRepo { owner: self.owner.clone(), repo: self.repo.clone() }
    }
}

impl PartialEq for GhRepo {
    fn eq(&self, other: &Self) -> (same: bool) {
        str_eq(self.owner.as_str(), other.owner.as_str()) && str_eq(
            self.repo.as_str(),
            other.repo.as_str(),
        )
    }
}

impl PartialEqSpecImpl for GhRepo {
    open spec fn obeys_eq_spec() -> bool {
        true
    }

    open spec fn eq_spec(&self, other: &Self) -> bool {
        self@ == other@
    }
}

impl GhRelease {
    /// The address at which the API describes the release.
    pub fn api_url(&self) -> (url: String)
        ensures
            url@ == release_api_url_text(self@),
    {
        let mut url = String::from_str("https://api.github.com/repos/");
        url.append(percent_encode_http_url_path(self.owner.as_str()).as_str());
        url.append("/");
        url.append(percent_encode_http_url_path(self.repo.as_str()).as_str());
        url.append("/releases/tags/");
        url.append(percent_encode_http_url_path(self.tag.as_str()).as_str());
        proof {
            reveal_strlit("/");
            assert("/"@ =~= seq!['/']);
        }
        url
    }
}

impl Clone for GhRelease {
    fn clone(&self) -> (copy: Self)
        ensures
            copy@ == self@,
    {
        GhRelease { owner: self.owner.clone(), repo: self.repo.clone(), tag: self.tag.clone() }
    }
}

impl PartialEq for GhRelease {
    fn eq(&self, other: &Self) -> (same: bool) {
        self.same_key(other)
    }
}

impl PartialEqSpecImpl for GhRelease {
    open spec fn obeys_eq_spec() -> bool {
        true
    }

    open spec fn eq_spec(&self, other: &Self) -> bool {
        self@ == other@
    }
}

impl Key for GhRelease {
    fn same_key(&self, other: &Self) -> (same: bool) {
        str_eq(self.owner.as_str(), other.owner.as_str()) && str_eq(
            self.repo.as_str(),
            other.repo.as_str(),
        ) && str_eq(self.tag.as_str(), other.tag.as_str())
    }
}

impl Clone for GhReleaseArtifact {
    fn clone(&self) -> (copy: Self)
        ensures
            copy@ == self@,
    {
        GhReleaseArtifact {
            release: self.release.clone(),
            artifact_name: self.artifact_name.clone(),
        }
    }
}

impl PartialEq for GhReleaseArtifact {
    fn eq(&self, other: &Self) -> (same: bool) {
        self.release == other.release && str_eq(
            self.artifact_name.as_str(),
            other.artifact_name.as_str(),
        )
    }
}

impl PartialEqSpecImpl for GhReleaseArtifact {
    open spec fn obeys_eq_spec() -> bool {
        true
    }

    open spec fn eq_spec(&self, other: &Self) -> bool {
        self@ == other@
    }
}

impl GhReleaseArtifact {
    /// Reads a release artifact out of the URL of its download.
    ///
    /// The URL names one exactly when its domain is `github.com`, its path is
    /// `/{owner}/{repo}/releases/download/{tag}/{artifact}` with nothing
    /// after the artifact, and it has neither query nor fragment. Any other
    /// URL gives `None`.
    pub fn try_extract_from_url(url: &ParsedUrl) -> (artifact: Option<Self>)
        ensures
            artifact matches Some(found) ==> release_artifact_of(url@) == Some(found@),
            artifact is None ==> release_artifact_of(url@) is None,
    {
        match &url.domain {
            Some(domain) => {
                if !str_eq(domain.as_str(), "github.com") {
                    return None;
                }
            },
            None => {
                return None;
            },
        }
        match &url.path_segments {
            Some(segments) => {
                if segments.len() != 6 {
                    return None;
                }
                if !str_eq(segments[2].as_str(), "releases") || !str_eq(
                    segments[3].as_str(),
                    "download",
                ) {
                    return None;
                }
                if url.fragment.is_some() || url.query.is_some() {
                    return None;
                }
                Some(
                    GhReleaseArtifact {
                        release: GhRelease {
                            owner: percent_decode_http_url_path(segments[0].as_str()),
                            repo: percent_decode_http_url_path(segments[1].as_str()),
                            tag: percent_decode_http_url_path(segments[4].as_str()),
                        },
                        artifact_name: percent_decode_http_url_path(segments[5].as_str()),
                    },
                )
            },
            None => None,
        }
    }
}


/// Extraction undoes encoding. A URL on `github.com` whose path is made of
/// the percent-encoded owner, repository, tag and artifact name of a release
/// artifact, with `releases` and `download` between them, and that has neither
/// query nor fragment, names exactly that release artifact.
pub proof fn lemma_extract_inverts_encode(url: UrlRecord, artifact: ArtifactKey)
    requires
        url.domain == Some("github.com"@),
        url.path_segments == Some(
            seq![
                encoded_path(artifact.release.owner),
                encoded_path(artifact.release.repo),
                "releases"@,
                "download"@,
                encoded_path(artifact.release.tag),
                encoded_path(artifact.artifact_name),
            ],
        ),
        url.query is None,
        url.fragment is None,
    ensures
        release_artifact_of(url) == Some(artifact),
{
    lemma_decode_inverts_encode(artifact.release.owner);
    lemma_decode_inverts_encode(artifact.release.repo);
    lemma_decode_inverts_encode(artifact.release.tag);
    lemma_decode_inverts_encode(artifact.artifact_name);
}

/// A URL names a release artifact only if it has the shape of a download
/// from a release: any other domain, any other count of path segments, any
/// other word in place of `releases` or `download`, a query or a fragment
/// make it name none.
pub proof fn lemma_only_release_downloads_match(url: UrlRecord)
    ensures
        release_artifact_of(url) is Some <==> is_release_download(url),
        url.domain != Some("github.com"@) ==> release_artifact_of(url) is None,
        url.path_segments is None ==> release_artifact_of(url) is None,
        url.path_segments matches Some(segments) && segments.len() != 6 ==> release_artifact_of(
            url,
        ) is None,
        url.query is Some ==> release_artifact_of(url) is None,
        url.fragment is Some ==> release_artifact_of(url) is None,
{
}

} // verus!
