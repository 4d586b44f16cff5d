use gh_api_client::artifacts::{Artifact, Artifacts};
use gh_api_client::client::{GhApiClient, HasReleaseArtifact, Step};
use gh_api_client::release::{GhRelease, GhReleaseArtifact};
use gh_api_client::response::{GhApiError, GhApiRet};
use gh_api_client::time::Now;

const BINSTALL_ARTIFACTS: &[&str] = &[
    "cargo-binstall-aarch64-apple-darwin.full.zip",
    "cargo-binstall-aarch64-apple-darwin.zip",
    "cargo-binstall-aarch64-pc-windows-msvc.full.zip",
    "cargo-binstall-aarch64-pc-windows-msvc.zip",
    "cargo-binstall-aarch64-unknown-linux-gnu.full.tgz",
    "cargo-binstall-aarch64-unknown-linux-gnu.tgz",
    "cargo-binstall-aarch64-unknown-linux-musl.full.tgz",
    "cargo-binstall-aarch64-unknown-linux-musl.tgz",
    "cargo-binstall-armv7-unknown-linux-gnueabihf.full.tgz",
    "cargo-binstall-armv7-unknown-linux-gnueabihf.tgz",
    "cargo-binstall-armv7-unknown-linux-musleabihf.full.tgz",
    "cargo-binstall-armv7-unknown-linux-musleabihf.tgz",
    "cargo-binstall-universal-apple-darwin.full.zip",
    "cargo-binstall-universal-apple-darwin.zip",
    "cargo-binstall-x86_64-apple-darwin.full.zip",
    "cargo-binstall-x86_64-apple-darwin.zip",
    "cargo-binstall-x86_64-pc-windows-msvc.full.zip",
    "cargo-binstall-x86_64-pc-windows-msvc.zip",
    "cargo-binstall-x86_64-unknown-linux-gnu.full.tgz",
    "cargo-binstall-x86_64-unknown-linux-gnu.tgz",
    "cargo-binstall-x86_64-unknown-linux-musl.full.tgz",
    "cargo-binstall-x86_64-unknown-linux-musl.tgz",
];

const AUDIT_ARTIFACTS: &[&str] = &[
    "cargo-audit-aarch64-unknown-linux-gnu-v0.17.6.tgz",
    "cargo-audit-armv7-unknown-linux-gnueabihf-v0.17.6.tgz",
    "cargo-audit-x86_64-apple-darwin-v0.17.6.tgz",
    "cargo-audit-x86_64-pc-windows-msvc-v0.17.6.zip",
    "cargo-audit-x86_64-unknown-linux-gnu-v0.17.6.tgz",
    "cargo-audit-x86_64-unknown-linux-musl-v0.17.6.tgz",
];

fn binstall_release() -> GhRelease {
    GhRelease {
        owner: "cargo-bins".to_string(),
        repo: "cargo-binstall".to_string(),
        tag: "v0.20.1".to_string(),
    }
}

fn audit_release() -> GhRelease {
    GhRelease {
        owner: "rustsec".to_string(),
        repo: "rustsec".to_string(),
        tag: "cargo-audit/v0.17.6".to_string(),
    }
}

/// What stands for the API here: the releases that exist, each with the
/// names of its artifacts, and the one credential that is taken.
struct Service {
    releases: Vec<(GhRelease, &'static [&'static str])>,
    good_token: &'static str,
    requests: usize,
}

impl Service {
    fn new() -> Self {
        Service {
            releases: vec![
                (binstall_release(), BINSTALL_ARTIFACTS),
                (audit_release(), AUDIT_ARTIFACTS),
            ],
            good_token: "good",
            requests: 0,
        }
    }

    fn fetch(
        &mut self,
        release: &GhRelease,
        auth_token: Option<&str>,
    ) -> Result<GhApiRet<Artifacts>, GhApiError> {
        self.requests += 1;
        if auth_token.is_some_and(|token| token != self.good_token) {
            return Ok(GhApiRet::Unauthorized);
        }
        match self.releases.iter().find(|(known, _)| known == release) {
            Some((_, names)) => Ok(GhApiRet::Success(Artifacts::new(
                names
                    .iter()
                    .map(|name| Artifact {
                        name: name.to_string(),
                        url: format!("https://api.github.com/assets/{name}"),
                    })
                    .collect(),
            ))),
            None => Ok(GhApiRet::NotFound),
        }
    }
}

/// Asks `client` and does what it says until the answer is there.
fn has_release_artifact(
    client: &mut GhApiClient,
    service: &mut Service,
    artifact: GhReleaseArtifact,
) -> Result<HasReleaseArtifact, GhApiError> {
    let now = Now::from_nanos(1);
    let mut step = client.has_release_artifact(&artifact, now);
    loop {
        match step {
            Step::Done(result) => return result,
            Step::Fetch { release, auth_token } => {
                let outcome = service.fetch(&release, auth_token.as_deref());
                step = client.fetch_completed(&artifact, outcome, now);
            }
            Step::Wait => unreachable!("one query at a time"),
        }
    }
}

fn create_client() -> Vec<GhApiClient> {
    vec![
        GhApiClient::new(None),
        GhApiClient::new(Some("good".to_string())),
        GhApiClient::new(Some("bad".to_string())),
    ]
}

fn test_specific_release(release: &GhRelease, artifacts: &[&str]) {
    for mut client in create_client() {
        let mut service = Service::new();

        for artifact_name in artifacts {
            let ret = has_release_artifact(
                &mut client,
                &mut service,
                GhReleaseArtifact {
                    release: release.clone(),
                    artifact_name: artifact_name.to_string(),
                },
            )
            .unwrap();

            assert!(
                matches!(
                    ret,
                    HasReleaseArtifact::Yes { .. } | HasReleaseArtifact::RateLimit { .. }
                ),
                "for '{artifact_name}': answer is {:#?}",
                ret
            );
            assert_eq!(
                ret,
                HasReleaseArtifact::Yes {
                    url: format!("https://api.github.com/assets/{artifact_name}")
                }
            );
        }

        let ret = has_release_artifact(
            &mut client,
            &mut service,
            GhReleaseArtifact {
                release: release.clone(),
                artifact_name: "123z".to_string(),
            },
        )
        .unwrap();

        assert!(
            matches!(
                ret,
                HasReleaseArtifact::No | HasReleaseArtifact::RateLimit { .. }
            ),
            "ret = {:#?}",
            ret
        );
        assert_eq!(ret, HasReleaseArtifact::No);

        // One request for the release, and one more where the credential was
        // refused.
        assert!(service.requests <= 2, "requests: {}", service.requests);
        if service.requests == 2 {
            assert!(!client.is_auth_token_valid());
        }
    }
}

#[test]
fn test_gh_api_client_cargo_binstall_v0_20_1() {
    test_specific_release(&binstall_release(), BINSTALL_ARTIFACTS)
}

#[test]
fn test_gh_api_client_cargo_binstall_no_such_release() {
    for mut client in create_client() {
        let mut service = Service::new();
        let release = GhRelease {
            owner: "cargo-bins".to_string(),
            repo: "cargo-binstall".to_string(),
            // We are currently at v0.20.1 and we would never release
            // anything older than v0.20.1
            tag: "v0.18.2".to_string(),
        };

        let ret = has_release_artifact(
            &mut client,
            &mut service,
            GhReleaseArtifact {
                release,
                artifact_name: "1234".to_string(),
            },
        )
        .unwrap();

        assert!(
            matches!(
                ret,
                HasReleaseArtifact::NoSuchRelease | HasReleaseArtifact::RateLimit { .. }
            ),
            "ret = {:#?}",
            ret
        );
        assert_eq!(ret, HasReleaseArtifact::NoSuchRelease);
    }
}

#[test]
fn test_gh_api_client_cargo_audit_v_0_17_6() {
    test_specific_release(&audit_release(), AUDIT_ARTIFACTS)
}
