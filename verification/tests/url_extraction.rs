use gh_api_client::percent::{percent_decode_http_url_path, percent_encode_http_url_path};
use gh_api_client::release::{GhRelease, GhReleaseArtifact, GhRepo};
use gh_api_client::url_parts::ParsedUrl;

const ARTIFACTS: &[&str] = &[
    "cargo-binstall-aarch64-apple-darwin.full.zip",
    "cargo-binstall-aarch64-apple-darwin.zip",
    "cargo-binstall-aarch64-pc-windows-msvc.full.zip",
    "cargo-binstall-aarch64-pc-windows-msvc.zip",
    "cargo-binstall-aarch64-unknown-linux-gnu.full.tgz",
    "cargo-binstall-aarch64-unknown-linux-gnu.tgz",
    "cargo-binstall-aarch64-unknown-linux-musl.full.tgz",
    "cargo-binstall-aarch64-unknown-linux-musl.tgz",
    "cargo-binstall-armv7-unknown-linux-gnueabihf.full.tgz",
    "cargo-binstall-armv7-unknown-linux-gnueabihf.tgz",
    "cargo-binstall-armv7-unknown-linux-musleabihf.full.tgz",
    "cargo-binstall-armv7-unknown-linux-musleabihf.tgz",
    "cargo-binstall-universal-apple-darwin.full.zip",
    "cargo-binstall-universal-apple-darwin.zip",
    "cargo-binstall-x86_64-apple-darwin.full.zip",
    "cargo-binstall-x86_64-apple-darwin.zip",
    "cargo-binstall-x86_64-pc-windows-msvc.full.zip",
    "cargo-binstall-x86_64-pc-windows-msvc.zip",
    "cargo-binstall-x86_64-unknown-linux-gnu.full.tgz",
    "cargo-binstall-x86_64-unknown-linux-gnu.tgz",
    "cargo-binstall-x86_64-unknown-linux-musl.full.tgz",
    "cargo-binstall-x86_64-unknown-linux-musl.tgz",
];

fn binstall_release() -> GhRelease {
    GhRelease {
        owner: "cargo-bins".to_string(),
        repo: "cargo-binstall".to_string(),
        tag: "v0.20.1".to_string(),
    }
}

fn audit_release() -> GhRelease {
    GhRelease {
        owner: "rustsec".to_string(),
        repo: "rustsec".to_string(),
        tag: "cargo-audit/v0.17.6".to_string(),
    }
}

fn try_extract_artifact_from_str(s: &str) -> Option<GhReleaseArtifact> {
    GhReleaseArtifact::try_extract_from_url(&ParsedUrl::parse(s).unwrap())
}

fn assert_extract_gh_release_artifacts_failures(urls: &[&str]) {
    for url in urls {
        assert_eq!(try_extract_artifact_from_str(url), None);
    }
}

#[test]
fn extract_gh_release_artifacts_failure() {
    let GhRelease { owner, repo, tag } = binstall_release();

    assert_extract_gh_release_artifacts_failures(&[
        "https://examle.com",
        "https://github.com",
        &format!("https://github.com/{owner}"),
        &format!("https://github.com/{owner}/{repo}"),
        &format!("https://github.com/{owner}/{repo}/123e"),
        &format!("https://github.com/{owner}/{repo}/releases/21343"),
        &format!("https://github.com/{owner}/{repo}/releases/download"),
        &format!("https://github.com/{owner}/{repo}/releases/download/{tag}"),
        &format!("https://github.com/{owner}/{repo}/releases/download/{tag}/a/23"),
        &format!("https://github.com/{owner}/{repo}/releases/download/{tag}/a#a=12"),
        &format!("https://github.com/{owner}/{repo}/releases/download/{tag}/a?page=3"),
    ]);
}

#[test]
fn extract_gh_release_artifacts_success() {
    let GhRelease { owner, repo, tag } = binstall_release();

    for artifact in ARTIFACTS {
        let GhReleaseArtifact {
            release,
            artifact_name,
        } = try_extract_artifact_from_str(&format!(
            "https://github.com/{owner}/{repo}/releases/download/{tag}/{artifact}"
        ))
        .unwrap();

        assert_eq!(release, binstall_release());
        assert_eq!(artifact_name, *artifact);
    }
}

#[test]
fn extract_with_escaped_characters() {
    let release_artifact = try_extract_artifact_from_str(
        "https://github.com/rustsec/rustsec/releases/download/cargo-audit%2Fv0.17.6/cargo-audit-aarch64-unknown-linux-gnu-v0.17.6.tgz"
    ).unwrap();

    assert_eq!(
        release_artifact,
        GhReleaseArtifact {
            release: audit_release(),
            artifact_name: String::from("cargo-audit-aarch64-unknown-linux-gnu-v0.17.6.tgz"),
        }
    );
}

#[test]
fn extract_x86_64_artifact_of_cargo_audit() {
    let release_artifact = try_extract_artifact_from_str(
        "https://github.com/rustsec/rustsec/releases/download/cargo-audit%2Fv0.17.6/cargo-audit-x86_64-unknown-linux-gnu-v0.17.6.tgz"
    ).unwrap();

    assert_eq!(release_artifact.release.tag, "cargo-audit/v0.17.6");
    assert_eq!(
        release_artifact.artifact_name,
        "cargo-audit-x86_64-unknown-linux-gnu-v0.17.6.tgz"
    );
}

#[test]
fn extract_ignores_the_scheme_but_not_the_host() {
    assert!(try_extract_artifact_from_str("http://github.com/o/r/releases/download/t/a").is_some());
    assert_eq!(try_extract_artifact_from_str("https://api.github.com/o/r/releases/download/t/a"), None);
    assert_eq!(try_extract_artifact_from_str("https://140.82.112.3/o/r/releases/download/t/a"), None);
    assert_eq!(try_extract_artifact_from_str("https://github.com/o/r/releases/download/t/a/"), None);
    assert_eq!(try_extract_artifact_from_str("https://github.com/o/r/release/download/t/a"), None);
    assert_eq!(try_extract_artifact_from_str("https://github.com/o/r/releases/downloads/t/a"), None);
    assert_eq!(try_extract_artifact_from_str("https://github.com/o/r/releases/download/t/a?"), None);
    assert_eq!(try_extract_artifact_from_str("https://github.com/o/r/releases/download/t/a#"), None);
}

#[test]
fn extract_from_hand_written_components() {
    let url = ParsedUrl {
        text: String::from("https://github.com/o/r/releases/download/t%20x/a%2Fb"),
        scheme: String::from("https"),
        host: Some(String::from("github.com")),
        domain: Some(String::from("github.com")),
        path_segments: Some(
            ["o", "r", "releases", "download", "t%20x", "a%2Fb"]
                .iter()
                .map(|s| s.to_string())
                .collect(),
        ),
        query: None,
        fragment: None,
    };
    let found = GhReleaseArtifact::try_extract_from_url(&url).unwrap();
    assert_eq!(found.release.owner, "o");
    assert_eq!(found.release.repo, "r");
    assert_eq!(found.release.tag, "t x");
    assert_eq!(found.artifact_name, "a/b");

    let no_path = ParsedUrl { path_segments: None, ..url };
    assert_eq!(GhReleaseArtifact::try_extract_from_url(&no_path), None);
}

#[test]
fn parse_reads_the_components() {
    let url = ParsedUrl::parse("https://user@Example.COM:8080/a/b%20c?x=1#frag").unwrap();
    assert_eq!(url.text, "https://user@example.com:8080/a/b%20c?x=1#frag");
    assert_eq!(url.as_str(), "https://user@example.com:8080/a/b%20c?x=1#frag");
    assert_eq!(url.scheme, "https");
    assert_eq!(url.host.as_deref(), Some("example.com"));
    assert_eq!(url.domain.as_deref(), Some("example.com"));
    assert_eq!(
        url.path_segments,
        Some(vec!["a".to_string(), "b%20c".to_string()])
    );
    assert_eq!(url.query.as_deref(), Some("x=1"));
    assert_eq!(url.fragment.as_deref(), Some("frag"));

    let ip = ParsedUrl::parse("https://127.0.0.1/").unwrap();
    assert_eq!(ip.host.as_deref(), Some("127.0.0.1"));
    assert_eq!(ip.domain, None);

    let data = ParsedUrl::parse("data:text/plain,Stuff").unwrap();
    assert_eq!(data.host, None);
    assert_eq!(data.path_segments, None);

    assert!(ParsedUrl::parse("/relative/path").is_err());
    assert!(ParsedUrl::parse("").is_err());
}

#[test]
fn parsed_urls_compare_by_their_components() {
    let a = ParsedUrl::parse("https://github.com/a/b").unwrap();
    let b = ParsedUrl::parse("HTTPS://GitHub.com/a/b").unwrap();
    let c = ParsedUrl::parse("https://github.com/a/c").unwrap();
    assert_eq!(a, b);
    assert_ne!(a, c);
}

#[test]
fn repo_url_joins_owner_and_repo() {
    let repo = GhRepo {
        owner: "cargo-bins".to_string(),
        repo: "cargo-binstall".to_string(),
    };
    assert_eq!(repo.repo_url(), "https://github.com/cargo-bins/cargo-binstall");
    let empty = GhRepo {
        owner: String::new(),
        repo: String::new(),
    };
    assert_eq!(empty.repo_url(), "https://github.com//");
}

#[test]
fn releases_compare_letter_for_letter() {
    let a = binstall_release();
    let mut b = a.clone();
    assert_eq!(a, b);
    b.owner = "Cargo-Bins".to_string();
    assert_ne!(a, b);
}

#[test]
fn percent_encode_escapes_what_a_path_segment_cannot_hold() {
    assert_eq!(percent_encode_http_url_path("cargo-audit/v0.17.6"), "cargo-audit%2Fv0.17.6");
    assert_eq!(percent_encode_http_url_path("a b"), "a%20b");
    assert_eq!(percent_encode_http_url_path("100%"), "100%25");
    assert_eq!(percent_encode_http_url_path("a\\b"), "a%5Cb");
    assert_eq!(percent_encode_http_url_path("\"<>`#?{}"), "%22%3C%3E%60%23%3F%7B%7D");
    assert_eq!(percent_encode_http_url_path("\u{7f}\n"), "%7F%0A");
    assert_eq!(percent_encode_http_url_path("việt"), "vi%E1%BB%87t");
    assert_eq!(percent_encode_http_url_path("v1.2.3-x86_64~A+b=c&d"), "v1.2.3-x86_64~A+b=c&d");
    assert_eq!(percent_encode_http_url_path(""), "");
}

#[test]
fn percent_decode_reads_escapes_of_either_case() {
    assert_eq!(percent_decode_http_url_path("cargo-audit%2Fv0.17.6"), "cargo-audit/v0.17.6");
    assert_eq!(percent_decode_http_url_path("a%2fb"), "a/b");
    assert_eq!(percent_decode_http_url_path("plain"), "plain");
    assert_eq!(percent_decode_http_url_path("việt"), "việt");
    assert_eq!(percent_decode_http_url_path("vi%E1%BB%87t"), "việt");
    assert_eq!(percent_decode_http_url_path("100%"), "100%");
    assert_eq!(percent_decode_http_url_path("%zz%4"), "%zz%4");
    assert_eq!(percent_decode_http_url_path("%25%32%35"), "%25");
    assert_eq!(percent_decode_http_url_path("a%FFb"), "a\u{fffd}b");
    assert_eq!(percent_decode_http_url_path(""), "");
}

#[test]
fn percent_decode_inverts_percent_encode() {
    for segment in [
        "cargo-audit/v0.17.6",
        "100% of {it} <is> \"here\"?#",
        "việt nam\\\u{0}\u{7f}",
        "%25",
        "",
        "🦀/🦀",
    ] {
        let encoded = percent_encode_http_url_path(segment);
        assert_eq!(percent_decode_http_url_path(&encoded), segment);
        let url = format!("https://github.com/{encoded}/{encoded}/releases/download/{encoded}/{encoded}");
        let found = try_extract_artifact_from_str(&url).unwrap();
        assert_eq!(found.release.owner, segment);
        assert_eq!(found.release.repo, segment);
        assert_eq!(found.release.tag, segment);
        assert_eq!(found.artifact_name, segment);
    }
}

#[test]
fn api_url_encodes_each_part() {
    assert_eq!(
        binstall_release().api_url(),
        "https://api.github.com/repos/cargo-bins/cargo-binstall/releases/tags/v0.20.1"
    );
    assert_eq!(
        audit_release().api_url(),
        "https://api.github.com/repos/rustsec/rustsec/releases/tags/cargo-audit%2Fv0.17.6"
    );
    let odd = GhRelease {
        owner: "a b".to_string(),
        repo: "c?d".to_string(),
        tag: "100%".to_string(),
    };
    assert_eq!(
        odd.api_url(),
        "https://api.github.com/repos/a%20b/c%3Fd/releases/tags/100%25"
    );
}

#[test]
fn https_is_told_from_other_schemes() {
    assert!(ParsedUrl::parse("https://example.com").unwrap().is_https());
    assert!(ParsedUrl::parse("HTTPS://example.com").unwrap().is_https());
    assert!(!ParsedUrl::parse("http://example.com").unwrap().is_https());
    assert!(!ParsedUrl::parse("ftp://example.com").unwrap().is_https());
}
