use os_cli::config::Config;
use os_cli::upgrade::{
    check_release, find_asset, find_listed_hash, github_token, parse_version_tag, to_hex_lower,
    release_urls, verify_checksum, ReleaseAsset, ReleaseCheck, SemVer, UpgradeError,
};
use sha2::{Digest, Sha256};

#[test]
fn parse_version_tag_strips_v_prefix() {
    let v = parse_version_tag("v0.1.0").unwrap();
    assert_eq!(v, SemVer { major: 0, minor: 1, patch: 0, pre: String::new(), build: String::new() });
}

#[test]
fn parse_version_tag_works_without_prefix() {
    let v = parse_version_tag("1.2.3").unwrap();
    assert_eq!(v, SemVer { major: 1, minor: 2, patch: 3, pre: String::new(), build: String::new() });
}

#[test]
fn parse_version_tag_rejects_garbage() {
    assert!(parse_version_tag("not-a-version").is_err());
}

#[test]
fn parse_version_tag_keeps_prerelease() {
    let v = parse_version_tag("v2.0.0-rc.1+build.5").unwrap();
    assert_eq!((v.major, v.minor, v.patch), (2, 0, 0));
    assert_eq!(v.pre, "rc.1");
    assert_eq!(v.build, "build.5");
    match parse_version_tag("vv1.0.0") {
        Err(UpgradeError::InvalidVersionTag { tag }) => assert_eq!(tag, "vv1.0.0"),
        other => panic!("unexpected {:?}", other),
    }
}

#[test]
fn semver_comparison_is_correct() {
    match check_release("0.9.0", "0.10.0").unwrap() {
        ReleaseCheck::Newer { current, latest } => {
            assert_eq!((current.major, current.minor), (0, 9));
            assert_eq!((latest.major, latest.minor), (0, 10));
        }
        ReleaseCheck::UpToDate { .. } => panic!("0.10.0 should be greater than 0.9.0"),
    }
}

#[test]
fn release_not_newer_is_up_to_date() {
    assert!(matches!(check_release("1.2.3", "v1.2.3").unwrap(), ReleaseCheck::UpToDate { .. }));
    assert!(matches!(check_release("1.2.3", "v1.2.0").unwrap(), ReleaseCheck::UpToDate { .. }));
    assert!(matches!(check_release("1.0.0-beta", "v1.0.0").unwrap(), ReleaseCheck::Newer { .. }));
    assert!(matches!(check_release("1.0.0", "v1.0.0-beta").unwrap(), ReleaseCheck::UpToDate { .. }));
}

#[test]
fn release_check_errors() {
    assert!(matches!(check_release("x", "v1.0.0"), Err(UpgradeError::InvalidCurrentVersion { .. })));
    assert!(matches!(check_release("1.0.0", "latest"), Err(UpgradeError::InvalidVersionTag { .. })));
}

fn sha256_hex(data: &[u8]) -> String {
    let mut hasher = Sha256::new();
    hasher.update(data);
    format!("{:x}", hasher.finalize())
}

#[test]
fn verify_checksum_passes_for_correct_hash() {
    let data = b"hello world";
    let hash = sha256_hex(data);
    let checksums = format!("{hash}  os-aarch64-apple-darwin\n");
    verify_checksum(data, &checksums, "os-aarch64-apple-darwin").unwrap();
}

#[test]
fn verify_checksum_fails_for_wrong_hash() {
    let data = b"hello world";
    let checksums = "0000000000000000000000000000000000000000000000000000000000000000  os-aarch64-apple-darwin\n";
    assert!(verify_checksum(data, checksums, "os-aarch64-apple-darwin").is_err());
}

#[test]
fn verify_checksum_fails_for_missing_filename() {
    let data = b"hello world";
    let checksums = "abc123  some-other-file\n";
    assert!(verify_checksum(data, checksums, "os-aarch64-apple-darwin").is_err());
}

#[test]
fn checksum_errors_say_what_went_wrong() {
    let data = b"hello world";
    match verify_checksum(data, "abc  other\n", "bin") {
        Err(UpgradeError::NoChecksum { filename }) => assert_eq!(filename, "bin"),
        other => panic!("unexpected {:?}", other),
    }
    match verify_checksum(data, "abc  bin\n", "bin") {
        Err(UpgradeError::ChecksumMismatch { filename, expected, actual }) => {
            assert_eq!(filename, "bin");
            assert_eq!(expected, "abc");
            assert_eq!(actual, sha256_hex(data));
        }
        other => panic!("unexpected {:?}", other),
    }
}

#[test]
fn checksum_listing_picks_first_matching_line() {
    let data = b"payload";
    let hash = sha256_hex(data);
    let listing = format!("ffff  other-bin\r\n{hash}  my-bin\r\n0000  my-bin\n");
    assert_eq!(find_listed_hash(&listing, "my-bin"), Some(hash.clone()));
    verify_checksum(data, &listing, "my-bin").unwrap();
}

#[test]
fn hex_of_digest() {
    assert_eq!(to_hex_lower(&vec![0x00, 0x0f, 0xa0, 0xff]), "000fa0ff");
    assert_eq!(to_hex_lower(&vec![]), "");
}

#[test]
fn run_fails_without_github_token() {
    let config = Config::default();
    let err = github_token(&config).unwrap_err();
    assert!(matches!(err, UpgradeError::NoGithubToken));
    let err_msg = err.message();
    assert!(err_msg.contains("GitHub token"), "Expected error about GitHub token, got: {err_msg}");
}

#[test]
fn run_fails_with_empty_github_token() {
    let config = Config { github_token: Some(String::new()), ..Config::default() };
    let err = github_token(&config).unwrap_err();
    assert!(matches!(err, UpgradeError::NoGithubToken));
    let err_msg = err.message();
    assert!(err_msg.contains("GitHub token"), "Expected error about GitHub token, got: {err_msg}");
}

#[test]
fn github_token_when_configured() {
    let config = Config { github_token: Some("ghp_x".to_string()), ..Config::default() };
    assert_eq!(github_token(&config).unwrap(), "ghp_x");
}

#[test]
fn asset_urls() {
    let asset = |n: Option<&str>, u: Option<&str>| ReleaseAsset { name: n.map(String::from), url: u.map(String::from) };
    let assets = vec![
        asset(Some("checksums.txt"), Some("https://x/1")),
        asset(None, Some("https://x/2")),
        asset(Some("bin"), None),
        asset(Some("bin"), Some("https://x/3")),
        asset(Some("ok-bin"), Some("https://x/4")),
    ];
    assert_eq!(find_asset(&assets, "ok-bin").unwrap().url.as_deref(), Some("https://x/4"));
    assert_eq!(find_asset(&assets, "bin").unwrap().url, None);
    assert_eq!(
        release_urls(&assets, "ok-bin", "checksums.txt").unwrap(),
        ("https://x/4".to_string(), "https://x/1".to_string())
    );
    match release_urls(&assets, "bin", "checksums.txt") {
        Err(UpgradeError::MissingAssetUrl { asset }) => assert_eq!(asset, "binary"),
        other => panic!("unexpected {:?}", other),
    }
    let no_sum_url = vec![asset(Some("ok-bin"), Some("https://x/4")), asset(Some("checksums.txt"), None)];
    match release_urls(&no_sum_url, "ok-bin", "checksums.txt") {
        Err(e @ UpgradeError::MissingAssetUrl { .. }) => assert_eq!(e.message(), "No URL for checksum asset"),
        other => panic!("unexpected {:?}", other),
    }
    match release_urls(&assets, "other", "checksums.txt") {
        Err(UpgradeError::MissingAsset { name }) => assert_eq!(name, "other"),
        other => panic!("unexpected {:?}", other),
    }
    // A missing checksums asset is reported before the binary's missing URL.
    match release_urls(&assets, "bin", "sums") {
        Err(e @ UpgradeError::MissingAsset { .. }) => assert_eq!(e.message(), "No sums asset in release"),
        other => panic!("unexpected {:?}", other),
    }
}

#[test]
fn error_messages() {
    assert_eq!(
        UpgradeError::InvalidVersionTag { tag: "latest".into() }.message(),
        "Invalid version tag: latest"
    );
    assert_eq!(UpgradeError::NoChecksum { filename: "bin".into() }.message(), "No checksum found for bin");
    assert_eq!(
        UpgradeError::ChecksumMismatch { filename: "bin".into(), expected: "ab".into(), actual: "cd".into() }
            .message(),
        "Checksum mismatch for bin:\n  expected: ab\n  actual:   cd"
    );
    assert_eq!(
        UpgradeError::InvalidCurrentVersion { version: "x".into() }.message(),
        "Failed to parse current version"
    );
    assert_eq!(UpgradeError::MissingAsset { name: "bin".into() }.message(), "No bin asset in release");
    assert_eq!(UpgradeError::MissingAssetUrl { asset: "binary".into() }.message(), "No URL for binary asset");
}
