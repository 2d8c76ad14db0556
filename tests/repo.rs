use unc::repo::{normalize_repo_url, parse_repo_url, resolve_repo_url, starts_with, tarball_url, RepoUrlError};

#[test]
fn test_parse_repo_url() {
    let (owner, repo) = parse_repo_url("https://github.com/user/repo").unwrap();
    assert_eq!(owner, "user");
    assert_eq!(repo, "repo");

    let (owner, repo) = parse_repo_url("user/repo").unwrap();
    assert_eq!(owner, "user");
    assert_eq!(repo, "repo");

    let (owner, repo) = parse_repo_url("https://github.com/org/my-repo/").unwrap();
    assert_eq!(owner, "org");
    assert_eq!(repo, "my-repo");
}

#[test]
fn test_parse_repo_url_invalid() {
    assert!(parse_repo_url("invalid").is_err());
    assert!(parse_repo_url("").is_err());
}

#[test]
fn test_normalize_repo_url() {
    assert_eq!(normalize_repo_url("user/repo"), "https://github.com/user/repo");
    assert_eq!(
        normalize_repo_url("https://github.com/user/repo"),
        "https://github.com/user/repo"
    );
    assert_eq!(
        normalize_repo_url("http://github.com/user/repo"),
        "http://github.com/user/repo"
    );
}

#[test]
fn test_normalize_repo_url_integration() {
    let url = normalize_repo_url("user/repo");
    assert_eq!(url, "https://github.com/user/repo");
}

#[test]
fn parse_repo_url_edge_cases() {
    assert_eq!(parse_repo_url("a//"), Err(RepoUrlError::Invalid));
    assert_eq!(parse_repo_url("///"), Err(RepoUrlError::Invalid));
    let (owner, repo) = parse_repo_url("/a").unwrap();
    assert_eq!(owner, "");
    assert_eq!(repo, "a");
    let (owner, repo) = parse_repo_url("x/y/z///").unwrap();
    assert_eq!(owner, "y");
    assert_eq!(repo, "z");
}

#[test]
fn resolve_repo_url_uses_default() {
    assert_eq!(
        resolve_repo_url(None),
        "https://github.com/erickweyunga/uncovr-templates"
    );
    assert_eq!(resolve_repo_url(Some("me/t")), "https://github.com/me/t");
}

#[test]
fn tarball_url_of_branch() {
    assert_eq!(
        tarball_url("user", "repo", "main"),
        "https://api.github.com/repos/user/repo/tarball/main"
    );
}

#[test]
fn starts_with_prefixes() {
    assert!(starts_with("https://x", "https://"));
    assert!(!starts_with("http:/", "http://"));
    assert!(starts_with("abc", ""));
}
