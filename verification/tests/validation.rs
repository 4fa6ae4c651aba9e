use github_skill::validate::{check_owner_repo, get_token, validate_base, validate_repo_param};

// ── Base Branch Validation ──────────────────────────────────────────

#[test]
fn validate_base_rejects_main() {
    assert!(validate_base("main").is_err());
}

#[test]
fn validate_base_rejects_master() {
    assert!(validate_base("master").is_err());
}

#[test]
fn validate_base_accepts_staging() {
    assert!(validate_base("staging").is_ok());
}

#[test]
fn validate_base_accepts_develop() {
    assert!(validate_base("develop").is_ok());
}

#[test]
fn validate_base_message_names_the_branch() {
    assert_eq!(
        validate_base("main").unwrap_err(),
        "Base branch 'main' is blocked. PRs must target 'staging', not 'main'."
    );
}

#[test]
fn validate_base_is_exact_match() {
    assert!(validate_base("Main").is_ok());
    assert!(validate_base("mainline").is_ok());
    assert!(validate_base("").is_ok());
}

// ── Repo Parameter Validation ──────────────────────────────────────

#[test]
fn validate_repo_param_accepts_normal_names() {
    assert!(validate_repo_param("acme"));
    assert!(validate_repo_param("my-repo"));
    assert!(validate_repo_param("my_repo"));
    assert!(validate_repo_param("my.repo"));
    assert!(validate_repo_param("Repo123"));
}

#[test]
fn validate_repo_param_rejects_invalid_names() {
    assert!(!validate_repo_param(""));
    assert!(!validate_repo_param("acme/repo"));
    assert!(!validate_repo_param("acme repo"));
    assert!(!validate_repo_param("acme;drop"));
    assert!(!validate_repo_param("../etc"));
}

#[test]
fn validate_repo_param_rejects_non_ascii() {
    assert!(!validate_repo_param("café"));
}

#[test]
fn check_owner_repo_rejects_invalid_owner() {
    let result = check_owner_repo("bad/owner", "repo");
    assert!(result.is_err());
    assert!(result.unwrap_err().contains("owner"));
}

#[test]
fn check_owner_repo_rejects_invalid_repo() {
    let result = check_owner_repo("owner", "bad repo");
    assert!(result.is_err());
    assert!(result.unwrap_err().contains("repo"));
}

#[test]
fn check_owner_repo_accepts_valid_params() {
    assert!(check_owner_repo("acme", "widgets").is_ok());
}

#[test]
fn check_owner_repo_reports_owner_first() {
    assert_eq!(
        check_owner_repo("", "bad repo").unwrap_err(),
        "Invalid owner parameter: ''"
    );
    assert_eq!(
        check_owner_repo("acme", "bad repo").unwrap_err(),
        "Invalid repo parameter: 'bad repo'"
    );
}

#[test]
fn get_token_passes_stored_token() {
    assert_eq!(get_token(Some("ghp_x".to_string())).unwrap(), "ghp_x");
}

#[test]
fn get_token_explains_missing_token() {
    assert_eq!(
        get_token(None).unwrap_err(),
        "GitHub token not configured. Store a token with key 'github_token' via the host KV API."
    );
}
