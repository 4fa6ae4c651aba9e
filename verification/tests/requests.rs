use github_skill::inputs::{
    CommentPrInput, CreateIssueInput, CreatePrInput, ListIssuesInput, ListPrsInput, ViewPrInput,
};
use github_skill::requests::{
    auth_headers, auth_headers_with_accept, build_create_issue_body, build_create_pr_request,
    comment_pr_request, create_issue_request, create_pr_request, list_issues_request,
    list_prs_request, view_pr_diff_request, view_pr_request,
};
use serde_json::Value;

fn json(text: &str) -> Value {
    serde_json::from_str(text).unwrap()
}

// ── Auth Headers ────────────────────────────────────────────────────

#[test]
fn auth_headers_contains_bearer_token() {
    let headers = auth_headers("ghp_test123");
    let parsed = json(&headers);
    assert_eq!(parsed["Authorization"], "Bearer ghp_test123");
    assert_eq!(parsed["Accept"], "application/vnd.github+json");
}

#[test]
fn auth_headers_lists_every_header() {
    let parsed = json(&auth_headers("t"));
    assert_eq!(parsed["Content-Type"], "application/json");
    assert_eq!(parsed["User-Agent"], "fawx-github-skill/1.0");
    assert_eq!(parsed["X-GitHub-Api-Version"], "2022-11-28");
    assert_eq!(parsed.as_object().unwrap().len(), 5);
}

#[test]
fn auth_headers_escapes_the_token() {
    let parsed = json(&auth_headers("a\"b\\c"));
    assert_eq!(parsed["Authorization"], "Bearer a\"b\\c");
}

#[test]
fn auth_headers_with_accept_uses_custom_accept() {
    let headers = auth_headers_with_accept("ghp_test", "application/vnd.github.diff");
    let parsed = json(&headers);
    assert_eq!(parsed["Accept"], "application/vnd.github.diff");
    assert_eq!(parsed["Authorization"], "Bearer ghp_test");
    assert!(parsed.get("Content-Type").is_none());
}

// ── Request Building ────────────────────────────────────────────────

#[test]
fn build_create_pr_request_url_and_body() {
    let input = CreatePrInput {
        owner: "acme".into(),
        repo: "widgets".into(),
        title: "My PR".into(),
        body: Some("Description".into()),
        head: "feat/x".into(),
        base: Some("staging".into()),
        draft: Some(true),
    };
    let (url, body) = build_create_pr_request(&input);
    assert_eq!(url, "https://api.github.com/repos/acme/widgets/pulls");
    let parsed = json(&body);
    assert_eq!(parsed["title"], "My PR");
    assert_eq!(parsed["base"], "staging");
    assert_eq!(parsed["draft"], true);
}

#[test]
fn build_create_pr_request_defaults_base_to_staging() {
    let input = CreatePrInput {
        owner: "acme".into(),
        repo: "widgets".into(),
        title: "My PR".into(),
        body: None,
        head: "feat/x".into(),
        base: None,
        draft: None,
    };
    let (_, body) = build_create_pr_request(&input);
    let parsed = json(&body);
    assert_eq!(parsed["base"], "staging");
    assert_eq!(parsed["draft"], false);
    assert_eq!(parsed["body"], "");
}

#[test]
fn build_create_pr_request_body_is_compact_with_sorted_keys() {
    let input = CreatePrInput {
        owner: "acme".into(),
        repo: "widgets".into(),
        title: "T".into(),
        body: None,
        head: "h".into(),
        base: None,
        draft: None,
    };
    let (_, body) = build_create_pr_request(&input);
    assert_eq!(body, r#"{"base":"staging","body":"","draft":false,"head":"h","title":"T"}"#);
}

// ── Create Issue Body Building ──────────────────────────────────────

#[test]
fn build_create_issue_body_minimal() {
    let input = CreateIssueInput {
        owner: "acme".into(),
        repo: "widgets".into(),
        title: "Test".into(),
        body: None,
        labels: None,
        assignees: None,
    };
    let body = build_create_issue_body(&input);
    let parsed = json(&body);
    assert_eq!(parsed["title"], "Test");
    assert!(parsed.get("body").is_none());
    assert!(parsed.get("labels").is_none());
    assert!(parsed.get("assignees").is_none());
}

#[test]
fn build_create_issue_body_full() {
    let input = CreateIssueInput {
        owner: "acme".into(),
        repo: "widgets".into(),
        title: "Full".into(),
        body: Some("Description".into()),
        labels: Some(vec!["bug".into()]),
        assignees: Some(vec!["dev1".into()]),
    };
    let body = build_create_issue_body(&input);
    let parsed = json(&body);
    assert_eq!(parsed["title"], "Full");
    assert_eq!(parsed["body"], "Description");
    assert_eq!(parsed["labels"][0], "bug");
    assert_eq!(parsed["assignees"][0], "dev1");
}

// ── Whole requests ──────────────────────────────────────────────────

#[test]
fn create_pr_request_posts_to_pulls() {
    let input = CreatePrInput {
        owner: "acme".into(),
        repo: "widgets".into(),
        title: "T".into(),
        body: None,
        head: "h".into(),
        base: Some("develop".into()),
        draft: Some(false),
    };
    let req = create_pr_request(&input, "tok");
    assert_eq!(req.method, "POST");
    assert_eq!(req.url, "https://api.github.com/repos/acme/widgets/pulls");
    assert_eq!(json(&req.headers)["Authorization"], "Bearer tok");
    assert_eq!(json(&req.body)["base"], "develop");
}

#[test]
fn comment_pr_request_posts_to_issue_comments() {
    let input = CommentPrInput {
        owner: "acme".into(),
        repo: "widgets".into(),
        pr_number: 42,
        body: "Ship it".into(),
    };
    let req = comment_pr_request(&input, "tok");
    assert_eq!(req.method, "POST");
    assert_eq!(req.url, "https://api.github.com/repos/acme/widgets/issues/42/comments");
    assert_eq!(req.body, r#"{"body":"Ship it"}"#);
}

#[test]
fn list_prs_request_defaults_state_and_page_size() {
    let input = ListPrsInput { owner: "acme".into(), repo: "widgets".into(), state: None, per_page: None };
    let req = list_prs_request(&input, "tok");
    assert_eq!(req.method, "GET");
    assert_eq!(req.url, "https://api.github.com/repos/acme/widgets/pulls?state=open&per_page=10");
    assert_eq!(req.body, "");
}

#[test]
fn list_prs_request_uses_given_options() {
    let input = ListPrsInput {
        owner: "acme".into(),
        repo: "widgets".into(),
        state: Some("closed".into()),
        per_page: Some(25),
    };
    let req = list_prs_request(&input, "tok");
    assert_eq!(req.url, "https://api.github.com/repos/acme/widgets/pulls?state=closed&per_page=25");
}

#[test]
fn view_pr_requests_read_the_pull_and_its_diff() {
    let input = ViewPrInput { owner: "acme".into(), repo: "widgets".into(), pr_number: 18446744073709551615 };
    let req = view_pr_request(&input, "tok");
    let diff = view_pr_diff_request(&input, "tok");
    assert_eq!(req.url, "https://api.github.com/repos/acme/widgets/pulls/18446744073709551615");
    assert_eq!(diff.url, req.url);
    assert_eq!(json(&req.headers)["Accept"], "application/vnd.github+json");
    assert_eq!(json(&diff.headers)["Accept"], "application/vnd.github.diff");
}

#[test]
fn list_issues_request_encodes_labels() {
    let input = ListIssuesInput {
        owner: "acme".into(),
        repo: "widgets".into(),
        state: Some("closed".into()),
        labels: Some("good first issue,bug".into()),
        per_page: Some(5),
    };
    let req = list_issues_request(&input, "tok");
    assert_eq!(
        req.url,
        "https://api.github.com/repos/acme/widgets/issues?state=closed&per_page=5&labels=good%20first%20issue,bug"
    );
}

#[test]
fn list_issues_request_without_labels() {
    let input = ListIssuesInput {
        owner: "acme".into(),
        repo: "widgets".into(),
        state: None,
        labels: None,
        per_page: Some(0),
    };
    let req = list_issues_request(&input, "tok");
    assert_eq!(req.url, "https://api.github.com/repos/acme/widgets/issues?state=open&per_page=0");
}

#[test]
fn create_issue_request_posts_to_issues() {
    let input = CreateIssueInput {
        owner: "acme".into(),
        repo: "widgets".into(),
        title: "Bug".into(),
        body: None,
        labels: Some(vec!["bug".into(), "p1".into()]),
        assignees: None,
    };
    let req = create_issue_request(&input, "tok");
    assert_eq!(req.method, "POST");
    assert_eq!(req.url, "https://api.github.com/repos/acme/widgets/issues");
    assert_eq!(req.body, r#"{"labels":["bug","p1"],"title":"Bug"}"#);
}
