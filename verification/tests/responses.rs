use github_skill::api::{
    ApiReply, GitHubCommentResponse, GitHubErrorDetail, GitHubErrorResponse, GitHubIssueItem,
    GitHubIssueLabel, GitHubIssueResponse, GitHubPrDetail, GitHubPrListItem, GitHubPrResponse,
    GitHubRef, GitHubUser, IssueList, PrList,
};
use github_skill::errors::{error_from_response, format_error_details};
use github_skill::responses::{
    parse_comment_pr_response, parse_create_issue_response, parse_create_pr_response,
    parse_list_issues_response, parse_list_prs_response, parse_view_pr_response,
};
use serde_json::Value;

// ── Reading GitHub's JSON the way the plugin does ───────────────────

fn opt_string(obj: &serde_json::Map<String, Value>, key: &str) -> Result<Option<String>, ()> {
    match obj.get(key) {
        None | Some(Value::Null) => Ok(None),
        Some(Value::String(s)) => Ok(Some(s.clone())),
        Some(_) => Err(()),
    }
}

fn string(obj: &serde_json::Map<String, Value>, key: &str) -> Result<String, ()> {
    match obj.get(key) {
        Some(Value::String(s)) => Ok(s.clone()),
        _ => Err(()),
    }
}

fn number(obj: &serde_json::Map<String, Value>, key: &str) -> Result<u64, ()> {
    obj.get(key).and_then(Value::as_u64).ok_or(())
}

fn object(v: &Value) -> Result<&serde_json::Map<String, Value>, ()> {
    v.as_object().ok_or(())
}

fn error_detail(v: &Value) -> Result<GitHubErrorDetail, ()> {
    let o = object(v)?;
    Ok(GitHubErrorDetail {
        message: opt_string(o, "message")?,
        resource: opt_string(o, "resource")?,
        field: opt_string(o, "field")?,
        code: opt_string(o, "code")?,
    })
}

fn error_response(text: &str) -> Option<GitHubErrorResponse> {
    let v: Value = serde_json::from_str(text).ok()?;
    let o = object(&v).ok()?;
    let message = opt_string(o, "message").ok()?;
    let errors = match o.get("errors") {
        None | Some(Value::Null) => None,
        Some(Value::Array(items)) => {
            Some(items.iter().map(error_detail).collect::<Result<Vec<_>, ()>>().ok()?)
        }
        Some(_) => return None,
    };
    Some(GitHubErrorResponse { message, errors })
}

fn reply<T>(response: Option<&str>, read: impl Fn(&Value) -> Result<T, ()>) -> ApiReply<T> {
    let Some(text) = response else {
        return ApiReply::NoResponse;
    };
    let parsed = serde_json::from_str::<Value>(text).map_err(|_| ()).and_then(|v| read(&v));
    match parsed {
        Ok(value) => ApiReply::Parsed(value),
        Err(()) => ApiReply::Unparsed { text: text.to_string(), error: error_response(text) },
    }
}

fn created_pr(v: &Value) -> Result<GitHubPrResponse, ()> {
    let o = object(v)?;
    Ok(GitHubPrResponse { number: number(o, "number")?, html_url: string(o, "html_url")? })
}

fn created_issue(v: &Value) -> Result<GitHubIssueResponse, ()> {
    let o = object(v)?;
    Ok(GitHubIssueResponse { number: number(o, "number")?, html_url: string(o, "html_url")? })
}

fn comment(v: &Value) -> Result<GitHubCommentResponse, ()> {
    Ok(GitHubCommentResponse { id: number(object(v)?, "id")? })
}

fn git_ref(v: Option<&Value>) -> Result<GitHubRef, ()> {
    Ok(GitHubRef { ref_name: string(object(v.ok_or(())?)?, "ref")? })
}

fn user(v: Option<&Value>) -> Result<GitHubUser, ()> {
    Ok(GitHubUser { login: string(object(v.ok_or(())?)?, "login")? })
}

fn pr_list(v: &Value) -> Result<PrList, ()> {
    let items = v.as_array().ok_or(())?;
    let mut out = Vec::new();
    for item in items {
        let o = object(item)?;
        out.push(GitHubPrListItem {
            number: number(o, "number")?,
            title: string(o, "title")?,
            state: string(o, "state")?,
            html_url: string(o, "html_url")?,
            head: git_ref(o.get("head"))?,
            base: git_ref(o.get("base"))?,
            user: user(o.get("user"))?,
        });
    }
    Ok(PrList { items: out })
}

fn pr_detail(v: &Value) -> Result<GitHubPrDetail, ()> {
    let o = object(v)?;
    Ok(GitHubPrDetail {
        number: number(o, "number")?,
        title: string(o, "title")?,
        body: opt_string(o, "body")?,
        state: string(o, "state")?,
        html_url: string(o, "html_url")?,
        head: git_ref(o.get("head"))?,
        base: git_ref(o.get("base"))?,
        comments: number(o, "comments")?,
    })
}

fn issue_list(v: &Value) -> Result<IssueList, ()> {
    let items = v.as_array().ok_or(())?;
    let mut out = Vec::new();
    for item in items {
        let o = object(item)?;
        let mut labels = Vec::new();
        for l in o.get("labels").and_then(Value::as_array).ok_or(())? {
            labels.push(GitHubIssueLabel { name: string(object(l)?, "name")? });
        }
        out.push(GitHubIssueItem {
            number: number(o, "number")?,
            title: string(o, "title")?,
            state: string(o, "state")?,
            html_url: string(o, "html_url")?,
            user: user(o.get("user"))?,
            labels,
            is_pull_request: !matches!(o.get("pull_request"), None | Some(Value::Null)),
        });
    }
    Ok(IssueList { items: out })
}

fn error_text(response: &str) -> String {
    error_from_response(response, &error_response(response))
}

// ── Response Parsing ────────────────────────────────────────────────

#[test]
fn parse_create_pr_response_success() {
    let response = r#"{"number": 42, "html_url": "https://github.com/acme/widgets/pull/42"}"#;
    let result = parse_create_pr_response(reply(Some(response), created_pr));
    assert_eq!(result.success, true);
    assert_eq!(result.pr_number, Some(42));
    assert_eq!(result.html_url.as_deref(), Some("https://github.com/acme/widgets/pull/42"));
    assert!(result.error.is_none());
}

#[test]
fn parse_create_pr_response_api_error() {
    let response = r#"{"message": "Validation Failed"}"#;
    let result = parse_create_pr_response(reply(Some(response), created_pr));
    assert_eq!(result.success, false);
    assert_eq!(result.error.as_deref(), Some("Validation Failed"));
}

#[test]
fn parse_create_pr_response_http_failure() {
    let result = parse_create_pr_response(reply(None, created_pr));
    assert_eq!(result.success, false);
    assert_eq!(result.error.as_deref(), Some("HTTP request failed"));
}

#[test]
fn parse_comment_pr_response_success() {
    let response = r#"{"id": 999}"#;
    let result = parse_comment_pr_response(reply(Some(response), comment));
    assert_eq!(result.success, true);
    assert_eq!(result.comment_id, Some(999));
}

#[test]
fn parse_comment_pr_response_api_error() {
    let response = r#"{"message": "Not Found"}"#;
    let result = parse_comment_pr_response(reply(Some(response), comment));
    assert_eq!(result.success, false);
    assert_eq!(result.error.as_deref(), Some("Not Found"));
}

#[test]
fn parse_comment_pr_response_http_failure() {
    let result = parse_comment_pr_response(reply(None, comment));
    assert_eq!(result.success, false);
    assert_eq!(result.error.as_deref(), Some("HTTP request failed"));
}

// ── Error Extraction ────────────────────────────────────────────────

#[test]
fn error_from_response_extracts_message() {
    let response = r#"{"message": "Bad credentials"}"#;
    assert_eq!(error_text(response), "Bad credentials");
}

#[test]
fn error_from_response_unknown_format() {
    let response = "unexpected html";
    assert!(error_text(response).contains("Unknown error"));
}

#[test]
fn error_from_response_unknown_format_quotes_the_text() {
    assert_eq!(error_text("unexpected html"), "Unknown error: unexpected html");
    assert_eq!(error_text(r#"{"errors": []}"#), r#"Unknown error: {"errors": []}"#);
}

#[test]
fn error_from_response_with_errors_array() {
    let response = r#"{
        "message": "Validation Failed",
        "errors": [
            {"field": "head", "code": "invalid"},
            {"field": "base", "code": "missing_field"}
        ]
    }"#;
    let result = error_text(response);
    assert!(result.starts_with("Validation Failed: "));
    assert!(result.contains("[field: 'head', code: 'invalid']"));
    assert!(result.contains("[field: 'base', code: 'missing_field']"));
}

#[test]
fn error_from_response_with_error_message_detail() {
    let response = r#"{
        "message": "Validation Failed",
        "errors": [
            {"message": "No commits between main and feat/x"}
        ]
    }"#;
    let result = error_text(response);
    assert_eq!(result, "Validation Failed: No commits between main and feat/x");
}

#[test]
fn error_from_response_with_empty_errors_array() {
    let response = r#"{"message": "Validation Failed", "errors": []}"#;
    let result = error_text(response);
    assert_eq!(result, "Validation Failed");
}

#[test]
fn error_from_response_without_errors_field() {
    let response = r#"{"message": "Not Found"}"#;
    let result = error_text(response);
    assert_eq!(result, "Not Found");
}

#[test]
fn format_error_details_joins_with_commas() {
    let details = vec![
        GitHubErrorDetail { message: None, resource: None, field: Some("head".into()), code: None },
        GitHubErrorDetail { message: Some("custom".into()), resource: None, field: None, code: None },
        GitHubErrorDetail { message: None, resource: None, field: None, code: Some("gone".into()) },
    ];
    assert_eq!(
        format_error_details(&details),
        "[field: 'head', code: 'unknown'], custom, [field: 'unknown', code: 'gone']"
    );
    assert_eq!(format_error_details(&Vec::new()), "");
}

// ── List PRs Response Parsing ───────────────────────────────────────

#[test]
fn parse_list_prs_response_success() {
    let response = r#"[{
        "number": 1,
        "title": "PR one",
        "state": "open",
        "html_url": "https://github.com/acme/widgets/pull/1",
        "head": {"ref": "feat/one"},
        "base": {"ref": "staging"},
        "user": {"login": "dev1"}
    }]"#;
    let result = parse_list_prs_response(reply(Some(response), pr_list));
    assert_eq!(result.success, true);
    let prs = result.prs.unwrap();
    assert_eq!(prs[0].number, 1);
    assert_eq!(prs[0].user_login, "dev1");
    assert_eq!(prs[0].head_ref, "feat/one");
    assert_eq!(prs[0].base_ref, "staging");
}

#[test]
fn parse_list_prs_response_api_error() {
    let response = r#"{"message": "Not Found"}"#;
    let result = parse_list_prs_response(reply(Some(response), pr_list));
    assert_eq!(result.success, false);
    assert_eq!(result.error.as_deref(), Some("Not Found"));
}

#[test]
fn parse_list_prs_response_http_failure() {
    let result = parse_list_prs_response(reply(None, pr_list));
    assert_eq!(result.success, false);
    assert_eq!(result.error.as_deref(), Some("HTTP request failed"));
}

#[test]
fn parse_list_prs_response_empty_array() {
    let result = parse_list_prs_response(reply(Some("[]"), pr_list));
    assert_eq!(result.success, true);
    assert_eq!(result.prs.unwrap().len(), 0);
}

// ── View PR Response Parsing ────────────────────────────────────────

#[test]
fn parse_view_pr_response_success() {
    let pr_json = r#"{
        "number": 42,
        "title": "Feature",
        "body": "Description",
        "state": "open",
        "html_url": "https://github.com/acme/widgets/pull/42",
        "head": {"ref": "feat/x"},
        "base": {"ref": "staging"},
        "comments": 5
    }"#;
    let diff = "diff --git a/file.rs b/file.rs\n+added line";
    let result = parse_view_pr_response(reply(Some(pr_json), pr_detail), Some(diff.into()));
    assert_eq!(result.success, true);
    assert_eq!(result.number, Some(42));
    assert_eq!(result.comments_count, Some(5));
    assert!(result.diff.unwrap().contains("+added line"));
}

#[test]
fn parse_view_pr_response_api_error() {
    let response = r#"{"message": "Not Found"}"#;
    let result = parse_view_pr_response(reply(Some(response), pr_detail), None);
    assert_eq!(result.success, false);
    assert_eq!(result.error.as_deref(), Some("Not Found"));
}

#[test]
fn parse_view_pr_response_http_failure() {
    let result = parse_view_pr_response(reply(None, pr_detail), None);
    assert_eq!(result.success, false);
    assert_eq!(result.error.as_deref(), Some("HTTP request failed"));
}

#[test]
fn parse_view_pr_response_no_diff() {
    let pr_json = r#"{
        "number": 42,
        "title": "Feature",
        "body": null,
        "state": "open",
        "html_url": "https://github.com/acme/widgets/pull/42",
        "head": {"ref": "feat/x"},
        "base": {"ref": "staging"},
        "comments": 0
    }"#;
    let result = parse_view_pr_response(reply(Some(pr_json), pr_detail), None);
    assert_eq!(result.success, true);
    assert_eq!(result.diff.as_deref(), Some(""));
    assert!(result.body.is_none());
}

// ── List Issues Response Parsing ────────────────────────────────────

#[test]
fn parse_list_issues_response_filters_pull_requests() {
    let response = r#"[
        {
            "number": 1,
            "title": "Bug",
            "state": "open",
            "html_url": "https://github.com/acme/widgets/issues/1",
            "user": {"login": "dev"},
            "labels": [{"name": "bug"}],
            "pull_request": null
        },
        {
            "number": 2,
            "title": "Real issue",
            "state": "open",
            "html_url": "https://github.com/acme/widgets/issues/2",
            "user": {"login": "user1"},
            "labels": []
        },
        {
            "number": 3,
            "title": "PR disguised as issue",
            "state": "open",
            "html_url": "https://github.com/acme/widgets/issues/3",
            "user": {"login": "dev2"},
            "labels": [],
            "pull_request": {"url": "https://api.github.com/repos/acme/widgets/pulls/3"}
        }
    ]"#;
    let result = parse_list_issues_response(reply(Some(response), issue_list));
    assert_eq!(result.success, true);
    let issues = result.issues.unwrap();
    assert_eq!(issues.len(), 2);
    assert_eq!(issues[0].number, 1);
    assert_eq!(issues[1].number, 2);
}

#[test]
fn parse_list_issues_response_api_error() {
    let response = r#"{"message": "Not Found"}"#;
    let result = parse_list_issues_response(reply(Some(response), issue_list));
    assert_eq!(result.success, false);
    assert_eq!(result.error.as_deref(), Some("Not Found"));
}

#[test]
fn parse_list_issues_response_http_failure() {
    let result = parse_list_issues_response(reply(None, issue_list));
    assert_eq!(result.success, false);
    assert_eq!(result.error.as_deref(), Some("HTTP request failed"));
}

#[test]
fn parse_list_issues_response_extracts_labels() {
    let response = r#"[{
        "number": 5,
        "title": "Issue with labels",
        "state": "open",
        "html_url": "https://github.com/acme/widgets/issues/5",
        "user": {"login": "dev"},
        "labels": [{"name": "bug"}, {"name": "p1"}]
    }]"#;
    let result = parse_list_issues_response(reply(Some(response), issue_list));
    assert_eq!(result.success, true);
    let labels = &result.issues.unwrap()[0].labels;
    assert_eq!(labels.len(), 2);
    assert_eq!(labels[0], "bug");
    assert_eq!(labels[1], "p1");
}

// ── Create Issue Response Parsing ───────────────────────────────────

#[test]
fn parse_create_issue_response_success() {
    let response = r#"{"number": 123, "html_url": "https://github.com/acme/widgets/issues/123"}"#;
    let result = parse_create_issue_response(reply(Some(response), created_issue));
    assert_eq!(result.success, true);
    assert_eq!(result.issue_number, Some(123));
    assert_eq!(result.html_url.as_deref(), Some("https://github.com/acme/widgets/issues/123"));
}

#[test]
fn parse_create_issue_response_api_error() {
    let response = r#"{"message": "Validation Failed"}"#;
    let result = parse_create_issue_response(reply(Some(response), created_issue));
    assert_eq!(result.success, false);
    assert_eq!(result.error.as_deref(), Some("Validation Failed"));
}

#[test]
fn parse_create_issue_response_http_failure() {
    let result = parse_create_issue_response(reply(None, created_issue));
    assert_eq!(result.success, false);
    assert_eq!(result.error.as_deref(), Some("HTTP request failed"));
}
