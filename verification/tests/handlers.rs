use github_skill::api::{ApiReply, GitHubPrDetail, GitHubPrResponse, GitHubRef};
use github_skill::handlers::{
    handle_comment_pr, handle_create_issue, handle_create_pr, handle_list_issues, handle_list_prs,
    handle_view_pr, invalid_input_reply, no_input_reply, Command, Event, ViewPrEvent,
};
use github_skill::inputs::{
    CommentPrInput, CreateIssueInput, CreatePrInput, ListIssuesInput, ListPrsInput, ViewPrInput,
};
use github_skill::responses::{comment_pr_error, create_issue_error, create_pr_error, view_pr_error};

fn pr_input(owner: &str, base: Option<&str>) -> CreatePrInput {
    CreatePrInput {
        owner: owner.into(),
        repo: "widgets".into(),
        title: "Add feature".into(),
        body: None,
        head: "feat/thing".into(),
        base: base.map(Into::into),
        draft: None,
    }
}

#[test]
fn create_pr_begins_by_reading_the_token() {
    assert!(matches!(handle_create_pr(&pr_input("acme", None), Event::Begin), Command::ReadToken));
    assert!(matches!(
        handle_create_pr(&pr_input("acme", Some("develop")), Event::Begin),
        Command::ReadToken
    ));
}

#[test]
fn create_pr_refuses_blocked_base() {
    match handle_create_pr(&pr_input("acme", Some("master")), Event::Begin) {
        Command::Reply(out) => {
            assert!(!out.success);
            assert_eq!(
                out.error.as_deref(),
                Some("Base branch 'master' is blocked. PRs must target 'staging', not 'master'.")
            );
        }
        _ => panic!("expected a reply"),
    }
}

#[test]
fn create_pr_refuses_bad_owner_before_base() {
    match handle_create_pr(&pr_input("bad/owner", Some("main")), Event::Begin) {
        Command::Reply(out) => {
            assert_eq!(out.error.as_deref(), Some("Invalid owner parameter: 'bad/owner'"))
        }
        _ => panic!("expected a reply"),
    }
}

#[test]
fn create_pr_without_token_replies_with_error() {
    match handle_create_pr(&pr_input("acme", None), Event::Token(None)) {
        Command::Reply(out) => {
            assert!(!out.success);
            assert!(out.error.unwrap().contains("github_token"));
        }
        _ => panic!("expected a reply"),
    }
}

#[test]
fn create_pr_with_token_sends_the_request() {
    match handle_create_pr(&pr_input("acme", None), Event::Token(Some("ghp_x".into()))) {
        Command::Send(req) => {
            assert_eq!(req.method, "POST");
            assert_eq!(req.url, "https://api.github.com/repos/acme/widgets/pulls");
            let body: serde_json::Value = serde_json::from_str(&req.body).unwrap();
            assert_eq!(body["base"], "staging");
            let headers: serde_json::Value = serde_json::from_str(&req.headers).unwrap();
            assert_eq!(headers["Authorization"], "Bearer ghp_x");
        }
        _ => panic!("expected a request"),
    }
}

#[test]
fn create_pr_replies_with_the_answer() {
    let answer = ApiReply::Parsed(GitHubPrResponse { number: 7, html_url: "u".into() });
    match handle_create_pr(&pr_input("acme", None), Event::Response(answer)) {
        Command::Reply(out) => {
            assert!(out.success);
            assert_eq!(out.pr_number, Some(7));
        }
        _ => panic!("expected a reply"),
    }
}

#[test]
fn comment_pr_flow() {
    let input = CommentPrInput { owner: "acme".into(), repo: "widgets".into(), pr_number: 42, body: "Ship it".into() };
    assert!(matches!(handle_comment_pr(&input, Event::Begin), Command::ReadToken));
    match handle_comment_pr(&input, Event::Token(Some("t".into()))) {
        Command::Send(req) => assert!(req.url.ends_with("/issues/42/comments")),
        _ => panic!("expected a request"),
    }
    match handle_comment_pr(&input, Event::Response(ApiReply::NoResponse)) {
        Command::Reply(out) => assert_eq!(out.error.as_deref(), Some("HTTP request failed")),
        _ => panic!("expected a reply"),
    }
}

#[test]
fn list_prs_refuses_bad_repo() {
    let input = ListPrsInput { owner: "acme".into(), repo: "bad repo".into(), state: None, per_page: None };
    match handle_list_prs(&input, Event::Begin) {
        Command::Reply(out) => {
            assert!(!out.success);
            assert!(out.prs.is_none());
            assert_eq!(out.error.as_deref(), Some("Invalid repo parameter: 'bad repo'"));
        }
        _ => panic!("expected a reply"),
    }
}

#[test]
fn list_issues_with_token_sends_get() {
    let input = ListIssuesInput { owner: "acme".into(), repo: "widgets".into(), state: None, labels: None, per_page: None };
    match handle_list_issues(&input, Event::Token(Some("t".into()))) {
        Command::Send(req) => {
            assert_eq!(req.method, "GET");
            assert_eq!(req.url, "https://api.github.com/repos/acme/widgets/issues?state=open&per_page=10");
        }
        _ => panic!("expected a request"),
    }
}

#[test]
fn create_issue_without_token_replies_with_error() {
    let input = CreateIssueInput {
        owner: "acme".into(),
        repo: "widgets".into(),
        title: "T".into(),
        body: None,
        labels: None,
        assignees: None,
    };
    match handle_create_issue(&input, Event::Token(None)) {
        Command::Reply(out) => {
            assert!(!out.success);
            assert!(out.issue_number.is_none());
        }
        _ => panic!("expected a reply"),
    }
}

#[test]
fn view_pr_sends_two_requests_then_replies() {
    let input = ViewPrInput { owner: "acme".into(), repo: "widgets".into(), pr_number: 55 };
    assert!(matches!(handle_view_pr(&input, ViewPrEvent::Begin), Command::ReadToken));
    match handle_view_pr(&input, ViewPrEvent::Token(Some("t".into()))) {
        Command::Send(req) => assert_eq!(req.url, "https://api.github.com/repos/acme/widgets/pulls/55"),
        _ => panic!("expected a request"),
    }
    match handle_view_pr(&input, ViewPrEvent::PrFetched { token: "t".into() }) {
        Command::Send(req) => assert!(req.headers.contains("application/vnd.github.diff")),
        _ => panic!("expected a request"),
    }
    let pr = GitHubPrDetail {
        number: 55,
        title: "T".into(),
        body: None,
        state: "open".into(),
        html_url: "u".into(),
        head: GitHubRef { ref_name: "h".into() },
        base: GitHubRef { ref_name: "staging".into() },
        comments: 2,
    };
    match handle_view_pr(&input, ViewPrEvent::DiffFetched { pr: ApiReply::Parsed(pr), diff: None }) {
        Command::Reply(out) => {
            assert!(out.success);
            assert_eq!(out.diff.as_deref(), Some(""));
            assert_eq!(out.base_ref.as_deref(), Some("staging"));
        }
        _ => panic!("expected a reply"),
    }
}

#[test]
fn error_replies_carry_only_the_error() {
    let out = create_pr_error("token missing".into());
    assert!(!out.success && out.pr_number.is_none() && out.html_url.is_none());
    assert_eq!(out.error.as_deref(), Some("token missing"));
    let out = comment_pr_error("HTTP request failed".into());
    assert!(!out.success && out.comment_id.is_none());
    let out = view_pr_error("Not Found".into());
    assert!(!out.success && out.number.is_none() && out.diff.is_none());
    let out = create_issue_error("x".into());
    assert!(!out.success && out.issue_number.is_none());
}

#[test]
fn no_input_reply_names_the_actions() {
    let reply: serde_json::Value = serde_json::from_str(&no_input_reply()).unwrap();
    assert!(reply["error"].as_str().unwrap().starts_with("No input provided."));
}

#[test]
fn invalid_input_reply_wraps_the_detail() {
    let reply: serde_json::Value = serde_json::from_str(&invalid_input_reply("missing field `action`")).unwrap();
    assert_eq!(
        reply["error"],
        "Invalid input: missing field `action`. Expected 'action': 'create_pr', 'comment_pr', 'list_prs', 'view_pr', 'list_issues', or 'create_issue'."
    );
}

#[test]
fn create_pr_token_step_checks_again() {
    match handle_create_pr(&pr_input("acme", Some("main")), Event::Token(Some("t".into()))) {
        Command::Reply(out) => {
            assert!(!out.success);
            assert_eq!(
                out.error.as_deref(),
                Some("Base branch 'main' is blocked. PRs must target 'staging', not 'main'.")
            );
        }
        _ => panic!("expected a reply"),
    }
}

#[test]
fn token_steps_refuse_bad_names() {
    let input = ListPrsInput { owner: "a/b".into(), repo: "widgets".into(), state: None, per_page: None };
    assert!(matches!(handle_list_prs(&input, Event::Token(Some("t".into()))), Command::Reply(_)));
    let view = ViewPrInput { owner: "acme".into(), repo: "../etc".into(), pr_number: 1 };
    assert!(matches!(handle_view_pr(&view, ViewPrEvent::Token(Some("t".into()))), Command::Reply(_)));
    assert!(matches!(
        handle_view_pr(&view, ViewPrEvent::PrFetched { token: "t".into() }),
        Command::Reply(_)
    ));
}
