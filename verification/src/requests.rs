//! The GitHub REST requests that carry out each action.
use vstd::prelude::*;
use vstd::utf8::encode_utf8;

use crate::inputs::{
    CommentPrInput, CommentPrInputView, CreateIssueInput, CreateIssueInputView, CreatePrInput,
    CreatePrInputView, ListIssuesInput, ListIssuesInputView, ListPrsInput, ListPrsInputView,
    ViewPrInput, ViewPrInputView,
};
use crate::json::{json_object_text, member, members_view, render_json_object, JsonField, JsonFieldView};
use crate::text::{chars_or, clone_list, decimal, push_decimal};
use crate::url::{simple_url_encode, url_encoded};
use crate::validate::default_base;

verus! {

/// An HTTP request for the host to send.
pub struct HttpRequest {
    pub method: String,
    pub url: String,
    pub headers: String,
    pub body: String,
}

pub struct HttpRequestView {
    pub method: Seq<char>,
    pub url: Seq<char>,
    pub headers: Seq<char>,
    pub body: Seq<char>,
}

impl View for HttpRequest {
    type V = HttpRequestView;

    open spec fn view(&self) -> HttpRequestView {
        HttpRequestView {
            method: self.method@,
            url: self.url@,
            headers: self.headers@,
            body: self.body@,
        }
    }
}

/// A member whose value is a JSON string.
pub open spec fn text_member(key: Seq<char>, value: Seq<char>) -> (Seq<char>, JsonFieldView) {
    (key, JsonFieldView::Text(value))
}

/// The headers sent with every GitHub request, as JSON members.
pub open spec fn auth_header_members(token: Seq<char>) -> Seq<(Seq<char>, JsonFieldView)> {
    seq![
        text_member("Authorization"@, "Bearer "@ + token),
        text_member("Accept"@, "application/vnd.github+json"@),
        text_member("Content-Type"@, "application/json"@),
        text_member("User-Agent"@, "fawx-github-skill/1.0"@),
        text_member("X-GitHub-Api-Version"@, "2022-11-28"@),
    ]
}

/// The headers of a request that asks for the media type `accept`.
pub open spec fn accept_header_members(token: Seq<char>, accept: Seq<char>) -> Seq<(Seq<char>, JsonFieldView)> {
    seq![
        text_member("Authorization"@, "Bearer "@ + token),
        text_member("Accept"@, accept),
        text_member("User-Agent"@, "fawx-github-skill/1.0"@),
        text_member("X-GitHub-Api-Version"@, "2022-11-28"@),
    ]
}

fn text_field(key: &str, value: String) -> (m: (String, JsonField))
    ensures
        m.0@ == key@,
        m.1@ == JsonFieldView::Text(value@),
{
    member(key, JsonField::Text(value))
}

fn bearer(token: &str) -> (b: String)
    ensures
        b@ == "Bearer "@ + token@,
{
    let mut b = String::from_str("Bearer ");
    b.append(token);
    b
}

/// The JSON headers of a GitHub request: the token as a bearer
/// credential, GitHub's JSON media type and API version.
pub fn auth_headers(token: &str) -> (headers: String)
    ensures
        headers@ == json_object_text(auth_header_members(token@)),
{
    let mut members: Vec<(String, JsonField)> = Vec::new();
    members.push(text_field("Authorization", bearer(token)));
    members.push(text_field("Accept", String::from_str("application/vnd.github+json")));
    members.push(text_field("Content-Type", String::from_str("application/json")));
    members.push(text_field("User-Agent", String::from_str("fawx-github-skill/1.0")));
    members.push(text_field("X-GitHub-Api-Version", String::from_str("2022-11-28")));
    assert(members_view(members@) =~= auth_header_members(token@));
    render_json_object(&members)
}

/// The JSON headers of a GitHub request that asks for the media type
/// `accept`.
pub fn auth_headers_with_accept(token: &str, accept: &str) -> (headers: String)
    ensures
        headers@ == json_object_text(accept_header_members(token@, accept@)),
{
    let mut members: Vec<(String, JsonField)> = Vec::new();
    members.push(text_field("Authorization", bearer(token)));
    members.push(text_field("Accept", String::from_str(accept)));
    members.push(text_field("User-Agent", String::from_str("fawx-github-skill/1.0")));
    members.push(text_field("X-GitHub-Api-Version", String::from_str("2022-11-28")));
    assert(members_view(members@) =~= accept_header_members(token@, accept@));
    render_json_object(&members)
}

/// The API address of a repository.
pub open spec fn repo_url(owner: Seq<char>, repo: Seq<char>) -> Seq<char> {
    "https://api.github.com/repos/"@ + owner + "/"@ + repo
}

fn repo_url_text(owner: &str, repo: &str) -> (url: String)
    ensures
        url@ == repo_url(owner@, repo@),
{
    let mut url = String::from_str("https://api.github.com/repos/");
    url.append(owner);
    url.append("/");
    url.append(repo);
    url
}

/// Where pull requests of a repository are opened.
pub open spec fn create_pr_url(owner: Seq<char>, repo: Seq<char>) -> Seq<char> {
    repo_url(owner, repo) + "/pulls"@
}

/// The JSON members of a new pull request: an absent body is empty, an
/// absent base is `staging`, an absent draft flag is `false`.
pub open spec fn create_pr_body_members(input: CreatePrInputView) -> Seq<(Seq<char>, JsonFieldView)> {
    seq![
        text_member("title"@, input.title),
        text_member("body"@, chars_or(input.body, Seq::empty())),
        text_member("head"@, input.head),
        text_member("base"@, chars_or(input.base, default_base())),
        ("draft"@, JsonFieldView::Flag(
            match input.draft {
                Some(d) => d,
                None => false,
            },
        )),
    ]
}

/// The address and JSON body of the request that opens a pull request.
pub fn build_create_pr_request(input: &CreatePrInput) -> (req: (String, String))
    ensures
        req.0@ == create_pr_url(input.owner@, input.repo@),
        req.1@ == json_object_text(create_pr_body_members(input@)),
{
    let mut url = repo_url_text(input.owner.as_str(), input.repo.as_str());
    url.append("/pulls");
    let body_text = match &input.body {
        Some(b) => b.clone(),
        None => String::new(),
    };
    let base = match &input.base {
        Some(b) => b.clone(),
        None => String::from_str("staging"),
    };
    let draft = match input.draft {
        Some(d) => d,
        None => false,
    };
    let mut members: Vec<(String, JsonField)> = Vec::new();
    members.push(text_field("title", input.title.clone()));
    members.push(text_field("body", body_text));
    members.push(text_field("head", input.head.clone()));
    members.push(text_field("base", base));
    members.push(member("draft", JsonField::Flag(draft)));
    assert(members_view(members@) =~= create_pr_body_members(input@));
    (url, render_json_object(&members))
}

/// The members of a new issue: its title, then its body, labels and
/// assignees, each only when given.
pub open spec fn create_issue_body_members(input: CreateIssueInputView) -> Seq<(Seq<char>, JsonFieldView)> {
    seq![text_member("title"@, input.title)] + match input.body {
        Some(b) => seq![text_member("body"@, b)],
        None => Seq::empty(),
    } + match input.labels {
        Some(l) => seq![("labels"@, JsonFieldView::TextList(l))],
        None => Seq::empty(),
    } + match input.assignees {
        Some(a) => seq![("assignees"@, JsonFieldView::TextList(a))],
        None => Seq::empty(),
    }
}

/// The JSON body of the request that opens an issue.
pub fn build_create_issue_body(input: &CreateIssueInput) -> (body: String)
    ensures
        body@ == json_object_text(create_issue_body_members(input@)),
{
    let mut members: Vec<(String, JsonField)> = Vec::new();
    members.push(text_field("title", input.title.clone()));
    match &input.body {
        Some(b) => members.push(text_field("body", b.clone())),
        None => {},
    }
    match &input.labels {
        Some(l) => members.push(member("labels", JsonField::TextList(clone_list(l)))),
        None => {},
    }
    match &input.assignees {
        Some(a) => members.push(member("assignees", JsonField::TextList(clone_list(a)))),
        None => {},
    }
    assert(members_view(members@) =~= create_issue_body_members(input@));
    render_json_object(&members)
}

/// Where comments on pull request `number` are posted.
pub open spec fn comment_url(owner: Seq<char>, repo: Seq<char>, number: u64) -> Seq<char> {
    repo_url(owner, repo) + "/issues/"@ + decimal(number as nat) + "/comments"@
}

/// Where pull requests are listed.
pub open spec fn list_prs_url(owner: Seq<char>, repo: Seq<char>, state: Seq<char>, per_page: u32) -> Seq<char> {
    repo_url(owner, repo) + "/pulls?state="@ + state + "&per_page="@ + decimal(per_page as nat)
}

/// Where pull request `number` is read.
pub open spec fn view_pr_url(owner: Seq<char>, repo: Seq<char>, number: u64) -> Seq<char> {
    repo_url(owner, repo) + "/pulls/"@ + decimal(number as nat)
}

/// Where issues are listed; a label filter is percent-encoded.
pub open spec fn list_issues_url(
    owner: Seq<char>,
    repo: Seq<char>,
    state: Seq<char>,
    labels: Option<Seq<char>>,
    per_page: u32,
) -> Seq<char> {
    repo_url(owner, repo) + "/issues?state="@ + state + "&per_page="@ + decimal(per_page as nat)
        + match labels {
        Some(l) => "&labels="@ + url_encoded(encode_utf8(l)),
        None => Seq::empty(),
    }
}

/// Where issues are opened.
pub open spec fn create_issue_url(owner: Seq<char>, repo: Seq<char>) -> Seq<char> {
    repo_url(owner, repo) + "/issues"@
}

/// The state listed when the caller names none.
pub open spec fn default_state() -> Seq<char> {
    "open"@
}

/// How many items are listed when the caller does not say.
pub open spec fn default_per_page() -> u32 {
    10
}

/// The request that opens a pull request.
pub open spec fn create_pr_http(input: CreatePrInputView, token: Seq<char>) -> HttpRequestView {
    HttpRequestView {
        method: "POST"@,
        url: create_pr_url(input.owner, input.repo),
        headers: json_object_text(auth_header_members(token)),
        body: json_object_text(create_pr_body_members(input)),
    }
}

/// The request that posts a comment.
pub open spec fn comment_pr_http(input: CommentPrInputView, token: Seq<char>) -> HttpRequestView {
    HttpRequestView {
        method: "POST"@,
        url: comment_url(input.owner, input.repo, input.pr_number),
        headers: json_object_text(auth_header_members(token)),
        body: json_object_text(seq![text_member("body"@, input.body)]),
    }
}

/// The request that lists pull requests.
pub open spec fn list_prs_http(input: ListPrsInputView, token: Seq<char>) -> HttpRequestView {
    HttpRequestView {
        method: "GET"@,
        url: list_prs_url(
            input.owner,
            input.repo,
            chars_or(input.state, default_state()),
            match input.per_page {
                Some(p) => p,
                None => default_per_page(),
            },
        ),
        headers: json_object_text(auth_header_members(token)),
        body: Seq::empty(),
    }
}

/// The request that reads a pull request.
pub open spec fn view_pr_http(input: ViewPrInputView, token: Seq<char>) -> HttpRequestView {
    HttpRequestView {
        method: "GET"@,
        url: view_pr_url(input.owner, input.repo, input.pr_number),
        headers: json_object_text(auth_header_members(token)),
        body: Seq::empty(),
    }
}

/// The request that reads a pull request's diff.
pub open spec fn view_pr_diff_http(input: ViewPrInputView, token: Seq<char>) -> HttpRequestView {
    HttpRequestView {
        method: "GET"@,
        url: view_pr_url(input.owner, input.repo, input.pr_number),
        headers: json_object_text(accept_header_members(token, "application/vnd.github.diff"@)),
        body: Seq::empty(),
    }
}

/// The request that lists issues.
pub open spec fn list_issues_http(input: ListIssuesInputView, token: Seq<char>) -> HttpRequestView {
    HttpRequestView {
        method: "GET"@,
        url: list_issues_url(
            input.owner,
            input.repo,
            chars_or(input.state, default_state()),
            input.labels,
            match input.per_page {
                Some(p) => p,
                None => default_per_page(),
            },
        ),
        headers: json_object_text(auth_header_members(token)),
        body: Seq::empty(),
    }
}

/// The request that opens an issue.
pub open spec fn create_issue_http(input: CreateIssueInputView, token: Seq<char>) -> HttpRequestView {
    HttpRequestView {
        method: "POST"@,
        url: create_issue_url(input.owner, input.repo),
        headers: json_object_text(auth_header_members(token)),
        body: json_object_text(create_issue_body_members(input)),
    }
}

/// The request that opens a pull request.
pub fn create_pr_request(input: &CreatePrInput, token: &str) -> (req: HttpRequest)
    ensures
        req@ == create_pr_http(input@, token@),
{
    let (url, body) = build_create_pr_request(input);
    HttpRequest { method: String::from_str("POST"), url, headers: auth_headers(token), body }
}

/// The request that posts a comment on a pull request.
pub fn comment_pr_request(input: &CommentPrInput, token: &str) -> (req: HttpRequest)
    ensures
        req@ == comment_pr_http(input@, token@),
{
    let mut url = repo_url_text(input.owner.as_str(), input.repo.as_str());
    url.append("/issues/");
    push_decimal(&mut url, input.pr_number);
    url.append("/comments");
    let mut members: Vec<(String, JsonField)> = Vec::new();
    members.push(text_field("body", input.body.clone()));
    assert(members_view(members@) =~= seq![text_member("body"@, input.body@)]);
    let body = render_json_object(&members);
    HttpRequest { method: String::from_str("POST"), url, headers: auth_headers(token), body }
}

/// The request that lists pull requests.
pub fn list_prs_request(input: &ListPrsInput, token: &str) -> (req: HttpRequest)
    ensures
        req@ == list_prs_http(input@, token@),
{
    let mut url = repo_url_text(input.owner.as_str(), input.repo.as_str());
    url.append("/pulls?state=");
    match &input.state {
        Some(s) => url.append(s.as_str()),
        None => url.append("open"),
    }
    url.append("&per_page=");
    let per_page: u32 = match input.per_page {
        Some(p) => p,
        None => 10,
    };
    push_decimal(&mut url, per_page as u64);
    HttpRequest {
        method: String::from_str("GET"),
        url,
        headers: auth_headers(token),
        body: String::new(),
    }
}

/// The URL of a pull request.
fn view_pr_url_text(input: &ViewPrInput) -> (url: String)
    ensures
        url@ == view_pr_url(input.owner@, input.repo@, input.pr_number),
{
    let mut url = repo_url_text(input.owner.as_str(), input.repo.as_str());
    url.append("/pulls/");
    push_decimal(&mut url, input.pr_number);
    url
}

/// The request that reads a pull request.
pub fn view_pr_request(input: &ViewPrInput, token: &str) -> (req: HttpRequest)
    ensures
        req@ == view_pr_http(input@, token@),
{
    HttpRequest {
        method: String::from_str("GET"),
        url: view_pr_url_text(input),
        headers: auth_headers(token),
        body: String::new(),
    }
}

/// The request that reads a pull request's diff.
pub fn view_pr_diff_request(input: &ViewPrInput, token: &str) -> (req: HttpRequest)
    ensures
        req@ == view_pr_diff_http(input@, token@),
{
    HttpRequest {
        method: String::from_str("GET"),
        url: view_pr_url_text(input),
        headers: auth_headers_with_accept(token, "application/vnd.github.diff"),
        body: String::new(),
    }
}

/// The request that lists issues.
pub fn list_issues_request(input: &ListIssuesInput, token: &str) -> (req: HttpRequest)
    ensures
        req@ == list_issues_http(input@, token@),
{
    let mut url = repo_url_text(input.owner.as_str(), input.repo.as_str());
    url.append("/issues?state=");
    match &input.state {
        Some(s) => url.append(s.as_str()),
        None => url.append("open"),
    }
    url.append("&per_page=");
    let per_page: u32 = match input.per_page {
        Some(p) => p,
        None => 10,
    };
    push_decimal(&mut url, per_page as u64);
    let ghost before_labels = url@;
    match &input.labels {
        Some(labels) => {
            let encoded = simple_url_encode(labels.as_str());
            assert(encoded@ == url_encoded(encode_utf8(labels@)));
            url.append("&labels=");
            url.append(encoded.as_str());
            assert(url@ =~= before_labels + ("&labels="@ + url_encoded(encode_utf8(labels@))));
        },
        None => {
            assert(url@ =~= before_labels + Seq::<char>::empty());
        },
    }
    HttpRequest {
        method: String::from_str("GET"),
        url,
        headers: auth_headers(token),
        body: String::new(),
    }
}

/// The request that opens an issue.
pub fn create_issue_request(input: &CreateIssueInput, token: &str) -> (req: HttpRequest)
    ensures
        req@ == create_issue_http(input@, token@),
{
    let mut url = repo_url_text(input.owner.as_str(), input.repo.as_str());
    url.append("/issues");
    let body = build_create_issue_body(input);
    HttpRequest { method: String::from_str("POST"), url, headers: auth_headers(token), body }
}

} // verus!
