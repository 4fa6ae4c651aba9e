//! The decisions of each action, one step at a time. The host drives an
//! action: it starts it with [`Event::Begin`], and each [`Command`] it gets
//! back tells it what to do next — read the stored token, send a request,
//! or hand a reply to the caller — after which it reports what came of
//! that as the next event. Each step that could lead to a request checks
//! the caller's parameters again, so no request is composed for a refused
//! input, whatever events the host reports.
use vstd::prelude::*;

use crate::api::{
    ApiReply, ApiReplyView, CreatedView, GitHubCommentResponse, GitHubIssueItemView,
    GitHubIssueResponse, GitHubPrDetail, GitHubPrDetailView, GitHubPrListItemView,
    GitHubPrResponse, IssueList, PrList,
};
use crate::inputs::{
    CommentPrInput, CommentPrInputView, CreateIssueInput, CreateIssueInputView, CreatePrInput,
    CreatePrInputView, ListIssuesInput, ListIssuesInputView, ListPrsInput, ListPrsInputView,
    ViewPrInput, ViewPrInputView,
};
use crate::json::{json_object_text, member, members_view, render_json_object, JsonField, JsonFieldView};
use crate::outputs::{
    CommentPrOutput, CommentPrOutputView, CreateIssueOutput, CreateIssueOutputView,
    CreatePrOutput, CreatePrOutputView, ListIssuesOutput, ListIssuesOutputView, ListPrsOutput,
    ListPrsOutputView, ViewPrOutput, ViewPrOutputView,
};
use crate::requests::{
    comment_pr_http, comment_pr_request, create_issue_http, create_issue_request, create_pr_http,
    create_pr_request, list_issues_http, list_issues_request, list_prs_http, list_prs_request,
    view_pr_diff_http, view_pr_diff_request, view_pr_http, view_pr_request, HttpRequest,
    HttpRequestView,
};
use crate::responses::{
    comment_pr_error, comment_pr_failure, comment_pr_reply, create_issue_error,
    create_issue_failure, create_issue_reply, create_pr_error, create_pr_failure, create_pr_reply,
    list_issues_error, list_issues_failure, list_issues_reply, list_prs_error, list_prs_failure,
    list_prs_reply, parse_comment_pr_response, parse_create_issue_response,
    parse_create_pr_response, parse_list_issues_response, parse_list_prs_response,
    parse_view_pr_response, view_pr_error, view_pr_failure, view_pr_reply,
};
use crate::text::{chars_or, opt_chars};
use crate::validate::{
    blocked_base, blocked_base_message, check_owner_repo, default_base, get_token,
    missing_token_message, owner_repo_problem, validate_base,
};

verus! {

/// What the host reports to an action.
pub enum Event<R> {
    /// The caller has just asked for the action.
    Begin,
    /// The token read from the host's store, if one is stored.
    Token(Option<String>),
    /// GitHub's answer to the request sent.
    Response(R),
}

pub enum EventView<RV> {
    Begin,
    Token(Option<Seq<char>>),
    Response(RV),
}

impl<R: View> View for Event<R> {
    type V = EventView<R::V>;

    open spec fn view(&self) -> EventView<R::V> {
        match self {
            Event::Begin => EventView::Begin,
            Event::Token(t) => EventView::Token(opt_chars(*t)),
            Event::Response(r) => EventView::Response(r@),
        }
    }
}

/// What an action asks the host to do next.
pub enum Command<O> {
    /// Hand this reply to the caller; the action is over.
    Reply(O),
    /// Read the GitHub token from the host's store.
    ReadToken,
    /// Send this request to GitHub.
    Send(HttpRequest),
}

pub enum CommandView<OV> {
    Reply(OV),
    ReadToken,
    Send(HttpRequestView),
}

impl<O: View> View for Command<O> {
    type V = CommandView<O::V>;

    open spec fn view(&self) -> CommandView<O::V> {
        match self {
            Command::Reply(o) => CommandView::Reply(o@),
            Command::ReadToken => CommandView::ReadToken,
            Command::Send(r) => CommandView::Send(r@),
        }
    }
}

// ── Open a pull request ────────────────────────────────────────────────

/// The base branch a pull request will target.
pub open spec fn effective_base(input: CreatePrInputView) -> Seq<char> {
    chars_or(input.base, default_base())
}

/// Why a request to open a pull request is refused before anything is
/// sent, if it is: an unusable owner or repository, then a blocked base.
pub open spec fn create_pr_problem(input: CreatePrInputView) -> Option<Seq<char>> {
    match owner_repo_problem(input.owner, input.repo) {
        Some(m) => Some(m),
        None => if blocked_base(effective_base(input)) {
            Some(blocked_base_message(effective_base(input)))
        } else {
            None
        },
    }
}

/// Checks a request to open a pull request before anything is sent: the
/// owner and repository, then the base branch.
fn create_pr_precheck(input: &CreatePrInput) -> (r: Result<(), String>)
    ensures
        match create_pr_problem(input@) {
            Some(m) => r matches Err(e) && e@ == m,
            None => r is Ok,
        },
{
    match check_owner_repo(input.owner.as_str(), input.repo.as_str()) {
        Err(e) => return Err(e),
        Ok(()) => {},
    }
    let base: &str = match &input.base {
        Some(b) => b.as_str(),
        None => "staging",
    };
    validate_base(base)
}

/// The next step of opening a pull request. Every step that could lead
/// to a request repeats the checks, so no request is ever composed for a
/// refused input, whatever order the events come in.
pub open spec fn create_pr_step(input: CreatePrInputView, event: EventView<ApiReplyView<CreatedView>>) -> CommandView<CreatePrOutputView> {
    match event {
        EventView::Begin => match create_pr_problem(input) {
            Some(m) => CommandView::Reply(create_pr_failure(m)),
            None => CommandView::ReadToken,
        },
        EventView::Token(t) => match create_pr_problem(input) {
            Some(m) => CommandView::Reply(create_pr_failure(m)),
            None => match t {
                None => CommandView::Reply(create_pr_failure(missing_token_message())),
                Some(t) => CommandView::Send(create_pr_http(input, t)),
            },
        },
        EventView::Response(r) => CommandView::Reply(create_pr_reply(r)),
    }
}

/// Opens a pull request: checks the owner, repository and base branch,
/// reads the token, posts the pull request, and replies with its number
/// and address or with what went wrong.
pub fn handle_create_pr(input: &CreatePrInput, event: Event<ApiReply<GitHubPrResponse>>) -> (cmd: Command<CreatePrOutput>)
    ensures
        cmd@ == create_pr_step(input@, event@),
{
    match event {
        Event::Begin => match create_pr_precheck(input) {
            Err(e) => Command::Reply(create_pr_error(e)),
            Ok(()) => Command::ReadToken,
        },
        Event::Token(stored) => match create_pr_precheck(input) {
            Err(e) => Command::Reply(create_pr_error(e)),
            Ok(()) => match get_token(stored) {
                Err(e) => Command::Reply(create_pr_error(e)),
                Ok(token) => Command::Send(create_pr_request(input, token.as_str())),
            },
        },
        Event::Response(r) => Command::Reply(parse_create_pr_response(r)),
    }
}

// ── Comment on a pull request ──────────────────────────────────────────

/// The next step of commenting on a pull request.
pub open spec fn comment_pr_step(input: CommentPrInputView, event: EventView<ApiReplyView<u64>>) -> CommandView<CommentPrOutputView> {
    match event {
        EventView::Begin => match owner_repo_problem(input.owner, input.repo) {
            Some(m) => CommandView::Reply(comment_pr_failure(m)),
            None => CommandView::ReadToken,
        },
        EventView::Token(t) => match owner_repo_problem(input.owner, input.repo) {
            Some(m) => CommandView::Reply(comment_pr_failure(m)),
            None => match t {
                None => CommandView::Reply(comment_pr_failure(missing_token_message())),
                Some(t) => CommandView::Send(comment_pr_http(input, t)),
            },
        },
        EventView::Response(r) => CommandView::Reply(comment_pr_reply(r)),
    }
}

/// Comments on a pull request: checks the owner and repository, reads the
/// token, posts the comment, and replies with its id or with what went
/// wrong.
pub fn handle_comment_pr(input: &CommentPrInput, event: Event<ApiReply<GitHubCommentResponse>>) -> (cmd: Command<CommentPrOutput>)
    ensures
        cmd@ == comment_pr_step(input@, event@),
{
    match event {
        Event::Begin => match check_owner_repo(input.owner.as_str(), input.repo.as_str()) {
            Err(e) => Command::Reply(comment_pr_error(e)),
            Ok(()) => Command::ReadToken,
        },
        Event::Token(stored) => match check_owner_repo(input.owner.as_str(), input.repo.as_str()) {
            Err(e) => Command::Reply(comment_pr_error(e)),
            Ok(()) => match get_token(stored) {
                Err(e) => Command::Reply(comment_pr_error(e)),
                Ok(token) => Command::Send(comment_pr_request(input, token.as_str())),
            },
        },
        Event::Response(r) => Command::Reply(parse_comment_pr_response(r)),
    }
}

// ── List pull requests ─────────────────────────────────────────────────

/// The next step of listing pull requests.
pub open spec fn list_prs_step(input: ListPrsInputView, event: EventView<ApiReplyView<Seq<GitHubPrListItemView>>>) -> CommandView<ListPrsOutputView> {
    match event {
        EventView::Begin => match owner_repo_problem(input.owner, input.repo) {
            Some(m) => CommandView::Reply(list_prs_failure(m)),
            None => CommandView::ReadToken,
        },
        EventView::Token(t) => match owner_repo_problem(input.owner, input.repo) {
            Some(m) => CommandView::Reply(list_prs_failure(m)),
            None => match t {
                None => CommandView::Reply(list_prs_failure(missing_token_message())),
                Some(t) => CommandView::Send(list_prs_http(input, t)),
            },
        },
        EventView::Response(r) => CommandView::Reply(list_prs_reply(r)),
    }
}

/// Lists pull requests: checks the owner and repository, reads the token,
/// asks GitHub for the list, and replies with a summary of each pull
/// request or with what went wrong.
pub fn handle_list_prs(input: &ListPrsInput, event: Event<ApiReply<PrList>>) -> (cmd: Command<ListPrsOutput>)
    ensures
        cmd@ == list_prs_step(input@, event@),
{
    match event {
        Event::Begin => match check_owner_repo(input.owner.as_str(), input.repo.as_str()) {
            Err(e) => Command::Reply(list_prs_error(e)),
            Ok(()) => Command::ReadToken,
        },
        Event::Token(stored) => match check_owner_repo(input.owner.as_str(), input.repo.as_str()) {
            Err(e) => Command::Reply(list_prs_error(e)),
            Ok(()) => match get_token(stored) {
                Err(e) => Command::Reply(list_prs_error(e)),
                Ok(token) => Command::Send(list_prs_request(input, token.as_str())),
            },
        },
        Event::Response(r) => Command::Reply(parse_list_prs_response(r)),
    }
}

// ── Show a pull request ────────────────────────────────────────────────

/// What the host reports while a pull request is shown. Showing takes two
/// requests, for the pull request and for its diff; the host keeps the
/// first answer until the second is in.
pub enum ViewPrEvent {
    /// The caller has just asked for the pull request.
    Begin,
    /// The token read from the host's store, if one is stored.
    Token(Option<String>),
    /// The request for the pull request has been answered; `token` is the
    /// token it was sent with.
    PrFetched { token: String },
    /// Both requests have been answered.
    DiffFetched { pr: ApiReply<GitHubPrDetail>, diff: Option<String> },
}

pub enum ViewPrEventView {
    Begin,
    Token(Option<Seq<char>>),
    PrFetched { token: Seq<char> },
    DiffFetched { pr: ApiReplyView<GitHubPrDetailView>, diff: Option<Seq<char>> },
}

impl View for ViewPrEvent {
    type V = ViewPrEventView;

    open spec fn view(&self) -> ViewPrEventView {
        match self {
            ViewPrEvent::Begin => ViewPrEventView::Begin,
            ViewPrEvent::Token(t) => ViewPrEventView::Token(opt_chars(*t)),
            ViewPrEvent::PrFetched { token } => ViewPrEventView::PrFetched { token: token@ },
            ViewPrEvent::DiffFetched { pr, diff } => ViewPrEventView::DiffFetched {
                pr: pr@,
                diff: opt_chars(*diff),
            },
        }
    }
}

/// The next step of showing a pull request.
pub open spec fn view_pr_step(input: ViewPrInputView, event: ViewPrEventView) -> CommandView<ViewPrOutputView> {
    match event {
        ViewPrEventView::Begin => match owner_repo_problem(input.owner, input.repo) {
            Some(m) => CommandView::Reply(view_pr_failure(m)),
            None => CommandView::ReadToken,
        },
        ViewPrEventView::Token(t) => match owner_repo_problem(input.owner, input.repo) {
            Some(m) => CommandView::Reply(view_pr_failure(m)),
            None => match t {
                None => CommandView::Reply(view_pr_failure(missing_token_message())),
                Some(t) => CommandView::Send(view_pr_http(input, t)),
            },
        },
        ViewPrEventView::PrFetched { token } => match owner_repo_problem(input.owner, input.repo) {
            Some(m) => CommandView::Reply(view_pr_failure(m)),
            None => CommandView::Send(view_pr_diff_http(input, token)),
        },
        ViewPrEventView::DiffFetched { pr, diff } => CommandView::Reply(view_pr_reply(pr, diff)),
    }
}

/// Shows a pull request: checks the owner and repository, reads the
/// token, asks GitHub for the pull request and then for its diff, and
/// replies with both or with what went wrong.
pub fn handle_view_pr(input: &ViewPrInput, event: ViewPrEvent) -> (cmd: Command<ViewPrOutput>)
    ensures
        cmd@ == view_pr_step(input@, event@),
{
    match event {
        ViewPrEvent::Begin => match check_owner_repo(input.owner.as_str(), input.repo.as_str()) {
            Err(e) => Command::Reply(view_pr_error(e)),
            Ok(()) => Command::ReadToken,
        },
        ViewPrEvent::Token(stored) => match check_owner_repo(input.owner.as_str(), input.repo.as_str()) {
            Err(e) => Command::Reply(view_pr_error(e)),
            Ok(()) => match get_token(stored) {
                Err(e) => Command::Reply(view_pr_error(e)),
                Ok(token) => Command::Send(view_pr_request(input, token.as_str())),
            },
        },
        ViewPrEvent::PrFetched { token } => match check_owner_repo(input.owner.as_str(), input.repo.as_str()) {
            Err(e) => Command::Reply(view_pr_error(e)),
            Ok(()) => Command::Send(view_pr_diff_request(input, token.as_str())),
        },
        ViewPrEvent::DiffFetched { pr, diff } => Command::Reply(parse_view_pr_response(pr, diff)),
    }
}

// ── List issues ────────────────────────────────────────────────────────

/// The next step of listing issues.
pub open spec fn list_issues_step(input: ListIssuesInputView, event: EventView<ApiReplyView<Seq<GitHubIssueItemView>>>) -> CommandView<ListIssuesOutputView> {
    match event {
        EventView::Begin => match owner_repo_problem(input.owner, input.repo) {
            Some(m) => CommandView::Reply(list_issues_failure(m)),
            None => CommandView::ReadToken,
        },
        EventView::Token(t) => match owner_repo_problem(input.owner, input.repo) {
            Some(m) => CommandView::Reply(list_issues_failure(m)),
            None => match t {
                None => CommandView::Reply(list_issues_failure(missing_token_message())),
                Some(t) => CommandView::Send(list_issues_http(input, t)),
            },
        },
        EventView::Response(r) => CommandView::Reply(list_issues_reply(r)),
    }
}

/// Lists issues: checks the owner and repository, reads the token, asks
/// GitHub for the list, and replies with a summary of each issue that is
/// no pull request, or with what went wrong.
pub fn handle_list_issues(input: &ListIssuesInput, event: Event<ApiReply<IssueList>>) -> (cmd: Command<ListIssuesOutput>)
    ensures
        cmd@ == list_issues_step(input@, event@),
{
    match event {
        Event::Begin => match check_owner_repo(input.owner.as_str(), input.repo.as_str()) {
            Err(e) => Command::Reply(list_issues_error(e)),
            Ok(()) => Command::ReadToken,
        },
        Event::Token(stored) => match check_owner_repo(input.owner.as_str(), input.repo.as_str()) {
            Err(e) => Command::Reply(list_issues_error(e)),
            Ok(()) => match get_token(stored) {
                Err(e) => Command::Reply(list_issues_error(e)),
                Ok(token) => Command::Send(list_issues_request(input, token.as_str())),
            },
        },
        Event::Response(r) => Command::Reply(parse_list_issues_response(r)),
    }
}

// ── Open an issue ──────────────────────────────────────────────────────

/// The next step of opening an issue.
pub open spec fn create_issue_step(input: CreateIssueInputView, event: EventView<ApiReplyView<CreatedView>>) -> CommandView<CreateIssueOutputView> {
    match event {
        EventView::Begin => match owner_repo_problem(input.owner, input.repo) {
            Some(m) => CommandView::Reply(create_issue_failure(m)),
            None => CommandView::ReadToken,
        },
        EventView::Token(t) => match owner_repo_problem(input.owner, input.repo) {
            Some(m) => CommandView::Reply(create_issue_failure(m)),
            None => match t {
                None => CommandView::Reply(create_issue_failure(missing_token_message())),
                Some(t) => CommandView::Send(create_issue_http(input, t)),
            },
        },
        EventView::Response(r) => CommandView::Reply(create_issue_reply(r)),
    }
}

/// Opens an issue: checks the owner and repository, reads the token,
/// posts the issue, and replies with its number and address or with what
/// went wrong.
pub fn handle_create_issue(input: &CreateIssueInput, event: Event<ApiReply<GitHubIssueResponse>>) -> (cmd: Command<CreateIssueOutput>)
    ensures
        cmd@ == create_issue_step(input@, event@),
{
    match event {
        Event::Begin => match check_owner_repo(input.owner.as_str(), input.repo.as_str()) {
            Err(e) => Command::Reply(create_issue_error(e)),
            Ok(()) => Command::ReadToken,
        },
        Event::Token(stored) => match check_owner_repo(input.owner.as_str(), input.repo.as_str()) {
            Err(e) => Command::Reply(create_issue_error(e)),
            Ok(()) => match get_token(stored) {
                Err(e) => Command::Reply(create_issue_error(e)),
                Ok(token) => Command::Send(create_issue_request(input, token.as_str())),
            },
        },
        Event::Response(r) => Command::Reply(parse_create_issue_response(r)),
    }
}

// ── Requests that name no action ───────────────────────────────────────

/// The reply to an empty request.
pub open spec fn no_input_text() -> Seq<char> {
    "{\"error\":\"No input provided. Expected JSON with 'action': 'create_pr', 'comment_pr', 'list_prs', 'view_pr', 'list_issues', or 'create_issue'.\"}"@
}

/// The reply to an empty request.
pub fn no_input_reply() -> (reply: String)
    ensures
        reply@ == no_input_text(),
{
    String::from_str(
        "{\"error\":\"No input provided. Expected JSON with 'action': 'create_pr', 'comment_pr', 'list_prs', 'view_pr', 'list_issues', or 'create_issue'.\"}",
    )
}

/// The message of the reply to a request that names no known action;
/// `detail` says why it could not be read.
pub open spec fn invalid_input_message(detail: Seq<char>) -> Seq<char> {
    "Invalid input: "@ + detail
        + ". Expected 'action': 'create_pr', 'comment_pr', 'list_prs', 'view_pr', 'list_issues', or 'create_issue'."@
}

/// The reply to a request that names no known action, as a JSON object
/// with an `error` member.
pub fn invalid_input_reply(detail: &str) -> (reply: String)
    ensures
        reply@ == json_object_text(
            seq![("error"@, JsonFieldView::Text(invalid_input_message(detail@)))],
        ),
{
    let mut msg = String::from_str("Invalid input: ");
    msg.append(detail);
    msg.append(
        ". Expected 'action': 'create_pr', 'comment_pr', 'list_prs', 'view_pr', 'list_issues', or 'create_issue'.",
    );
    let mut members: Vec<(String, JsonField)> = Vec::new();
    members.push(member("error", JsonField::Text(msg)));
    assert(members_view(members@) =~= seq![("error"@, JsonFieldView::Text(invalid_input_message(detail@)))]);
    render_json_object(&members)
}

} // verus!
