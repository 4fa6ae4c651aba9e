//! Properties that hold of every action, whatever the caller asks and
//! whatever GitHub answers.
use vstd::prelude::*;
use vstd::seq_lib::*;

use crate::api::{ApiReplyView, CreatedView, GitHubIssueItemView, GitHubPrDetailView, GitHubPrListItemView};
use crate::errors::{error_details_text, error_message};
use crate::handlers::{
    comment_pr_step, create_issue_step, create_pr_step, effective_base,
    list_issues_step, list_prs_step, view_pr_step, CommandView, EventView, ViewPrEventView,
};
use crate::inputs::{
    CommentPrInputView, CreateIssueInputView, CreatePrInputView, ListIssuesInputView,
    ListPrsInputView, ViewPrInputView,
};
use crate::json::json_object_text;
use crate::outputs::{
    CommentPrOutputView, CreateIssueOutputView, CreatePrOutputView, ListIssuesOutputView,
    ListPrsOutputView, ViewPrOutputView,
};
use crate::requests::{
    accept_header_members, auth_header_members, create_pr_body_members, text_member,
};
use crate::responses::{issue_summary_of, listed_issues, view_pr_reply};
use crate::validate::{blocked_base, default_base, valid_repo_param};

verus! {

/// A reply to a request to open a pull request either succeeds, with the
/// pull request's number and address and no error, or fails, with an
/// error and nothing else.
pub open spec fn create_pr_output_consistent(o: CreatePrOutputView) -> bool {
    if o.success {
        o.pr_number is Some && o.html_url is Some && o.error is None
    } else {
        o.pr_number is None && o.html_url is None && o.error is Some
    }
}

/// A reply to a request to comment either succeeds, with the comment's
/// id, or fails, with an error.
pub open spec fn comment_pr_output_consistent(o: CommentPrOutputView) -> bool {
    if o.success {
        o.comment_id is Some && o.error is None
    } else {
        o.comment_id is None && o.error is Some
    }
}

/// A reply to a request to list pull requests either succeeds, with the
/// list, or fails, with an error.
pub open spec fn list_prs_output_consistent(o: ListPrsOutputView) -> bool {
    if o.success {
        o.prs is Some && o.error is None
    } else {
        o.prs is None && o.error is Some
    }
}

/// A reply to a request to show a pull request either succeeds, with
/// everything but possibly the body, or fails, with an error.
pub open spec fn view_pr_output_consistent(o: ViewPrOutputView) -> bool {
    if o.success {
        &&& o.number is Some && o.title is Some && o.state is Some && o.html_url is Some
        &&& o.head_ref is Some && o.base_ref is Some && o.diff is Some
        &&& o.comments_count is Some && o.error is None
    } else {
        &&& o.number is None && o.title is None && o.body is None && o.state is None
        &&& o.html_url is None && o.head_ref is None && o.base_ref is None && o.diff is None
        &&& o.comments_count is None && o.error is Some
    }
}

/// A reply to a request to list issues either succeeds, with the list, or
/// fails, with an error.
pub open spec fn list_issues_output_consistent(o: ListIssuesOutputView) -> bool {
    if o.success {
        o.issues is Some && o.error is None
    } else {
        o.issues is None && o.error is Some
    }
}

/// A reply to a request to open an issue either succeeds, with the
/// issue's number and address, or fails, with an error.
pub open spec fn create_issue_output_consistent(o: CreateIssueOutputView) -> bool {
    if o.success {
        o.issue_number is Some && o.html_url is Some && o.error is None
    } else {
        o.issue_number is None && o.html_url is None && o.error is Some
    }
}

/// Opening a pull request:
/// - the token is read, and a request is sent, only for a usable owner
///   and repository and a base that is not blocked, whatever event comes;
/// - a request is sent only on a token, and carries it as its bearer
///   credential;
/// - the pull request is asked to target the caller's base, or `staging`
///   when none is named, and never `main` or `master`;
/// - every reply either succeeds with its data or fails with an error.
pub proof fn law_create_pr_flow(input: CreatePrInputView, event: EventView<ApiReplyView<CreatedView>>)
    ensures
        create_pr_step(input, EventView::Begin) is ReadToken ==> {
            &&& valid_repo_param(input.owner)
            &&& valid_repo_param(input.repo)
            &&& !blocked_base(effective_base(input))
        },
        blocked_base(effective_base(input)) ==> create_pr_step(input, EventView::Begin) is Reply,
        create_pr_body_members(input)[3] == text_member("base"@, effective_base(input)),
        input.base is None ==> effective_base(input) == default_base(),
        create_pr_step(input, event) matches CommandView::Send(req) ==> (event matches EventView::Token(Some(t))
            && req.headers == json_object_text(auth_header_members(t))),
        create_pr_step(input, event) matches CommandView::Send(req) ==> {
            &&& valid_repo_param(input.owner)
            &&& valid_repo_param(input.repo)
            &&& !blocked_base(effective_base(input))
            &&& req.body == json_object_text(create_pr_body_members(input))
        },
        create_pr_step(input, event) matches CommandView::Reply(o) ==> create_pr_output_consistent(o),
{
}

/// Commenting on a pull request: the token is read, and a request is sent,
/// only for a usable owner and repository; a request is sent only on a
/// token, and carries it; every reply either succeeds with its data or
/// fails with an error.
pub proof fn law_comment_pr_flow(input: CommentPrInputView, event: EventView<ApiReplyView<u64>>)
    ensures
        comment_pr_step(input, EventView::Begin) is ReadToken ==> valid_repo_param(input.owner)
            && valid_repo_param(input.repo),
        comment_pr_step(input, event) matches CommandView::Send(req) ==> (event matches EventView::Token(Some(t))
            && req.headers == json_object_text(auth_header_members(t))),
        comment_pr_step(input, event) is Send ==> valid_repo_param(input.owner) && valid_repo_param(input.repo),
        comment_pr_step(input, event) matches CommandView::Reply(o) ==> comment_pr_output_consistent(o),
{
}

/// Listing pull requests: the token is read, and a request is sent, only
/// for a usable owner and repository; a request is sent only on a token,
/// and carries it; every reply either succeeds with its data or fails with
/// an error.
pub proof fn law_list_prs_flow(input: ListPrsInputView, event: EventView<ApiReplyView<Seq<GitHubPrListItemView>>>)
    ensures
        list_prs_step(input, EventView::Begin) is ReadToken ==> valid_repo_param(input.owner)
            && valid_repo_param(input.repo),
        list_prs_step(input, event) matches CommandView::Send(req) ==> (event matches EventView::Token(Some(t))
            && req.headers == json_object_text(auth_header_members(t))),
        list_prs_step(input, event) is Send ==> valid_repo_param(input.owner) && valid_repo_param(input.repo),
        list_prs_step(input, event) matches CommandView::Reply(o) ==> list_prs_output_consistent(o),
{
}

/// Showing a pull request: the token is read, and a request is sent, only
/// for a usable owner and repository; both requests carry the token (the
/// second asks for the diff); every reply either succeeds with its data or
/// fails with an error.
pub proof fn law_view_pr_flow(input: ViewPrInputView, event: ViewPrEventView)
    ensures
        view_pr_step(input, ViewPrEventView::Begin) is ReadToken ==> valid_repo_param(input.owner)
            && valid_repo_param(input.repo),
        view_pr_step(input, event) matches CommandView::Send(req) ==> {
            ||| event matches ViewPrEventView::Token(Some(t)) && req.headers == json_object_text(
                auth_header_members(t),
            )
            ||| event matches ViewPrEventView::PrFetched { token } && req.headers == json_object_text(
                accept_header_members(token, "application/vnd.github.diff"@),
            )
        },
        view_pr_step(input, event) is Send ==> valid_repo_param(input.owner) && valid_repo_param(input.repo),
        view_pr_step(input, event) matches CommandView::Reply(o) ==> view_pr_output_consistent(o),
{
}

/// Listing issues: the token is read, and a request is sent, only for a
/// usable owner and repository; a request is sent only on a token, and
/// carries it; every reply either succeeds with its data or fails with an
/// error.
pub proof fn law_list_issues_flow(input: ListIssuesInputView, event: EventView<ApiReplyView<Seq<GitHubIssueItemView>>>)
    ensures
        list_issues_step(input, EventView::Begin) is ReadToken ==> valid_repo_param(input.owner)
            && valid_repo_param(input.repo),
        list_issues_step(input, event) matches CommandView::Send(req) ==> (event matches EventView::Token(Some(t))
            && req.headers == json_object_text(auth_header_members(t))),
        list_issues_step(input, event) is Send ==> valid_repo_param(input.owner) && valid_repo_param(input.repo),
        list_issues_step(input, event) matches CommandView::Reply(o) ==> list_issues_output_consistent(o),
{
}

/// Opening an issue: the token is read, and a request is sent, only for a
/// usable owner and repository; a request is sent only on a token, and
/// carries it; every reply either succeeds with its data or fails with an
/// error.
pub proof fn law_create_issue_flow(input: CreateIssueInputView, event: EventView<ApiReplyView<CreatedView>>)
    ensures
        create_issue_step(input, EventView::Begin) is ReadToken ==> valid_repo_param(input.owner)
            && valid_repo_param(input.repo),
        create_issue_step(input, event) matches CommandView::Send(req) ==> (event matches EventView::Token(Some(t))
            && req.headers == json_object_text(auth_header_members(t))),
        create_issue_step(input, event) is Send ==> valid_repo_param(input.owner) && valid_repo_param(input.repo),
        create_issue_step(input, event) matches CommandView::Reply(o) ==> create_issue_output_consistent(o),
{
}

/// The issues listed are exactly the summaries of the items that are no
/// pull requests, in GitHub's order.
pub proof fn law_issue_list_leaves_out_pull_requests(items: Seq<GitHubIssueItemView>)
    ensures
        listed_issues(items) == items.filter(|i: GitHubIssueItemView| !i.is_pull_request).map_values(
            |i: GitHubIssueItemView| issue_summary_of(i),
        ),
    decreases items.len(),
{
    reveal_with_fuel(Seq::filter, 1);
    if items.len() > 0 {
        law_issue_list_leaves_out_pull_requests(items.drop_last());
        let f = |i: GitHubIssueItemView| !i.is_pull_request;
        let g = |i: GitHubIssueItemView| issue_summary_of(i);
        assert(items.filter(f).map_values(g) =~= listed_issues(items));
    } else {
        assert(items.filter(|i: GitHubIssueItemView| !i.is_pull_request) =~= items);
        assert(listed_issues(items) =~= Seq::<crate::outputs::IssueSummaryView>::empty());
    }
}

/// A pull request shown without an answer for its diff shows an empty
/// diff.
pub proof fn law_missing_diff_reads_as_empty(pr: GitHubPrDetailView)
    ensures
        view_pr_reply(ApiReplyView::Parsed(pr), None).diff == Some(Seq::<char>::empty()),
        view_pr_reply(ApiReplyView::Parsed(pr), None).success,
{
}

/// The message of a GitHub error that lists details starts with the
/// error's own message and `: `, which the details follow.
pub proof fn law_error_message_leads_with_message(text: Seq<char>, message: Seq<char>, errs: Seq<crate::api::GitHubErrorDetailView>)
    requires
        errs.len() > 0,
    ensures
        error_message(
            text,
            Some(crate::api::GitHubErrorResponseView { message: Some(message), errors: Some(errs) }),
        ) == message + ": "@ + error_details_text(errs),
{
}

} // verus!
