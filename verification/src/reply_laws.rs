//! What each reply holds, field by field, in terms of GitHub's answer.
use vstd::prelude::*;

use crate::api::{
    ApiReplyView, CreatedView, GitHubErrorResponseView, GitHubIssueItemView, GitHubPrDetailView,
    GitHubPrListItemView,
};
use crate::errors::error_message;
use crate::laws::law_issue_list_leaves_out_pull_requests;
use crate::outputs::{IssueSummaryView, PrSummaryView};
use crate::responses::{
    comment_pr_reply, create_issue_reply, create_pr_reply, issue_summary_of, list_issues_reply,
    list_prs_reply, pr_summary_of, view_pr_reply,
};

verus! {

/// A listed pull request is summarised by its own number, title, state,
/// address, head and base branches and author.
pub proof fn law_pr_summary_keeps_item_fields(item: GitHubPrListItemView)
    ensures
        pr_summary_of(item).number == item.number,
        pr_summary_of(item).title == item.title,
        pr_summary_of(item).state == item.state,
        pr_summary_of(item).html_url == item.html_url,
        pr_summary_of(item).head_ref == item.head,
        pr_summary_of(item).base_ref == item.base,
        pr_summary_of(item).user_login == item.user,
{
}

/// Listing pull requests replies with every listed pull request, in
/// GitHub's order, each by its own fields.
pub proof fn law_list_prs_keeps_every_item(items: Seq<GitHubPrListItemView>)
    ensures
        list_prs_reply(ApiReplyView::Parsed(items)).success,
        list_prs_reply(ApiReplyView::Parsed(items)).error is None,
        list_prs_reply(ApiReplyView::Parsed(items)).prs == Some(
            items.map_values(
                |i: GitHubPrListItemView|
                    PrSummaryView {
                        number: i.number,
                        title: i.title,
                        state: i.state,
                        html_url: i.html_url,
                        head_ref: i.head,
                        base_ref: i.base,
                        user_login: i.user,
                    },
            ),
        ),
{
    let direct = items.map_values(
        |i: GitHubPrListItemView|
            PrSummaryView {
                number: i.number,
                title: i.title,
                state: i.state,
                html_url: i.html_url,
                head_ref: i.head,
                base_ref: i.base,
                user_login: i.user,
            },
    );
    assert(items.map_values(|i: GitHubPrListItemView| pr_summary_of(i)) =~= direct);
}

/// A listed issue is summarised by its own number, title, state,
/// address, author and labels.
pub proof fn law_issue_summary_keeps_item_fields(item: GitHubIssueItemView)
    ensures
        issue_summary_of(item).number == item.number,
        issue_summary_of(item).title == item.title,
        issue_summary_of(item).state == item.state,
        issue_summary_of(item).html_url == item.html_url,
        issue_summary_of(item).user_login == item.user,
        issue_summary_of(item).labels == item.labels,
{
}

/// Listing issues replies with the items that are no pull requests, in
/// GitHub's order, each by its own fields.
pub proof fn law_list_issues_keeps_issue_fields(items: Seq<GitHubIssueItemView>)
    ensures
        list_issues_reply(ApiReplyView::Parsed(items)).success,
        list_issues_reply(ApiReplyView::Parsed(items)).error is None,
        list_issues_reply(ApiReplyView::Parsed(items)).issues == Some(
            items.filter(|i: GitHubIssueItemView| !i.is_pull_request).map_values(
                |i: GitHubIssueItemView|
                    IssueSummaryView {
                        number: i.number,
                        title: i.title,
                        state: i.state,
                        html_url: i.html_url,
                        user_login: i.user,
                        labels: i.labels,
                    },
            ),
        ),
{
    law_issue_list_leaves_out_pull_requests(items);
    let kept = items.filter(|i: GitHubIssueItemView| !i.is_pull_request);
    assert(kept.map_values(|i: GitHubIssueItemView| issue_summary_of(i)) =~= kept.map_values(
        |i: GitHubIssueItemView|
            IssueSummaryView {
                number: i.number,
                title: i.title,
                state: i.state,
                html_url: i.html_url,
                user_login: i.user,
                labels: i.labels,
            },
    ));
}

/// Showing a pull request that GitHub returned replies with that pull
/// request's own fields, its body as given (absent when it has none), and
/// the diff, empty when the diff got no answer.
pub proof fn law_view_pr_shows_the_pull_request(pr: GitHubPrDetailView, diff: Option<Seq<char>>)
    ensures
        view_pr_reply(ApiReplyView::Parsed(pr), diff).success,
        view_pr_reply(ApiReplyView::Parsed(pr), diff).error is None,
        view_pr_reply(ApiReplyView::Parsed(pr), diff).number == Some(pr.number),
        view_pr_reply(ApiReplyView::Parsed(pr), diff).title == Some(pr.title),
        view_pr_reply(ApiReplyView::Parsed(pr), diff).body == pr.body,
        view_pr_reply(ApiReplyView::Parsed(pr), diff).state == Some(pr.state),
        view_pr_reply(ApiReplyView::Parsed(pr), diff).html_url == Some(pr.html_url),
        view_pr_reply(ApiReplyView::Parsed(pr), diff).head_ref == Some(pr.head),
        view_pr_reply(ApiReplyView::Parsed(pr), diff).base_ref == Some(pr.base),
        view_pr_reply(ApiReplyView::Parsed(pr), diff).comments_count == Some(pr.comments),
        diff matches Some(d) ==> view_pr_reply(ApiReplyView::Parsed(pr), diff).diff == Some(d),
        diff is None ==> view_pr_reply(ApiReplyView::Parsed(pr), diff).diff == Some(Seq::<char>::empty()),
{
}

/// A pull request shown after a request that failed, or that GitHub
/// refused, replies with the failure and whatever diff came back is
/// dropped.
pub proof fn law_view_pr_failures(text: Seq<char>, error: Option<GitHubErrorResponseView>, diff: Option<Seq<char>>)
    ensures
        !view_pr_reply(ApiReplyView::NoResponse, diff).success,
        view_pr_reply(ApiReplyView::NoResponse, diff).error == Some("HTTP request failed"@),
        view_pr_reply(ApiReplyView::NoResponse, diff).diff is None,
        !view_pr_reply(ApiReplyView::Unparsed { text, error }, diff).success,
        view_pr_reply(ApiReplyView::Unparsed { text, error }, diff).error == Some(
            error_message(text, error),
        ),
        view_pr_reply(ApiReplyView::Unparsed { text, error }, diff).diff is None,
{
}

/// Opening a pull request replies with the number and address GitHub
/// gave it; a request without an answer, or one GitHub refused, replies
/// with the failure.
pub proof fn law_create_pr_reply(pr: CreatedView, text: Seq<char>, error: Option<GitHubErrorResponseView>)
    ensures
        create_pr_reply(ApiReplyView::Parsed(pr)).success,
        create_pr_reply(ApiReplyView::Parsed(pr)).pr_number == Some(pr.number),
        create_pr_reply(ApiReplyView::Parsed(pr)).html_url == Some(pr.html_url),
        create_pr_reply(ApiReplyView::Parsed(pr)).error is None,
        !create_pr_reply(ApiReplyView::NoResponse).success,
        create_pr_reply(ApiReplyView::NoResponse).error == Some("HTTP request failed"@),
        !create_pr_reply(ApiReplyView::Unparsed { text, error }).success,
        create_pr_reply(ApiReplyView::Unparsed { text, error }).error == Some(error_message(text, error)),
{
}

/// Commenting replies with the id GitHub gave the comment; a request
/// without an answer, or one GitHub refused, replies with the failure.
pub proof fn law_comment_pr_reply(id: u64, text: Seq<char>, error: Option<GitHubErrorResponseView>)
    ensures
        comment_pr_reply(ApiReplyView::Parsed(id)).success,
        comment_pr_reply(ApiReplyView::Parsed(id)).comment_id == Some(id),
        comment_pr_reply(ApiReplyView::Parsed(id)).error is None,
        !comment_pr_reply(ApiReplyView::NoResponse).success,
        comment_pr_reply(ApiReplyView::NoResponse).error == Some("HTTP request failed"@),
        !comment_pr_reply(ApiReplyView::Unparsed { text, error }).success,
        comment_pr_reply(ApiReplyView::Unparsed { text, error }).error == Some(error_message(text, error)),
{
}

/// Opening an issue replies with the number and address GitHub gave it;
/// a request without an answer, or one GitHub refused, replies with the
/// failure.
pub proof fn law_create_issue_reply(issue: CreatedView, text: Seq<char>, error: Option<GitHubErrorResponseView>)
    ensures
        create_issue_reply(ApiReplyView::Parsed(issue)).success,
        create_issue_reply(ApiReplyView::Parsed(issue)).issue_number == Some(issue.number),
        create_issue_reply(ApiReplyView::Parsed(issue)).html_url == Some(issue.html_url),
        create_issue_reply(ApiReplyView::Parsed(issue)).error is None,
        !create_issue_reply(ApiReplyView::NoResponse).success,
        create_issue_reply(ApiReplyView::NoResponse).error == Some("HTTP request failed"@),
        !create_issue_reply(ApiReplyView::Unparsed { text, error }).success,
        create_issue_reply(ApiReplyView::Unparsed { text, error }).error == Some(
            error_message(text, error),
        ),
{
}

/// Listing without an answer, or with one GitHub refused, replies with
/// the failure and no list.
pub proof fn law_list_failures(text: Seq<char>, error: Option<GitHubErrorResponseView>)
    ensures
        list_prs_reply(ApiReplyView::NoResponse).error == Some("HTTP request failed"@),
        list_prs_reply(ApiReplyView::NoResponse).prs is None,
        list_prs_reply(ApiReplyView::Unparsed { text, error }).error == Some(error_message(text, error)),
        list_prs_reply(ApiReplyView::Unparsed { text, error }).prs is None,
        list_issues_reply(ApiReplyView::NoResponse).error == Some("HTTP request failed"@),
        list_issues_reply(ApiReplyView::NoResponse).issues is None,
        list_issues_reply(ApiReplyView::Unparsed { text, error }).error == Some(
            error_message(text, error),
        ),
        list_issues_reply(ApiReplyView::Unparsed { text, error }).issues is None,
{
}

} // verus!
