//! Replies built from GitHub's answers.
use vstd::prelude::*;

use crate::api::{
    ApiReply, ApiReplyView, CreatedView, GitHubCommentResponse, GitHubIssueItem,
    GitHubIssueItemView, GitHubIssueResponse, GitHubPrDetail, GitHubPrDetailView,
    GitHubPrListItem, GitHubPrListItemView, GitHubPrResponse, IssueList, PrList,
};
use crate::errors::{error_from_response, error_message};
use crate::outputs::{
    CommentPrOutput, CommentPrOutputView, CreateIssueOutput, CreateIssueOutputView,
    CreatePrOutput, CreatePrOutputView, IssueSummary, IssueSummaryView, ListIssuesOutput,
    ListIssuesOutputView, ListPrsOutput, ListPrsOutputView, PrSummary, PrSummaryView,
    ViewPrOutput, ViewPrOutputView,
};

verus! {

/// The message given when a request got no answer.
pub open spec fn http_failed_message() -> Seq<char> {
    "HTTP request failed"@
}

fn http_failed() -> (msg: String)
    ensures
        msg@ == http_failed_message(),
{
    String::from_str("HTTP request failed")
}

// ── Open a pull request ────────────────────────────────────────────────

/// A failed reply to a request to open a pull request.
pub open spec fn create_pr_failure(msg: Seq<char>) -> CreatePrOutputView {
    CreatePrOutputView { success: false, pr_number: None, html_url: None, error: Some(msg) }
}

/// A failed reply to a request to open a pull request.
pub fn create_pr_error(msg: String) -> (out: CreatePrOutput)
    ensures
        out@ == create_pr_failure(msg@),
{
    CreatePrOutput { success: false, pr_number: None, html_url: None, error: Some(msg) }
}

/// The reply once GitHub has answered a request to open a pull request.
pub open spec fn create_pr_reply(r: ApiReplyView<CreatedView>) -> CreatePrOutputView {
    match r {
        ApiReplyView::NoResponse => create_pr_failure(http_failed_message()),
        ApiReplyView::Parsed(pr) => CreatePrOutputView {
            success: true,
            pr_number: Some(pr.number),
            html_url: Some(pr.html_url),
            error: None,
        },
        ApiReplyView::Unparsed { text, error } => create_pr_failure(error_message(text, error)),
    }
}

/// The reply once GitHub has answered a request to open a pull request.
pub fn parse_create_pr_response(response: ApiReply<GitHubPrResponse>) -> (out: CreatePrOutput)
    ensures
        out@ == create_pr_reply(response@),
{
    match response {
        ApiReply::NoResponse => create_pr_error(http_failed()),
        ApiReply::Parsed(pr) => CreatePrOutput {
            success: true,
            pr_number: Some(pr.number),
            html_url: Some(pr.html_url),
            error: None,
        },
        ApiReply::Unparsed { text, error } => create_pr_error(
            error_from_response(text.as_str(), &error),
        ),
    }
}

// ── Comment on a pull request ──────────────────────────────────────────

/// A failed reply to a request to comment.
pub open spec fn comment_pr_failure(msg: Seq<char>) -> CommentPrOutputView {
    CommentPrOutputView { success: false, comment_id: None, error: Some(msg) }
}

/// A failed reply to a request to comment.
pub fn comment_pr_error(msg: String) -> (out: CommentPrOutput)
    ensures
        out@ == comment_pr_failure(msg@),
{
    CommentPrOutput { success: false, comment_id: None, error: Some(msg) }
}

/// The reply once GitHub has answered a request to comment.
pub open spec fn comment_pr_reply(r: ApiReplyView<u64>) -> CommentPrOutputView {
    match r {
        ApiReplyView::NoResponse => comment_pr_failure(http_failed_message()),
        ApiReplyView::Parsed(id) => CommentPrOutputView {
            success: true,
            comment_id: Some(id),
            error: None,
        },
        ApiReplyView::Unparsed { text, error } => comment_pr_failure(error_message(text, error)),
    }
}

/// The reply once GitHub has answered a request to comment.
pub fn parse_comment_pr_response(response: ApiReply<GitHubCommentResponse>) -> (out: CommentPrOutput)
    ensures
        out@ == comment_pr_reply(response@),
{
    match response {
        ApiReply::NoResponse => comment_pr_error(http_failed()),
        ApiReply::Parsed(comment) => CommentPrOutput {
            success: true,
            comment_id: Some(comment.id),
            error: None,
        },
        ApiReply::Unparsed { text, error } => comment_pr_error(
            error_from_response(text.as_str(), &error),
        ),
    }
}

// ── List pull requests ─────────────────────────────────────────────────

/// The summary of a listed pull request.
pub open spec fn pr_summary_of(item: GitHubPrListItemView) -> PrSummaryView {
    PrSummaryView {
        number: item.number,
        title: item.title,
        state: item.state,
        html_url: item.html_url,
        head_ref: item.head,
        base_ref: item.base,
        user_login: item.user,
    }
}

/// The summary of a listed pull request.
pub fn pr_summary_from_api(item: GitHubPrListItem) -> (summary: PrSummary)
    ensures
        summary@ == pr_summary_of(item@),
{
    PrSummary {
        number: item.number,
        title: item.title,
        state: item.state,
        html_url: item.html_url,
        head_ref: item.head.ref_name,
        base_ref: item.base.ref_name,
        user_login: item.user.login,
    }
}

/// A failed reply to a request to list pull requests.
pub open spec fn list_prs_failure(msg: Seq<char>) -> ListPrsOutputView {
    ListPrsOutputView { success: false, prs: None, error: Some(msg) }
}

/// A failed reply to a request to list pull requests.
pub fn list_prs_error(msg: String) -> (out: ListPrsOutput)
    ensures
        out@ == list_prs_failure(msg@),
{
    ListPrsOutput { success: false, prs: None, error: Some(msg) }
}

/// The reply once GitHub has answered a request to list pull requests:
/// every listed pull request, in GitHub's order.
pub open spec fn list_prs_reply(r: ApiReplyView<Seq<GitHubPrListItemView>>) -> ListPrsOutputView {
    match r {
        ApiReplyView::NoResponse => list_prs_failure(http_failed_message()),
        ApiReplyView::Parsed(items) => ListPrsOutputView {
            success: true,
            prs: Some(items.map_values(|i: GitHubPrListItemView| pr_summary_of(i))),
            error: None,
        },
        ApiReplyView::Unparsed { text, error } => list_prs_failure(error_message(text, error)),
    }
}

/// The summaries of listed pull requests, in order.
fn pr_summaries(items: Vec<GitHubPrListItem>) -> (prs: Vec<PrSummary>)
    ensures
        prs@.map_values(|p: PrSummary| p@) == items@.map_values(
            |i: GitHubPrListItem| pr_summary_of(i@),
        ),
{
    let ghost src = items@;
    let mut prs: Vec<PrSummary> = Vec::new();
    for item in it: items.into_iter()
        invariant
            it.seq() == src,
            prs@.len() == it.index(),
            forall|j: int| 0 <= j < prs@.len() ==> (#[trigger] prs@[j])@ == pr_summary_of(src[j]@),
    {
        prs.push(pr_summary_from_api(item));
    }
    assert(prs@.map_values(|p: PrSummary| p@) =~= src.map_values(
        |i: GitHubPrListItem| pr_summary_of(i@),
    ));
    prs
}

/// The reply once GitHub has answered a request to list pull requests.
pub fn parse_list_prs_response(response: ApiReply<PrList>) -> (out: ListPrsOutput)
    ensures
        out@ == list_prs_reply(response@),
{
    match response {
        ApiReply::NoResponse => list_prs_error(http_failed()),
        ApiReply::Parsed(list) => {
            let ghost items = list.items@;
            let prs = pr_summaries(list.items);
            let out = ListPrsOutput { success: true, prs: Some(prs), error: None };
            assert(out@.prs->0 =~= items.map_values(|i: GitHubPrListItem| i@).map_values(
                |i: GitHubPrListItemView| pr_summary_of(i),
            ));
            out
        },
        ApiReply::Unparsed { text, error } => list_prs_error(
            error_from_response(text.as_str(), &error),
        ),
    }
}

// ── Show a pull request ────────────────────────────────────────────────

/// A failed reply to a request to show a pull request.
pub open spec fn view_pr_failure(msg: Seq<char>) -> ViewPrOutputView {
    ViewPrOutputView {
        success: false,
        number: None,
        title: None,
        body: None,
        state: None,
        html_url: None,
        head_ref: None,
        base_ref: None,
        diff: None,
        comments_count: None,
        error: Some(msg),
    }
}

/// A failed reply to a request to show a pull request.
pub fn view_pr_error(err: String) -> (out: ViewPrOutput)
    ensures
        out@ == view_pr_failure(err@),
{
    ViewPrOutput {
        success: false,
        number: None,
        title: None,
        body: None,
        state: None,
        html_url: None,
        head_ref: None,
        base_ref: None,
        diff: None,
        comments_count: None,
        error: Some(err),
    }
}

/// The reply once GitHub has answered both requests of a request to show
/// a pull request: the pull request itself decides between success and
/// failure; a diff that got no answer reads as empty.
pub open spec fn view_pr_reply(pr: ApiReplyView<GitHubPrDetailView>, diff: Option<Seq<char>>) -> ViewPrOutputView {
    match pr {
        ApiReplyView::NoResponse => view_pr_failure(http_failed_message()),
        ApiReplyView::Parsed(p) => ViewPrOutputView {
            success: true,
            number: Some(p.number),
            title: Some(p.title),
            body: p.body,
            state: Some(p.state),
            html_url: Some(p.html_url),
            head_ref: Some(p.head),
            base_ref: Some(p.base),
            diff: Some(
                match diff {
                    Some(d) => d,
                    None => Seq::empty(),
                },
            ),
            comments_count: Some(p.comments),
            error: None,
        },
        ApiReplyView::Unparsed { text, error } => view_pr_failure(error_message(text, error)),
    }
}

/// The reply once GitHub has answered both requests of a request to show
/// a pull request.
pub fn parse_view_pr_response(pr_response: ApiReply<GitHubPrDetail>, diff_response: Option<String>) -> (out: ViewPrOutput)
    ensures
        out@ == view_pr_reply(
            pr_response@,
            match diff_response {
                Some(d) => Some(d@),
                None => None,
            },
        ),
{
    match pr_response {
        ApiReply::NoResponse => view_pr_error(http_failed()),
        ApiReply::Parsed(pr) => {
            let diff = match diff_response {
                Some(d) => d,
                None => String::new(),
            };
            ViewPrOutput {
                success: true,
                number: Some(pr.number),
                title: Some(pr.title),
                body: pr.body,
                state: Some(pr.state),
                html_url: Some(pr.html_url),
                head_ref: Some(pr.head.ref_name),
                base_ref: Some(pr.base.ref_name),
                diff: Some(diff),
                comments_count: Some(pr.comments),
                error: None,
            }
        },
        ApiReply::Unparsed { text, error } => view_pr_error(
            error_from_response(text.as_str(), &error),
        ),
    }
}

// ── List issues ────────────────────────────────────────────────────────

/// The summary of a listed issue.
pub open spec fn issue_summary_of(item: GitHubIssueItemView) -> IssueSummaryView {
    IssueSummaryView {
        number: item.number,
        title: item.title,
        state: item.state,
        html_url: item.html_url,
        user_login: item.user,
        labels: item.labels,
    }
}

/// The summary of a listed issue, its labels by name.
pub fn issue_summary_from_api(item: GitHubIssueItem) -> (summary: IssueSummary)
    ensures
        summary@ == issue_summary_of(item@),
{
    let ghost label_src = item.labels@;
    let mut labels: Vec<String> = Vec::new();
    for label in it: item.labels.into_iter()
        invariant
            it.seq() == label_src,
            labels@.len() == it.index(),
            forall|j: int| 0 <= j < labels@.len() ==> (#[trigger] labels@[j])@ == label_src[j]@,
    {
        labels.push(label.name);
    }
    let summary = IssueSummary {
        number: item.number,
        title: item.title,
        state: item.state,
        html_url: item.html_url,
        user_login: item.user.login,
        labels,
    };
    assert(summary@.labels =~= issue_summary_of(item@).labels);
    summary
}

/// The issues of a list, leaving out the pull requests that GitHub lists
/// among them, in GitHub's order.
pub open spec fn listed_issues(items: Seq<GitHubIssueItemView>) -> Seq<IssueSummaryView>
    decreases items.len(),
{
    if items.len() == 0 {
        Seq::empty()
    } else {
        listed_issues(items.drop_last()) + if items.last().is_pull_request {
            Seq::empty()
        } else {
            seq![issue_summary_of(items.last())]
        }
    }
}

/// A failed reply to a request to list issues.
pub open spec fn list_issues_failure(msg: Seq<char>) -> ListIssuesOutputView {
    ListIssuesOutputView { success: false, issues: None, error: Some(msg) }
}

/// A failed reply to a request to list issues.
pub fn list_issues_error(msg: String) -> (out: ListIssuesOutput)
    ensures
        out@ == list_issues_failure(msg@),
{
    ListIssuesOutput { success: false, issues: None, error: Some(msg) }
}

/// The reply once GitHub has answered a request to list issues.
pub open spec fn list_issues_reply(r: ApiReplyView<Seq<GitHubIssueItemView>>) -> ListIssuesOutputView {
    match r {
        ApiReplyView::NoResponse => list_issues_failure(http_failed_message()),
        ApiReplyView::Parsed(items) => ListIssuesOutputView {
            success: true,
            issues: Some(listed_issues(items)),
            error: None,
        },
        ApiReplyView::Unparsed { text, error } => list_issues_failure(error_message(text, error)),
    }
}

/// The summaries of the listed items that are no pull requests.
fn issue_summaries(items: Vec<GitHubIssueItem>) -> (issues: Vec<IssueSummary>)
    ensures
        issues@.map_values(|s: IssueSummary| s@) == listed_issues(
            items@.map_values(|i: GitHubIssueItem| i@),
        ),
{
    let ghost src = items@.map_values(|i: GitHubIssueItem| i@);
    let mut issues: Vec<IssueSummary> = Vec::new();
    for item in it: items.into_iter()
        invariant
            src == it.seq().map_values(|i: GitHubIssueItem| i@),
            issues@.map_values(|s: IssueSummary| s@) == listed_issues(src.take(it.index() as int)),
    {
        let ghost k = it.index() as int;
        let ghost before = issues@.map_values(|s: IssueSummary| s@);
        assert(src.take(k + 1).drop_last() =~= src.take(k));
        assert(src.take(k + 1).last() == item@);
        if !item.is_pull_request {
            issues.push(issue_summary_from_api(item));
            assert(issues@.map_values(|s: IssueSummary| s@) =~= before.push(
                issues@[issues@.len() - 1]@,
            ));
        }
        assert(issues@.map_values(|s: IssueSummary| s@) =~= listed_issues(src.take(k + 1)));
    }
    assert(src.take(src.len() as int) =~= src);
    issues
}

/// The reply once GitHub has answered a request to list issues.
pub fn parse_list_issues_response(response: ApiReply<IssueList>) -> (out: ListIssuesOutput)
    ensures
        out@ == list_issues_reply(response@),
{
    match response {
        ApiReply::NoResponse => list_issues_error(http_failed()),
        ApiReply::Parsed(list) => {
            let issues = issue_summaries(list.items);
            ListIssuesOutput { success: true, issues: Some(issues), error: None }
        },
        ApiReply::Unparsed { text, error } => list_issues_error(
            error_from_response(text.as_str(), &error),
        ),
    }
}

// ── Open an issue ──────────────────────────────────────────────────────

/// A failed reply to a request to open an issue.
pub open spec fn create_issue_failure(msg: Seq<char>) -> CreateIssueOutputView {
    CreateIssueOutputView { success: false, issue_number: None, html_url: None, error: Some(msg) }
}

/// A failed reply to a request to open an issue.
pub fn create_issue_error(err: String) -> (out: CreateIssueOutput)
    ensures
        out@ == create_issue_failure(err@),
{
    CreateIssueOutput { success: false, issue_number: None, html_url: None, error: Some(err) }
}

/// The reply once GitHub has answered a request to open an issue.
pub open spec fn create_issue_reply(r: ApiReplyView<CreatedView>) -> CreateIssueOutputView {
    match r {
        ApiReplyView::NoResponse => create_issue_failure(http_failed_message()),
        ApiReplyView::Parsed(issue) => CreateIssueOutputView {
            success: true,
            issue_number: Some(issue.number),
            html_url: Some(issue.html_url),
            error: None,
        },
        ApiReplyView::Unparsed { text, error } => create_issue_failure(error_message(text, error)),
    }
}

/// The reply once GitHub has answered a request to open an issue.
pub fn parse_create_issue_response(response: ApiReply<GitHubIssueResponse>) -> (out: CreateIssueOutput)
    ensures
        out@ == create_issue_reply(response@),
{
    match response {
        ApiReply::NoResponse => create_issue_error(http_failed()),
        ApiReply::Parsed(issue) => CreateIssueOutput {
            success: true,
            issue_number: Some(issue.number),
            html_url: Some(issue.html_url),
            error: None,
        },
        ApiReply::Unparsed { text, error } => create_issue_error(
            error_from_response(text.as_str(), &error),
        ),
    }
}

} // verus!
