//! How the steps of each action follow one another.
use vstd::prelude::*;

use crate::api::{ApiReplyView, CreatedView, GitHubIssueItemView, GitHubPrDetailView, GitHubPrListItemView};
use crate::handlers::{
    comment_pr_step, create_issue_step, create_pr_step, list_issues_step, list_prs_step,
    view_pr_step, CommandView, EventView, ViewPrEventView,
};
use crate::inputs::{
    CommentPrInputView, CreateIssueInputView, CreatePrInputView, ListIssuesInputView,
    ListPrsInputView, ViewPrInputView,
};
use crate::requests::{
    comment_pr_http, create_issue_http, create_pr_http, list_issues_http, list_prs_http,
    view_pr_diff_http, view_pr_http,
};
use crate::responses::{
    comment_pr_reply, create_issue_reply, create_pr_reply, list_issues_reply, list_prs_reply,
    view_pr_reply,
};
use crate::validate::valid_repo_param;

verus! {

/// The message given when no GitHub token is stored.
pub open spec fn no_token_text() -> Seq<char> {
    "GitHub token not configured. Store a token with key 'github_token' via the host KV API."@
}

/// Opening a pull request, step by step: a usable request with an
/// allowed base reads the token; a token sends the request, no token
/// replies with the failure; GitHub's answer is replied as such. A base
/// of `main` or `master` is refused at once, naming the branch.
pub proof fn law_create_pr_steps(input: CreatePrInputView, token: Seq<char>, r: ApiReplyView<CreatedView>)
    ensures
        create_pr_step(input, EventView::Response(r)) == CommandView::Reply(create_pr_reply(r)),
        valid_repo_param(input.owner) && valid_repo_param(input.repo) && input.base != Some("main"@)
            && input.base != Some("master"@) ==> {
            &&& create_pr_step(input, EventView::Begin) == CommandView::<crate::outputs::CreatePrOutputView>::ReadToken
            &&& create_pr_step(input, EventView::Token(Some(token))) == CommandView::<crate::outputs::CreatePrOutputView>::Send(
                create_pr_http(input, token),
            )
            &&& create_pr_step(input, EventView::Token(None)) matches CommandView::Reply(o) && !o.success
                && o.error == Some(no_token_text())
        },
        valid_repo_param(input.owner) && valid_repo_param(input.repo) && input.base == Some("main"@)
            ==> (create_pr_step(input, EventView::Begin) matches CommandView::Reply(o) && !o.success
            && o.error == Some(
            "Base branch 'main' is blocked. PRs must target 'staging', not 'main'."@,
        )),
        valid_repo_param(input.owner) && valid_repo_param(input.repo) && input.base == Some("master"@)
            ==> (create_pr_step(input, EventView::Begin) matches CommandView::Reply(o) && !o.success
            && o.error == Some(
            "Base branch 'master' is blocked. PRs must target 'staging', not 'master'."@,
        )),
{
    reveal_strlit("main");
    reveal_strlit("master");
    reveal_strlit("staging");
    assert("staging"@.len() == 7 && "main"@.len() == 4 && "master"@.len() == 6);
    assert("staging"@ != "main"@);
    assert("staging"@ != "master"@);
    assert("Base branch '"@ + "main"@ + "' is blocked. PRs must target 'staging', not '"@ + "main"@
        + "'."@ =~= "Base branch 'main' is blocked. PRs must target 'staging', not 'main'."@) by {
        reveal_strlit("Base branch '");
        reveal_strlit("' is blocked. PRs must target 'staging', not '");
        reveal_strlit("'.");
        reveal_strlit("Base branch 'main' is blocked. PRs must target 'staging', not 'main'.");
    }
    assert("Base branch '"@ + "master"@ + "' is blocked. PRs must target 'staging', not '"@
        + "master"@ + "'."@ =~= "Base branch 'master' is blocked. PRs must target 'staging', not 'master'."@) by {
        reveal_strlit("Base branch '");
        reveal_strlit("' is blocked. PRs must target 'staging', not '");
        reveal_strlit("'.");
        reveal_strlit("Base branch 'master' is blocked. PRs must target 'staging', not 'master'.");
    }
}

/// Commenting, step by step: a usable request reads the token; a token
/// sends the comment, no token replies with the failure; GitHub's answer
/// is replied as such.
pub proof fn law_comment_pr_steps(input: CommentPrInputView, token: Seq<char>, r: ApiReplyView<u64>)
    ensures
        comment_pr_step(input, EventView::Response(r)) == CommandView::Reply(comment_pr_reply(r)),
        valid_repo_param(input.owner) && valid_repo_param(input.repo) ==> {
            &&& comment_pr_step(input, EventView::Begin) is ReadToken
            &&& comment_pr_step(input, EventView::Token(Some(token))) == CommandView::<crate::outputs::CommentPrOutputView>::Send(
                comment_pr_http(input, token),
            )
            &&& comment_pr_step(input, EventView::Token(None)) matches CommandView::Reply(o) && !o.success
                && o.error == Some(no_token_text())
        },
{
}

/// Listing pull requests, step by step: a usable request reads the
/// token; a token sends the request, no token replies with the failure;
/// GitHub's answer is replied as such.
pub proof fn law_list_prs_steps(input: ListPrsInputView, token: Seq<char>, r: ApiReplyView<Seq<GitHubPrListItemView>>)
    ensures
        list_prs_step(input, EventView::Response(r)) == CommandView::Reply(list_prs_reply(r)),
        valid_repo_param(input.owner) && valid_repo_param(input.repo) ==> {
            &&& list_prs_step(input, EventView::Begin) is ReadToken
            &&& list_prs_step(input, EventView::Token(Some(token))) == CommandView::<crate::outputs::ListPrsOutputView>::Send(
                list_prs_http(input, token),
            )
            &&& list_prs_step(input, EventView::Token(None)) matches CommandView::Reply(o) && !o.success
                && o.error == Some(no_token_text())
        },
{
}

/// Showing a pull request, step by step: a usable request reads the
/// token; a token asks for the pull request, the answer to that asks for
/// its diff with the same token, and both answers make the reply.
pub proof fn law_view_pr_steps(
    input: ViewPrInputView,
    token: Seq<char>,
    pr: ApiReplyView<GitHubPrDetailView>,
    diff: Option<Seq<char>>,
)
    ensures
        view_pr_step(input, ViewPrEventView::DiffFetched { pr, diff }) == CommandView::Reply(
            view_pr_reply(pr, diff),
        ),
        valid_repo_param(input.owner) && valid_repo_param(input.repo) ==> {
            &&& view_pr_step(input, ViewPrEventView::Begin) is ReadToken
            &&& view_pr_step(input, ViewPrEventView::Token(Some(token))) == CommandView::<crate::outputs::ViewPrOutputView>::Send(
                view_pr_http(input, token),
            )
            &&& view_pr_step(input, ViewPrEventView::PrFetched { token }) == CommandView::<crate::outputs::ViewPrOutputView>::Send(
                view_pr_diff_http(input, token),
            )
            &&& view_pr_step(input, ViewPrEventView::Token(None)) matches CommandView::Reply(o) && !o.success
                && o.error == Some(no_token_text())
        },
{
}

/// Listing issues, step by step: a usable request reads the token; a
/// token sends the request, no token replies with the failure; GitHub's
/// answer is replied as such.
pub proof fn law_list_issues_steps(input: ListIssuesInputView, token: Seq<char>, r: ApiReplyView<Seq<GitHubIssueItemView>>)
    ensures
        list_issues_step(input, EventView::Response(r)) == CommandView::Reply(list_issues_reply(r)),
        valid_repo_param(input.owner) && valid_repo_param(input.repo) ==> {
            &&& list_issues_step(input, EventView::Begin) is ReadToken
            &&& list_issues_step(input, EventView::Token(Some(token))) == CommandView::<crate::outputs::ListIssuesOutputView>::Send(
                list_issues_http(input, token),
            )
            &&& list_issues_step(input, EventView::Token(None)) matches CommandView::Reply(o) && !o.success
                && o.error == Some(no_token_text())
        },
{
}

/// Opening an issue, step by step: a usable request reads the token; a
/// token sends the issue, no token replies with the failure; GitHub's
/// answer is replied as such.
pub proof fn law_create_issue_steps(input: CreateIssueInputView, token: Seq<char>, r: ApiReplyView<CreatedView>)
    ensures
        create_issue_step(input, EventView::Response(r)) == CommandView::Reply(create_issue_reply(r)),
        valid_repo_param(input.owner) && valid_repo_param(input.repo) ==> {
            &&& create_issue_step(input, EventView::Begin) is ReadToken
            &&& create_issue_step(input, EventView::Token(Some(token))) == CommandView::<crate::outputs::CreateIssueOutputView>::Send(
                create_issue_http(input, token),
            )
            &&& create_issue_step(input, EventView::Token(None)) matches CommandView::Reply(o) && !o.success
                && o.error == Some(no_token_text())
        },
{
}

} // verus!
