//! What each request holds, in terms of what the caller asked for.
use vstd::prelude::*;
use vstd::utf8::encode_utf8;

use crate::errors::{detail_text, error_details_text, error_message};
use crate::api::{GitHubErrorDetailView, GitHubErrorResponseView};
use crate::inputs::{
    CommentPrInputView, CreateIssueInputView, CreatePrInputView, ListIssuesInputView,
    ListPrsInputView, ViewPrInputView,
};
use crate::json::{json_object_text, JsonFieldView};
use crate::requests::{
    accept_header_members, auth_header_members, comment_pr_http, create_issue_body_members,
    create_issue_http, create_pr_body_members, create_pr_http, list_issues_http, list_prs_http,
    view_pr_diff_http, view_pr_http, HttpRequestView,
};
use crate::text::{decimal, joined};
use crate::url::url_encoded;
use crate::validate::{owner_repo_problem, valid_repo_param};

verus! {

/// The number written by a string of decimal digits.
pub open spec fn digits_value(s: Seq<char>) -> int
    decreases s.len(),
{
    if s.len() == 0 {
        0
    } else {
        digits_value(s.drop_last()) * 10 + (s.last() as int - 48)
    }
}

/// A number is written with decimal digits only, at least one, with no
/// leading zero, and the digits read back as the number.
pub proof fn law_decimal_reads_back(n: nat)
    ensures
        decimal(n).len() > 0,
        forall|i: int| 0 <= i < decimal(n).len() ==> 48 <= #[trigger] decimal(n)[i] as int <= 57,
        n > 0 ==> decimal(n)[0] != '0',
        digits_value(decimal(n)) == n,
    decreases n,
{
    if n >= 10 {
        law_decimal_reads_back(n / 10);
        let pre = decimal(n / 10);
        let d = ((n % 10) + 48) as char;
        assert(decimal(n) == pre.push(d));
        assert(decimal(n).drop_last() =~= pre);
        assert forall|i: int| 0 <= i < decimal(n).len() implies 48 <= #[trigger] decimal(n)[i] as int
            <= 57 by {
            if i < pre.len() {
                assert(decimal(n)[i] == pre[i]);
            }
        }
        assert(decimal(n)[0] == pre[0]);
        assert(decimal(n).last() == d);
        assert(d as int == (n % 10) + 48);
        assert(digits_value(decimal(n)) == digits_value(pre) * 10 + (n % 10));
        assert((n / 10) * 10 + n % 10 == n);
    } else {
        assert(decimal(n).drop_last() =~= Seq::<char>::empty());
        assert(decimal(n).last() == ((n + 48) as char));
        assert(digits_value(Seq::<char>::empty()) == 0);
    }
}

/// Every GitHub request carries the token as a bearer credential,
/// GitHub's JSON media type, JSON content, the plugin's user agent and
/// the API version.
pub proof fn law_auth_headers(token: Seq<char>)
    ensures
        auth_header_members(token) == seq![
            ("Authorization"@, JsonFieldView::Text("Bearer "@ + token)),
            ("Accept"@, JsonFieldView::Text("application/vnd.github+json"@)),
            ("Content-Type"@, JsonFieldView::Text("application/json"@)),
            ("User-Agent"@, JsonFieldView::Text("fawx-github-skill/1.0"@)),
            ("X-GitHub-Api-Version"@, JsonFieldView::Text("2022-11-28"@)),
        ],
        accept_header_members(token, "application/vnd.github.diff"@) == seq![
            ("Authorization"@, JsonFieldView::Text("Bearer "@ + token)),
            ("Accept"@, JsonFieldView::Text("application/vnd.github.diff"@)),
            ("User-Agent"@, JsonFieldView::Text("fawx-github-skill/1.0"@)),
            ("X-GitHub-Api-Version"@, JsonFieldView::Text("2022-11-28"@)),
        ],
{
}

/// A new pull request is posted with the caller's title, body (empty only
/// when none is given), head, base (`staging` when none is given) and
/// draft flag (`false` when none is given).
pub proof fn law_create_pr_body(input: CreatePrInputView)
    ensures
        create_pr_body_members(input) == seq![
            ("title"@, JsonFieldView::Text(input.title)),
            ("body"@, JsonFieldView::Text(
                match input.body {
                    Some(b) => b,
                    None => Seq::empty(),
                },
            )),
            ("head"@, JsonFieldView::Text(input.head)),
            ("base"@, JsonFieldView::Text(
                match input.base {
                    Some(b) => b,
                    None => "staging"@,
                },
            )),
            ("draft"@, JsonFieldView::Flag(
                match input.draft {
                    Some(d) => d,
                    None => false,
                },
            )),
        ],
        input.body matches Some(b) ==> create_pr_body_members(input)[1] == ("body"@, JsonFieldView::Text(b)),
{
}

/// A new issue is posted with the caller's title first, then each of its
/// body, labels and assignees that the caller gives — lists whole and in
/// order — and no member for one the caller leaves out; no key appears
/// twice.
pub proof fn law_create_issue_body(input: CreateIssueInputView)
    ensures
        create_issue_body_members(input)[0] == ("title"@, JsonFieldView::Text(input.title)),
        input.body matches Some(b) ==> create_issue_body_members(input).contains(
            ("body"@, JsonFieldView::Text(b)),
        ),
        input.labels matches Some(l) ==> create_issue_body_members(input).contains(
            ("labels"@, JsonFieldView::TextList(l)),
        ),
        input.assignees matches Some(a) ==> create_issue_body_members(input).contains(
            ("assignees"@, JsonFieldView::TextList(a)),
        ),
        input.body is None ==> forall|j: int|
            0 <= j < create_issue_body_members(input).len() ==> (#[trigger] create_issue_body_members(input)[j]).0 != "body"@,
        input.labels is None ==> forall|j: int|
            0 <= j < create_issue_body_members(input).len() ==> (#[trigger] create_issue_body_members(input)[j]).0 != "labels"@,
        input.assignees is None ==> forall|j: int|
            0 <= j < create_issue_body_members(input).len() ==> (#[trigger] create_issue_body_members(input)[j]).0 != "assignees"@,
        forall|j: int, k: int|
            0 <= j < k < create_issue_body_members(input).len() ==> (#[trigger] create_issue_body_members(input)[j]).0
                != (#[trigger] create_issue_body_members(input)[k]).0,
{
    reveal_strlit("title");
    reveal_strlit("body");
    reveal_strlit("labels");
    reveal_strlit("assignees");
    let m = create_issue_body_members(input);
    let nb: int = if input.body is Some { 1 } else { 0 };
    let nl: int = if input.labels is Some { 1 } else { 0 };
    let na: int = if input.assignees is Some { 1 } else { 0 };
    assert(m.len() == 1 + nb + nl + na);
    assert(m[0].0 == "title"@);
    if let Some(b) = input.body {
        assert(m[1] == ("body"@, JsonFieldView::Text(b)));
    }
    if let Some(l) = input.labels {
        assert(m[1 + nb] == ("labels"@, JsonFieldView::TextList(l)));
    }
    if let Some(a) = input.assignees {
        assert(m[1 + nb + nl] == ("assignees"@, JsonFieldView::TextList(a)));
    }
    assert(1 <= nb ==> m[1].0 == "body"@);
    assert(1 <= nl ==> m[1 + nb].0 == "labels"@);
    assert(1 <= na ==> m[1 + nb + nl].0 == "assignees"@);
    assert forall|j: int| 0 <= j < m.len() implies {
        ||| j == 0 && m[j].0 == "title"@
        ||| nb == 1 && j == 1 && m[j].0 == "body"@
        ||| nl == 1 && j == 1 + nb && m[j].0 == "labels"@
        ||| na == 1 && j == 1 + nb + nl && m[j].0 == "assignees"@
    } by {}
}

/// The address of a repository's API.
pub open spec fn api_repo(owner: Seq<char>, repo: Seq<char>) -> Seq<char> {
    "https://api.github.com/repos/"@ + owner + "/"@ + repo
}

/// Opening a pull request posts its members to the repository's `pulls`.
pub proof fn law_create_pr_request(input: CreatePrInputView, token: Seq<char>)
    ensures
        create_pr_http(input, token) == (HttpRequestView {
            method: "POST"@,
            url: "https://api.github.com/repos/"@ + input.owner + "/"@ + input.repo + "/pulls"@,
            headers: json_object_text(auth_header_members(token)),
            body: json_object_text(create_pr_body_members(input)),
        }),
{
    assert(create_pr_http(input, token).url =~= "https://api.github.com/repos/"@ + input.owner + "/"@
        + input.repo + "/pulls"@);
}

/// Commenting posts the comment's text to the pull request's issue
/// comments.
pub proof fn law_comment_pr_request(input: CommentPrInputView, token: Seq<char>)
    ensures
        comment_pr_http(input, token) == (HttpRequestView {
            method: "POST"@,
            url: api_repo(input.owner, input.repo) + "/issues/"@ + decimal(input.pr_number as nat)
                + "/comments"@,
            headers: json_object_text(auth_header_members(token)),
            body: json_object_text(seq![("body"@, JsonFieldView::Text(input.body))]),
        }),
{
    assert(comment_pr_http(input, token).url =~= api_repo(input.owner, input.repo) + "/issues/"@
        + decimal(input.pr_number as nat) + "/comments"@);
}

/// Listing pull requests asks for the caller's state (`open` when none is
/// given) and page size (10 when none is given), and sends no body.
pub proof fn law_list_prs_request(input: ListPrsInputView, token: Seq<char>)
    ensures
        list_prs_http(input, token) == (HttpRequestView {
            method: "GET"@,
            url: api_repo(input.owner, input.repo) + "/pulls?state="@ + match input.state {
                Some(s) => s,
                None => "open"@,
            } + "&per_page="@ + decimal(
                match input.per_page {
                    Some(p) => p as nat,
                    None => 10,
                },
            ),
            headers: json_object_text(auth_header_members(token)),
            body: Seq::empty(),
        }),
{
    let url = api_repo(input.owner, input.repo) + "/pulls?state="@ + match input.state {
        Some(s) => s,
        None => "open"@,
    } + "&per_page="@ + decimal(
        match input.per_page {
            Some(p) => p as nat,
            None => 10,
        },
    );
    assert(list_prs_http(input, token).url =~= url);
}

/// Showing a pull request reads it, then reads it again asking for its
/// diff; neither request sends a body.
pub proof fn law_view_pr_requests(input: ViewPrInputView, token: Seq<char>)
    ensures
        view_pr_http(input, token) == (HttpRequestView {
            method: "GET"@,
            url: api_repo(input.owner, input.repo) + "/pulls/"@ + decimal(input.pr_number as nat),
            headers: json_object_text(auth_header_members(token)),
            body: Seq::empty(),
        }),
        view_pr_diff_http(input, token) == (HttpRequestView {
            method: "GET"@,
            url: view_pr_http(input, token).url,
            headers: json_object_text(accept_header_members(token, "application/vnd.github.diff"@)),
            body: Seq::empty(),
        }),
{
    assert(view_pr_http(input, token).url =~= api_repo(input.owner, input.repo) + "/pulls/"@
        + decimal(input.pr_number as nat));
}

/// Listing issues asks for the caller's state (`open` when none is given)
/// and page size (10 when none is given), and, when labels are given, for
/// those labels, percent-encoded; it sends no body.
pub proof fn law_list_issues_request(input: ListIssuesInputView, token: Seq<char>)
    ensures
        list_issues_http(input, token) == (HttpRequestView {
            method: "GET"@,
            url: api_repo(input.owner, input.repo) + "/issues?state="@ + match input.state {
                Some(s) => s,
                None => "open"@,
            } + "&per_page="@ + decimal(
                match input.per_page {
                    Some(p) => p as nat,
                    None => 10,
                },
            ) + match input.labels {
                Some(l) => "&labels="@ + url_encoded(encode_utf8(l)),
                None => Seq::empty(),
            },
            headers: json_object_text(auth_header_members(token)),
            body: Seq::empty(),
        }),
{
    let url = api_repo(input.owner, input.repo) + "/issues?state="@ + match input.state {
        Some(s) => s,
        None => "open"@,
    } + "&per_page="@ + decimal(
        match input.per_page {
            Some(p) => p as nat,
            None => 10,
        },
    ) + match input.labels {
        Some(l) => "&labels="@ + url_encoded(encode_utf8(l)),
        None => Seq::empty(),
    };
    assert(list_issues_http(input, token).url =~= url);
}

/// Opening an issue posts its members to the repository's `issues`.
pub proof fn law_create_issue_request(input: CreateIssueInputView, token: Seq<char>)
    ensures
        create_issue_http(input, token) == (HttpRequestView {
            method: "POST"@,
            url: api_repo(input.owner, input.repo) + "/issues"@,
            headers: json_object_text(auth_header_members(token)),
            body: json_object_text(create_issue_body_members(input)),
        }),
{
    assert(create_issue_http(input, token).url =~= api_repo(input.owner, input.repo) + "/issues"@);
}

/// How a failed request is described: GitHub's message, followed by its
/// details when it lists any; otherwise an "Unknown error" quoting the
/// answer.
pub proof fn law_error_message(text: Seq<char>, parsed: Option<GitHubErrorResponseView>)
    ensures
        parsed is None ==> error_message(text, parsed) == "Unknown error: "@ + text,
        parsed matches Some(p) ==> (p.message is None ==> error_message(text, parsed)
            == "Unknown error: "@ + text),
        parsed matches Some(p) ==> (p.message matches Some(m) ==> (p.errors is None
            ==> error_message(text, parsed) == m)),
        parsed matches Some(p) ==> (p.message matches Some(m) ==> (p.errors matches Some(e) ==> (
        e.len() == 0 ==> error_message(text, parsed) == m))),
        parsed matches Some(p) ==> (p.message matches Some(m) ==> (p.errors matches Some(e) ==> (
        e.len() > 0 ==> error_message(text, parsed) == m + ": "@ + error_details_text(e)))),
{
}

/// Error details read as their own message, or as the field and code
/// they name (`unknown` for either when absent), separated by `, `.
pub proof fn law_error_details(errs: Seq<GitHubErrorDetailView>, d: GitHubErrorDetailView)
    ensures
        d.message matches Some(m) ==> detail_text(d) == m,
        d.message is None ==> detail_text(d) == "[field: '"@ + match d.field {
            Some(f) => f,
            None => "unknown"@,
        } + "', code: '"@ + match d.code {
            Some(c) => c,
            None => "unknown"@,
        } + "']"@,
        error_details_text(seq![d]) == detail_text(d),
        errs.len() > 0 ==> error_details_text(errs.push(d)) == error_details_text(errs) + ", "@
            + detail_text(d),
{
    let parts = errs.push(d).map_values(|x: GitHubErrorDetailView| detail_text(x));
    assert(seq![d].map_values(|x: GitHubErrorDetailView| detail_text(x)) =~= seq![detail_text(d)]);
    if errs.len() > 0 {
        assert(parts.drop_last() =~= errs.map_values(|x: GitHubErrorDetailView| detail_text(x)));
        assert(joined(parts, ", "@) == joined(parts.drop_last(), ", "@) + ", "@ + parts.last());
    }
}

/// Owner and repository names are judged owner first; a usable name never
/// holds a byte that would change the shape of a URL.
pub proof fn law_owner_repo_checks(owner: Seq<char>, repo: Seq<char>)
    ensures
        (owner_repo_problem(owner, repo) is None) == (valid_repo_param(owner) && valid_repo_param(repo)),
        !valid_repo_param(owner) ==> owner_repo_problem(owner, repo) == Some(
            "Invalid owner parameter: '"@ + owner + "'"@,
        ),
        valid_repo_param(owner) && !valid_repo_param(repo) ==> owner_repo_problem(owner, repo) == Some(
            "Invalid repo parameter: '"@ + repo + "'"@,
        ),
        valid_repo_param(owner) ==> encode_utf8(owner).len() > 0 && forall|i: int|
            0 <= i < encode_utf8(owner).len() ==> {
                let b = #[trigger] encode_utf8(owner)[i];
                b != 47 && b != 63 && b != 35 && b != 37 && b != 38 && b != 32 && b != 61
            },
{
}

} // verus!
