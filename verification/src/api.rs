//! What GitHub answers, as the library reads it.
use vstd::prelude::*;

use crate::text::opt_chars;

verus! {

/// The answer to a request, as it reaches the library: no answer at all,
/// an answer that reads as the expected value, or one that does not, kept
/// as text together with what it reads as when taken as a GitHub error.
pub enum ApiReply<T> {
    NoResponse,
    Parsed(T),
    Unparsed { text: String, error: Option<GitHubErrorResponse> },
}

pub enum ApiReplyView<V> {
    NoResponse,
    Parsed(V),
    Unparsed { text: Seq<char>, error: Option<GitHubErrorResponseView> },
}

impl<T: View> View for ApiReply<T> {
    type V = ApiReplyView<T::V>;

    open spec fn view(&self) -> ApiReplyView<T::V> {
        match self {
            ApiReply::NoResponse => ApiReplyView::NoResponse,
            ApiReply::Parsed(v) => ApiReplyView::Parsed(v@),
            ApiReply::Unparsed { text, error } => ApiReplyView::Unparsed {
                text: text@,
                error: match error {
                    Some(e) => Some(e@),
                    None => None,
                },
            },
        }
    }
}

/// GitHub's description of a failed request.
pub struct GitHubErrorResponse {
    pub message: Option<String>,
    pub errors: Option<Vec<GitHubErrorDetail>>,
}

pub struct GitHubErrorResponseView {
    pub message: Option<Seq<char>>,
    pub errors: Option<Seq<GitHubErrorDetailView>>,
}

/// The details of each of a list of error details.
pub open spec fn details_view(v: Seq<GitHubErrorDetail>) -> Seq<GitHubErrorDetailView> {
    v.map_values(|d: GitHubErrorDetail| d@)
}

impl View for GitHubErrorResponse {
    type V = GitHubErrorResponseView;

    open spec fn view(&self) -> GitHubErrorResponseView {
        GitHubErrorResponseView {
            message: opt_chars(self.message),
            errors: match self.errors {
                Some(v) => Some(details_view(v@)),
                None => None,
            },
        }
    }
}

/// One entry of the `errors` list of a GitHub error.
pub struct GitHubErrorDetail {
    pub message: Option<String>,
    pub resource: Option<String>,
    pub field: Option<String>,
    pub code: Option<String>,
}

pub struct GitHubErrorDetailView {
    pub message: Option<Seq<char>>,
    pub resource: Option<Seq<char>>,
    pub field: Option<Seq<char>>,
    pub code: Option<Seq<char>>,
}

impl View for GitHubErrorDetail {
    type V = GitHubErrorDetailView;

    open spec fn view(&self) -> GitHubErrorDetailView {
        GitHubErrorDetailView {
            message: opt_chars(self.message),
            resource: opt_chars(self.resource),
            field: opt_chars(self.field),
            code: opt_chars(self.code),
        }
    }
}

/// A pull request or issue just created.
pub struct GitHubPrResponse {
    pub number: u64,
    pub html_url: String,
}

/// What a created pull request or issue holds.
pub struct CreatedView {
    pub number: u64,
    pub html_url: Seq<char>,
}

impl View for GitHubPrResponse {
    type V = CreatedView;

    open spec fn view(&self) -> CreatedView {
        CreatedView { number: self.number, html_url: self.html_url@ }
    }
}

/// An issue just created.
pub struct GitHubIssueResponse {
    pub number: u64,
    pub html_url: String,
}

impl View for GitHubIssueResponse {
    type V = CreatedView;

    open spec fn view(&self) -> CreatedView {
        CreatedView { number: self.number, html_url: self.html_url@ }
    }
}

/// A comment just posted.
pub struct GitHubCommentResponse {
    pub id: u64,
}

impl View for GitHubCommentResponse {
    type V = u64;

    open spec fn view(&self) -> u64 {
        self.id
    }
}

/// A branch reference.
pub struct GitHubRef {
    pub ref_name: String,
}

impl View for GitHubRef {
    type V = Seq<char>;

    open spec fn view(&self) -> Seq<char> {
        self.ref_name@
    }
}

/// A GitHub account.
pub struct GitHubUser {
    pub login: String,
}

impl View for GitHubUser {
    type V = Seq<char>;

    open spec fn view(&self) -> Seq<char> {
        self.login@
    }
}

/// A pull request as it appears in a list.
pub struct GitHubPrListItem {
    pub number: u64,
    pub title: String,
    pub state: String,
    pub html_url: String,
    pub head: GitHubRef,
    pub base: GitHubRef,
    pub user: GitHubUser,
}

pub struct GitHubPrListItemView {
    pub number: u64,
    pub title: Seq<char>,
    pub state: Seq<char>,
    pub html_url: Seq<char>,
    pub head: Seq<char>,
    pub base: Seq<char>,
    pub user: Seq<char>,
}

impl View for GitHubPrListItem {
    type V = GitHubPrListItemView;

    open spec fn view(&self) -> GitHubPrListItemView {
        GitHubPrListItemView {
            number: self.number,
            title: self.title@,
            state: self.state@,
            html_url: self.html_url@,
            head: self.head@,
            base: self.base@,
            user: self.user@,
        }
    }
}

/// A single pull request in full.
pub struct GitHubPrDetail {
    pub number: u64,
    pub title: String,
    pub body: Option<String>,
    pub state: String,
    pub html_url: String,
    pub head: GitHubRef,
    pub base: GitHubRef,
    pub comments: u64,
}

pub struct GitHubPrDetailView {
    pub number: u64,
    pub title: Seq<char>,
    pub body: Option<Seq<char>>,
    pub state: Seq<char>,
    pub html_url: Seq<char>,
    pub head: Seq<char>,
    pub base: Seq<char>,
    pub comments: u64,
}

impl View for GitHubPrDetail {
    type V = GitHubPrDetailView;

    open spec fn view(&self) -> GitHubPrDetailView {
        GitHubPrDetailView {
            number: self.number,
            title: self.title@,
            body: opt_chars(self.body),
            state: self.state@,
            html_url: self.html_url@,
            head: self.head@,
            base: self.base@,
            comments: self.comments,
        }
    }
}

/// A label attached to an issue.
pub struct GitHubIssueLabel {
    pub name: String,
}

impl View for GitHubIssueLabel {
    type V = Seq<char>;

    open spec fn view(&self) -> Seq<char> {
        self.name@
    }
}

/// An issue as it appears in a list. GitHub lists pull requests among
/// issues; `is_pull_request` is set for those (the item carried a
/// non-null `pull_request` entry).
pub struct GitHubIssueItem {
    pub number: u64,
    pub title: String,
    pub state: String,
    pub html_url: String,
    pub user: GitHubUser,
    pub labels: Vec<GitHubIssueLabel>,
    pub is_pull_request: bool,
}

pub struct GitHubIssueItemView {
    pub number: u64,
    pub title: Seq<char>,
    pub state: Seq<char>,
    pub html_url: Seq<char>,
    pub user: Seq<char>,
    pub labels: Seq<Seq<char>>,
    pub is_pull_request: bool,
}

/// The names of a list of labels.
pub open spec fn label_names(v: Seq<GitHubIssueLabel>) -> Seq<Seq<char>> {
    v.map_values(|l: GitHubIssueLabel| l@)
}

impl View for GitHubIssueItem {
    type V = GitHubIssueItemView;

    open spec fn view(&self) -> GitHubIssueItemView {
        GitHubIssueItemView {
            number: self.number,
            title: self.title@,
            state: self.state@,
            html_url: self.html_url@,
            user: self.user@,
            labels: label_names(self.labels@),
            is_pull_request: self.is_pull_request,
        }
    }
}

/// The view of each item of a list of pull requests.
pub open spec fn pr_items_view(v: Seq<GitHubPrListItem>) -> Seq<GitHubPrListItemView> {
    v.map_values(|i: GitHubPrListItem| i@)
}

/// The view of each item of a list of issues.
pub open spec fn issue_items_view(v: Seq<GitHubIssueItem>) -> Seq<GitHubIssueItemView> {
    v.map_values(|i: GitHubIssueItem| i@)
}

/// A list of pull requests.
pub struct PrList {
    pub items: Vec<GitHubPrListItem>,
}

impl View for PrList {
    type V = Seq<GitHubPrListItemView>;

    open spec fn view(&self) -> Seq<GitHubPrListItemView> {
        pr_items_view(self.items@)
    }
}

/// A list of issues.
pub struct IssueList {
    pub items: Vec<GitHubIssueItem>,
}

impl View for IssueList {
    type V = Seq<GitHubIssueItemView>;

    open spec fn view(&self) -> Seq<GitHubIssueItemView> {
        issue_items_view(self.items@)
    }
}

} // verus!
