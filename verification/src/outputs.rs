//! The replies the caller receives, one type per action. A reply either
//! succeeds, carrying its data, or fails, carrying an error message.
use vstd::prelude::*;

use crate::text::{chars_list, opt_chars};

verus! {

/// The reply to a request to open a pull request.
pub struct CreatePrOutput {
    pub success: bool,
    pub pr_number: Option<u64>,
    pub html_url: Option<String>,
    pub error: Option<String>,
}

pub struct CreatePrOutputView {
    pub success: bool,
    pub pr_number: Option<u64>,
    pub html_url: Option<Seq<char>>,
    pub error: Option<Seq<char>>,
}

impl View for CreatePrOutput {
    type V = CreatePrOutputView;

    open spec fn view(&self) -> CreatePrOutputView {
        CreatePrOutputView {
            success: self.success,
            pr_number: self.pr_number,
            html_url: opt_chars(self.html_url),
            error: opt_chars(self.error),
        }
    }
}

/// The reply to a request to comment on a pull request.
pub struct CommentPrOutput {
    pub success: bool,
    pub comment_id: Option<u64>,
    pub error: Option<String>,
}

pub struct CommentPrOutputView {
    pub success: bool,
    pub comment_id: Option<u64>,
    pub error: Option<Seq<char>>,
}

impl View for CommentPrOutput {
    type V = CommentPrOutputView;

    open spec fn view(&self) -> CommentPrOutputView {
        CommentPrOutputView {
            success: self.success,
            comment_id: self.comment_id,
            error: opt_chars(self.error),
        }
    }
}

/// One pull request of a list.
pub struct PrSummary {
    pub number: u64,
    pub title: String,
    pub state: String,
    pub html_url: String,
    pub head_ref: String,
    pub base_ref: String,
    pub user_login: String,
}

pub struct PrSummaryView {
    pub number: u64,
    pub title: Seq<char>,
    pub state: Seq<char>,
    pub html_url: Seq<char>,
    pub head_ref: Seq<char>,
    pub base_ref: Seq<char>,
    pub user_login: Seq<char>,
}

impl View for PrSummary {
    type V = PrSummaryView;

    open spec fn view(&self) -> PrSummaryView {
        PrSummaryView {
            number: self.number,
            title: self.title@,
            state: self.state@,
            html_url: self.html_url@,
            head_ref: self.head_ref@,
            base_ref: self.base_ref@,
            user_login: self.user_login@,
        }
    }
}

/// The summary of each pull request of a list.
pub open spec fn pr_summaries_view(v: Seq<PrSummary>) -> Seq<PrSummaryView> {
    v.map_values(|p: PrSummary| p@)
}

/// The reply to a request to list pull requests.
pub struct ListPrsOutput {
    pub success: bool,
    pub prs: Option<Vec<PrSummary>>,
    pub error: Option<String>,
}

pub struct ListPrsOutputView {
    pub success: bool,
    pub prs: Option<Seq<PrSummaryView>>,
    pub error: Option<Seq<char>>,
}

impl View for ListPrsOutput {
    type V = ListPrsOutputView;

    open spec fn view(&self) -> ListPrsOutputView {
        ListPrsOutputView {
            success: self.success,
            prs: match self.prs {
                Some(v) => Some(pr_summaries_view(v@)),
                None => None,
            },
            error: opt_chars(self.error),
        }
    }
}

/// The reply to a request to show a pull request.
pub struct ViewPrOutput {
    pub success: bool,
    pub number: Option<u64>,
    pub title: Option<String>,
    pub body: Option<String>,
    pub state: Option<String>,
    pub html_url: Option<String>,
    pub head_ref: Option<String>,
    pub base_ref: Option<String>,
    pub diff: Option<String>,
    pub comments_count: Option<u64>,
    pub error: Option<String>,
}

pub struct ViewPrOutputView {
    pub success: bool,
    pub number: Option<u64>,
    pub title: Option<Seq<char>>,
    pub body: Option<Seq<char>>,
    pub state: Option<Seq<char>>,
    pub html_url: Option<Seq<char>>,
    pub head_ref: Option<Seq<char>>,
    pub base_ref: Option<Seq<char>>,
    pub diff: Option<Seq<char>>,
    pub comments_count: Option<u64>,
    pub error: Option<Seq<char>>,
}

impl View for ViewPrOutput {
    type V = ViewPrOutputView;

    open spec fn view(&self) -> ViewPrOutputView {
        ViewPrOutputView {
            success: self.success,
            number: self.number,
            title: opt_chars(self.title),
            body: opt_chars(self.body),
            state: opt_chars(self.state),
            html_url: opt_chars(self.html_url),
            head_ref: opt_chars(self.head_ref),
            base_ref: opt_chars(self.base_ref),
            diff: opt_chars(self.diff),
            comments_count: self.comments_count,
            error: opt_chars(self.error),
        }
    }
}

/// One issue of a list.
pub struct IssueSummary {
    pub number: u64,
    pub title: String,
    pub state: String,
    pub html_url: String,
    pub user_login: String,
    pub labels: Vec<String>,
}

pub struct IssueSummaryView {
    pub number: u64,
    pub title: Seq<char>,
    pub state: Seq<char>,
    pub html_url: Seq<char>,
    pub user_login: Seq<char>,
    pub labels: Seq<Seq<char>>,
}

impl View for IssueSummary {
    type V = IssueSummaryView;

    open spec fn view(&self) -> IssueSummaryView {
        IssueSummaryView {
            number: self.number,
            title: self.title@,
            state: self.state@,
            html_url: self.html_url@,
            user_login: self.user_login@,
            labels: chars_list(self.labels@),
        }
    }
}

/// The summary of each issue of a list.
pub open spec fn issue_summaries_view(v: Seq<IssueSummary>) -> Seq<IssueSummaryView> {
    v.map_values(|s: IssueSummary| s@)
}

/// The reply to a request to list issues.
pub struct ListIssuesOutput {
    pub success: bool,
    pub issues: Option<Vec<IssueSummary>>,
    pub error: Option<String>,
}

pub struct ListIssuesOutputView {
    pub success: bool,
    pub issues: Option<Seq<IssueSummaryView>>,
    pub error: Option<Seq<char>>,
}

impl View for ListIssuesOutput {
    type V = ListIssuesOutputView;

    open spec fn view(&self) -> ListIssuesOutputView {
        ListIssuesOutputView {
            success: self.success,
            issues: match self.issues {
                Some(v) => Some(issue_summaries_view(v@)),
                None => None,
            },
            error: opt_chars(self.error),
        }
    }
}

/// The reply to a request to open an issue.
pub struct CreateIssueOutput {
    pub success: bool,
    pub issue_number: Option<u64>,
    pub html_url: Option<String>,
    pub error: Option<String>,
}

pub struct CreateIssueOutputView {
    pub success: bool,
    pub issue_number: Option<u64>,
    pub html_url: Option<Seq<char>>,
    pub error: Option<Seq<char>>,
}

impl View for CreateIssueOutput {
    type V = CreateIssueOutputView;

    open spec fn view(&self) -> CreateIssueOutputView {
        CreateIssueOutputView {
            success: self.success,
            issue_number: self.issue_number,
            html_url: opt_chars(self.html_url),
            error: opt_chars(self.error),
        }
    }
}

} // verus!
