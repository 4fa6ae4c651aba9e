//! What a caller asks for, one type per action.
use vstd::prelude::*;

use crate::text::{chars_list, opt_chars};

verus! {

/// Open a pull request from `head` into `base` (default `staging`).
pub struct CreatePrInput {
    pub owner: String,
    pub repo: String,
    pub title: String,
    pub body: Option<String>,
    pub head: String,
    pub base: Option<String>,
    pub draft: Option<bool>,
}

pub struct CreatePrInputView {
    pub owner: Seq<char>,
    pub repo: Seq<char>,
    pub title: Seq<char>,
    pub body: Option<Seq<char>>,
    pub head: Seq<char>,
    pub base: Option<Seq<char>>,
    pub draft: Option<bool>,
}

impl View for CreatePrInput {
    type V = CreatePrInputView;

    open spec fn view(&self) -> CreatePrInputView {
        CreatePrInputView {
            owner: self.owner@,
            repo: self.repo@,
            title: self.title@,
            body: opt_chars(self.body),
            head: self.head@,
            base: opt_chars(self.base),
            draft: self.draft,
        }
    }
}

/// Comment on pull request `pr_number`.
pub struct CommentPrInput {
    pub owner: String,
    pub repo: String,
    pub pr_number: u64,
    pub body: String,
}

pub struct CommentPrInputView {
    pub owner: Seq<char>,
    pub repo: Seq<char>,
    pub pr_number: u64,
    pub body: Seq<char>,
}

impl View for CommentPrInput {
    type V = CommentPrInputView;

    open spec fn view(&self) -> CommentPrInputView {
        CommentPrInputView {
            owner: self.owner@,
            repo: self.repo@,
            pr_number: self.pr_number,
            body: self.body@,
        }
    }
}

/// List pull requests in `state` (default `open`), `per_page` of them
/// (default 10).
pub struct ListPrsInput {
    pub owner: String,
    pub repo: String,
    pub state: Option<String>,
    pub per_page: Option<u32>,
}

pub struct ListPrsInputView {
    pub owner: Seq<char>,
    pub repo: Seq<char>,
    pub state: Option<Seq<char>>,
    pub per_page: Option<u32>,
}

impl View for ListPrsInput {
    type V = ListPrsInputView;

    open spec fn view(&self) -> ListPrsInputView {
        ListPrsInputView {
            owner: self.owner@,
            repo: self.repo@,
            state: opt_chars(self.state),
            per_page: self.per_page,
        }
    }
}

/// Show pull request `pr_number` with its diff.
pub struct ViewPrInput {
    pub owner: String,
    pub repo: String,
    pub pr_number: u64,
}

pub struct ViewPrInputView {
    pub owner: Seq<char>,
    pub repo: Seq<char>,
    pub pr_number: u64,
}

impl View for ViewPrInput {
    type V = ViewPrInputView;

    open spec fn view(&self) -> ViewPrInputView {
        ViewPrInputView { owner: self.owner@, repo: self.repo@, pr_number: self.pr_number }
    }
}

/// List issues in `state` (default `open`), optionally only those with
/// the comma-separated `labels`, `per_page` of them (default 10).
pub struct ListIssuesInput {
    pub owner: String,
    pub repo: String,
    pub state: Option<String>,
    pub labels: Option<String>,
    pub per_page: Option<u32>,
}

pub struct ListIssuesInputView {
    pub owner: Seq<char>,
    pub repo: Seq<char>,
    pub state: Option<Seq<char>>,
    pub labels: Option<Seq<char>>,
    pub per_page: Option<u32>,
}

impl View for ListIssuesInput {
    type V = ListIssuesInputView;

    open spec fn view(&self) -> ListIssuesInputView {
        ListIssuesInputView {
            owner: self.owner@,
            repo: self.repo@,
            state: opt_chars(self.state),
            labels: opt_chars(self.labels),
            per_page: self.per_page,
        }
    }
}

/// Open an issue.
pub struct CreateIssueInput {
    pub owner: String,
    pub repo: String,
    pub title: String,
    pub body: Option<String>,
    pub labels: Option<Vec<String>>,
    pub assignees: Option<Vec<String>>,
}

pub struct CreateIssueInputView {
    pub owner: Seq<char>,
    pub repo: Seq<char>,
    pub title: Seq<char>,
    pub body: Option<Seq<char>>,
    pub labels: Option<Seq<Seq<char>>>,
    pub assignees: Option<Seq<Seq<char>>>,
}

/// The characters of each string of an optional list.
pub open spec fn opt_chars_list(o: Option<Vec<String>>) -> Option<Seq<Seq<char>>> {
    match o {
        Some(v) => Some(chars_list(v@)),
        None => None,
    }
}

impl View for CreateIssueInput {
    type V = CreateIssueInputView;

    open spec fn view(&self) -> CreateIssueInputView {
        CreateIssueInputView {
            owner: self.owner@,
            repo: self.repo@,
            title: self.title@,
            body: opt_chars(self.body),
            labels: opt_chars_list(self.labels),
            assignees: opt_chars_list(self.assignees),
        }
    }
}

} // verus!
