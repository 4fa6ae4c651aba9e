//! Error messages drawn from GitHub's answers.
use vstd::prelude::*;

use crate::api::{details_view, GitHubErrorDetail, GitHubErrorDetailView, GitHubErrorResponse, GitHubErrorResponseView};
use crate::text::{chars_or, joined};

verus! {

/// How one error detail reads: its own message when it has one, else the
/// field and code it names (`unknown` for either when absent).
pub open spec fn detail_text(d: GitHubErrorDetailView) -> Seq<char> {
    match d.message {
        Some(m) => m,
        None => "[field: '"@ + chars_or(d.field, "unknown"@) + "', code: '"@ + chars_or(
            d.code,
            "unknown"@,
        ) + "']"@,
    }
}

/// The texts of a list of error details.
pub open spec fn detail_texts(errs: Seq<GitHubErrorDetailView>) -> Seq<Seq<char>> {
    errs.map_values(|d: GitHubErrorDetailView| detail_text(d))
}

/// The details of a GitHub error, separated by `, `.
pub open spec fn error_details_text(errs: Seq<GitHubErrorDetailView>) -> Seq<char> {
    joined(detail_texts(errs), ", "@)
}

/// The message given for an answer that is no GitHub error either.
pub open spec fn unknown_error_message(text: Seq<char>) -> Seq<char> {
    "Unknown error: "@ + text
}

/// The message for a failed request, from the answer's text and what that
/// text reads as when taken as a GitHub error: the error's message,
/// followed by `: ` and its details when it lists any; an "Unknown error"
/// naming the whole text when the answer is no GitHub error or has no
/// message.
pub open spec fn error_message(text: Seq<char>, parsed: Option<GitHubErrorResponseView>) -> Seq<char> {
    match parsed {
        None => unknown_error_message(text),
        Some(p) => match p.message {
            None => unknown_error_message(text),
            Some(m) => match p.errors {
                Some(errs) => if errs.len() > 0 {
                    m + ": "@ + error_details_text(errs)
                } else {
                    m
                },
                None => m,
            },
        },
    }
}

/// The text of one error detail.
fn detail_text_of(d: &GitHubErrorDetail) -> (t: String)
    ensures
        t@ == detail_text(d@),
{
    match &d.message {
        Some(m) => m.clone(),
        None => {
            let mut t = String::from_str("[field: '");
            match &d.field {
                Some(f) => t.append(f.as_str()),
                None => t.append("unknown"),
            }
            t.append("', code: '");
            match &d.code {
                Some(c) => t.append(c.as_str()),
                None => t.append("unknown"),
            }
            t.append("']");
            t
        },
    }
}

/// The details of a GitHub error, separated by `, `.
pub fn format_error_details(errors: &Vec<GitHubErrorDetail>) -> (text: String)
    ensures
        text@ == error_details_text(details_view(errors@)),
{
    let ghost parts = detail_texts(details_view(errors@));
    let mut text = String::new();
    let n = errors.len();
    let mut i: usize = 0;
    while i < n
        invariant
            n == errors@.len(),
            parts == detail_texts(details_view(errors@)),
            parts.len() == n,
            i <= n,
            text@ == joined(parts.take(i as int), ", "@),
        decreases n - i,
    {
        let part = detail_text_of(&errors[i]);
        assert(part@ == parts[i as int]);
        if i > 0 {
            text.append(", ");
        }
        text.append(part.as_str());
        assert(parts.take(i + 1).drop_last() =~= parts.take(i as int));
        if i == 0 {
            assert(text@ =~= joined(parts.take(1), ", "@));
        }
        i += 1;
    }
    assert(parts.take(n as int) =~= parts);
    text
}

/// The message given for an answer that is no GitHub error either.
fn unknown_error(text: &str) -> (msg: String)
    ensures
        msg@ == unknown_error_message(text@),
{
    let mut msg = String::from_str("Unknown error: ");
    msg.append(text);
    msg
}

/// The message for a failed request; `parsed` is what the answer's `text`
/// reads as when taken as a GitHub error, if it reads as one.
pub fn error_from_response(text: &str, parsed: &Option<GitHubErrorResponse>) -> (msg: String)
    ensures
        msg@ == error_message(
            text@,
            match parsed {
                Some(p) => Some(p@),
                None => None,
            },
        ),
{
    match parsed {
        None => unknown_error(text),
        Some(p) => match &p.message {
            None => unknown_error(text),
            Some(m) => {
                let mut msg = m.clone();
                match &p.errors {
                    Some(errs) => {
                        if errs.len() > 0 {
                            let details = format_error_details(errs);
                            msg.append(": ");
                            msg.append(details.as_str());
                        }
                    },
                    None => {},
                }
                msg
            },
        },
    }
}

} // verus!
