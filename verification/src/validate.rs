//! Checks made on what a caller asks for before anything is sent.
use vstd::prelude::*;
use vstd::utf8::encode_utf8;

use crate::text::str_eq;

verus! {

/// Bytes GitHub allows in an owner or repository name: ASCII letters,
/// digits, `.`, `_` and `-`.
pub open spec fn is_repo_name_byte(b: u8) -> bool {
    ||| 48 <= b <= 57
    ||| 65 <= b <= 90
    ||| 97 <= b <= 122
    ||| b == 46
    ||| b == 95
    ||| b == 45
}

/// A non-empty byte string made only of repository-name bytes.
pub open spec fn valid_repo_bytes(bytes: Seq<u8>) -> bool {
    &&& bytes.len() > 0
    &&& forall|i: int| 0 <= i < bytes.len() ==> is_repo_name_byte(#[trigger] bytes[i])
}

/// An owner or repository name as GitHub accepts it, judged on its UTF-8
/// encoding.
pub open spec fn valid_repo_param(s: Seq<char>) -> bool {
    valid_repo_bytes(encode_utf8(s))
}

/// Whether `s` is a usable owner or repository name: non-empty, and made
/// only of ASCII letters, digits, `.`, `_` and `-`.
pub fn validate_repo_param(s: &str) -> (ok: bool)
    ensures
        ok == valid_repo_param(s@),
{
    let bytes = s.as_bytes();
    let n = bytes.len();
    if n == 0 {
        return false;
    }
    let mut i: usize = 0;
    while i < n
        invariant
            n == bytes@.len(),
            bytes@ == encode_utf8(s@),
            i <= n,
            forall|j: int| 0 <= j < i ==> is_repo_name_byte(#[trigger] bytes@[j]),
        decreases n - i,
    {
        let b = bytes[i];
        let allowed = (48 <= b && b <= 57) || (65 <= b && b <= 90) || (97 <= b && b <= 122)
            || b == 46 || b == 95 || b == 45;
        if !allowed {
            return false;
        }
        i += 1;
    }
    true
}

/// The message given for an unusable owner name.
pub open spec fn invalid_owner_message(owner: Seq<char>) -> Seq<char> {
    "Invalid owner parameter: '"@ + owner + "'"@
}

/// The message given for an unusable repository name.
pub open spec fn invalid_repo_message(repo: Seq<char>) -> Seq<char> {
    "Invalid repo parameter: '"@ + repo + "'"@
}

/// What is wrong with an owner/repository pair, if anything: the owner is
/// judged first.
pub open spec fn owner_repo_problem(owner: Seq<char>, repo: Seq<char>) -> Option<Seq<char>> {
    if !valid_repo_param(owner) {
        Some(invalid_owner_message(owner))
    } else if !valid_repo_param(repo) {
        Some(invalid_repo_message(repo))
    } else {
        None
    }
}

/// Checks an owner and a repository name; the error names the first of
/// the two that is unusable.
pub fn check_owner_repo(owner: &str, repo: &str) -> (r: Result<(), String>)
    ensures
        match owner_repo_problem(owner@, repo@) {
            Some(msg) => r matches Err(e) && e@ == msg,
            None => r is Ok,
        },
{
    if !validate_repo_param(owner) {
        let mut e = String::from_str("Invalid owner parameter: '");
        e.append(owner);
        e.append("'");
        return Err(e);
    }
    if !validate_repo_param(repo) {
        let mut e = String::from_str("Invalid repo parameter: '");
        e.append(repo);
        e.append("'");
        return Err(e);
    }
    Ok(())
}

/// The base branch a pull request targets when the caller names none.
pub open spec fn default_base() -> Seq<char> {
    "staging"@
}

/// Branches that a pull request may never target.
pub open spec fn blocked_base(base: Seq<char>) -> bool {
    base == "main"@ || base == "master"@
}

/// The message given when a pull request would target a blocked branch.
pub open spec fn blocked_base_message(base: Seq<char>) -> Seq<char> {
    "Base branch '"@ + base + "' is blocked. PRs must target 'staging', not '"@ + base + "'."@
}

/// Refuses the base branches `main` and `master`; accepts any other.
pub fn validate_base(base: &str) -> (r: Result<(), String>)
    ensures
        blocked_base(base@) ==> (r matches Err(e) && e@ == blocked_base_message(base@)),
        !blocked_base(base@) ==> r is Ok,
{
    if str_eq(base, "main") || str_eq(base, "master") {
        let mut e = String::from_str("Base branch '");
        e.append(base);
        e.append("' is blocked. PRs must target 'staging', not '");
        e.append(base);
        e.append("'.");
        return Err(e);
    }
    Ok(())
}

/// The key under which the GitHub token is stored in the host's
/// key-value store.
pub fn token_key() -> (key: &'static str)
    ensures
        key@ == "github_token"@,
{
    "github_token"
}

/// The message given when no GitHub token is stored.
pub open spec fn missing_token_message() -> Seq<char> {
    "GitHub token not configured. Store a token with key 'github_token' via the host KV API."@
}

/// The token read from the host's store, or the message explaining that
/// none is configured.
pub fn get_token(stored: Option<String>) -> (r: Result<String, String>)
    ensures
        match stored {
            Some(t) => r matches Ok(u) && u@ == t@,
            None => r matches Err(e) && e@ == missing_token_message(),
        },
{
    match stored {
        Some(t) => Ok(t),
        None => Err(
            String::from_str(
                "GitHub token not configured. Store a token with key 'github_token' via the host KV API.",
            ),
        ),
    }
}

} // verus!
