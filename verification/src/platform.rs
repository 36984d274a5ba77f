//! The user's directories as the `dirs` crate reports them.
//!
//! Each of these reads the process environment (and, for the home
//! directory, possibly the password database), so nothing is promised of
//! what comes back: two calls may differ. The callers state what they do
//! with every possible answer.
use vstd::prelude::*;

verus! {

/// Calls `dirs::home_dir` and renders the path as text (lossily, as
/// `Path::to_string_lossy` does). Nothing is stated of the answer, which
/// depends on the environment.
#[verifier::external_body]
pub(crate) fn home_dir() -> (home: Option<String>)
{
    match dirs::home_dir() {
        Some(p) => Some(p.to_string_lossy().into_owned()),
        None => None,
    }
}

/// Calls `dirs::cache_dir` and renders the path as text (lossily).
/// Nothing is stated of the answer, which depends on the environment.
#[verifier::external_body]
pub(crate) fn cache_dir() -> (dir: Option<String>)
{
    match dirs::cache_dir() {
        Some(p) => Some(p.to_string_lossy().into_owned()),
        None => None,
    }
}

/// Calls `dirs::data_local_dir` and renders the path as text (lossily).
/// Nothing is stated of the answer, which depends on the environment.
#[verifier::external_body]
pub(crate) fn data_local_dir() -> (dir: Option<String>)
{
    match dirs::data_local_dir() {
        Some(p) => Some(p.to_string_lossy().into_owned()),
        None => None,
    }
}

} // verus!
