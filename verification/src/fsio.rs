//! Filesystem probes the loader needs.  Both results depend on what is on
//! disk at the moment of the call, so their contracts state only what holds
//! of every outcome.

use vstd::prelude::*;
use crate::paths::is_abs;

verus! {

/// Relies on std::path::Path::exists: whether a filesystem entry is at the
/// named path right now.  Nothing can be promised of the answer.
#[verifier::external_body]
pub(crate) fn path_exists(p: &str) -> (r: bool) {
    std::path::Path::new(p).exists()
}

/// Relies on std::path::Path::canonicalize, whose documentation promises the
/// canonical, absolute form of the path: on success the result begins with
/// `/`.  `None` covers both a canonicalization failure and a canonical path
/// that is not valid UTF-8.
#[verifier::external_body]
pub(crate) fn canonicalize_str(p: &str) -> (r: Option<String>)
    ensures
        match r {
            Some(c) => is_abs(c@),
            None => true,
        },
{
    match std::path::Path::new(p).canonicalize() {
        Ok(b) => match b.to_str() {
            Some(s) => Some(s.to_string()),
            None => None,
        },
        Err(_) => None,
    }
}

} // verus!
