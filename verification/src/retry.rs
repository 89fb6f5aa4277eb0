use vstd::prelude::*;

use crate::text::{contains_str, has_sub, lower, lower_chars_of};

verus! {

/// What kind of failure a connection error reports.
#[derive(Debug, Clone, Copy, PartialEq, Eq, Structural)]
pub enum RetryErrorKind {
    Authentication,
    Timeout,
    Refused,
    Unreachable,
    NameResolution,
    Other,
}

/// The kind of an error text, by the phrases that OpenSSH and the system
/// use (without regard to ASCII case); the first that matches decides.
pub open spec fn kind_of(error: Seq<char>) -> RetryErrorKind {
    let e = lower(error);
    if has_sub(e, "permission denied"@) || has_sub(e, "authentication failed"@) {
        RetryErrorKind::Authentication
    } else if has_sub(e, "timed out"@) {
        RetryErrorKind::Timeout
    } else if has_sub(e, "connection refused"@) {
        RetryErrorKind::Refused
    } else if has_sub(e, "no route to host"@) || has_sub(e, "network is unreachable"@) {
        RetryErrorKind::Unreachable
    } else if has_sub(e, "could not resolve hostname"@) || has_sub(
        e,
        "name or service not known"@,
    ) {
        RetryErrorKind::NameResolution
    } else {
        RetryErrorKind::Other
    }
}

/// Two errors are the same for the panel: the same known kind, or the
/// same text.
pub open spec fn same_kind(left: Seq<char>, right: Seq<char>) -> bool {
    (kind_of(left) != RetryErrorKind::Other && kind_of(left) == kind_of(right)) || left == right
}

/// The kind of a connection error.
pub fn error_kind(error: &str) -> (r: RetryErrorKind)
    ensures
        r == kind_of(error@),
{
    let e = lower_chars_of(error);
    if contains_str(&e, "permission denied") || contains_str(&e, "authentication failed") {
        RetryErrorKind::Authentication
    } else if contains_str(&e, "timed out") {
        RetryErrorKind::Timeout
    } else if contains_str(&e, "connection refused") {
        RetryErrorKind::Refused
    } else if contains_str(&e, "no route to host") || contains_str(&e, "network is unreachable") {
        RetryErrorKind::Unreachable
    } else if contains_str(&e, "could not resolve hostname") || contains_str(
        &e,
        "name or service not known",
    ) {
        RetryErrorKind::NameResolution
    } else {
        RetryErrorKind::Other
    }
}

/// Whether an error means that SSH refused the credentials; reconnection
/// then waits for new settings.
pub fn is_auth_error(error: &str) -> (r: bool)
    ensures
        r == (kind_of(error@) == RetryErrorKind::Authentication),
{
    match error_kind(error) {
        RetryErrorKind::Authentication => true,
        _ => false,
    }
}

/// Whether two errors are the same for the panel.
pub fn same_error_type(left: &str, right: &str) -> (r: bool)
    ensures
        r == same_kind(left@, right@),
{
    let kind = error_kind(left);
    let other = error_kind(right);
    let known = match kind {
        RetryErrorKind::Other => false,
        _ => true,
    };
    if known && kind == other {
        return true;
    }
    let lv = crate::text::chars_of(left);
    let rv = crate::text::chars_of(right);
    crate::text::seq_eq(&lv, &rv)
}

} // verus!
