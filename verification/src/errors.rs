use vstd::prelude::*;

verus! {

/// The closed set of failure kinds the adapter can report.
///
/// The first four are caller-input errors and are answered with status 400;
/// the last two are backend or infrastructure errors and are answered with
/// status 500.
#[derive(Clone, Copy, Debug, PartialEq, Eq, Structural)]
pub enum ErrorKind {
    MissingBody,
    NonTextBody,
    MalformedJson,
    MissingField,
    PolicyConstructionFailed,
    SigningBackendError,
}

/// True for kinds caused by the caller's input.
pub open spec fn is_caller_error(k: ErrorKind) -> bool {
    k == ErrorKind::MissingBody || k == ErrorKind::NonTextBody || k == ErrorKind::MalformedJson
        || k == ErrorKind::MissingField
}

/// The HTTP status owed for a failure kind: 400 for caller errors, 500 for
/// backend errors.
pub open spec fn spec_status_of(k: ErrorKind) -> u16 {
    if is_caller_error(k) {
        400u16
    } else {
        500u16
    }
}

pub fn status_of(k: ErrorKind) -> (r: u16)
    ensures
        r == spec_status_of(k),
{
    match k {
        ErrorKind::MissingBody => 400,
        ErrorKind::NonTextBody => 400,
        ErrorKind::MalformedJson => 400,
        ErrorKind::MissingField => 400,
        ErrorKind::PolicyConstructionFailed => 500,
        ErrorKind::SigningBackendError => 500,
    }
}

/// A short label for a failure kind, used to build operator log lines.
pub open spec fn spec_kind_label(k: ErrorKind) -> Seq<char> {
    match k {
        ErrorKind::MissingBody => "missing body"@,
        ErrorKind::NonTextBody => "non-text body"@,
        ErrorKind::MalformedJson => "malformed json"@,
        ErrorKind::MissingField => "missing field"@,
        ErrorKind::PolicyConstructionFailed => "policy construction failed"@,
        ErrorKind::SigningBackendError => "signing backend error"@,
    }
}

pub fn kind_label(k: ErrorKind) -> (r: String)
    ensures
        r@ == spec_kind_label(k),
{
    match k {
        ErrorKind::MissingBody => "missing body".to_owned(),
        ErrorKind::NonTextBody => "non-text body".to_owned(),
        ErrorKind::MalformedJson => "malformed json".to_owned(),
        ErrorKind::MissingField => "missing field".to_owned(),
        ErrorKind::PolicyConstructionFailed => "policy construction failed".to_owned(),
        ErrorKind::SigningBackendError => "signing backend error".to_owned(),
    }
}

/// A failure, with the full diagnostic kept for the operator log.
#[derive(Debug)]
pub struct LogicalFailure {
    pub kind: ErrorKind,
    pub message: String,
}

/// What the caller is allowed to see of a failure: the diagnostic itself for
/// caller-input errors, and a fixed generic text for backend errors, so that
/// backend configuration details never leak to an unauthenticated caller.
pub open spec fn spec_caller_message(k: ErrorKind, message: Seq<char>) -> Seq<char> {
    if is_caller_error(k) {
        message
    } else {
        "internal error"@
    }
}

pub fn caller_message(f: &LogicalFailure) -> (r: String)
    ensures
        r@ == spec_caller_message(f.kind, f.message@),
{
    match f.kind {
        ErrorKind::PolicyConstructionFailed => "internal error".to_owned(),
        ErrorKind::SigningBackendError => "internal error".to_owned(),
        _ => f.message.clone(),
    }
}

/// The operator log line for a failure: its kind's label, a separator, and
/// the full diagnostic.
pub open spec fn spec_log_line(k: ErrorKind, message: Seq<char>) -> Seq<char> {
    spec_kind_label(k) + ": "@ + message
}

pub fn log_line(f: &LogicalFailure) -> (r: String)
    ensures
        r@ == spec_log_line(f.kind, f.message@),
{
    let mut s = kind_label(f.kind);
    s.append(": ");
    s.append(f.message.as_str());
    s
}

} // verus!
