use vstd::prelude::*;

use crate::errors::{ErrorKind, LogicalFailure};
use crate::jsontext::{get_field, value_as_string, value_is_null};

verus! {

/// The body field of a structured envelope, as the envelope carries it: the
/// field may be missing altogether, be an explicit JSON null, hold a value
/// that is not text, or hold a text.
#[derive(Debug)]
pub enum BodyField {
    Absent,
    Null,
    NonText,
    Text(String),
}

/// The closed set of recognized inbound envelope shapes.
#[derive(Debug)]
pub enum Envelope {
    /// REST-style gateway event: the body is an optional string field beside
    /// path and header metadata.
    V1Proxy { body: BodyField },
    /// HTTP-API-style gateway event: the body is an optional string field in
    /// a simplified top-level shape.
    V2Http { body: BodyField },
    /// An untyped structured event in which a body may sit under a generic
    /// `body` key, and may be absent, non-text, or malformed.
    RawValue { body: BodyField },
    /// A direct invocation: the request body arrives as a bare payload with
    /// no enclosing envelope. An explicitly empty payload is a distinct
    /// state from a missing one.
    DirectBytes { payload: Option<Vec<u8>> },
}

/// An envelope shape, detached from its contents; the outbound envelope
/// always matches the inbound one.
#[derive(Clone, Copy, Debug, PartialEq, Eq, Structural)]
pub enum Variant {
    V1Proxy,
    V2Http,
    RawValue,
    DirectBytes,
}

impl Envelope {
    pub open spec fn spec_variant(&self) -> Variant {
        match self {
            Envelope::V1Proxy { .. } => Variant::V1Proxy,
            Envelope::V2Http { .. } => Variant::V2Http,
            Envelope::RawValue { .. } => Variant::RawValue,
            Envelope::DirectBytes { .. } => Variant::DirectBytes,
        }
    }

    pub fn variant(&self) -> (r: Variant)
        ensures
            r == self.spec_variant(),
    {
        match self {
            Envelope::V1Proxy { .. } => Variant::V1Proxy,
            Envelope::V2Http { .. } => Variant::V2Http,
            Envelope::RawValue { .. } => Variant::RawValue,
            Envelope::DirectBytes { .. } => Variant::DirectBytes,
        }
    }

    /// The body field a structured envelope carries; a direct payload has
    /// no body field.
    pub open spec fn spec_body_field(&self) -> Option<BodyField> {
        match self {
            Envelope::V1Proxy { body } => Some(*body),
            Envelope::V2Http { body } => Some(*body),
            Envelope::RawValue { body } => Some(*body),
            Envelope::DirectBytes { .. } => None,
        }
    }
}

/// What extraction owes for a structured body field: a missing, null or
/// empty body is `MissingBody`, a non-text body is `NonTextBody`, and a
/// non-empty text is handed on.
pub open spec fn spec_extract_field(body: BodyField) -> Result<Seq<char>, ErrorKind> {
    match body {
        BodyField::Absent => Err(ErrorKind::MissingBody),
        BodyField::Null => Err(ErrorKind::MissingBody),
        BodyField::NonText => Err(ErrorKind::NonTextBody),
        BodyField::Text(s) => if s@.len() == 0 {
            Err(ErrorKind::MissingBody)
        } else {
            Ok(s@)
        },
    }
}

/// What extraction owes for a whole envelope. A direct payload must decode
/// as UTF-8 text to be a body at all; a missing, empty, or
/// decoded-to-nothing payload is `MissingBody`, and an undecodable one is
/// `NonTextBody`.
pub open spec fn spec_extract(env: Envelope) -> Result<Seq<char>, ErrorKind> {
    match env {
        Envelope::V1Proxy { body } => spec_extract_field(body),
        Envelope::V2Http { body } => spec_extract_field(body),
        Envelope::RawValue { body } => spec_extract_field(body),
        Envelope::DirectBytes { payload } => match payload {
            None => Err(ErrorKind::MissingBody),
            Some(bytes) => if bytes@.len() == 0 {
                Err(ErrorKind::MissingBody)
            } else if !vstd::utf8::valid_utf8(bytes@) {
                Err(ErrorKind::NonTextBody)
            } else if vstd::utf8::decode_utf8(bytes@).len() == 0 {
                Err(ErrorKind::MissingBody)
            } else {
                Ok(vstd::utf8::decode_utf8(bytes@))
            },
        },
    }
}

/// The diagnostic text owed for each extraction failure.
pub open spec fn spec_extract_message(k: ErrorKind) -> Seq<char> {
    if k == ErrorKind::NonTextBody {
        "request body is not text"@
    } else {
        "request body is missing or empty"@
    }
}

/// Relies on std::str::from_utf8: it succeeds exactly on valid UTF-8 and
/// yields the decoded characters.
#[verifier::external_body]
fn decode_text(bytes: &[u8]) -> (r: Option<String>)
    ensures
        r is Some <==> vstd::utf8::valid_utf8(bytes@),
        r matches Some(s) ==> s@ == vstd::utf8::decode_utf8(bytes@),
{
    match std::str::from_utf8(bytes) {
        Ok(s) => Some(s.to_owned()),
        Err(_) => None,
    }
}

fn missing_body_failure() -> (r: LogicalFailure)
    ensures
        r.kind == ErrorKind::MissingBody,
        r.message@ == spec_extract_message(ErrorKind::MissingBody),
{
    LogicalFailure {
        kind: ErrorKind::MissingBody,
        message: "request body is missing or empty".to_owned(),
    }
}

fn non_text_body_failure() -> (r: LogicalFailure)
    ensures
        r.kind == ErrorKind::NonTextBody,
        r.message@ == spec_extract_message(ErrorKind::NonTextBody),
{
    LogicalFailure { kind: ErrorKind::NonTextBody, message: "request body is not text".to_owned() }
}

/// Pulls the raw body text out of an envelope, or reports why there is
/// none. Pure over its input; the classification of the failure and the
/// extracted text are exactly those of `spec_extract`.
pub fn extract(env: &Envelope) -> (r: Result<String, LogicalFailure>)
    ensures
        (r is Ok) == (spec_extract(*env) is Ok),
        r matches Ok(s) ==> s@ == spec_extract(*env)->Ok_0,
        r matches Err(e) ==> {
            &&& e.kind == spec_extract(*env)->Err_0
            &&& e.message@ == spec_extract_message(e.kind)
        },
{
    match env {
        Envelope::V1Proxy { body } => extract_field(body),
        Envelope::V2Http { body } => extract_field(body),
        Envelope::RawValue { body } => extract_field(body),
        Envelope::DirectBytes { payload } => match payload {
            None => Err(missing_body_failure()),
            Some(bytes) => {
                if bytes.len() == 0 {
                    Err(missing_body_failure())
                } else {
                    match decode_text(bytes.as_slice()) {
                        None => Err(non_text_body_failure()),
                        Some(s) => {
                            if s.as_str().is_empty() {
                                Err(missing_body_failure())
                            } else {
                                Ok(s)
                            }
                        },
                    }
                }
            },
        },
    }
}

fn extract_field(body: &BodyField) -> (r: Result<String, LogicalFailure>)
    ensures
        (r is Ok) == (spec_extract_field(*body) is Ok),
        r matches Ok(s) ==> s@ == spec_extract_field(*body)->Ok_0,
        r matches Err(e) ==> {
            &&& e.kind == spec_extract_field(*body)->Err_0
            &&& e.message@ == spec_extract_message(e.kind)
        },
{
    match body {
        BodyField::Absent => Err(missing_body_failure()),
        BodyField::Null => Err(missing_body_failure()),
        BodyField::NonText => Err(non_text_body_failure()),
        BodyField::Text(s) => {
            if s.as_str().is_empty() {
                Err(missing_body_failure())
            } else {
                Ok(s.clone())
            }
        },
    }
}

/// Reads the `body` field of a structured event into the library's own
/// model of it.
fn read_body_field(event: &serde_json::Value) -> BodyField {
    match get_field(event, "body") {
        None => BodyField::Absent,
        Some(b) => match value_as_string(b) {
            Some(s) => BodyField::Text(s),
            None => if value_is_null(b) {
                BodyField::Null
            } else {
                BodyField::NonText
            },
        },
    }
}

fn has_field(event: &serde_json::Value, name: &str) -> bool {
    match get_field(event, name) {
        Some(_) => true,
        None => false,
    }
}

/// The classification rule — the shape is the classification, no explicit
/// tag is read: a REST-style event carries `httpMethod` or
/// `multiValueHeaders`, an HTTP-API-style event carries `routeKey` or
/// `rawPath`, and everything else is an untyped event. A bare payload never
/// arrives as a structured event, so no flag reading yields `DirectBytes`.
pub open spec fn spec_classified_variant(
    has_http_method: bool,
    has_multi_value_headers: bool,
    has_route_key: bool,
    has_raw_path: bool,
) -> Variant {
    if has_http_method || has_multi_value_headers {
        Variant::V1Proxy
    } else if has_route_key || has_raw_path {
        Variant::V2Http
    } else {
        Variant::RawValue
    }
}

/// The classification decision over plain readings of a structured event:
/// which shape-defining fields are present, and what its `body` field
/// holds. The chosen variant is exactly the classification rule's, and the
/// body field is carried into the envelope unchanged.
pub fn classify_shape(
    has_http_method: bool,
    has_multi_value_headers: bool,
    has_route_key: bool,
    has_raw_path: bool,
    body: BodyField,
) -> (r: Envelope)
    ensures
        r.spec_variant() == spec_classified_variant(
            has_http_method,
            has_multi_value_headers,
            has_route_key,
            has_raw_path,
        ),
        r.spec_body_field() == Some(body),
{
    if has_http_method || has_multi_value_headers {
        Envelope::V1Proxy { body }
    } else if has_route_key || has_raw_path {
        Envelope::V2Http { body }
    } else {
        Envelope::RawValue { body }
    }
}

/// Classifies a structured event: reads the shape-defining fields and the
/// `body` field out of the opaque event, then decides by the verified
/// classification rule. A structured event never classifies as a bare
/// payload.
pub fn classify(event: &serde_json::Value) -> (r: Envelope)
    ensures
        r.spec_variant() != Variant::DirectBytes,
{
    let body = read_body_field(event);
    classify_shape(
        has_field(event, "httpMethod"),
        has_field(event, "multiValueHeaders"),
        has_field(event, "routeKey"),
        has_field(event, "rawPath"),
        body,
    )
}

} // verus!
