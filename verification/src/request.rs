use vstd::prelude::*;

use crate::errors::{ErrorKind, LogicalFailure};
use crate::jsontext::{
    field_text, json_diag, json_field_text, json_ok, opt_text_view, parse_json_diag,
};

verus! {

/// The logical upload request common to every envelope shape.
#[derive(Debug)]
pub struct LogicalRequest {
    pub bucket: String,
    pub object_key: String,
    pub content_type: String,
    pub caller_id: Option<String>,
}

impl LogicalRequest {
    /// Validation invariant: the three required fields are non-empty, and a
    /// caller id, when present, is non-empty as well.
    pub open spec fn wf(&self) -> bool {
        &&& self.bucket@.len() > 0
        &&& self.object_key@.len() > 0
        &&& self.content_type@.len() > 0
        &&& (self.caller_id matches Some(c) ==> c@.len() > 0)
    }

    /// The caller identity as a sequence of characters, when present.
    pub open spec fn caller_view(&self) -> Option<Seq<char>> {
        match self.caller_id {
            Some(c) => Some(c@),
            None => None,
        }
    }
}

/// The four body fields as they come out of the parsed body, before any
/// validation: each may be missing (absent, or not a text value).
pub struct RawFields {
    pub bucket: Option<String>,
    pub object_key: Option<String>,
    pub content_type: Option<String>,
    pub user_id: Option<String>,
}

/// A required field is unusable when it is absent or empty.
pub open spec fn field_missing(f: Option<String>) -> bool {
    match f {
        None => true,
        Some(s) => s@.len() == 0,
    }
}

/// The diagnostic for the first unusable required field, checked in the
/// order bucket, key, content_type.
pub open spec fn spec_missing_message(f: RawFields) -> Seq<char> {
    if field_missing(f.bucket) {
        "missing or empty field: "@ + "bucket"@
    } else if field_missing(f.object_key) {
        "missing or empty field: "@ + "key"@
    } else {
        "missing or empty field: "@ + "content_type"@
    }
}

fn missing_field_failure(name: &str) -> (r: LogicalFailure)
    ensures
        r.kind == ErrorKind::MissingField,
        r.message@ == "missing or empty field: "@ + name@,
{
    let mut message = "missing or empty field: ".to_owned();
    message.append(name);
    LogicalFailure { kind: ErrorKind::MissingField, message }
}

/// Field-level validation of a parsed body: the three required fields must
/// be present and non-empty; an absent or empty `user_id` means no caller
/// identity.
pub fn validate_fields(f: RawFields) -> (r: Result<LogicalRequest, LogicalFailure>)
    ensures
        r is Ok <==> (!field_missing(f.bucket) && !field_missing(f.object_key) && !field_missing(
            f.content_type,
        )),
        r matches Ok(req) ==> {
            &&& req.wf()
            &&& req.bucket@ == f.bucket->Some_0@
            &&& req.object_key@ == f.object_key->Some_0@
            &&& req.content_type@ == f.content_type->Some_0@
            &&& req.caller_view() == (if field_missing(f.user_id) {
                Option::<Seq<char>>::None
            } else {
                Some(f.user_id->Some_0@)
            })
        },
        r matches Err(e) ==> {
            &&& e.kind == ErrorKind::MissingField
            &&& e.message@ == spec_missing_message(f)
        },
{
    let RawFields { bucket, object_key, content_type, user_id } = f;
    let bucket = match bucket {
        Some(b) => {
            if b.as_str().is_empty() {
                return Err(missing_field_failure("bucket"));
            }
            b
        },
        None => {
            return Err(missing_field_failure("bucket"));
        },
    };
    let object_key = match object_key {
        Some(k) => {
            if k.as_str().is_empty() {
                return Err(missing_field_failure("key"));
            }
            k
        },
        None => {
            return Err(missing_field_failure("key"));
        },
    };
    let content_type = match content_type {
        Some(c) => {
            if c.as_str().is_empty() {
                return Err(missing_field_failure("content_type"));
            }
            c
        },
        None => {
            return Err(missing_field_failure("content_type"));
        },
    };
    let caller_id = match user_id {
        Some(u) => {
            if u.as_str().is_empty() {
                None
            } else {
                Some(u)
            }
        },
        None => None,
    };
    Ok(LogicalRequest { bucket, object_key, content_type, caller_id })
}

/// A required field text is unusable when it is not there or empty.
pub open spec fn text_missing(o: Option<Seq<char>>) -> bool {
    match o {
        None => true,
        Some(s) => s.len() == 0,
    }
}

/// A JSON body carries a usable logical request exactly when it parses and
/// each of its three required fields is present as a non-empty text.
pub open spec fn spec_required_fields_ok(body: Seq<char>) -> bool {
    &&& json_ok(body)
    &&& !text_missing(json_field_text(body, "bucket"@))
    &&& !text_missing(json_field_text(body, "key"@))
    &&& !text_missing(json_field_text(body, "content_type"@))
}

/// The caller identity a JSON body supplies: its `user_id` field, with an
/// absent, non-text, or empty one meaning no identity.
pub open spec fn spec_caller_of(body: Seq<char>) -> Option<Seq<char>> {
    if text_missing(json_field_text(body, "user_id"@)) {
        None
    } else {
        Some(json_field_text(body, "user_id"@)->Some_0)
    }
}

/// The diagnostic for the first unusable required field of a JSON body,
/// checked in the order bucket, key, content_type.
pub open spec fn spec_missing_text(body: Seq<char>) -> Seq<char> {
    if text_missing(json_field_text(body, "bucket"@)) {
        "missing or empty field: "@ + "bucket"@
    } else if text_missing(json_field_text(body, "key"@)) {
        "missing or empty field: "@ + "key"@
    } else {
        "missing or empty field: "@ + "content_type"@
    }
}

/// Parses a body text as JSON and pulls out the four schema fields — each
/// exactly the named field text of the body. Fails exactly when the text is
/// not valid JSON, carrying the parser's own diagnostic.
pub fn parse_fields(body: &str) -> (r: Result<RawFields, LogicalFailure>)
    ensures
        r is Ok <==> json_ok(body@),
        r matches Ok(f) ==> {
            &&& opt_text_view(f.bucket) == json_field_text(body@, "bucket"@)
            &&& opt_text_view(f.object_key) == json_field_text(body@, "key"@)
            &&& opt_text_view(f.content_type) == json_field_text(body@, "content_type"@)
            &&& opt_text_view(f.user_id) == json_field_text(body@, "user_id"@)
        },
        r matches Err(e) ==> e.kind == ErrorKind::MalformedJson && e.message@ == json_diag(body@),
{
    match parse_json_diag(body) {
        None => Ok(
            RawFields {
                bucket: field_text(body, "bucket"),
                object_key: field_text(body, "key"),
                content_type: field_text(body, "content_type"),
                user_id: field_text(body, "user_id"),
            },
        ),
        Some(d) => Err(LogicalFailure { kind: ErrorKind::MalformedJson, message: d }),
    }
}

/// Parses and validates a body text in one step. `Ok` exactly when the body
/// is JSON with all three required fields usable — and then the request's
/// fields are the body's own field texts; `MalformedJson`, with the
/// parser's diagnostic, exactly when the text is not JSON; `MissingField`,
/// naming the first unusable field, exactly otherwise.
pub fn parse_and_validate(body: &str) -> (r: Result<LogicalRequest, LogicalFailure>)
    ensures
        r is Ok <==> spec_required_fields_ok(body@),
        r matches Ok(req) ==> {
            &&& req.wf()
            &&& req.bucket@ == json_field_text(body@, "bucket"@)->Some_0
            &&& req.object_key@ == json_field_text(body@, "key"@)->Some_0
            &&& req.content_type@ == json_field_text(body@, "content_type"@)->Some_0
            &&& req.caller_view() == spec_caller_of(body@)
        },
        (r matches Err(e) && e.kind == ErrorKind::MalformedJson) <==> !json_ok(body@),
        (r matches Err(e) && e.kind == ErrorKind::MissingField) <==> (json_ok(body@)
            && !spec_required_fields_ok(body@)),
        r matches Err(e) ==> {
            &&& (e.kind == ErrorKind::MalformedJson ==> e.message@ == json_diag(body@))
            &&& (e.kind == ErrorKind::MissingField ==> e.message@ == spec_missing_text(body@))
        },
{
    match parse_fields(body) {
        Ok(fields) => {
            proof {
                assert(field_missing(fields.bucket) == text_missing(
                    opt_text_view(fields.bucket),
                ));
                assert(field_missing(fields.object_key) == text_missing(
                    opt_text_view(fields.object_key),
                ));
                assert(field_missing(fields.content_type) == text_missing(
                    opt_text_view(fields.content_type),
                ));
                assert(field_missing(fields.user_id) == text_missing(
                    opt_text_view(fields.user_id),
                ));
            }
            validate_fields(fields)
        },
        Err(e) => Err(e),
    }
}

} // verus!
