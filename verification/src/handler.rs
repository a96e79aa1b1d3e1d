use vstd::prelude::*;

use crate::encode::{encode, spec_error_body, spec_success_body, LogicalResult, OutboundEnvelope};
use crate::envelope::{
    spec_extract, spec_extract_message, BodyField, Envelope, Variant,
};
use crate::errors::{
    log_line, spec_caller_message, spec_log_line, spec_status_of, ErrorKind, LogicalFailure,
};
use crate::jsontext::{json_diag, json_field_text, json_ok};
use crate::keys::spec_effective_key;
use crate::request::{
    parse_and_validate, spec_caller_of, spec_missing_text, spec_required_fields_ok,
};
use crate::signer::{
    build_policy_config, plan_sign, PresignPolicy, SignRequest, MAX_EXPIRY_SECONDS,
};

verus! {

/// What one invocation comes to before the external signer is involved:
/// either a signing plan to carry out, or a finished failure response in
/// the inbound envelope's shape, with the line to log.
pub enum Prepared {
    Sign {
        variant: Variant,
        request: SignRequest,
        config: aws_sdk_s3::presigning::PresigningConfig,
    },
    Done { response: OutboundEnvelope, log: Option<String> },
}

fn done_failure(variant: Variant, f: LogicalFailure) -> (r: Prepared)
    ensures
        r matches Prepared::Done { response, log } ==> {
            &&& response.spec_variant() == variant
            &&& response.shape_ok()
            &&& response.spec_status() == spec_status_of(f.kind)
            &&& response.spec_body() == spec_error_body(spec_caller_message(f.kind, f.message@))
            &&& log matches Some(l) && l@ == spec_log_line(f.kind, f.message@)
        },
        r is Done,
{
    let log = log_line(&f);
    let response = encode(variant, &Err(f));
    Prepared::Done { response, log: Some(log) }
}

/// Runs everything that comes before the signing call: extraction,
/// validation, key derivation, and expiry-policy construction. A failure
/// anywhere is already a finished response — in the inbound shape, with its
/// kind's status — so the caller of this function never sees an error
/// escape.
pub fn prepare(env: &Envelope, policy: &PresignPolicy) -> (r: Prepared)
    ensures
        // every early answer keeps the inbound shape and is a failure with a log line
        r matches Prepared::Done { response, log } ==> {
            &&& response.spec_variant() == env.spec_variant()
            &&& response.shape_ok()
            &&& (response.spec_status() == 400u16 || response.spec_status() == 500u16)
            &&& log is Some
        },
        // the signing plan is owed: a usable body whose JSON carries the
        // three required fields, under a buildable policy, always yields a
        // plan — never a refusal
        spec_extract(*env) matches Ok(b) ==> ((spec_required_fields_ok(b)
            && policy.expiry_seconds <= MAX_EXPIRY_SECONDS) ==> r is Sign),
        // and the plan is the body's own request: bucket and content type
        // verbatim, the key derived from the body's key under the body's
        // caller identity, the expiry the policy's
        r matches Prepared::Sign { variant, request, .. } ==> {
            &&& variant == env.spec_variant()
            &&& request.wf()
            &&& request.expiry_seconds == policy.expiry_seconds
            &&& policy.expiry_seconds <= MAX_EXPIRY_SECONDS
            &&& spec_extract(*env) is Ok
            &&& spec_required_fields_ok(spec_extract(*env)->Ok_0)
            &&& request.bucket@ == json_field_text(spec_extract(*env)->Ok_0, "bucket"@)->Some_0
            &&& request.content_type@ == json_field_text(
                spec_extract(*env)->Ok_0,
                "content_type"@,
            )->Some_0
            &&& request.effective_key@ == spec_effective_key(
                spec_caller_of(spec_extract(*env)->Ok_0),
                json_field_text(spec_extract(*env)->Ok_0, "key"@)->Some_0,
            )
        },
        // an envelope without a usable body is answered exactly
        spec_extract(*env) matches Err(k) ==> (r matches Prepared::Done { response, log } && {
            &&& response.spec_status() == spec_status_of(k)
            &&& response.spec_body() == spec_error_body(spec_extract_message(k))
            &&& log matches Some(l) && l@ == spec_log_line(k, spec_extract_message(k))
        }),
        // a body that is not JSON is answered 400 with the parser's own
        // diagnostic, never a silently defaulted message
        spec_extract(*env) matches Ok(b) ==> ((!json_ok(b)) ==> (r matches Prepared::Done {
            response,
            log,
        } && {
            &&& response.spec_status() == 400u16
            &&& response.spec_body() == spec_error_body(json_diag(b))
            &&& log matches Some(l) && l@ == spec_log_line(ErrorKind::MalformedJson, json_diag(b))
        })),
        // a JSON body with an unusable required field is answered exactly
        spec_extract(*env) matches Ok(b) ==> ((json_ok(b) && !spec_required_fields_ok(b)) ==> (
        r matches Prepared::Done { response, log } && {
            &&& response.spec_status() == 400u16
            &&& response.spec_body() == spec_error_body(spec_missing_text(b))
            &&& log matches Some(l) && l@ == spec_log_line(
                ErrorKind::MissingField,
                spec_missing_text(b),
            )
        })),
        // an unbuildable policy is the one remaining refusal, a backend error
        spec_extract(*env) matches Ok(b) ==> ((spec_required_fields_ok(b)
            && policy.expiry_seconds > MAX_EXPIRY_SECONDS) ==> (r matches Prepared::Done {
            response,
            ..
        } && response.spec_status() == 500u16)),
{
    let variant = env.variant();
    let body = match crate::envelope::extract(env) {
        Ok(b) => b,
        Err(f) => {
            return done_failure(variant, f);
        },
    };
    let req = match parse_and_validate(body.as_str()) {
        Ok(r) => r,
        Err(f) => {
            return done_failure(variant, f);
        },
    };
    let config = match build_policy_config(policy) {
        Ok(c) => c,
        Err(f) => {
            return done_failure(variant, f);
        },
    };
    let request = plan_sign(&req, policy);
    Prepared::Sign { variant, request, config }
}

/// Turns the external signer's outcome into the final response: a signed
/// URL becomes status 200 with exactly the body `{"url": <url>}`; a backend
/// failure becomes status 500 whose body names the failure only
/// generically, while the full backend diagnostic goes to the log line and
/// nowhere else.
pub fn finish(variant: Variant, outcome: Result<String, String>) -> (r: (
    OutboundEnvelope,
    Option<String>,
))
    ensures
        r.0.spec_variant() == variant,
        r.0.shape_ok(),
        outcome matches Ok(url) ==> {
            &&& r.0.spec_status() == 200u16
            &&& r.0.spec_body() == spec_success_body(url@)
            &&& r.1 is None
        },
        outcome matches Err(diag) ==> {
            &&& r.0.spec_status() == 500u16
            &&& r.0.spec_body() == spec_error_body("internal error"@)
            &&& r.1 matches Some(l) && l@ == spec_log_line(ErrorKind::SigningBackendError, diag@)
        },
{
    match outcome {
        Ok(url) => (encode(variant, &Ok(LogicalResult { url })), None),
        Err(diag) => {
            let f = LogicalFailure { kind: ErrorKind::SigningBackendError, message: diag };
            let log = log_line(&f);
            (encode(variant, &Err(f)), Some(log))
        },
    }
}

/// A structured body field that carries no usable body: missing, null, or
/// holding the empty text.
pub open spec fn spec_field_body_missing(body: BodyField) -> bool {
    match body {
        BodyField::Absent => true,
        BodyField::Null => true,
        BodyField::NonText => false,
        BodyField::Text(s) => s@.len() == 0,
    }
}

/// An envelope that carries no usable body, whatever its shape.
pub open spec fn spec_body_missing(env: Envelope) -> bool {
    match env {
        Envelope::V1Proxy { body } => spec_field_body_missing(body),
        Envelope::V2Http { body } => spec_field_body_missing(body),
        Envelope::RawValue { body } => spec_field_body_missing(body),
        Envelope::DirectBytes { payload } => match payload {
            None => true,
            Some(bytes) => bytes@.len() == 0 || (vstd::utf8::valid_utf8(bytes@)
                && vstd::utf8::decode_utf8(bytes@).len() == 0),
        },
    }
}

/// For every envelope variant, an empty or missing body is refused as
/// `MissingBody` — never any other kind — and `MissingBody` is answered
/// with status 400.
pub proof fn lemma_missing_body_uniform(env: Envelope)
    requires
        spec_body_missing(env),
    ensures
        spec_extract(env) == Err::<Seq<char>, ErrorKind>(ErrorKind::MissingBody),
        spec_status_of(ErrorKind::MissingBody) == 400u16,
{
}

} // verus!
