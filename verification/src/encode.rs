use vstd::prelude::*;

use crate::envelope::Variant;
use crate::errors::{caller_message, spec_caller_message, spec_status_of, status_of, LogicalFailure};
use crate::jsontext::{json_quote, json_quoted};

verus! {

/// A successful signing outcome: the presigned URL.
#[derive(Debug)]
pub struct LogicalResult {
    pub url: String,
}

/// An outbound response, shaped for the envelope variant the request
/// arrived in. Each variant carries exactly the fields its trigger contract
/// requires; no variant borrows another's fields.
#[derive(Debug)]
pub enum OutboundEnvelope {
    V1Proxy {
        status_code: u16,
        headers: Vec<(String, String)>,
        multi_value_headers: Vec<(String, Vec<String>)>,
        body: String,
        is_base64_encoded: bool,
    },
    V2Http {
        status_code: u16,
        headers: Vec<(String, String)>,
        cookies: Vec<String>,
        body: String,
        is_base64_encoded: bool,
    },
    RawValue { status_code: u16, headers: Vec<(String, String)>, body: String },
    DirectBytes { status_code: u16, content_type: String, body: String },
}

impl OutboundEnvelope {
    pub open spec fn spec_variant(&self) -> Variant {
        match self {
            OutboundEnvelope::V1Proxy { .. } => Variant::V1Proxy,
            OutboundEnvelope::V2Http { .. } => Variant::V2Http,
            OutboundEnvelope::RawValue { .. } => Variant::RawValue,
            OutboundEnvelope::DirectBytes { .. } => Variant::DirectBytes,
        }
    }

    pub open spec fn spec_status(&self) -> u16 {
        match self {
            OutboundEnvelope::V1Proxy { status_code, .. } => *status_code,
            OutboundEnvelope::V2Http { status_code, .. } => *status_code,
            OutboundEnvelope::RawValue { status_code, .. } => *status_code,
            OutboundEnvelope::DirectBytes { status_code, .. } => *status_code,
        }
    }

    pub open spec fn spec_body(&self) -> Seq<char> {
        match self {
            OutboundEnvelope::V1Proxy { body, .. } => body@,
            OutboundEnvelope::V2Http { body, .. } => body@,
            OutboundEnvelope::RawValue { body, .. } => body@,
            OutboundEnvelope::DirectBytes { body, .. } => body@,
        }
    }

    /// The structural contract every outbound envelope keeps: a single
    /// `content-type: application/json` header (or the bare content type,
    /// for a direct response), an empty multi-value-headers field where the
    /// variant requires one to be present, no cookies, and a non-encoded
    /// text body.
    pub open spec fn shape_ok(&self) -> bool {
        match self {
            OutboundEnvelope::V1Proxy {
                headers,
                multi_value_headers,
                is_base64_encoded,
                ..
            } => json_headers_view(headers@) && multi_value_headers@.len() == 0 && *is_base64_encoded
                == false,
            OutboundEnvelope::V2Http { headers, cookies, is_base64_encoded, .. } => json_headers_view(
                headers@,
            ) && cookies@.len() == 0 && *is_base64_encoded == false,
            OutboundEnvelope::RawValue { headers, .. } => json_headers_view(headers@),
            OutboundEnvelope::DirectBytes { content_type, .. } => content_type@
                == "application/json"@,
        }
    }

    /// The status code of a response, whatever its shape.
    pub fn status_code(&self) -> (r: u16)
        ensures
            r == self.spec_status(),
    {
        match self {
            OutboundEnvelope::V1Proxy { status_code, .. } => *status_code,
            OutboundEnvelope::V2Http { status_code, .. } => *status_code,
            OutboundEnvelope::RawValue { status_code, .. } => *status_code,
            OutboundEnvelope::DirectBytes { status_code, .. } => *status_code,
        }
    }

    /// The body text of a response, whatever its shape.
    pub fn body_text(&self) -> (r: &String)
        ensures
            r@ == self.spec_body(),
    {
        match self {
            OutboundEnvelope::V1Proxy { body, .. } => body,
            OutboundEnvelope::V2Http { body, .. } => body,
            OutboundEnvelope::RawValue { body, .. } => body,
            OutboundEnvelope::DirectBytes { body, .. } => body,
        }
    }

    pub fn variant(&self) -> (r: Variant)
        ensures
            r == self.spec_variant(),
    {
        match self {
            OutboundEnvelope::V1Proxy { .. } => Variant::V1Proxy,
            OutboundEnvelope::V2Http { .. } => Variant::V2Http,
            OutboundEnvelope::RawValue { .. } => Variant::RawValue,
            OutboundEnvelope::DirectBytes { .. } => Variant::DirectBytes,
        }
    }
}

/// A header list holding exactly `content-type: application/json`.
pub open spec fn json_headers_view(h: Seq<(String, String)>) -> bool {
    h.len() == 1 && h[0].0@ == "content-type"@ && h[0].1@ == "application/json"@
}

/// The success body: exactly the JSON object `{"url": <url>}`.
pub open spec fn spec_success_body(url: Seq<char>) -> Seq<char> {
    "{\"url\":"@ + json_quoted(url) + "}"@
}

/// The failure body: exactly the JSON object `{"error": <message>}`. One
/// encoding for every variant, success and failure alike: always JSON.
pub open spec fn spec_error_body(message: Seq<char>) -> Seq<char> {
    "{\"error\":"@ + json_quoted(message) + "}"@
}

fn success_body(url: &str) -> (r: String)
    ensures
        r@ == spec_success_body(url@),
{
    let mut s = "{\"url\":".to_owned();
    let quoted = json_quote(url);
    s.append(quoted.as_str());
    s.append("}");
    s
}

fn error_body(message: &str) -> (r: String)
    ensures
        r@ == spec_error_body(message@),
{
    let mut s = "{\"error\":".to_owned();
    let quoted = json_quote(message);
    s.append(quoted.as_str());
    s.append("}");
    s
}

fn json_headers() -> (r: Vec<(String, String)>)
    ensures
        json_headers_view(r@),
{
    let mut v: Vec<(String, String)> = Vec::new();
    v.push(("content-type".to_owned(), "application/json".to_owned()));
    v
}

/// Renders an outcome into the envelope shape the request arrived in: the
/// outbound variant always equals the inbound one; status 200 with the
/// success body on success, and the failure kind's status with the failure
/// body — built from the message the caller is allowed to see — on failure.
pub fn encode(variant: Variant, outcome: &Result<LogicalResult, LogicalFailure>) -> (r:
    OutboundEnvelope)
    ensures
        r.spec_variant() == variant,
        r.shape_ok(),
        outcome matches Ok(res) ==> r.spec_status() == 200u16 && r.spec_body()
            == spec_success_body(res.url@),
        outcome matches Err(f) ==> r.spec_status() == spec_status_of(f.kind) && r.spec_body()
            == spec_error_body(spec_caller_message(f.kind, f.message@)),
{
    let status_code: u16 = match outcome {
        Ok(_) => 200,
        Err(f) => status_of(f.kind),
    };
    let body: String = match outcome {
        Ok(res) => success_body(res.url.as_str()),
        Err(f) => {
            let visible = caller_message(f);
            error_body(visible.as_str())
        },
    };
    match variant {
        Variant::V1Proxy => OutboundEnvelope::V1Proxy {
            status_code,
            headers: json_headers(),
            multi_value_headers: Vec::new(),
            body,
            is_base64_encoded: false,
        },
        Variant::V2Http => OutboundEnvelope::V2Http {
            status_code,
            headers: json_headers(),
            cookies: Vec::new(),
            body,
            is_base64_encoded: false,
        },
        Variant::RawValue => OutboundEnvelope::RawValue {
            status_code,
            headers: json_headers(),
            body,
        },
        Variant::DirectBytes => OutboundEnvelope::DirectBytes {
            status_code,
            content_type: "application/json".to_owned(),
            body,
        },
    }
}

} // verus!
