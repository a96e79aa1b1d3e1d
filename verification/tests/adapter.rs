use presign::encode::OutboundEnvelope;
use presign::envelope::{BodyField, Envelope, Variant};
use presign::errors::ErrorKind;
use presign::handler::{finish, prepare, Prepared};
use presign::signer::PresignPolicy;

const VALID_BODY: &str = "{\"bucket\":\"b1\",\"key\":\"k1\",\"content_type\":\"image/png\"}";

fn text_envelope(variant: Variant, body: &str) -> Envelope {
    match variant {
        Variant::V1Proxy => Envelope::V1Proxy { body: BodyField::Text(body.to_string()) },
        Variant::V2Http => Envelope::V2Http { body: BodyField::Text(body.to_string()) },
        Variant::RawValue => Envelope::RawValue { body: BodyField::Text(body.to_string()) },
        Variant::DirectBytes => Envelope::DirectBytes { payload: Some(body.as_bytes().to_vec()) },
    }
}

fn check_json_shape(response: &OutboundEnvelope, expected_variant: Variant) {
    match response {
        OutboundEnvelope::V1Proxy { headers, multi_value_headers, is_base64_encoded, .. } => {
            assert_eq!(expected_variant, Variant::V1Proxy);
            assert_eq!(headers.len(), 1);
            assert_eq!(headers[0].0, "content-type");
            assert_eq!(headers[0].1, "application/json");
            assert!(multi_value_headers.is_empty());
            assert!(!is_base64_encoded);
        }
        OutboundEnvelope::V2Http { headers, cookies, is_base64_encoded, .. } => {
            assert_eq!(expected_variant, Variant::V2Http);
            assert_eq!(headers.len(), 1);
            assert_eq!(headers[0].0, "content-type");
            assert_eq!(headers[0].1, "application/json");
            assert!(cookies.is_empty());
            assert!(!is_base64_encoded);
        }
        OutboundEnvelope::RawValue { headers, .. } => {
            assert_eq!(expected_variant, Variant::RawValue);
            assert_eq!(headers.len(), 1);
            assert_eq!(headers[0].0, "content-type");
            assert_eq!(headers[0].1, "application/json");
        }
        OutboundEnvelope::DirectBytes { content_type, .. } => {
            assert_eq!(expected_variant, Variant::DirectBytes);
            assert_eq!(content_type, "application/json");
        }
    }
}

fn prepare_done(env: &Envelope) -> (OutboundEnvelope, Option<String>) {
    match prepare(env, &PresignPolicy::standard()) {
        Prepared::Done { response, log } => (response, log),
        Prepared::Sign { .. } => panic!("expected a finished failure response"),
    }
}

#[test]
fn success_on_every_variant() {
    let variants = [Variant::V1Proxy, Variant::V2Http, Variant::RawValue, Variant::DirectBytes];
    for variant in variants {
        let env = text_envelope(variant, VALID_BODY);
        let sign = prepare(&env, &PresignPolicy::standard());
        match sign {
            Prepared::Sign { variant: v, request, .. } => {
                assert_eq!(v, variant);
                assert_eq!(request.bucket, "b1");
                assert_eq!(request.effective_key, "k1");
                assert_eq!(request.content_type, "image/png");
                assert_eq!(request.expiry_seconds, 900);
                let url = "https://bucket.example.test/k1?signature=ok";
                let (response, log) = finish(v, Ok(url.to_string()));
                assert_eq!(response.variant(), variant);
                assert_eq!(response.status_code(), 200);
                assert_eq!(
                    response.body_text().as_str(),
                    format!("{{\"url\":\"{}\"}}", url).as_str()
                );
                check_json_shape(&response, variant);
                assert!(log.is_none());
            }
            Prepared::Done { .. } => panic!("a valid request must reach the signer"),
        }
    }
}

#[test]
fn missing_body_on_every_variant() {
    let empties = [
        Envelope::V1Proxy { body: BodyField::Absent },
        Envelope::V1Proxy { body: BodyField::Text(String::new()) },
        Envelope::V2Http { body: BodyField::Null },
        Envelope::V2Http { body: BodyField::Absent },
        Envelope::RawValue { body: BodyField::Text(String::new()) },
        Envelope::RawValue { body: BodyField::Absent },
        Envelope::DirectBytes { payload: None },
        Envelope::DirectBytes { payload: Some(Vec::new()) },
    ];
    for env in empties {
        let expected_variant = match &env {
            Envelope::V1Proxy { .. } => Variant::V1Proxy,
            Envelope::V2Http { .. } => Variant::V2Http,
            Envelope::RawValue { .. } => Variant::RawValue,
            Envelope::DirectBytes { .. } => Variant::DirectBytes,
        };
        let (response, log) = prepare_done(&env);
        assert_eq!(response.status_code(), 400);
        assert_eq!(
            response.body_text().as_str(),
            "{\"error\":\"request body is missing or empty\"}"
        );
        check_json_shape(&response, expected_variant);
        let log = log.expect("every failure is logged");
        assert!(log.starts_with("missing body: "));
    }
}

#[test]
fn non_text_body_is_its_own_kind() {
    let env = Envelope::V1Proxy { body: BodyField::NonText };
    let (response, _) = prepare_done(&env);
    assert_eq!(response.status_code(), 400);
    assert_eq!(response.body_text().as_str(), "{\"error\":\"request body is not text\"}");

    let env = Envelope::DirectBytes { payload: Some(vec![0xff, 0xfe, 0x01]) };
    let (response, log) = prepare_done(&env);
    assert_eq!(response.status_code(), 400);
    assert_eq!(response.body_text().as_str(), "{\"error\":\"request body is not text\"}");
    assert!(log.unwrap().starts_with("non-text body: "));
}

#[test]
fn scenario_valid_v1_request_succeeds() {
    let env = Envelope::V1Proxy { body: BodyField::Text(VALID_BODY.to_string()) };
    match prepare(&env, &PresignPolicy::standard()) {
        Prepared::Sign { variant, request, .. } => {
            assert_eq!(variant, Variant::V1Proxy);
            assert_eq!(request.effective_key, "k1");
            let (response, _) = finish(variant, Ok("https://signed.example.test/".to_string()));
            assert_eq!(response.status_code(), 200);
            assert_eq!(
                response.body_text().as_str(),
                "{\"url\":\"https://signed.example.test/\"}"
            );
        }
        Prepared::Done { .. } => panic!("a valid request must reach the signer"),
    }
}

#[test]
fn scenario_missing_content_type() {
    let env = Envelope::V1Proxy {
        body: BodyField::Text("{\"bucket\":\"b1\",\"key\":\"k1\"}".to_string()),
    };
    let (response, log) = prepare_done(&env);
    assert_eq!(response.status_code(), 400);
    assert_eq!(
        response.body_text().as_str(),
        "{\"error\":\"missing or empty field: content_type\"}"
    );
    assert!(log.unwrap().starts_with("missing field: "));
}

#[test]
fn scenario_malformed_json() {
    let env = Envelope::V2Http { body: BodyField::Text("not-json".to_string()) };
    let (response, log) = prepare_done(&env);
    assert_eq!(response.status_code(), 400);
    assert!(response.body_text().starts_with("{\"error\":"));
    assert!(log.unwrap().starts_with("malformed json: "));

    let direct = presign::request::parse_and_validate("not-json");
    match direct {
        Err(f) => {
            assert_eq!(f.kind, ErrorKind::MalformedJson);
            assert!(!f.message.is_empty());
        }
        Ok(_) => panic!("text that is not JSON must be refused"),
    }
}

#[test]
fn scenario_backend_failure_stays_generic() {
    let (response, log) = finish(
        Variant::RawValue,
        Err("simulated backend error: access denied for bucket b1".to_string()),
    );
    assert_eq!(response.status_code(), 500);
    assert_eq!(response.body_text().as_str(), "{\"error\":\"internal error\"}");
    assert!(!response.body_text().contains("access denied"));
    let log = log.expect("a backend failure is logged");
    assert_eq!(
        log,
        "signing backend error: simulated backend error: access denied for bucket b1"
    );
}

#[test]
fn scenario_namespaced_upload() {
    let body = "{\"bucket\":\"b1\",\"key\":\"k1\",\"content_type\":\"image/png\",\"user_id\":\"u42\"}";
    let env = Envelope::RawValue { body: BodyField::Text(body.to_string()) };
    match prepare(&env, &PresignPolicy::standard()) {
        Prepared::Sign { variant, request, .. } => {
            assert_eq!(request.effective_key, "users/u42/recordings/k1");
            let (response, _) = finish(variant, Ok("https://signed.example.test/".to_string()));
            assert_eq!(response.status_code(), 200);
        }
        Prepared::Done { .. } => panic!("a valid request must reach the signer"),
    }
}

#[test]
fn url_with_a_quote_is_escaped() {
    let (response, _) = finish(Variant::V1Proxy, Ok("a\"b".to_string()));
    assert_eq!(response.status_code(), 200);
    assert_eq!(response.body_text().as_str(), "{\"url\":\"a\\\"b\"}");
}
