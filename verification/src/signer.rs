use vstd::prelude::*;

use crate::errors::{ErrorKind, LogicalFailure};
use crate::keys::{derive_key, spec_effective_key};
use crate::request::LogicalRequest;
use crate::DEFAULT_EXPIRY_SECONDS;

verus! {

/// The longest validity, in seconds, the signing backend accepts for a
/// presigned request: one week.
pub const MAX_EXPIRY_SECONDS: u64 = 604800;

#[verifier::external_type_specification]
#[verifier::external_body]
pub struct ExPresigningConfig(aws_sdk_s3::presigning::PresigningConfig);

#[verifier::external_type_specification]
#[verifier::external_body]
pub struct ExPresigningConfigError(aws_sdk_s3::presigning::PresigningConfigError);

/// The fixed expiry policy a presigned authorization is issued under. It is
/// built once at process start and read, never changed, by every
/// invocation.
#[derive(Clone, Copy, Debug)]
pub struct PresignPolicy {
    pub expiry_seconds: u64,
}

impl PresignPolicy {
    /// The process-wide policy: authorizations stay valid for 900 seconds.
    pub fn standard() -> (r: PresignPolicy)
        ensures
            r.expiry_seconds == DEFAULT_EXPIRY_SECONDS,
            r.expiry_seconds <= MAX_EXPIRY_SECONDS,
    {
        PresignPolicy { expiry_seconds: DEFAULT_EXPIRY_SECONDS }
    }
}

/// Everything the external signer needs for one PUT-style authorization:
/// the bucket, the derived storage key, the declared content type, and the
/// policy's expiry.
#[derive(Debug)]
pub struct SignRequest {
    pub bucket: String,
    pub effective_key: String,
    pub content_type: String,
    pub expiry_seconds: u64,
}

impl SignRequest {
    pub open spec fn wf(&self) -> bool {
        &&& self.bucket@.len() > 0
        &&& self.effective_key@.len() > 0
        &&& self.content_type@.len() > 0
    }
}

/// Lays out the signing call for a validated request: the bucket and
/// content type are passed through unchanged, the storage key is the
/// derived effective key, and the expiry is the policy's.
pub fn plan_sign(req: &LogicalRequest, policy: &PresignPolicy) -> (r: SignRequest)
    requires
        req.wf(),
    ensures
        r.wf(),
        r.bucket@ == req.bucket@,
        r.content_type@ == req.content_type@,
        r.effective_key@ == spec_effective_key(req.caller_view(), req.object_key@),
        r.expiry_seconds == policy.expiry_seconds,
{
    SignRequest {
        bucket: req.bucket.clone(),
        effective_key: derive_key(req),
        content_type: req.content_type.clone(),
        expiry_seconds: policy.expiry_seconds,
    }
}

/// Relies on aws_sdk_s3::presigning::PresigningConfigBuilder: with
/// `expires_in` set, `build` fails exactly when the duration exceeds one
/// week (604800 seconds), and otherwise returns a config holding that
/// duration.
#[verifier::external_body]
fn make_presign_config(expiry_seconds: u64) -> (r: Result<
    aws_sdk_s3::presigning::PresigningConfig,
    aws_sdk_s3::presigning::PresigningConfigError,
>)
    ensures
        r is Ok <==> expiry_seconds <= MAX_EXPIRY_SECONDS,
{
    aws_sdk_s3::presigning::PresigningConfig::builder()
        .expires_in(std::time::Duration::from_secs(expiry_seconds))
        .build()
}

/// Relies on the Display implementation of
/// aws_sdk_s3::presigning::PresigningConfigError, which renders the build
/// error as text.
#[verifier::external_body]
fn presign_config_error_text(e: &aws_sdk_s3::presigning::PresigningConfigError) -> String {
    e.to_string()
}

/// Builds the expiry configuration for the signing backend. Succeeds
/// exactly when the policy's expiry is within the backend's one-week bound;
/// a failure — unreachable under the standard policy — is surfaced as
/// `PolicyConstructionFailed`, never as a panic.
pub fn build_policy_config(policy: &PresignPolicy) -> (r: Result<
    aws_sdk_s3::presigning::PresigningConfig,
    LogicalFailure,
>)
    ensures
        r is Ok <==> policy.expiry_seconds <= MAX_EXPIRY_SECONDS,
        r matches Err(e) ==> e.kind == ErrorKind::PolicyConstructionFailed,
{
    match make_presign_config(policy.expiry_seconds) {
        Ok(config) => Ok(config),
        Err(e) => Err(
            LogicalFailure {
                kind: ErrorKind::PolicyConstructionFailed,
                message: presign_config_error_text(&e),
            },
        ),
    }
}

} // verus!
