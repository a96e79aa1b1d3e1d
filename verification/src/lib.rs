use vstd::prelude::*;

pub mod encode;
pub mod envelope;
pub mod errors;
pub mod handler;
pub mod jsontext;
pub mod keys;
pub mod request;
pub mod signer;

verus! {

/// How long, in seconds, an issued upload authorization stays valid.
pub const DEFAULT_EXPIRY_SECONDS: u64 = 900;

} // verus!
