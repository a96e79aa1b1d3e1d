use presign::errors::ErrorKind;
use presign::signer::{build_policy_config, PresignPolicy};
use std::time::Duration;

#[test]
fn test_presign_config_duration() {
    let cfg = build_policy_config(&PresignPolicy { expiry_seconds: 60 }).unwrap();
    assert_eq!(cfg.expires(), Duration::from_secs(60));
}

#[test]
fn standard_policy_builds() {
    let policy = PresignPolicy::standard();
    assert_eq!(policy.expiry_seconds, 900);
    let cfg = build_policy_config(&policy).unwrap();
    assert_eq!(cfg.expires(), Duration::from_secs(900));
}

#[test]
fn one_week_is_the_longest_expiry() {
    assert!(build_policy_config(&PresignPolicy { expiry_seconds: 604800 }).is_ok());
    match build_policy_config(&PresignPolicy { expiry_seconds: 604801 }) {
        Err(f) => {
            assert_eq!(f.kind, ErrorKind::PolicyConstructionFailed);
            assert!(!f.message.is_empty());
        }
        Ok(_) => panic!("an expiry over one week must be refused"),
    }
}
