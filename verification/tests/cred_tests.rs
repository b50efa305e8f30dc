use ss3::cred::{
    cred_from_env_parts, get_env_name, resolve_cred, validate_client_config, AwsCred, CredKey,
    EnvType,
};
use ss3::error::Error;

fn cred(id: &str, region: Option<&str>, endpoint: Option<&str>) -> AwsCred {
    AwsCred {
        key_id: id.to_string(),
        key_secret: "secret".to_string(),
        region: region.map(|r| r.to_string()),
        endpoint: endpoint.map(|e| e.to_string()),
    }
}

#[test]
fn test_env_parts() {
    assert_eq!(CredKey::Id.env_part(), "KEY_ID");
    assert_eq!(CredKey::Secret.env_part(), "KEY_SECRET");
    assert_eq!(CredKey::Region.env_part(), "REGION");
    assert_eq!(CredKey::Endpoint.env_part(), "ENDPOINT");
    assert_eq!(EnvType::Profile.env_part(), "SS3_PROFILE");
    assert_eq!(EnvType::Bucket.env_part(), "SS3_BUCKET");
}

#[test]
fn test_get_env_name_replaces_dashes() {
    assert_eq!(
        get_env_name(EnvType::Bucket, CredKey::Id, "my-bucket"),
        "SS3_BUCKET_my_bucket_KEY_ID"
    );
    assert_eq!(
        get_env_name(EnvType::Profile, CredKey::Endpoint, "dev-profile"),
        "SS3_PROFILE_dev_profile_ENDPOINT"
    );
}

#[test]
fn test_cred_from_env_parts() {
    assert!(cred_from_env_parts(None, Some("s".to_string()), None, None).is_none());
    assert!(cred_from_env_parts(Some("i".to_string()), None, None, None).is_none());
    let c = cred_from_env_parts(
        Some("i".to_string()),
        Some("s".to_string()),
        Some("r".to_string()),
        None,
    )
    .unwrap();
    assert_eq!(c.key_id, "i");
    assert_eq!(c.key_secret, "s");
    assert_eq!(c.region.as_deref(), Some("r"));
    assert!(c.endpoint.is_none());
}

#[test]
fn test_chain_bucket_env_wins() {
    let r = resolve_cred(
        Some(cred("bucket", None, None)),
        true,
        Some(cred("profile-env", None, None)),
        Some(cred("profile-file", None, None)),
        Some(cred("default", None, None)),
        None,
        Some("b".to_string()),
    )
    .unwrap();
    assert_eq!(r.key_id, "bucket");
}

#[test]
fn test_chain_profile_env_then_file() {
    let r = resolve_cred(
        None,
        true,
        Some(cred("profile-env", None, None)),
        Some(cred("profile-file", None, None)),
        Some(cred("default", None, None)),
        None,
        None,
    )
    .unwrap();
    assert_eq!(r.key_id, "profile-env");
    let r = resolve_cred(
        None,
        true,
        None,
        Some(cred("profile-file", None, None)),
        Some(cred("default", None, None)),
        None,
        None,
    )
    .unwrap();
    assert_eq!(r.key_id, "profile-file");
}

#[test]
fn test_chain_profile_layers_skipped_without_profile() {
    let r = resolve_cred(
        None,
        false,
        Some(cred("profile-env", None, None)),
        Some(cred("profile-file", None, None)),
        Some(cred("default", None, None)),
        None,
        None,
    )
    .unwrap();
    assert_eq!(r.key_id, "default");
}

#[test]
fn test_chain_empty_errors_with_bucket() {
    let e = resolve_cred(None, false, None, None, None, None, Some("my-bucket".to_string()))
        .unwrap_err();
    match e {
        Error::NoCredentialsFoundForBucket(b) => assert_eq!(b.as_deref(), Some("my-bucket")),
        other => panic!("unexpected error {:?}", other),
    }
}

#[test]
fn test_region_argument_overrides_resolved_region() {
    let r = resolve_cred(
        Some(cred("bucket", Some("found-region"), None)),
        false,
        None,
        None,
        None,
        Some("arg-region".to_string()),
        None,
    )
    .unwrap();
    assert_eq!(r.region.as_deref(), Some("arg-region"));
    let r = resolve_cred(
        Some(cred("bucket", Some("found-region"), None)),
        false,
        None,
        None,
        None,
        None,
        None,
    )
    .unwrap();
    assert_eq!(r.region.as_deref(), Some("found-region"));
}

#[test]
fn test_validate_client_config() {
    assert!(validate_client_config(&cred("i", Some("r"), None)).is_ok());
    assert!(validate_client_config(&cred("i", None, Some("e"))).is_ok());
    let e = validate_client_config(&cred("i", None, None)).unwrap_err();
    assert!(matches!(e, Error::MissingConfigMustHaveEndpointOrRegion));
}

#[test]
fn test_credential_error_message_lists_every_fallback() {
    let msg = Error::NoCredentialsFoundForBucket(Some("my-bucket".to_string())).message();
    assert!(msg.contains("my-bucket"));
    assert!(msg.contains("SS3_BUCKET_bucket_name_KEY_ID"));
    assert!(msg.contains("SS3_BUCKET_bucket_name_KEY_SECRET"));
    assert!(msg.contains("SS3_PROFILE_profile_name_KEY_ID"));
    assert!(msg.contains("aws default config files"));
    assert!(msg.contains("AWS_ACCESS_KEY_ID"));
    assert!(msg.contains("AWS_SECRET_ACCESS_KEY"));
    assert!(msg.contains("AWS_DEFAULT_REGION"));
    assert!(msg.contains("AWS_ENDPOINT"));
}

#[test]
fn test_error_messages() {
    assert_eq!(
        Error::NotValidS3Url("x".to_string()).message(),
        "Not a valid s3 url 'x'. Should be format 's3://bucket_name[/path/to/object]'"
    );
    assert_eq!(
        Error::FilePathNotFound("p".to_string()).message(),
        "File path 'p' not found."
    );
    assert_eq!(
        Error::S3ObjectNotFound { key: "k".to_string() }.message(),
        "Cannot find S3 object at key 'k'"
    );
    assert_eq!(
        Error::AwsSdkErrorWrapper { code: "C".to_string(), message: "M".to_string() }.message(),
        "AWS SDK ERROR:\n       Code: C\n    Message: M"
    );
}
